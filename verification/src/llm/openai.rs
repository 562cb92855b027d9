//! Decoder for OpenAI's streams: Responses-API events first, then
//! chat-completion chunks, then untyped reasoning and tool events.
use vstd::prelude::*;

use crate::json::{
    Json, JsonView, array_of, decode_opt_string, decode_u32_triple, get2, items_view,
    lemma_items_view, opt_string_member, parse_json, parsed_json, str_of, string_of, u32_triple,
};
use crate::table::{NameTable, tlookup, tremove, tinsert};
use crate::text::{
    contains_seq, same_text, starts_with_seq, str_contains, trim, trim_seq, trim_start,
    trim_start_seq,
};
use super::{
    ParseResultView, StreamParseResult, StreamWebSearchResult, ToolInput, ToolInputDeltaView,
    ToolInputView, ToolResult, ToolResultView, WebSearchResultView, build_tool_call,
    build_tool_input_delta, clone_opt_string, copy_opt_strings, is_web_search_name,
    parse_web_search_action, str_items, string_items, tool_call_of, tool_name_is_web_search,
    web_search_action_of,
};

verus! {

/// What the parser remembers of a function call announced by an output item.
pub struct OpenaiToolCallMeta {
    pub name: String,
    pub call_id: Option<String>,
}

pub struct ToolMetaView {
    pub name: Seq<char>,
    pub call_id: Option<Seq<char>>,
}

impl View for OpenaiToolCallMeta {
    type V = ToolMetaView;

    open spec fn view(&self) -> ToolMetaView {
        ToolMetaView { name: self.name@, call_id: self.call_id.deep_view() }
    }
}

impl DeepView for OpenaiToolCallMeta {
    type V = ToolMetaView;

    open spec fn deep_view(&self) -> ToolMetaView {
        self.view()
    }
}

/// OpenAI stream parser: remembers function calls by output-item id.
pub struct OpenaiStreamParser {
    tool_calls: NameTable<OpenaiToolCallMeta>,
}

impl View for OpenaiStreamParser {
    type V = Seq<(Seq<char>, ToolMetaView)>;

    closed spec fn view(&self) -> Seq<(Seq<char>, ToolMetaView)> {
        self.tool_calls@
    }
}

// ---------------------------------------------------------------------------
// Typed Responses-API events.
/// An output item of the Responses API.
pub enum OutputItemView {
    FunctionCall {
        id: Seq<char>,
        name: Seq<char>,
        call_id: Option<Seq<char>>,
        arguments: Option<JsonView>,
        status: Option<Seq<char>>,
    },
    WebSearchCall {
        id: Seq<char>,
        call_id: Option<Seq<char>>,
        action: Option<(Option<Seq<char>>, Option<Seq<Seq<char>>>)>,
    },
    Other,
}

/// An optional value as a typed decoder reads `Option<Value>`: null is absent.
pub open spec fn opt_value(v: Option<JsonView>) -> Option<JsonView> {
    match v {
        Some(JsonView::Null) => None,
        _ => v,
    }
}

/// An optional list of strings: `Some(None)` when missing or null,
/// `Some(Some(..))` for an array of strings, `None` otherwise.
pub open spec fn opt_strings(v: Option<JsonView>) -> Option<Option<Seq<Seq<char>>>> {
    match v {
        None => Some(None),
        Some(JsonView::Null) => Some(None),
        Some(JsonView::Array(items)) => if forall|k: int|
            0 <= k < items.len() ==> (#[trigger] items[k].as_str()) is Some {
            Some(Some(str_items(items)))
        } else {
            None
        },
        _ => None,
    }
}

/// A web-search action: missing or null, or an object with optional `query`
/// and `queries`.
pub open spec fn decode_action(a: Option<JsonView>) -> Option<
    Option<(Option<Seq<char>>, Option<Seq<Seq<char>>>)>,
> {
    match a {
        None => Some(None),
        Some(JsonView::Null) => Some(None),
        Some(x) => match (opt_string_member(x, "query"@), opt_strings(x.field("queries"@))) {
            (Some(q), Some(qs)) => if x.is_object() {
                Some(Some((q, qs)))
            } else {
                None
            },
            _ => None,
        },
    }
}

/// An output item, tagged by `type`: function calls and web-search calls are
/// read; any other tag is `Other`.
pub open spec fn decode_output_item(j: JsonView) -> Option<OutputItemView> {
    match j.str_field("type"@) {
        None => None,
        Some(t) => if !j.is_object() {
            None
        } else if t == "function_call"@ {
            match (
                j.str_field("id"@),
                j.str_field("name"@),
                opt_string_member(j, "call_id"@),
                opt_string_member(j, "status"@),
            ) {
                (Some(id), Some(name), Some(call_id), Some(status)) => Some(
                    OutputItemView::FunctionCall {
                        id,
                        name,
                        call_id,
                        arguments: opt_value(j.field("arguments"@)),
                        status,
                    },
                ),
                _ => None,
            }
        } else if t == "web_search_call"@ {
            match (
                j.str_field("id"@),
                opt_string_member(j, "call_id"@),
                decode_action(j.field("action"@)),
            ) {
                (Some(id), Some(call_id), Some(action)) => Some(
                    OutputItemView::WebSearchCall { id, call_id, action },
                ),
                _ => None,
            }
        } else {
            Some(OutputItemView::Other)
        },
    }
}

/// A Responses-API stream event.
pub enum EventView {
    OutputItemAdded(OutputItemView),
    ArgumentsDelta { item_id: Seq<char>, delta: Seq<char> },
    ArgumentsDone { item_id: Seq<char>, arguments: JsonView },
    TextDelta { item_id: Seq<char>, delta: Seq<char> },
    AnnotationAdded(JsonView),
    Completed { id: Seq<char>, usage: Option<(u32, u32, u32)> },
    Created { id: Seq<char>, usage: Option<(u32, u32, u32)> },
    Failure { error_type: Option<Seq<char>>, message: Option<Seq<char>> },
    Other,
}

/// The `response` object of a created or completed event.
pub open spec fn decode_response(r: Option<JsonView>) -> Option<(Seq<char>, Option<(u32, u32, u32)>)> {
    match r {
        Some(x) => match (
            x.str_field("id"@),
            u32_triple(x.field("usage"@), "input_tokens"@, "output_tokens"@, "total_tokens"@),
        ) {
            (Some(id), Some(usage)) => if x.is_object() {
                Some((id, usage))
            } else {
                None
            },
            _ => None,
        },
        None => None,
    }
}

/// A stream event, tagged by `type`.
pub open spec fn decode_event(v: JsonView) -> Option<EventView> {
    match v.str_field("type"@) {
        None => None,
        Some(t) => if !v.is_object() {
            None
        } else if t == "response.output_item.added"@ {
            match v.field("item"@) {
                Some(item) => match decode_output_item(item) {
                    Some(i) => Some(EventView::OutputItemAdded(i)),
                    None => None,
                },
                None => None,
            }
        } else if t == "response.function_call_arguments.delta"@ {
            match (v.str_field("item_id"@), v.str_field("delta"@)) {
                (Some(item_id), Some(delta)) => Some(EventView::ArgumentsDelta { item_id, delta }),
                _ => None,
            }
        } else if t == "response.function_call_arguments.done"@ {
            match (v.str_field("item_id"@), v.field("arguments"@)) {
                (Some(item_id), Some(arguments)) => Some(
                    EventView::ArgumentsDone { item_id, arguments },
                ),
                _ => None,
            }
        } else if t == "response.output_text.delta"@ {
            match (v.str_field("item_id"@), v.str_field("delta"@)) {
                (Some(item_id), Some(delta)) => Some(EventView::TextDelta { item_id, delta }),
                _ => None,
            }
        } else if t == "response.output_text.annotation.added"@ {
            match v.field("annotation"@) {
                Some(a) => Some(EventView::AnnotationAdded(a)),
                None => None,
            }
        } else if t == "response.completed"@ {
            match decode_response(v.field("response"@)) {
                Some((id, usage)) => Some(EventView::Completed { id, usage }),
                None => None,
            }
        } else if t == "response.created"@ {
            match decode_response(v.field("response"@)) {
                Some((id, usage)) => Some(EventView::Created { id, usage }),
                None => None,
            }
        } else if t == "error"@ {
            match v.field("error"@) {
                Some(e) => match (opt_string_member(e, "type"@), opt_string_member(e, "message"@)) {
                    (Some(error_type), Some(message)) => if e.is_object() {
                        Some(EventView::Failure { error_type, message })
                    } else {
                        None
                    },
                    _ => None,
                },
                None => None,
            }
        } else {
            Some(EventView::Other)
        },
    }
}

// ---------------------------------------------------------------------------
// Untyped readings.
/// Tool arguments as given: null is none, blank text is none, text that
/// starts (after leading whitespace) with `{` or `[` and parses is JSON, other
/// text stays text, and any other value is JSON.
pub open spec fn tool_input_of(v: JsonView) -> Option<ToolInputView> {
    match v {
        JsonView::Null => None,
        JsonView::Str(raw) => if trim_seq(raw).len() == 0 {
            None
        } else {
            let trimmed = trim_start_seq(raw);
            if (starts_with_seq(trimmed, "{"@) || starts_with_seq(trimmed, "["@)) && parsed_json(
                trimmed,
            ) is Some {
                Some(ToolInputView::Json(parsed_json(trimmed)->0))
            } else {
                Some(ToolInputView::Text(raw))
            }
        },
        _ => Some(ToolInputView::Json(v)),
    }
}

/// A `url_citation` annotation with a title and url.
pub open spec fn url_citation(a: JsonView) -> Option<WebSearchResultView> {
    match (a.str_field("type"@), a.str_field("title"@), a.str_field("url"@)) {
        (Some(t), Some(title), Some(url)) => if t == "url_citation"@ {
            Some(WebSearchResultView { title, url, source: None, page_age: None, snippet: None })
        } else {
            None
        },
        _ => None,
    }
}

pub open spec fn citation_result(a: JsonView) -> Option<ParseResultView> {
    match url_citation(a) {
        Some(r) => Some(
            ParseResultView::WebSearchResult {
                tool_name: "web_search_call"@,
                tool_id: None,
                results: seq![r],
            },
        ),
        None => None,
    }
}

/// The first of `output`, `result`, `response`, `results`, `content` present.
pub open spec fn tool_output(item: JsonView) -> Option<JsonView> {
    match item.field("output"@) {
        Some(o) => Some(o),
        None => match item.field("result"@) {
            Some(o) => Some(o),
            None => match item.field("response"@) {
                Some(o) => Some(o),
                None => match item.field("results"@) {
                    Some(o) => Some(o),
                    None => item.field("content"@),
                },
            },
        },
    }
}

/// A tool's name: `name`, else `tool_name`, else the item's type, else `tool_call`.
pub open spec fn tool_name_of(item: JsonView, item_type: Seq<char>) -> Seq<char> {
    match item.str_field("name"@) {
        Some(n) => n,
        None => match item.str_field("tool_name"@) {
            Some(n) => n,
            None => if item_type.len() == 0 {
                "tool_call"@
            } else {
                item_type
            },
        },
    }
}

/// `call_id` when present, else `id`, as text.
pub open spec fn call_or_id(v: JsonView) -> Option<Seq<char>> {
    str_of(
        match v.field("call_id"@) {
            Some(c) => Some(c),
            None => v.field("id"@),
        },
    )
}

pub open spec fn mentions_tool(t: Seq<char>) -> bool {
    contains_seq(t, "tool"@) || contains_seq(t, "web_search"@) || contains_seq(t, "function"@)
}

/// Queries with the single query as their default.
pub open spec fn query_and_queries(q: Option<Seq<char>>, qs: Option<Seq<Seq<char>>>) -> (
    Option<Seq<char>>,
    Option<Seq<Seq<char>>>,
) {
    (
        q,
        if qs is None && q is Some {
            Some(seq![q->0])
        } else {
            qs
        },
    )
}

/// A typed output item as a tool event.
pub open spec fn typed_item_result(item: OutputItemView, raw: JsonView) -> Option<ParseResultView> {
    match item {
        OutputItemView::FunctionCall { id, name, call_id, arguments, status } => {
            let tool_id = if call_id is Some {
                call_id
            } else {
                Some(id)
            };
            let input = match arguments {
                Some(a) => tool_input_of(a),
                None => None,
            };
            if status == Some("in_progress"@) && input is None {
                None
            } else {
                Some(ParseResultView::ToolCall(tool_call_of(name, tool_id, input, None, Some(raw))))
            }
        },
        OutputItemView::WebSearchCall { id, call_id, action } => {
            let (q, qs) = match action {
                Some((q0, qs0)) => query_and_queries(q0, qs0),
                None => (None, None),
            };
            if q is Some || qs is Some {
                Some(
                    ParseResultView::WebSearchAction {
                        tool_name: "web_search_call"@,
                        tool_id: if call_id is Some {
                            call_id
                        } else {
                            Some(id)
                        },
                        query: q,
                        queries: qs,
                    },
                )
            } else {
                None
            }
        },
        OutputItemView::Other => None,
    }
}

/// The arguments an untyped item carries: `input`, else `arguments`, else `call`.
pub open spec fn item_input(item: JsonView) -> Option<ToolInputView> {
    match item.field("input"@) {
        Some(x) => tool_input_of(x),
        None => match item.field("arguments"@) {
            Some(x) => tool_input_of(x),
            None => match item.field("call"@) {
                Some(x) => tool_input_of(x),
                None => None,
            },
        },
    }
}

/// An output item read as a tool event: its output makes a tool result; a
/// typed reading comes next; then a web-search action, a status report, or a
/// tool call.
pub open spec fn tool_item_result(item: JsonView, event_type: Seq<char>, raw: JsonView) -> Option<
    ParseResultView,
> {
    let item_type = or_empty(item.str_field("type"@));
    let toolish = mentions_tool(item_type) || contains_seq(item_type, "call"@);
    if !toolish && !mentions_tool(event_type) {
        None
    } else if tool_output(item) is Some {
        Some(
            ParseResultView::ToolResult(
                ToolResultView {
                    tool_name: Some(tool_name_of(item, item_type)),
                    tool_id: call_or_id(item),
                    output: tool_output(item),
                    index: None,
                    raw: Some(raw),
                },
            ),
        )
    } else if decode_output_item(item) is Some && typed_item_result(
        decode_output_item(item)->0,
        raw,
    ) is Some {
        typed_item_result(decode_output_item(item)->0, raw)
    } else {
        let name = tool_name_of(item, item_type);
        let tool_id = call_or_id(item);
        let input = item_input(item);
        let action = item.field("action"@);
        let status = item.str_field("status"@);
        if status == Some("in_progress"@) && input is None {
            None
        } else if action is Some && is_web_search_name(name) {
            Some(
                ParseResultView::WebSearchAction {
                    tool_name: name,
                    tool_id,
                    query: str_of(action->0.field("query"@)),
                    queries: match array_of(action->0.field("queries"@)) {
                        Some(arr) => Some(str_items(arr)),
                        None => None,
                    },
                },
            )
        } else if action is Some && status is Some {
            Some(
                ParseResultView::ToolResult(
                    ToolResultView {
                        tool_name: Some(name),
                        tool_id,
                        output: Some(
                            JsonView::Object(
                                seq![("action"@, action->0), ("status"@, item.field("status"@)->0)],
                            ),
                        ),
                        index: None,
                        raw: Some(raw),
                    },
                ),
            )
        } else {
            Some(ParseResultView::ToolCall(tool_call_of(name, tool_id, input, None, Some(raw))))
        }
    }
}

pub open spec fn or_empty(s: Option<Seq<char>>) -> Seq<char> {
    match s {
        Some(t) => t,
        None => Seq::empty(),
    }
}

/// The first item of `items` that reads as a tool event.
pub open spec fn first_tool_item(items: Seq<JsonView>, event_type: Seq<char>, raw: JsonView) -> Option<
    ParseResultView,
>
    decreases items.len(),
{
    if items.len() == 0 {
        None
    } else {
        match tool_item_result(items[0], event_type, raw) {
            Some(r) => Some(r),
            None => first_tool_item(items.subrange(1, items.len() as int), event_type, raw),
        }
    }
}

/// Untyped tool events: an `item`, a citation, the items of a completed
/// response, or an argument fragment of a tool-ish event.
pub open spec fn tool_event_result(v: JsonView) -> Option<ParseResultView> {
    let event_type = or_empty(v.str_field("type"@));
    let from_item = match v.field("item"@) {
        Some(item) => tool_item_result(item, event_type, v),
        None => None,
    };
    let from_citation = if event_type == "response.output_text.annotation.added"@ {
        match v.field("annotation"@) {
            Some(a) => citation_result(a),
            None => None,
        }
    } else {
        None
    };
    let from_completed = if event_type == "response.completed"@ {
        match array_of(v.field2("response"@, "output"@)) {
            Some(items) => first_tool_item(items, event_type, v),
            None => None,
        }
    } else {
        None
    };
    if from_item is Some {
        from_item
    } else if from_citation is Some {
        from_citation
    } else if from_completed is Some {
        from_completed
    } else if mentions_tool(event_type) && v.str_field("delta"@) is Some {
        let name = match v.str_field("name"@) {
            Some(n) => n,
            None => "tool_call"@,
        };
        let delta = v.str_field("delta"@)->0;
        Some(
            ParseResultView::ToolInput(
                ToolInputDeltaView {
                    partial_json: delta,
                    index: None,
                    tool_name: Some(name),
                    tool_id: call_or_id(v),
                    web_search: if is_web_search_name(name) {
                        match parsed_json(delta) {
                            Some(j) => web_search_action_of(j),
                            None => None,
                        }
                    } else {
                        None
                    },
                },
            ),
        )
    } else {
        None
    }
}

/// Reasoning events (types mentioning reasoning, thinking or thought): their
/// text, else the whole event as data.
pub open spec fn event_log_result(v: JsonView) -> Option<ParseResultView> {
    match v.str_field("type"@) {
        None => None,
        Some(t) => if contains_seq(t, "reasoning"@) || contains_seq(t, "thinking"@) || contains_seq(
            t,
            "thought"@,
        ) {
            let message = match v.str_field("delta"@) {
                Some(m) => Some(m),
                None => match v.str_field("text"@) {
                    Some(m) => Some(m),
                    None => v.str_field("thinking"@),
                },
            };
            Some(
                ParseResultView::EventLog {
                    event_type: t,
                    message,
                    data: if message is Some {
                        None
                    } else {
                        Some(v)
                    },
                },
            )
        } else {
            None
        },
    }
}

/// A typed event: output items announcing function calls are remembered;
/// argument fragments and completions are matched to them by item id.
pub open spec fn handle_event_step(st: Seq<(Seq<char>, ToolMetaView)>, ev: EventView, raw: JsonView) -> (
    Seq<(Seq<char>, ToolMetaView)>,
    Option<ParseResultView>,
) {
    match ev {
        EventView::OutputItemAdded(item) => match item {
            OutputItemView::FunctionCall { id, name, call_id, .. } => (
                tinsert(st, id, ToolMetaView { name, call_id }),
                Some(ParseResultView::NoEvent),
            ),
            _ => (st, Some(ParseResultView::NoEvent)),
        },
        EventView::ArgumentsDelta { item_id, delta } => {
            let (name, id) = match tlookup(st, item_id) {
                Some(m) => (Some(m.name), m.call_id),
                None => (None, None),
            };
            (
                st,
                Some(
                    ParseResultView::ToolInput(
                        ToolInputDeltaView {
                            partial_json: delta,
                            index: None,
                            tool_name: name,
                            tool_id: id,
                            web_search: None,
                        },
                    ),
                ),
            )
        },
        EventView::ArgumentsDone { item_id, arguments } => match tlookup(st, item_id) {
            Some(m) => (
                tremove(st, item_id),
                Some(
                    ParseResultView::ToolCall(
                        tool_call_of(m.name, m.call_id, tool_input_of(arguments), None, Some(raw)),
                    ),
                ),
            ),
            None => (st, None),
        },
        EventView::TextDelta { item_id, delta } => (
            st,
            Some(ParseResultView::TextDelta { text: delta, request_id: Some(item_id) }),
        ),
        EventView::AnnotationAdded(a) => (st, citation_result(a)),
        EventView::Completed { id, usage } => match tool_event_result(raw) {
            Some(r) => (st, Some(r)),
            None => match usage {
                Some((i, o, t)) => (
                    st,
                    Some(
                        ParseResultView::TokenUsage {
                            request_id: Some(id),
                            input_tokens: Some(i),
                            output_tokens: Some(o),
                            total_tokens: Some(t),
                            cached_input_tokens: None,
                            cache_creation_tokens: None,
                        },
                    ),
                ),
                None => (st, None),
            },
        },
        EventView::Created { id, usage } => (
            st,
            Some(
                ParseResultView::MessageStart {
                    request_id: id,
                    input_tokens: match usage {
                        Some((i, _, _)) => Some(i),
                        None => None,
                    },
                    output_tokens: match usage {
                        Some((_, o, _)) => Some(o),
                        None => None,
                    },
                    cached_input_tokens: None,
                    cache_creation_tokens: None,
                },
            ),
        ),
        EventView::Failure { error_type, message } => (
            st,
            Some(
                ParseResultView::Error {
                    error_type: match error_type {
                        Some(t) => t,
                        None => "openai_error"@,
                    },
                    message: match message {
                        Some(m) => m,
                        None => "OpenAI stream error"@,
                    },
                },
            ),
        ),
        EventView::Other => (st, None),
    }
}

/// A chat-completion chunk: an object with a string `id`, `choices` whose
/// deltas have optional string `content`, and optional `usage`.
pub open spec fn chat_choice_ok(c: JsonView) -> bool {
    c.is_object() && match c.field("delta"@) {
        Some(d) => d.is_object() && opt_string_member(d, "content"@) is Some,
        None => false,
    }
}

pub open spec fn chat_chunk_result(v: JsonView) -> Option<ParseResultView> {
    match (
        v.str_field("id"@),
        v.array_field("choices"@),
        u32_triple(v.field("usage"@), "prompt_tokens"@, "completion_tokens"@, "total_tokens"@),
    ) {
        (Some(id), Some(cs), Some(usage)) => if v.is_object() && forall|k: int|
            0 <= k < cs.len() ==> #[trigger] chat_choice_ok(cs[k]) {
            match usage {
                Some((p, c, t)) => Some(
                    ParseResultView::TokenUsage {
                        request_id: Some(id),
                        input_tokens: Some(p),
                        output_tokens: Some(c),
                        total_tokens: Some(t),
                        cached_input_tokens: None,
                        cache_creation_tokens: None,
                    },
                ),
                None => if cs.len() > 0 {
                    match opt_string_member(cs[0].field("delta"@)->0, "content"@) {
                        Some(Some(text)) => Some(
                            ParseResultView::TextDelta { text, request_id: Some(id) },
                        ),
                        _ => None,
                    }
                } else {
                    None
                },
            }
        } else {
            None
        },
        _ => None,
    }
}

/// An `error` member: its message and its type (else its code).
pub open spec fn error_member_result(v: JsonView) -> Option<ParseResultView> {
    match v.field("error"@) {
        Some(e) => Some(
            ParseResultView::Error {
                error_type: match str_of(
                    match e.field("type"@) {
                        Some(t) => Some(t),
                        None => e.field("code"@),
                    },
                ) {
                    Some(t) => t,
                    None => "openai_error"@,
                },
                message: match e.str_field("message"@) {
                    Some(m) => m,
                    None => "OpenAI stream error"@,
                },
            },
        ),
        None => None,
    }
}

/// One parsed event: the typed reading, then a chat chunk, then reasoning
/// logs, tool events and error members.
pub open spec fn openai_step(st: Seq<(Seq<char>, ToolMetaView)>, v: JsonView) -> (
    Seq<(Seq<char>, ToolMetaView)>,
    ParseResultView,
) {
    let (st1, typed) = match decode_event(v) {
        Some(ev) => handle_event_step(st, ev, v),
        None => (st, None),
    };
    if typed is Some {
        (st1, typed->0)
    } else if chat_chunk_result(v) is Some {
        (st1, chat_chunk_result(v)->0)
    } else if event_log_result(v) is Some {
        (st1, event_log_result(v)->0)
    } else if tool_event_result(v) is Some {
        (st1, tool_event_result(v)->0)
    } else if error_member_result(v) is Some {
        (st1, error_member_result(v)->0)
    } else {
        (st1, ParseResultView::NoEvent)
    }
}

pub open spec fn openai_event(st: Seq<(Seq<char>, ToolMetaView)>, data: Seq<char>) -> (
    Seq<(Seq<char>, ToolMetaView)>,
    ParseResultView,
) {
    match parsed_json(data) {
        Some(v) => openai_step(st, v),
        None => (st, ParseResultView::NoEvent),
    }
}

// ---------------------------------------------------------------------------
// Executable decoding.
/// A decoded output item.
pub enum OpenaiOutputItem {
    FunctionCall {
        id: String,
        name: String,
        call_id: Option<String>,
        arguments: Option<Json>,
        status: Option<String>,
    },
    WebSearchCall {
        id: String,
        call_id: Option<String>,
        action: Option<(Option<String>, Option<Vec<String>>)>,
    },
    Other,
}

impl View for OpenaiOutputItem {
    type V = OutputItemView;

    open spec fn view(&self) -> OutputItemView {
        match self {
            OpenaiOutputItem::FunctionCall { id, name, call_id, arguments, status } =>
                OutputItemView::FunctionCall {
                id: id@,
                name: name@,
                call_id: call_id.deep_view(),
                arguments: arguments.deep_view(),
                status: status.deep_view(),
            },
            OpenaiOutputItem::WebSearchCall { id, call_id, action } => OutputItemView::WebSearchCall {
                id: id@,
                call_id: call_id.deep_view(),
                action: action.deep_view(),
            },
            OpenaiOutputItem::Other => OutputItemView::Other,
        }
    }
}

impl DeepView for OpenaiOutputItem {
    type V = OutputItemView;

    open spec fn deep_view(&self) -> OutputItemView {
        self.view()
    }
}

/// A decoded Responses-API stream event.
pub enum OpenaiStreamEvent {
    OutputItemAdded(OpenaiOutputItem),
    ArgumentsDelta { item_id: String, delta: String },
    ArgumentsDone { item_id: String, arguments: Json },
    TextDelta { item_id: String, delta: String },
    AnnotationAdded(Json),
    Completed { id: String, usage: Option<(u32, u32, u32)> },
    Created { id: String, usage: Option<(u32, u32, u32)> },
    Failure { error_type: Option<String>, message: Option<String> },
    Other,
}

impl View for OpenaiStreamEvent {
    type V = EventView;

    open spec fn view(&self) -> EventView {
        match self {
            OpenaiStreamEvent::OutputItemAdded(i) => EventView::OutputItemAdded(i@),
            OpenaiStreamEvent::ArgumentsDelta { item_id, delta } => EventView::ArgumentsDelta {
                item_id: item_id@,
                delta: delta@,
            },
            OpenaiStreamEvent::ArgumentsDone { item_id, arguments } => EventView::ArgumentsDone {
                item_id: item_id@,
                arguments: arguments@,
            },
            OpenaiStreamEvent::TextDelta { item_id, delta } => EventView::TextDelta {
                item_id: item_id@,
                delta: delta@,
            },
            OpenaiStreamEvent::AnnotationAdded(a) => EventView::AnnotationAdded(a@),
            OpenaiStreamEvent::Completed { id, usage } => EventView::Completed {
                id: id@,
                usage: *usage,
            },
            OpenaiStreamEvent::Created { id, usage } => EventView::Created { id: id@, usage: *usage },
            OpenaiStreamEvent::Failure { error_type, message } => EventView::Failure {
                error_type: error_type.deep_view(),
                message: message.deep_view(),
            },
            OpenaiStreamEvent::Other => EventView::Other,
        }
    }
}

impl DeepView for OpenaiStreamEvent {
    type V = EventView;

    open spec fn deep_view(&self) -> EventView {
        self.view()
    }
}

fn text_is(v: Option<&String>, lit: &str) -> (r: bool)
    ensures
        r == (v.deep_view() == Some(lit@)),
{
    match v {
        Some(s) => same_text(s.as_str(), lit),
        None => false,
    }
}

fn text_or_empty(v: Option<String>) -> (r: String)
    ensures
        r@ == or_empty(v.deep_view()),
{
    match v {
        Some(s) => s,
        None => String::new(),
    }
}

fn opt_value_exec(v: Option<&Json>) -> (r: Option<Json>)
    ensures
        r.deep_view() == opt_value(v.deep_view()),
{
    match v {
        Some(Json::Null) => None,
        Some(x) => Some(x.copy()),
        None => None,
    }
}

fn opt_strings_exec(v: Option<&Json>) -> (r: Option<Option<Vec<String>>>)
    ensures
        r.deep_view() == opt_strings(v.deep_view()),
{
    match v {
        None => Some(None),
        Some(Json::Null) => Some(None),
        Some(Json::Array(items)) => {
            proof {
                lemma_items_view(items@);
            }
            let mut i: usize = 0;
            let mut all = true;
            while i < items.len() && all
                invariant
                    i <= items@.len(),
                    items_view(items@).len() == items@.len(),
                    forall|j: int| 0 <= j < items@.len() ==> #[trigger] items_view(items@)[j] == items@[j]@,
                    forall|j: int| 0 <= j < i ==> (#[trigger] items_view(items@)[j].as_str()) is Some,
                    !all ==> i < items@.len() && items_view(items@)[i as int].as_str() is None,
                decreases items@.len() - i + (if all { 1int } else { 0int }),
            {
                if items[i].as_str().is_none() {
                    all = false;
                } else {
                    i = i + 1;
                }
            }
            if !all {
                return None;
            }
            Some(Some(string_items(items)))
        },
        Some(_) => None,
    }
}

fn decode_action_exec(a: Option<&Json>) -> (r: Option<Option<(Option<String>, Option<Vec<String>>)>>)
    ensures
        r.deep_view() == decode_action(a.deep_view()),
{
    match a {
        None => Some(None),
        Some(Json::Null) => Some(None),
        Some(x) => match (decode_opt_string(x, "query"), opt_strings_exec(x.get("queries"))) {
            (Some(q), Some(qs)) => if x.is_object() {
                Some(Some((q, qs)))
            } else {
                None
            },
            _ => None,
        },
    }
}

/// Decodes an output item (see `decode_output_item`).
pub fn decode_output_item_exec(j: &Json) -> (r: Option<OpenaiOutputItem>)
    ensures
        r.deep_view() == decode_output_item(j@),
{
    let t = match string_of(j.get("type")) {
        Some(t) => t,
        None => return None,
    };
    if !j.is_object() {
        return None;
    }
    if same_text(t.as_str(), "function_call") {
        match (
            string_of(j.get("id")),
            string_of(j.get("name")),
            decode_opt_string(j, "call_id"),
            decode_opt_string(j, "status"),
        ) {
            (Some(id), Some(name), Some(call_id), Some(status)) => Some(
                OpenaiOutputItem::FunctionCall {
                    id,
                    name,
                    call_id,
                    arguments: opt_value_exec(j.get("arguments")),
                    status,
                },
            ),
            _ => None,
        }
    } else if same_text(t.as_str(), "web_search_call") {
        match (string_of(j.get("id")), decode_opt_string(j, "call_id"), decode_action_exec(j.get("action"))) {
            (Some(id), Some(call_id), Some(action)) => Some(
                OpenaiOutputItem::WebSearchCall { id, call_id, action },
            ),
            _ => None,
        }
    } else {
        Some(OpenaiOutputItem::Other)
    }
}

fn decode_response_exec(r: Option<&Json>) -> (o: Option<(String, Option<(u32, u32, u32)>)>)
    ensures
        o.deep_view() == decode_response(r.deep_view()),
{
    match r {
        Some(x) => match (
            string_of(x.get("id")),
            decode_u32_triple(x.get("usage"), "input_tokens", "output_tokens", "total_tokens"),
        ) {
            (Some(id), Some(usage)) => if x.is_object() {
                Some((id, usage))
            } else {
                None
            },
            _ => None,
        },
        None => None,
    }
}

/// Decodes a stream event (see `decode_event`).
pub fn decode_event_exec(v: &Json) -> (r: Option<OpenaiStreamEvent>)
    ensures
        r.deep_view() == decode_event(v@),
{
    let t = match string_of(v.get("type")) {
        Some(t) => t,
        None => return None,
    };
    if !v.is_object() {
        return None;
    }
    let t = t.as_str();
    if same_text(t, "response.output_item.added") {
        match v.get("item") {
            Some(item) => match decode_output_item_exec(item) {
                Some(i) => Some(OpenaiStreamEvent::OutputItemAdded(i)),
                None => None,
            },
            None => None,
        }
    } else if same_text(t, "response.function_call_arguments.delta") {
        match (string_of(v.get("item_id")), string_of(v.get("delta"))) {
            (Some(item_id), Some(delta)) => Some(OpenaiStreamEvent::ArgumentsDelta { item_id, delta }),
            _ => None,
        }
    } else if same_text(t, "response.function_call_arguments.done") {
        match (string_of(v.get("item_id")), v.get("arguments")) {
            (Some(item_id), Some(arguments)) => Some(
                OpenaiStreamEvent::ArgumentsDone { item_id, arguments: arguments.copy() },
            ),
            _ => None,
        }
    } else if same_text(t, "response.output_text.delta") {
        match (string_of(v.get("item_id")), string_of(v.get("delta"))) {
            (Some(item_id), Some(delta)) => Some(OpenaiStreamEvent::TextDelta { item_id, delta }),
            _ => None,
        }
    } else if same_text(t, "response.output_text.annotation.added") {
        match v.get("annotation") {
            Some(a) => Some(OpenaiStreamEvent::AnnotationAdded(a.copy())),
            None => None,
        }
    } else if same_text(t, "response.completed") {
        match decode_response_exec(v.get("response")) {
            Some((id, usage)) => Some(OpenaiStreamEvent::Completed { id, usage }),
            None => None,
        }
    } else if same_text(t, "response.created") {
        match decode_response_exec(v.get("response")) {
            Some((id, usage)) => Some(OpenaiStreamEvent::Created { id, usage }),
            None => None,
        }
    } else if same_text(t, "error") {
        match v.get("error") {
            Some(e) => match (decode_opt_string(e, "type"), decode_opt_string(e, "message")) {
                (Some(error_type), Some(message)) => if e.is_object() {
                    Some(OpenaiStreamEvent::Failure { error_type, message })
                } else {
                    None
                },
                _ => None,
            },
            None => None,
        }
    } else {
        Some(OpenaiStreamEvent::Other)
    }
}

/// Reads tool arguments (see `tool_input_of`).
pub fn parse_tool_input(value: Json) -> (r: Option<ToolInput>)
    ensures
        r.deep_view() == tool_input_of(value@),
{
    match value {
        Json::Null => None,
        Json::Str(raw) => {
            let all = trim(raw.as_str());
            if all.as_str().is_empty() {
                return None;
            }
            let trimmed = trim_start(raw.as_str());
            if crate::text::starts_with(trimmed.as_str(), "{") || crate::text::starts_with(
                trimmed.as_str(),
                "[",
            ) {
                if let Some(parsed) = parse_json(trimmed.as_str()) {
                    return Some(ToolInput::Json(parsed));
                }
            }
            Some(ToolInput::Text(raw))
        },
        other => Some(ToolInput::Json(other)),
    }
}

/// Reads a `url_citation` annotation (see `url_citation`).
pub fn parse_openai_url_citation(annotation: &Json) -> (r: Option<StreamWebSearchResult>)
    ensures
        r.deep_view() == url_citation(annotation@),
{
    match (
        string_of(annotation.get("type")),
        string_of(annotation.get("title")),
        string_of(annotation.get("url")),
    ) {
        (Some(t), Some(title), Some(url)) => if same_text(t.as_str(), "url_citation") {
            Some(StreamWebSearchResult { title, url, source: None, page_age: None, snippet: None })
        } else {
            None
        },
        _ => None,
    }
}

fn citation_result_exec(a: &Json) -> (r: Option<StreamParseResult>)
    ensures
        r.deep_view() == citation_result(a@),
{
    match parse_openai_url_citation(a) {
        Some(result) => {
            let mut results: Vec<StreamWebSearchResult> = Vec::new();
            let ghost rv = result@;
            results.push(result);
            assert(results.deep_view() =~= seq![rv]);
            Some(
                StreamParseResult::WebSearchResult {
                    tool_name: "web_search_call".to_owned(),
                    tool_id: None,
                    results,
                },
            )
        },
        None => None,
    }
}

/// The output an item carries (see `tool_output`).
pub fn extract_tool_output(item: &Json) -> (r: Option<Json>)
    ensures
        r.deep_view() == tool_output(item@),
{
    if let Some(o) = item.get("output") {
        return Some(o.copy());
    }
    if let Some(o) = item.get("result") {
        return Some(o.copy());
    }
    if let Some(o) = item.get("response") {
        return Some(o.copy());
    }
    if let Some(o) = item.get("results") {
        return Some(o.copy());
    }
    match item.get("content") {
        Some(o) => Some(o.copy()),
        None => None,
    }
}

/// A tool's name (see `tool_name_of`).
pub fn resolve_tool_name(item: &Json, item_type: &str) -> (r: String)
    ensures
        r@ == tool_name_of(item@, item_type@),
{
    if let Some(n) = string_of(item.get("name")) {
        return n;
    }
    if let Some(n) = string_of(item.get("tool_name")) {
        return n;
    }
    if item_type.is_empty() {
        "tool_call".to_owned()
    } else {
        item_type.to_owned()
    }
}

/// `call_id`, else `id`, as text.
pub fn resolve_tool_id(item: &Json) -> (r: Option<String>)
    ensures
        r.deep_view() == call_or_id(item@),
{
    match item.get("call_id") {
        Some(c) => string_of(Some(c)),
        None => string_of(item.get("id")),
    }
}

fn mentions_tool_exec(t: &str) -> (r: bool)
    ensures
        r == mentions_tool(t@),
{
    str_contains(t, "tool") || str_contains(t, "web_search") || str_contains(t, "function")
}

/// Queries with the single query as their default.
pub fn openai_web_search_query_and_queries(
    query: &Option<String>,
    queries: &Option<Vec<String>>,
) -> (r: (Option<String>, Option<Vec<String>>))
    ensures
        (r.0.deep_view(), r.1.deep_view()) == query_and_queries(query.deep_view(), queries.deep_view()),
{
    let q = clone_opt_string(query);
    let mut qs = copy_opt_strings(queries);
    if qs.is_none() {
        if let Some(query_value) = &q {
            let mut one: Vec<String> = Vec::new();
            one.push(query_value.clone());
            assert(one.deep_view() =~= seq![query_value@]);
            qs = Some(one);
        }
    }
    (q, qs)
}

fn typed_item_exec(item: &OpenaiOutputItem, raw: &Json) -> (r: Option<StreamParseResult>)
    ensures
        r.deep_view() == typed_item_result(item@, raw@),
{
    match item {
        OpenaiOutputItem::FunctionCall { id, name, call_id, arguments, status } => {
            let tool_id = if call_id.is_some() {
                clone_opt_string(call_id)
            } else {
                Some(id.clone())
            };
            let input = match arguments {
                Some(a) => parse_tool_input(a.copy()),
                None => None,
            };
            if text_is(status.as_ref(), "in_progress") && input.is_none() {
                return None;
            }
            let call = build_tool_call(name.clone(), tool_id, input, None, Some(raw.copy()));
            Some(StreamParseResult::ToolCall(call))
        },
        OpenaiOutputItem::WebSearchCall { id, call_id, action } => {
            let (q, qs) = match action {
                Some((q0, qs0)) => openai_web_search_query_and_queries(q0, qs0),
                None => (None, None),
            };
            if q.is_some() || qs.is_some() {
                let tool_id = if call_id.is_some() {
                    clone_opt_string(call_id)
                } else {
                    Some(id.clone())
                };
                Some(
                    StreamParseResult::WebSearchAction {
                        tool_name: "web_search_call".to_owned(),
                        tool_id,
                        query: q,
                        queries: qs,
                    },
                )
            } else {
                None
            }
        },
        OpenaiOutputItem::Other => None,
    }
}

fn item_input_exec(item: &Json) -> (r: Option<ToolInput>)
    ensures
        r.deep_view() == item_input(item@),
{
    match item.get("input") {
        Some(x) => parse_tool_input(x.copy()),
        None => match item.get("arguments") {
            Some(x) => parse_tool_input(x.copy()),
            None => match item.get("call") {
                Some(x) => parse_tool_input(x.copy()),
                None => None,
            },
        },
    }
}

/// An output item read as a tool event (see `tool_item_result`).
pub fn parse_openai_tool_item(item: &Json, event_type: &str, raw: &Json) -> (r: Option<
    StreamParseResult,
>)
    ensures
        r.deep_view() == tool_item_result(item@, event_type@, raw@),
{
    let item_type = text_or_empty(string_of(item.get("type")));
    let toolish = mentions_tool_exec(item_type.as_str()) || str_contains(item_type.as_str(), "call");
    if !toolish && !mentions_tool_exec(event_type) {
        return None;
    }
    let output = extract_tool_output(item);
    if output.is_some() {
        let tool_name = resolve_tool_name(item, item_type.as_str());
        let tool_id = resolve_tool_id(item);
        return Some(
            StreamParseResult::ToolResult(
                ToolResult { tool_name: Some(tool_name), tool_id, output, index: None, raw: Some(raw.copy()) },
            ),
        );
    }
    if let Some(typed) = decode_output_item_exec(item) {
        if let Some(event) = typed_item_exec(&typed, raw) {
            return Some(event);
        }
    }
    let tool_name = resolve_tool_name(item, item_type.as_str());
    let tool_id = resolve_tool_id(item);
    let input = item_input_exec(item);
    let action = item.get("action");
    let status = string_of(item.get("status"));
    if text_is(status.as_ref(), "in_progress") && input.is_none() {
        return None;
    }
    if action.is_some() && tool_name_is_web_search(tool_name.as_str()) {
        let a = action.unwrap();
        let query = string_of(a.get("query"));
        let queries = match a.get("queries") {
            Some(q) => match q.as_array() {
                Some(arr) => Some(string_items(arr)),
                None => None,
            },
            None => None,
        };
        return Some(StreamParseResult::WebSearchAction { tool_name, tool_id, query, queries });
    }
    if action.is_some() && status.is_some() {
        let a = action.unwrap();
        let st = match item.get("status") {
            Some(x) => x.copy(),
            None => Json::Null,
        };
        let mut payload: Vec<(String, Json)> = Vec::new();
        payload.push(("action".to_owned(), a.copy()));
        payload.push(("status".to_owned(), st));
        let output = Json::Object(payload);
        proof {
            crate::json::lemma_entries_view(payload@);
            assert(crate::json::entries_view(payload@) =~= seq![("action"@, a@), ("status"@, item@.field("status"@)->0)]);
        }
        return Some(
            StreamParseResult::ToolResult(
                ToolResult {
                    tool_name: Some(tool_name),
                    tool_id,
                    output: Some(output),
                    index: None,
                    raw: Some(raw.copy()),
                },
            ),
        );
    }
    let call = build_tool_call(tool_name, tool_id, input, None, Some(raw.copy()));
    Some(StreamParseResult::ToolCall(call))
}

fn first_tool_item_exec(items: &Vec<Json>, event_type: &str, raw: &Json) -> (r: Option<
    StreamParseResult,
>)
    ensures
        r.deep_view() == first_tool_item(items_view(items@), event_type@, raw@),
{
    let ghost iv = items_view(items@);
    proof {
        lemma_items_view(items@);
    }
    assert(iv.subrange(0, iv.len() as int) =~= iv);
    let mut i: usize = 0;
    while i < items.len()
        invariant
            i <= items@.len(),
            iv == items_view(items@),
            iv.len() == items@.len(),
            forall|j: int| 0 <= j < items@.len() ==> #[trigger] iv[j] == items@[j]@,
            first_tool_item(iv, event_type@, raw@) == first_tool_item(
                iv.subrange(i as int, iv.len() as int),
                event_type@,
                raw@,
            ),
        decreases items@.len() - i,
    {
        let ghost rest = iv.subrange(i as int, iv.len() as int);
        assert(rest[0] == iv[i as int]);
        assert(rest.subrange(1, rest.len() as int) =~= iv.subrange(i + 1, iv.len() as int));
        if let Some(event) = parse_openai_tool_item(&items[i], event_type, raw) {
            return Some(event);
        }
        i = i + 1;
    }
    None
}

/// Untyped tool events (see `tool_event_result`).
pub fn extract_openai_tool_event(v: &Json) -> (r: Option<StreamParseResult>)
    ensures
        r.deep_view() == tool_event_result(v@),
{
    let event_type = text_or_empty(string_of(v.get("type")));
    if let Some(item) = v.get("item") {
        if let Some(event) = parse_openai_tool_item(item, event_type.as_str(), v) {
            return Some(event);
        }
    }
    if same_text(event_type.as_str(), "response.output_text.annotation.added") {
        if let Some(annotation) = v.get("annotation") {
            if let Some(result) = citation_result_exec(annotation) {
                return Some(result);
            }
        }
    }
    if same_text(event_type.as_str(), "response.completed") {
        if let Some(output) = get2(v, "response", "output") {
            if let Some(items) = output.as_array() {
                if let Some(event) = first_tool_item_exec(items, event_type.as_str(), v) {
                    return Some(event);
                }
            }
        }
    }
    if mentions_tool_exec(event_type.as_str()) {
        if let Some(delta) = string_of(v.get("delta")) {
            let tool_name = match string_of(v.get("name")) {
                Some(n) => n,
                None => "tool_call".to_owned(),
            };
            let tool_id = resolve_tool_id(v);
            let web_search = if tool_name_is_web_search(tool_name.as_str()) {
                match parse_json(delta.as_str()) {
                    Some(value) => parse_web_search_action(&value),
                    None => None,
                }
            } else {
                None
            };
            let d = build_tool_input_delta(delta, None, Some(tool_name), tool_id, web_search);
            return Some(StreamParseResult::ToolInput(d));
        }
    }
    None
}

/// Reasoning events (see `event_log_result`).
pub fn extract_openai_event_log(v: &Json) -> (r: Option<StreamParseResult>)
    ensures
        r.deep_view() == event_log_result(v@),
{
    let event_type = match string_of(v.get("type")) {
        Some(t) => t,
        None => return None,
    };
    let is_reasoning = str_contains(event_type.as_str(), "reasoning") || str_contains(
        event_type.as_str(),
        "thinking",
    ) || str_contains(event_type.as_str(), "thought");
    if !is_reasoning {
        return None;
    }
    let message = match string_of(v.get("delta")) {
        Some(m) => Some(m),
        None => match string_of(v.get("text")) {
            Some(m) => Some(m),
            None => string_of(v.get("thinking")),
        },
    };
    let data = if message.is_some() {
        None
    } else {
        Some(v.copy())
    };
    Some(StreamParseResult::EventLog { event_type, message, data })
}

fn chat_choices_ok(cs: &Vec<Json>) -> (r: bool)
    ensures
        r == forall|k: int| 0 <= k < items_view(cs@).len() ==> #[trigger] chat_choice_ok(items_view(cs@)[k]),
{
    proof {
        lemma_items_view(cs@);
    }
    let mut i: usize = 0;
    while i < cs.len()
        invariant
            i <= cs@.len(),
            items_view(cs@).len() == cs@.len(),
            forall|j: int| 0 <= j < cs@.len() ==> #[trigger] items_view(cs@)[j] == cs@[j]@,
            forall|j: int| 0 <= j < i ==> #[trigger] chat_choice_ok(items_view(cs@)[j]),
        decreases cs@.len() - i,
    {
        let c = &cs[i];
        let ok = c.is_object() && match c.get("delta") {
            Some(d) => d.is_object() && decode_opt_string(d, "content").is_some(),
            None => false,
        };
        if !ok {
            assert(!chat_choice_ok(items_view(cs@)[i as int]));
            return false;
        }
        i = i + 1;
    }
    true
}

fn chat_chunk_exec(v: &Json) -> (r: Option<StreamParseResult>)
    ensures
        r.deep_view() == chat_chunk_result(v@),
{
    let id = match string_of(v.get("id")) {
        Some(id) => id,
        None => return None,
    };
    let cs = match v.get("choices") {
        Some(x) => match x.as_array() {
            Some(a) => a,
            None => return None,
        },
        None => return None,
    };
    let usage = match decode_u32_triple(v.get("usage"), "prompt_tokens", "completion_tokens", "total_tokens") {
        Some(u) => u,
        None => return None,
    };
    proof {
        lemma_items_view(cs@);
    }
    if !v.is_object() || !chat_choices_ok(cs) {
        return None;
    }
    match usage {
        Some((p, c, t)) => Some(
            StreamParseResult::TokenUsage {
                request_id: Some(id),
                input_tokens: Some(p),
                output_tokens: Some(c),
                total_tokens: Some(t),
                cached_input_tokens: None,
                cache_creation_tokens: None,
            },
        ),
        None => {
            if cs.len() == 0 {
                return None;
            }
            assert(chat_choice_ok(items_view(cs@)[0]));
            let content = match cs[0].get("delta") {
                Some(d) => decode_opt_string(d, "content"),
                None => None,
            };
            match content {
                Some(Some(text)) => Some(StreamParseResult::TextDelta { text, request_id: Some(id) }),
                _ => None,
            }
        },
    }
}

fn error_member_exec(v: &Json) -> (r: Option<StreamParseResult>)
    ensures
        r.deep_view() == error_member_result(v@),
{
    match v.get("error") {
        Some(e) => {
            let message = match string_of(e.get("message")) {
                Some(m) => m,
                None => "OpenAI stream error".to_owned(),
            };
            let raw_type = match e.get("type") {
                Some(t) => string_of(Some(t)),
                None => string_of(e.get("code")),
            };
            let error_type = match raw_type {
                Some(t) => t,
                None => "openai_error".to_owned(),
            };
            Some(StreamParseResult::Error { error_type, message })
        },
        None => None,
    }
}

impl OpenaiStreamParser {
    pub fn new() -> (r: Self)
        ensures
            r@.len() == 0,
    {
        OpenaiStreamParser { tool_calls: NameTable::new() }
    }

    /// Remembers the name and call id of a function-call output item.
    pub fn record_function_call_meta(&mut self, item_id: &String, name: &String, call_id: &Option<String>)
        ensures
            final(self)@ == tinsert(
                old(self)@,
                item_id@,
                ToolMetaView { name: name@, call_id: call_id.deep_view() },
            ),
    {
        self.tool_calls.insert(
            item_id.clone(),
            OpenaiToolCallMeta { name: name.clone(), call_id: clone_opt_string(call_id) },
        );
    }

    /// The name and call id remembered for an output item.
    pub fn get_tool_meta(&self, item_id: &str) -> (r: (Option<String>, Option<String>))
        ensures
            (r.0.deep_view(), r.1.deep_view()) == match tlookup(self@, item_id@) {
                Some(m) => (Some(m.name), m.call_id),
                None => (None, None),
            },
    {
        match self.tool_calls.get(item_id) {
            Some(meta) => (Some(meta.name.clone()), clone_opt_string(&meta.call_id)),
            None => (None, None),
        }
    }

    /// The name and call id remembered for an output item, forgetting them.
    pub fn take_tool_meta(&mut self, item_id: &str) -> (r: (Option<String>, Option<String>))
        ensures
            (r.0.deep_view(), r.1.deep_view()) == match tlookup(old(self)@, item_id@) {
                Some(m) => (Some(m.name), m.call_id),
                None => (None, None),
            },
            final(self)@ == tremove(old(self)@, item_id@),
    {
        match self.tool_calls.remove(item_id) {
            Some(meta) => (Some(meta.name), meta.call_id),
            None => (None, None),
        }
    }

    fn handle_response_stream_event(&mut self, event: OpenaiStreamEvent, raw: &Json) -> (r: Option<
        StreamParseResult,
    >)
        ensures
            (final(self)@, r.deep_view()) == handle_event_step(old(self)@, event@, raw@),
    {
        match event {
            OpenaiStreamEvent::OutputItemAdded(item) => {
                if let OpenaiOutputItem::FunctionCall { id, name, call_id, .. } = &item {
                    self.record_function_call_meta(id, name, call_id);
                }
                Some(StreamParseResult::NoEvent)
            },
            OpenaiStreamEvent::ArgumentsDelta { item_id, delta } => {
                let (tool_name, tool_id) = self.get_tool_meta(item_id.as_str());
                let d = build_tool_input_delta(delta, None, tool_name, tool_id, None);
                Some(StreamParseResult::ToolInput(d))
            },
            OpenaiStreamEvent::ArgumentsDone { item_id, arguments } => {
                let ghost found = tlookup(self@, item_id@);
                let (tool_name, tool_id) = self.take_tool_meta(item_id.as_str());
                if let Some(tool_name) = tool_name {
                    let input = parse_tool_input(arguments);
                    let call = build_tool_call(tool_name, tool_id, input, None, Some(raw.copy()));
                    return Some(StreamParseResult::ToolCall(call));
                }
                proof {
                    assert(found is None);
                    crate::table::lemma_tindex_bounds(old(self)@, item_id@);
                }
                None
            },
            OpenaiStreamEvent::TextDelta { item_id, delta } => Some(
                StreamParseResult::TextDelta { text: delta, request_id: Some(item_id) },
            ),
            OpenaiStreamEvent::AnnotationAdded(a) => citation_result_exec(&a),
            OpenaiStreamEvent::Completed { id, usage } => {
                if let Some(event) = extract_openai_tool_event(raw) {
                    return Some(event);
                }
                match usage {
                    Some((i, o, t)) => Some(
                        StreamParseResult::TokenUsage {
                            request_id: Some(id),
                            input_tokens: Some(i),
                            output_tokens: Some(o),
                            total_tokens: Some(t),
                            cached_input_tokens: None,
                            cache_creation_tokens: None,
                        },
                    ),
                    None => None,
                }
            },
            OpenaiStreamEvent::Created { id, usage } => Some(
                StreamParseResult::MessageStart {
                    request_id: id,
                    input_tokens: match usage {
                        Some((i, _, _)) => Some(i),
                        None => None,
                    },
                    output_tokens: match usage {
                        Some((_, o, _)) => Some(o),
                        None => None,
                    },
                    cached_input_tokens: None,
                    cache_creation_tokens: None,
                },
            ),
            OpenaiStreamEvent::Failure { error_type, message } => Some(
                StreamParseResult::Error {
                    error_type: match error_type {
                        Some(t) => t,
                        None => "openai_error".to_owned(),
                    },
                    message: match message {
                        Some(m) => m,
                        None => "OpenAI stream error".to_owned(),
                    },
                },
            ),
            OpenaiStreamEvent::Other => None,
        }
    }

    /// Decodes one parsed event.
    pub fn parse_value(&mut self, value: &Json) -> (r: StreamParseResult)
        ensures
            (final(self)@, r@) == openai_step(old(self)@, value@),
    {
        if let Some(stream_event) = decode_event_exec(value) {
            if let Some(result) = self.handle_response_stream_event(stream_event, value) {
                return result;
            }
        }
        if let Some(result) = chat_chunk_exec(value) {
            return result;
        }
        if let Some(event) = extract_openai_event_log(value) {
            return event;
        }
        if let Some(event) = extract_openai_tool_event(value) {
            return event;
        }
        if let Some(error) = error_member_exec(value) {
            return error;
        }
        StreamParseResult::NoEvent
    }

    /// Decodes one raw server-sent event.
    pub fn parse_event(&mut self, data: &str) -> (r: StreamParseResult)
        ensures
            (final(self)@, r@) == openai_event(old(self)@, data@),
    {
        match parse_json(data) {
            Some(v) => self.parse_value(&v),
            None => StreamParseResult::NoEvent,
        }
    }
}

impl Default for OpenaiStreamParser {
    fn default() -> (r: Self)
        ensures
            r@.len() == 0,
    {
        OpenaiStreamParser::new()
    }
}

} // verus!
