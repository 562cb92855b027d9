//! Decoder for Mistral's Conversations API stream: named events for message
//! output, tool executions run by Mistral, and function-call fragments.
use vstd::prelude::*;

use crate::json::{
    Json, JsonView, array_of, items_view, lemma_items_view, parse_json, parsed_json, str_of,
    string_of,
};
use crate::table::{NameTable, tinsert, tlookup};
use crate::text::{i64_text, same_text, signed_decimal};
use super::{
    ParseResultView, StreamParseResult, StreamWebSearchResult, ToolInput, ToolInputDeltaView,
    ToolInputView, ToolResult, ToolResultView, WebSearchResultView, build_tool_call,
    build_tool_input_delta, clone_opt_string, is_web_search_name, parse_web_search_action,
    tool_call_of, tool_name_is_web_search, web_search_action_of,
};
use vstd::string::StringExecFns;

verus! {

/// What the parser remembers of one function call.
pub struct ToolBuffer {
    pub name: Option<String>,
    pub buffer: String,
}

pub struct ToolBufferView {
    pub name: Option<Seq<char>>,
    pub buffer: Seq<char>,
}

impl View for ToolBuffer {
    type V = ToolBufferView;

    open spec fn view(&self) -> ToolBufferView {
        ToolBufferView { name: self.name.deep_view(), buffer: self.buffer@ }
    }
}

impl DeepView for ToolBuffer {
    type V = ToolBufferView;

    open spec fn deep_view(&self) -> ToolBufferView {
        self.view()
    }
}

/// Mistral Conversations stream parser.
pub struct MistralConversationStreamParser {
    tool_buffers: NameTable<ToolBuffer>,
}

impl View for MistralConversationStreamParser {
    type V = Seq<(Seq<char>, ToolBufferView)>;

    closed spec fn view(&self) -> Seq<(Seq<char>, ToolBufferView)> {
        self.tool_buffers@
    }
}

pub open spec fn or_empty(s: Option<Seq<char>>) -> Seq<char> {
    match s {
        Some(t) => t,
        None => Seq::empty(),
    }
}

/// The event name and its payload: an `event` wrapper carries its payload in
/// `data`; otherwise the value itself, named by `type`.
pub open spec fn event_wrapper(v: JsonView) -> Option<(Seq<char>, JsonView)> {
    match v.str_field("event"@) {
        Some(e) => Some(
            (
                e,
                match v.field("data"@) {
                    Some(d) => d,
                    None => JsonView::Null,
                },
            ),
        ),
        None => match v.str_field("type"@) {
            Some(t) => Some((t, v)),
            None => None,
        },
    }
}

/// The text a content chunk contributes.
pub open spec fn chunk_text(item: JsonView) -> Seq<char> {
    or_empty(item.str_field("text"@))
}

/// The reference a `tool_reference` chunk contributes, when it has a title or url.
pub open spec fn chunk_ref(item: JsonView) -> Option<WebSearchResultView> {
    if item.str_field("type"@) == Some("tool_reference"@) {
        let title = or_empty(item.str_field("title"@));
        let url = or_empty(item.str_field("url"@));
        if title.len() > 0 || url.len() > 0 {
            Some(
                WebSearchResultView {
                    title,
                    url,
                    source: item.str_field("tool"@),
                    page_age: None,
                    snippet: item.str_field("description"@),
                },
            )
        } else {
            None
        }
    } else {
        None
    }
}

pub open spec fn opt_seq<A>(o: Option<A>) -> Seq<A> {
    match o {
        Some(a) => seq![a],
        None => Seq::empty(),
    }
}

pub open spec fn items_text(items: Seq<JsonView>) -> Seq<char>
    decreases items.len(),
{
    if items.len() == 0 {
        Seq::empty()
    } else {
        items_text(items.subrange(0, items.len() - 1)) + chunk_text(items[items.len() - 1])
    }
}

pub open spec fn items_refs(items: Seq<JsonView>) -> Seq<WebSearchResultView>
    decreases items.len(),
{
    if items.len() == 0 {
        Seq::empty()
    } else {
        items_refs(items.subrange(0, items.len() - 1)) + opt_seq(chunk_ref(items[items.len() - 1]))
    }
}

/// Text and references of a `message.output.delta` content.
pub open spec fn content_parts(content: JsonView) -> (Seq<char>, Seq<WebSearchResultView>) {
    match content {
        JsonView::Str(s) => (s, Seq::empty()),
        JsonView::Array(items) => (items_text(items), items_refs(items)),
        JsonView::Object(_) => (chunk_text(content), opt_seq(chunk_ref(content))),
        _ => (Seq::empty(), Seq::empty()),
    }
}

/// A `message.output.delta`: references win over text; nothing when both are empty.
pub open spec fn message_output_result(payload: JsonView, request_id: Option<Seq<char>>) -> Option<
    ParseResultView,
> {
    match payload.field("content"@) {
        Some(content) => {
            let (text, refs) = content_parts(content);
            if refs.len() > 0 {
                Some(
                    ParseResultView::WebSearchResult {
                        tool_name: "web_search_call"@,
                        tool_id: None,
                        results: refs,
                    },
                )
            } else if text.len() > 0 {
                Some(ParseResultView::TextDelta { text, request_id })
            } else {
                None
            }
        },
        None => None,
    }
}

/// A search result item of a finished web-search execution.
pub open spec fn exec_result_item(item: JsonView) -> Option<WebSearchResultView> {
    let title = or_empty(item.str_field("title"@));
    let url = or_empty(item.str_field("url"@));
    if title.len() == 0 && url.len() == 0 {
        None
    } else {
        Some(
            WebSearchResultView {
                title,
                url,
                source: item.str_field("source"@),
                page_age: None,
                snippet: item.str_field("snippet"@),
            },
        )
    }
}

pub open spec fn exec_result_items(items: Seq<JsonView>) -> Seq<WebSearchResultView>
    decreases items.len(),
{
    if items.len() == 0 {
        Seq::empty()
    } else {
        exec_result_items(items.subrange(0, items.len() - 1)) + opt_seq(
            exec_result_item(items[items.len() - 1]),
        )
    }
}

pub open spec fn null_or_empty(v: JsonView) -> bool {
    v.is_null() || v.is_empty_object()
}

/// The output of a finished execution: `info`, else `output`, else `result`,
/// else the whole payload.
pub open spec fn execution_output(payload: JsonView) -> JsonView {
    let info = match payload.field("info"@) {
        Some(i) => i,
        None => JsonView::Null,
    };
    let picked = if null_or_empty(info) {
        match payload.field("output"@) {
            Some(o) => o,
            None => match payload.field("result"@) {
                Some(r) => r,
                None => info,
            },
        }
    } else {
        info
    };
    if null_or_empty(picked) {
        payload
    } else {
        picked
    }
}

/// Where a finished web search lists its results.
pub open spec fn execution_results(payload: JsonView, output: JsonView) -> Option<Seq<JsonView>> {
    match output.array_field("results"@) {
        Some(r) => Some(r),
        None => match payload.array_field("results"@) {
            Some(r) => Some(r),
            None => match array_of(payload.field2("result"@, "results"@)) {
                Some(r) => Some(r),
                None => array_of(payload.field2("output"@, "results"@)),
            },
        },
    }
}

/// A tool execution event: a finished web search with results reports them;
/// any other finished execution reports its output; a running execution
/// reports its argument text, if any.
pub open spec fn tool_execution_result(payload: JsonView, is_done: bool) -> Option<ParseResultView> {
    let name = match payload.str_field("name"@) {
        Some(n) => n,
        None => "tool_call"@,
    };
    let tool_id = payload.str_field("id"@);
    let arguments = or_empty(payload.str_field("arguments"@));
    if is_done {
        let output = execution_output(payload);
        let mapped = match execution_results(payload, output) {
            Some(items) => exec_result_items(items),
            None => Seq::empty(),
        };
        if is_web_search_name(name) && mapped.len() > 0 {
            Some(
                ParseResultView::WebSearchResult {
                    tool_name: "web_search_call"@,
                    tool_id,
                    results: mapped,
                },
            )
        } else {
            Some(
                ParseResultView::ToolResult(
                    ToolResultView {
                        tool_name: Some(name),
                        tool_id,
                        output: Some(output),
                        index: None,
                        raw: Some(payload),
                    },
                ),
            )
        }
    } else if arguments.len() > 0 {
        Some(
            ParseResultView::ToolInput(
                ToolInputDeltaView {
                    partial_json: arguments,
                    index: None,
                    tool_name: Some(name),
                    tool_id,
                    web_search: match parsed_json(arguments) {
                        Some(j) => web_search_action_of(j),
                        None => None,
                    },
                },
            ),
        )
    } else {
        None
    }
}

/// A `function.call.delta`: the fragment is buffered under its call id; the
/// call is reported once the buffer parses, else the fragment itself.
pub open spec fn function_call_step(st: Seq<(Seq<char>, ToolBufferView)>, payload: JsonView) -> (
    Seq<(Seq<char>, ToolBufferView)>,
    Option<ParseResultView>,
) {
    match payload.str_field("tool_call_id"@) {
        None => (st, None),
        Some(id) => {
            let name = payload.str_field("name"@);
            let arguments = or_empty(payload.str_field("arguments"@));
            let base = match tlookup(st, id) {
                Some(b) => b,
                None => ToolBufferView { name, buffer: Seq::empty() },
            };
            let entry = ToolBufferView {
                name: if base.name is None && name is Some {
                    name
                } else {
                    base.name
                },
                buffer: base.buffer + arguments,
            };
            let st1 = tinsert(st, id, entry);
            match parsed_json(entry.buffer) {
                Some(j) => (
                    st1,
                    Some(
                        ParseResultView::ToolCall(
                            tool_call_of(
                                match entry.name {
                                    Some(n) => n,
                                    None => "tool_call"@,
                                },
                                Some(id),
                                Some(ToolInputView::Json(j)),
                                None,
                                Some(payload),
                            ),
                        ),
                    ),
                ),
                None => if arguments.len() > 0 {
                    (
                        st1,
                        Some(
                            ParseResultView::ToolInput(
                                ToolInputDeltaView {
                                    partial_json: arguments,
                                    index: None,
                                    tool_name: entry.name,
                                    tool_id: Some(id),
                                    web_search: None,
                                },
                            ),
                        ),
                    )
                } else {
                    (st1, None)
                },
            }
        },
    }
}

pub open spec fn or_nothing(r: Option<ParseResultView>) -> ParseResultView {
    match r {
        Some(x) => x,
        None => ParseResultView::NoEvent,
    }
}

/// One parsed event, dispatched on its name.
pub open spec fn conversation_step(st: Seq<(Seq<char>, ToolBufferView)>, v: JsonView) -> (
    Seq<(Seq<char>, ToolBufferView)>,
    ParseResultView,
) {
    match event_wrapper(v) {
        None => (st, ParseResultView::NoEvent),
        Some((e, payload)) => if e == "message.output.delta"@ {
            (st, or_nothing(message_output_result(payload, None)))
        } else if e == "tool.execution.started"@ || e == "tool.execution.delta"@ {
            (st, or_nothing(tool_execution_result(payload, false)))
        } else if e == "tool.execution.done"@ {
            (st, or_nothing(tool_execution_result(payload, true)))
        } else if e == "function.call.delta"@ {
            let (st1, r) = function_call_step(st, payload);
            (st1, or_nothing(r))
        } else if e == "conversation.response.done"@ {
            match payload.field("usage"@) {
                Some(u) => (
                    st,
                    ParseResultView::TokenUsage {
                        request_id: None,
                        input_tokens: match u.u64_field("prompt_tokens"@) {
                            Some(n) => Some(n as u32),
                            None => None,
                        },
                        output_tokens: match u.u64_field("completion_tokens"@) {
                            Some(n) => Some(n as u32),
                            None => None,
                        },
                        total_tokens: match u.u64_field("total_tokens"@) {
                            Some(n) => Some(n as u32),
                            None => None,
                        },
                        cached_input_tokens: None,
                        cache_creation_tokens: None,
                    },
                ),
                None => (st, ParseResultView::NoEvent),
            }
        } else if e == "conversation.response.error"@ {
            (
                st,
                ParseResultView::Error {
                    error_type: match payload.field("code"@) {
                        Some(c) => match c.as_i64() {
                            Some(n) => signed_decimal(n as int),
                            None => "mistral_error"@,
                        },
                        None => "mistral_error"@,
                    },
                    message: match payload.str_field("message"@) {
                        Some(m) => m,
                        None => "mistral error"@,
                    },
                },
            )
        } else {
            (st, ParseResultView::NoEvent)
        },
    }
}

/// One raw event; text that is not JSON reports nothing.
pub open spec fn conversation_event(st: Seq<(Seq<char>, ToolBufferView)>, data: Seq<char>) -> (
    Seq<(Seq<char>, ToolBufferView)>,
    ParseResultView,
) {
    match parsed_json(data) {
        Some(v) => conversation_step(st, v),
        None => (st, ParseResultView::NoEvent),
    }
}

fn text_or_empty(v: Option<&Json>) -> (r: String)
    ensures
        r@ == or_empty(str_of(v.deep_view())),
{
    match string_of(v) {
        Some(s) => s,
        None => String::new(),
    }
}

fn chunk_ref_exec(item: &Json) -> (r: Option<StreamWebSearchResult>)
    ensures
        r.deep_view() == chunk_ref(item@),
{
    let is_ref = match item.get("type") {
        Some(t) => match t.as_str() {
            Some(s) => same_text(s.as_str(), "tool_reference"),
            None => false,
        },
        None => false,
    };
    if !is_ref {
        return None;
    }
    let title = text_or_empty(item.get("title"));
    let url = text_or_empty(item.get("url"));
    if title.as_str().is_empty() && url.as_str().is_empty() {
        return None;
    }
    Some(
        StreamWebSearchResult {
            title,
            url,
            source: string_of(item.get("tool")),
            page_age: None,
            snippet: string_of(item.get("description")),
        },
    )
}

fn exec_result_item_exec(item: &Json) -> (r: Option<StreamWebSearchResult>)
    ensures
        r.deep_view() == exec_result_item(item@),
{
    let title = text_or_empty(item.get("title"));
    let url = text_or_empty(item.get("url"));
    if title.as_str().is_empty() && url.as_str().is_empty() {
        return None;
    }
    Some(
        StreamWebSearchResult {
            title,
            url,
            source: string_of(item.get("source")),
            page_age: None,
            snippet: string_of(item.get("snippet")),
        },
    )
}

fn content_parts_exec(content: &Json) -> (r: (String, Vec<StreamWebSearchResult>))
    ensures
        (r.0@, r.1.deep_view()) == content_parts(content@),
{
    match content {
        Json::Str(s) => {
            let refs: Vec<StreamWebSearchResult> = Vec::new();
            assert(refs.deep_view() =~= Seq::<WebSearchResultView>::empty());
            (s.clone(), refs)
        },
        Json::Array(items) => {
            let ghost iv = items_view(items@);
            proof {
                lemma_items_view(items@);
            }
            let mut text = String::new();
            let mut refs: Vec<StreamWebSearchResult> = Vec::new();
            assert(refs.deep_view() =~= Seq::<WebSearchResultView>::empty());
            let mut i: usize = 0;
            while i < items.len()
                invariant
                    i <= items@.len(),
                    iv == items_view(items@),
                    iv.len() == items@.len(),
                    forall|j: int| 0 <= j < items@.len() ==> #[trigger] iv[j] == items@[j]@,
                    text@ == items_text(iv.subrange(0, i as int)),
                    refs.deep_view() == items_refs(iv.subrange(0, i as int)),
                decreases items@.len() - i,
            {
                let item = &items[i];
                let ghost pre = iv.subrange(0, i + 1);
                assert(pre.subrange(0, i as int) =~= iv.subrange(0, i as int));
                assert(pre[i as int] == item@);
                let piece = text_or_empty(item.get("text"));
                text.append(piece.as_str());
                let ghost before = refs.deep_view();
                match chunk_ref_exec(item) {
                    Some(r) => {
                        let ghost rv = r@;
                        refs.push(r);
                        assert(refs.deep_view() =~= before + seq![rv]);
                    },
                    None => {
                        assert(before + Seq::<WebSearchResultView>::empty() =~= before);
                    },
                }
                i = i + 1;
            }
            assert(iv.subrange(0, items@.len() as int) =~= iv);
            (text, refs)
        },
        Json::Object(_) => {
            let text = text_or_empty(content.get("text"));
            let mut refs: Vec<StreamWebSearchResult> = Vec::new();
            match chunk_ref_exec(content) {
                Some(r) => {
                    let ghost rv = r@;
                    refs.push(r);
                    assert(refs.deep_view() =~= seq![rv]);
                },
                None => {
                    assert(refs.deep_view() =~= Seq::<WebSearchResultView>::empty());
                },
            }
            (text, refs)
        },
        _ => {
            let refs: Vec<StreamWebSearchResult> = Vec::new();
            assert(refs.deep_view() =~= Seq::<WebSearchResultView>::empty());
            (String::new(), refs)
        },
    }
}

fn exec_result_items_exec(items: &Vec<Json>) -> (r: Vec<StreamWebSearchResult>)
    ensures
        r.deep_view() == exec_result_items(items_view(items@)),
{
    let ghost iv = items_view(items@);
    proof {
        lemma_items_view(items@);
    }
    let mut out: Vec<StreamWebSearchResult> = Vec::new();
    assert(out.deep_view() =~= Seq::<WebSearchResultView>::empty());
    let mut i: usize = 0;
    while i < items.len()
        invariant
            i <= items@.len(),
            iv == items_view(items@),
            iv.len() == items@.len(),
            forall|j: int| 0 <= j < items@.len() ==> #[trigger] iv[j] == items@[j]@,
            out.deep_view() == exec_result_items(iv.subrange(0, i as int)),
        decreases items@.len() - i,
    {
        let ghost pre = iv.subrange(0, i + 1);
        assert(pre.subrange(0, i as int) =~= iv.subrange(0, i as int));
        assert(pre[i as int] == items@[i as int]@);
        let ghost before = out.deep_view();
        match exec_result_item_exec(&items[i]) {
            Some(r) => {
                let ghost rv = r@;
                out.push(r);
                assert(out.deep_view() =~= before + seq![rv]);
            },
            None => {
                assert(before + Seq::<WebSearchResultView>::empty() =~= before);
            },
        }
        i = i + 1;
    }
    assert(iv.subrange(0, items@.len() as int) =~= iv);
    out
}

fn array_member<'a>(v: Option<&'a Json>) -> (r: Option<&'a Vec<Json>>)
    ensures
        r is Some <==> array_of(v.deep_view()) is Some,
        r matches Some(a) ==> items_view(a@) == array_of(v.deep_view())->0,
{
    match v {
        Some(x) => x.as_array(),
        None => None,
    }
}

fn is_null_or_empty(v: &Json) -> (r: bool)
    ensures
        r == null_or_empty(v@),
{
    v.is_null() || v.is_empty_object()
}

impl MistralConversationStreamParser {
    pub fn new() -> (r: Self)
        ensures
            r@.len() == 0,
    {
        MistralConversationStreamParser { tool_buffers: NameTable::new() }
    }

    /// The event name and payload of a parsed event.
    pub fn parse_event_wrapper(&self, value: &Json) -> (r: Option<(String, Json)>)
        ensures
            r.deep_view() == event_wrapper(value@),
    {
        if let Some(event) = string_of(value.get("event")) {
            let payload = match value.get("data") {
                Some(d) => d.copy(),
                None => Json::Null,
            };
            return Some((event, payload));
        }
        if let Some(event) = string_of(value.get("type")) {
            return Some((event, value.copy()));
        }
        None
    }

    /// Text or references of a `message.output.delta` payload.
    pub fn parse_message_output_delta(&self, payload: &Json, request_id: Option<String>) -> (r:
        Option<StreamParseResult>)
        ensures
            r.deep_view() == message_output_result(payload@, request_id.deep_view()),
    {
        let content = match payload.get("content") {
            Some(c) => c,
            None => return None,
        };
        let (collected_text, references) = content_parts_exec(content);
        if references.len() > 0 {
            return Some(
                StreamParseResult::WebSearchResult {
                    tool_name: "web_search_call".to_owned(),
                    tool_id: None,
                    results: references,
                },
            );
        }
        if !collected_text.as_str().is_empty() {
            return Some(StreamParseResult::TextDelta { text: collected_text, request_id });
        }
        None
    }

    /// A tool execution event (see `tool_execution_result`).
    pub fn parse_tool_execution(&self, payload: &Json, is_done: bool) -> (r: Option<
        StreamParseResult,
    >)
        ensures
            r.deep_view() == tool_execution_result(payload@, is_done),
    {
        let name = match string_of(payload.get("name")) {
            Some(n) => n,
            None => "tool_call".to_owned(),
        };
        let tool_id = string_of(payload.get("id"));
        let arguments = text_or_empty(payload.get("arguments"));
        if is_done {
            let mut output = match payload.get("info") {
                Some(i) => i.copy(),
                None => Json::Null,
            };
            if is_null_or_empty(&output) {
                if let Some(value) = payload.get("output") {
                    output = value.copy();
                } else if let Some(value) = payload.get("result") {
                    output = value.copy();
                }
            }
            if is_null_or_empty(&output) {
                output = payload.copy();
            }
            assert(output@ == execution_output(payload@));
            if tool_name_is_web_search(name.as_str()) {
                let results = match array_member(output.get("results")) {
                    Some(r) => Some(r),
                    None => match array_member(payload.get("results")) {
                        Some(r) => Some(r),
                        None => match array_member(crate::json::get2(payload, "result", "results")) {
                            Some(r) => Some(r),
                            None => array_member(crate::json::get2(payload, "output", "results")),
                        },
                    },
                };
                if let Some(results) = results {
                    let mapped = exec_result_items_exec(results);
                    if mapped.len() > 0 {
                        return Some(
                            StreamParseResult::WebSearchResult {
                                tool_name: "web_search_call".to_owned(),
                                tool_id: clone_opt_string(&tool_id),
                                results: mapped,
                            },
                        );
                    }
                }
            }
            let result = ToolResult {
                tool_name: Some(name),
                tool_id,
                output: Some(output),
                index: None,
                raw: Some(payload.copy()),
            };
            return Some(StreamParseResult::ToolResult(result));
        }
        if !arguments.as_str().is_empty() {
            let web_search = match parse_json(arguments.as_str()) {
                Some(value) => parse_web_search_action(&value),
                None => None,
            };
            let delta = build_tool_input_delta(arguments, None, Some(name), tool_id, web_search);
            return Some(StreamParseResult::ToolInput(delta));
        }
        None
    }

    /// A `function.call.delta` payload (see `function_call_step`).
    pub fn parse_function_call_delta(&mut self, payload: &Json) -> (r: Option<StreamParseResult>)
        ensures
            (final(self)@, r.deep_view()) == function_call_step(old(self)@, payload@),
    {
        let tool_call_id = match string_of(payload.get("tool_call_id")) {
            Some(id) => id,
            None => return None,
        };
        let name = string_of(payload.get("name"));
        let arguments = text_or_empty(payload.get("arguments"));
        let mut entry = match self.tool_buffers.get(tool_call_id.as_str()) {
            Some(b) => ToolBuffer { name: clone_opt_string(&b.name), buffer: b.buffer.clone() },
            None => ToolBuffer { name: clone_opt_string(&name), buffer: String::new() },
        };
        if entry.name.is_none() && name.is_some() {
            entry.name = name;
        }
        entry.buffer.append(arguments.as_str());
        let candidate = entry.buffer.clone();
        let entry_name = clone_opt_string(&entry.name);
        self.tool_buffers.insert(tool_call_id.clone(), entry);
        if let Some(json) = parse_json(candidate.as_str()) {
            let tool_name = match entry_name {
                Some(n) => n,
                None => "tool_call".to_owned(),
            };
            let call = build_tool_call(
                tool_name,
                Some(tool_call_id),
                Some(ToolInput::Json(json)),
                None,
                Some(payload.copy()),
            );
            return Some(StreamParseResult::ToolCall(call));
        }
        if !arguments.as_str().is_empty() {
            let delta = build_tool_input_delta(arguments, None, entry_name, Some(tool_call_id), None);
            return Some(StreamParseResult::ToolInput(delta));
        }
        None
    }

    /// Decodes one parsed event.
    pub fn parse_value(&mut self, value: &Json) -> (r: StreamParseResult)
        ensures
            (final(self)@, r@) == conversation_step(old(self)@, value@),
    {
        let (event_type, payload) = match self.parse_event_wrapper(value) {
            Some(p) => p,
            None => return StreamParseResult::NoEvent,
        };
        let e = event_type.as_str();
        if same_text(e, "message.output.delta") {
            return match self.parse_message_output_delta(&payload, None) {
                Some(x) => x,
                None => StreamParseResult::NoEvent,
            };
        }
        if same_text(e, "tool.execution.started") || same_text(e, "tool.execution.delta") {
            return match self.parse_tool_execution(&payload, false) {
                Some(x) => x,
                None => StreamParseResult::NoEvent,
            };
        }
        if same_text(e, "tool.execution.done") {
            return match self.parse_tool_execution(&payload, true) {
                Some(x) => x,
                None => StreamParseResult::NoEvent,
            };
        }
        if same_text(e, "function.call.delta") {
            return match self.parse_function_call_delta(&payload) {
                Some(x) => x,
                None => StreamParseResult::NoEvent,
            };
        }
        if same_text(e, "conversation.response.done") {
            if let Some(usage) = payload.get("usage") {
                let input_tokens = match crate::json::u64_member(usage, "prompt_tokens") {
                    Some(n) => Some(n as u32),
                    None => None,
                };
                let output_tokens = match crate::json::u64_member(usage, "completion_tokens") {
                    Some(n) => Some(n as u32),
                    None => None,
                };
                let total_tokens = match crate::json::u64_member(usage, "total_tokens") {
                    Some(n) => Some(n as u32),
                    None => None,
                };
                return StreamParseResult::TokenUsage {
                    request_id: None,
                    input_tokens,
                    output_tokens,
                    total_tokens,
                    cached_input_tokens: None,
                    cache_creation_tokens: None,
                };
            }
            return StreamParseResult::NoEvent;
        }
        if same_text(e, "conversation.response.error") {
            let message = match string_of(payload.get("message")) {
                Some(m) => m,
                None => "mistral error".to_owned(),
            };
            let code = match payload.get("code") {
                Some(c) => match c.as_i64() {
                    Some(n) => i64_text(n),
                    None => "mistral_error".to_owned(),
                },
                None => "mistral_error".to_owned(),
            };
            return StreamParseResult::Error { error_type: code, message };
        }
        StreamParseResult::NoEvent
    }

    /// Decodes one raw server-sent event.
    pub fn parse_event(&mut self, data: &str) -> (r: StreamParseResult)
        ensures
            (final(self)@, r@) == conversation_event(old(self)@, data@),
    {
        match parse_json(data) {
            Some(v) => self.parse_value(&v),
            None => StreamParseResult::NoEvent,
        }
    }
}

impl Default for MistralConversationStreamParser {
    fn default() -> (r: Self)
        ensures
            r@.len() == 0,
    {
        MistralConversationStreamParser::new()
    }
}

} // verus!
