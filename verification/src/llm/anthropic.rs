//! Decoder for Anthropic's Messages stream, and the continuation request that
//! follows a round of tool calls.
use vstd::prelude::*;

use crate::json::{
    Json, JsonView, as_u64_of, json_text, json_to_string, get2, get3, items_view, lemma_items_view, opt_string_member,
    parse_json, parsed_json, str_of, string_of, u64_of,
};
use crate::table::{IndexTable, tinsert, tlookup, tremove};
use super::{
    ParseResultView, StreamParseResult, StreamWebSearchResult, ToolInput, ToolInputDeltaView,
    ToolInputView, WebSearchActionView, WebSearchResultView, build_tool_call,
    build_tool_input_delta, is_web_search_name, parse_web_search_action, tool_call_of,
    tool_name_is_web_search, web_search_action_of,
};
use vstd::string::StringExecFns;

verus! {

/// A count that fits in `u32`.
pub open spec fn u32_of(v: Option<u64>) -> Option<u32> {
    match v {
        Some(n) => if n <= u32::MAX {
            Some(n as u32)
        } else {
            None
        },
        None => None,
    }
}

/// Narrows a count to `u32`; a count that does not fit is dropped.
pub fn u64_to_u32(v: Option<u64>) -> (r: Option<u32>)
    ensures
        r == u32_of(v),
{
    match v {
        Some(x) => if x <= 4294967295u64 {
            Some(x as u32)
        } else {
            None
        },
        None => None,
    }
}

/// Model of the parser's memory: the tool call started at each content-block
/// index, and the arguments streamed so far for web-search calls.
pub struct AnthropicParserView {
    pub tool_calls: Seq<(u32, (Seq<char>, Option<Seq<char>>))>,
    pub buffers: Seq<(u32, Seq<char>)>,
}

/// Anthropic stream parser.
pub struct AnthropicStreamParser {
    tool_calls: IndexTable<(String, Option<String>)>,
    tool_input_buffers: IndexTable<String>,
}

impl View for AnthropicStreamParser {
    type V = AnthropicParserView;

    closed spec fn view(&self) -> AnthropicParserView {
        AnthropicParserView { tool_calls: self.tool_calls@, buffers: self.tool_input_buffers@ }
    }
}

/// The content-block index of an event.
pub open spec fn block_index(v: JsonView) -> Option<u32> {
    u32_of(v.u64_field("index"@))
}

/// A web-search result item decodes: title and url strings, optional page age.
pub open spec fn search_item_ok(x: JsonView) -> bool {
    &&& x.is_object()
    &&& x.str_field("title"@) is Some
    &&& x.str_field("url"@) is Some
    &&& opt_string_member(x, "page_age"@) is Some
}

pub open spec fn search_item_view(x: JsonView) -> WebSearchResultView {
    WebSearchResultView {
        title: x.str_field("title"@)->0,
        url: x.str_field("url"@)->0,
        source: None,
        page_age: opt_string_member(x, "page_age"@)->0,
        snippet: None,
    }
}

/// A `content_block_start` event: tool calls are remembered by index and
/// reported; web-search results are reported; other blocks report nothing.
pub open spec fn block_start_step(st: AnthropicParserView, index: u32, b: JsonView) -> (
    AnthropicParserView,
    ParseResultView,
) {
    let bt = b.str_field("type"@);
    if b.is_object() && (bt == Some("tool_use"@) || bt == Some("server_tool_use"@)) {
        match (b.str_field("id"@), b.str_field("name"@), b.field("input"@)) {
            (Some(id), Some(name), Some(input)) => (
                AnthropicParserView {
                    tool_calls: tinsert(st.tool_calls, index, (name, Some(id))),
                    buffers: st.buffers,
                },
                ParseResultView::ToolCall(
                    tool_call_of(name, Some(id), Some(ToolInputView::Json(input)), Some(index), None),
                ),
            ),
            _ => (st, ParseResultView::NoEvent),
        }
    } else if b.is_object() && bt == Some("web_search_tool_result"@) {
        match (b.str_field("tool_use_id"@), b.array_field("content"@)) {
            (Some(tid), Some(items)) => if forall|k: int|
                0 <= k < items.len() ==> #[trigger] search_item_ok(items[k]) {
                (
                    st,
                    ParseResultView::WebSearchResult {
                        tool_name: "web_search_call"@,
                        tool_id: Some(tid),
                        results: Seq::new(items.len(), |k: int| search_item_view(items[k])),
                    },
                )
            } else {
                (st, ParseResultView::NoEvent)
            },
            _ => (st, ParseResultView::NoEvent),
        }
    } else {
        (st, ParseResultView::NoEvent)
    }
}

/// An `input_json_delta`: reported with the tool it belongs to; for a
/// web-search tool the fragment is also buffered, and the search action is
/// read from the buffer once it parses.
pub open spec fn input_json_step(st: AnthropicParserView, index: u32, partial: Seq<char>) -> (
    AnthropicParserView,
    ParseResultView,
) {
    let (name, id) = match tlookup(st.tool_calls, index) {
        Some(c) => c,
        None => (Seq::<char>::empty(), None),
    };
    if name.len() > 0 && is_web_search_name(name) {
        let buf = match tlookup(st.buffers, index) {
            Some(b) => b,
            None => Seq::<char>::empty(),
        } + partial;
        let web_search = match parsed_json(buf) {
            Some(j) => web_search_action_of(j),
            None => None,
        };
        (
            AnthropicParserView {
                tool_calls: st.tool_calls,
                buffers: tinsert(st.buffers, index, buf),
            },
            ParseResultView::ToolInput(
                ToolInputDeltaView {
                    partial_json: partial,
                    index: Some(index),
                    tool_name: Some(name),
                    tool_id: id,
                    web_search,
                },
            ),
        )
    } else {
        (
            st,
            ParseResultView::ToolInput(
                ToolInputDeltaView {
                    partial_json: partial,
                    index: Some(index),
                    tool_name: if name.len() == 0 {
                        None
                    } else {
                        Some(name)
                    },
                    tool_id: id,
                    web_search: None,
                },
            ),
        )
    }
}

/// A `content_block_delta`: text deltas and tool-argument fragments.
pub open spec fn block_delta_step(st: AnthropicParserView, index: u32, d: JsonView) -> (
    AnthropicParserView,
    ParseResultView,
) {
    let dt = d.str_field("type"@);
    if d.is_object() && dt == Some("text_delta"@) {
        match d.str_field("text"@) {
            Some(t) => (st, ParseResultView::TextDelta { text: t, request_id: None }),
            None => (st, ParseResultView::NoEvent),
        }
    } else if d.is_object() && dt == Some("input_json_delta"@) {
        match d.str_field("partial_json"@) {
            Some(p) => input_json_step(st, index, p),
            None => (st, ParseResultView::NoEvent),
        }
    } else {
        (st, ParseResultView::NoEvent)
    }
}

/// The typed reading of an event, tagged by its `type`.
pub open spec fn anthropic_typed_step(st: AnthropicParserView, v: JsonView) -> (
    AnthropicParserView,
    ParseResultView,
) {
    let ty = v.str_field("type"@);
    if !v.is_object() {
        (st, ParseResultView::NoEvent)
    } else if ty == Some("content_block_start"@) {
        match (block_index(v), v.field("content_block"@)) {
            (Some(i), Some(b)) => block_start_step(st, i, b),
            _ => (st, ParseResultView::NoEvent),
        }
    } else if ty == Some("content_block_delta"@) {
        match (block_index(v), v.field("delta"@)) {
            (Some(i), Some(d)) => block_delta_step(st, i, d),
            _ => (st, ParseResultView::NoEvent),
        }
    } else if ty == Some("content_block_stop"@) {
        match block_index(v) {
            Some(i) => (
                AnthropicParserView { tool_calls: st.tool_calls, buffers: tremove(st.buffers, i) },
                ParseResultView::NoEvent,
            ),
            None => (st, ParseResultView::NoEvent),
        }
    } else if ty == Some("error"@) {
        match v.field("error"@) {
            Some(e) => match (e.str_field("type"@), e.str_field("message"@)) {
                (Some(t), Some(m)) => (st, ParseResultView::Error { error_type: t, message: m }),
                _ => (st, ParseResultView::NoEvent),
            },
            None => (st, ParseResultView::NoEvent),
        }
    } else {
        (st, ParseResultView::NoEvent)
    }
}

/// One parsed event: thinking deltas, message starts and usage updates are
/// read first; everything else by its typed reading.
pub open spec fn anthropic_step(st: AnthropicParserView, v: JsonView) -> (
    AnthropicParserView,
    ParseResultView,
) {
    let ty = v.str_field("type"@);
    if ty == Some("content_block_delta"@) && str_of(v.field2("delta"@, "type"@)) == Some(
        "thinking_delta"@,
    ) {
        (
            st,
            ParseResultView::EventLog {
                event_type: "thinking_delta"@,
                message: str_of(v.field2("delta"@, "thinking"@)),
                data: Some(v),
            },
        )
    } else if ty == Some("message_start"@) {
        (
            st,
            ParseResultView::MessageStart {
                request_id: match str_of(v.field2("message"@, "id"@)) {
                    Some(id) => id,
                    None => Seq::empty(),
                },
                input_tokens: u32_of(u64_of(v.field3("message"@, "usage"@, "input_tokens"@))),
                output_tokens: u32_of(u64_of(v.field3("message"@, "usage"@, "output_tokens"@))),
                cached_input_tokens: u32_of(
                    u64_of(v.field3("message"@, "usage"@, "cache_read_input_tokens"@)),
                ),
                cache_creation_tokens: u32_of(
                    u64_of(v.field3("message"@, "usage"@, "cache_creation_input_tokens"@)),
                ),
            },
        )
    } else if ty == Some("message_delta"@) && u32_of(
        u64_of(v.field2("usage"@, "output_tokens"@)),
    ) is Some {
        (
            st,
            ParseResultView::TokenUsage {
                request_id: None,
                input_tokens: None,
                output_tokens: u32_of(u64_of(v.field2("usage"@, "output_tokens"@))),
                total_tokens: None,
                cached_input_tokens: None,
                cache_creation_tokens: None,
            },
        )
    } else {
        anthropic_typed_step(st, v)
    }
}

/// One raw event; text that is not JSON reports nothing.
pub open spec fn anthropic_event(st: AnthropicParserView, data: Seq<char>) -> (
    AnthropicParserView,
    ParseResultView,
) {
    match parsed_json(data) {
        Some(v) => anthropic_step(st, v),
        None => (st, ParseResultView::NoEvent),
    }
}

fn is_text(v: Option<&String>, lit: &str) -> (r: bool)
    ensures
        r == (v.deep_view() == Some(lit@)),
{
    match v {
        Some(s) => crate::text::same_text(s.as_str(), lit),
        None => false,
    }
}

fn member_text(v: &Json, key: &str, lit: &str) -> (r: bool)
    ensures
        r == (v@.str_field(key@) == Some(lit@)),
{
    match v.get(key) {
        Some(x) => is_text(x.as_str(), lit),
        None => false,
    }
}

fn search_results(items: &Vec<Json>) -> (r: Option<Vec<StreamWebSearchResult>>)
    ensures
        match r {
            Some(out) => (forall|k: int|
                0 <= k < items_view(items@).len() ==> #[trigger] search_item_ok(
                    items_view(items@)[k],
                )) && out.deep_view() == Seq::new(
                items_view(items@).len(),
                |k: int| search_item_view(items_view(items@)[k]),
            ),
            None => !(forall|k: int|
                0 <= k < items_view(items@).len() ==> #[trigger] search_item_ok(
                    items_view(items@)[k],
                )),
        },
{
    let ghost iv = items_view(items@);
    proof {
        lemma_items_view(items@);
    }
    let mut out: Vec<StreamWebSearchResult> = Vec::new();
    let mut i: usize = 0;
    while i < items.len()
        invariant
            i <= items@.len(),
            iv == items_view(items@),
            iv.len() == items@.len(),
            forall|j: int| 0 <= j < items@.len() ==> #[trigger] iv[j] == items@[j]@,
            forall|j: int| 0 <= j < i ==> #[trigger] search_item_ok(iv[j]),
            out.deep_view() == Seq::new(i as nat, |k: int| search_item_view(iv[k])),
        decreases items@.len() - i,
    {
        let x = &items[i];
        if !x.is_object() {
            assert(!search_item_ok(iv[i as int]));
            return None;
        }
        let title = match string_of(x.get("title")) {
            Some(t) => t,
            None => {
                assert(!search_item_ok(iv[i as int]));
                return None;
            },
        };
        let url = match string_of(x.get("url")) {
            Some(t) => t,
            None => {
                assert(!search_item_ok(iv[i as int]));
                return None;
            },
        };
        let page_age = match crate::json::decode_opt_string(x, "page_age") {
            Some(p) => p,
            None => {
                assert(!search_item_ok(iv[i as int]));
                return None;
            },
        };
        let ghost before = out.deep_view();
        let item = StreamWebSearchResult { title, url, source: None, page_age, snippet: None };
        assert(item@ == search_item_view(iv[i as int]));
        out.push(item);
        assert(out.deep_view() =~= before.push(item@));
        assert(out.deep_view() =~= Seq::new((i + 1) as nat, |k: int| search_item_view(iv[k])));
        i = i + 1;
    }
    Some(out)
}

impl AnthropicStreamParser {
    pub fn new() -> (r: Self)
        ensures
            r@.tool_calls.len() == 0,
            r@.buffers.len() == 0,
    {
        AnthropicStreamParser { tool_calls: IndexTable::new(), tool_input_buffers: IndexTable::new() }
    }

    fn block_start(&mut self, index: u32, b: &Json) -> (r: StreamParseResult)
        ensures
            (final(self)@, r@) == block_start_step(old(self)@, index, b@),
    {
        let is_tool = b.is_object() && (member_text(b, "type", "tool_use") || member_text(
            b,
            "type",
            "server_tool_use",
        ));
        if is_tool {
            let id = string_of(b.get("id"));
            let name = string_of(b.get("name"));
            let input = b.get("input");
            match (id, name, input) {
                (Some(id), Some(name), Some(input)) => {
                    self.tool_calls.insert(index, (name.clone(), Some(id.clone())));
                    let call = build_tool_call(
                        name,
                        Some(id),
                        Some(ToolInput::Json(input.copy())),
                        Some(index),
                        None,
                    );
                    StreamParseResult::ToolCall(call)
                },
                _ => StreamParseResult::NoEvent,
            }
        } else if b.is_object() && member_text(b, "type", "web_search_tool_result") {
            let tid = string_of(b.get("tool_use_id"));
            let items = match b.get("content") {
                Some(c) => c.as_array(),
                None => None,
            };
            match (tid, items) {
                (Some(tid), Some(items)) => match search_results(items) {
                    Some(results) => StreamParseResult::WebSearchResult {
                        tool_name: "web_search_call".to_owned(),
                        tool_id: Some(tid),
                        results,
                    },
                    None => StreamParseResult::NoEvent,
                },
                _ => StreamParseResult::NoEvent,
            }
        } else {
            StreamParseResult::NoEvent
        }
    }

    fn input_json(&mut self, index: u32, partial_json: String) -> (r: StreamParseResult)
        ensures
            (final(self)@, r@) == input_json_step(old(self)@, index, partial_json@),
    {
        let (tool_name, tool_id) = match self.tool_calls.get(index) {
            Some(c) => (c.0.clone(), crate::llm::clone_opt_string(&c.1)),
            None => (String::new(), None),
        };
        if !tool_name.as_str().is_empty() && tool_name_is_web_search(tool_name.as_str()) {
            let mut buffer = match self.tool_input_buffers.get(index) {
                Some(b) => b.clone(),
                None => String::new(),
            };
            buffer.append(partial_json.as_str());
            let web_search = match parse_json(buffer.as_str()) {
                Some(value) => parse_web_search_action(&value),
                None => None,
            };
            self.tool_input_buffers.insert(index, buffer);
            let delta = build_tool_input_delta(
                partial_json,
                Some(index),
                Some(tool_name),
                tool_id,
                web_search,
            );
            StreamParseResult::ToolInput(delta)
        } else {
            let name = if tool_name.as_str().is_empty() {
                None
            } else {
                Some(tool_name)
            };
            let delta = build_tool_input_delta(partial_json, Some(index), name, tool_id, None);
            StreamParseResult::ToolInput(delta)
        }
    }

    fn block_delta(&mut self, index: u32, d: &Json) -> (r: StreamParseResult)
        ensures
            (final(self)@, r@) == block_delta_step(old(self)@, index, d@),
    {
        if d.is_object() && member_text(d, "type", "text_delta") {
            match string_of(d.get("text")) {
                Some(text) => StreamParseResult::TextDelta { text, request_id: None },
                None => StreamParseResult::NoEvent,
            }
        } else if d.is_object() && member_text(d, "type", "input_json_delta") {
            match string_of(d.get("partial_json")) {
                Some(p) => self.input_json(index, p),
                None => StreamParseResult::NoEvent,
            }
        } else {
            StreamParseResult::NoEvent
        }
    }

    fn typed_step(&mut self, v: &Json) -> (r: StreamParseResult)
        ensures
            (final(self)@, r@) == anthropic_typed_step(old(self)@, v@),
    {
        if !v.is_object() {
            return StreamParseResult::NoEvent;
        }
        let index = u64_to_u32(as_u64_of(v.get("index")));
        if member_text(v, "type", "content_block_start") {
            match (index, v.get("content_block")) {
                (Some(i), Some(b)) => self.block_start(i, b),
                _ => StreamParseResult::NoEvent,
            }
        } else if member_text(v, "type", "content_block_delta") {
            match (index, v.get("delta")) {
                (Some(i), Some(d)) => self.block_delta(i, d),
                _ => StreamParseResult::NoEvent,
            }
        } else if member_text(v, "type", "content_block_stop") {
            match index {
                Some(i) => {
                    let _ = self.tool_input_buffers.remove(i);
                    StreamParseResult::NoEvent
                },
                None => StreamParseResult::NoEvent,
            }
        } else if member_text(v, "type", "error") {
            match v.get("error") {
                Some(e) => match (string_of(e.get("type")), string_of(e.get("message"))) {
                    (Some(t), Some(m)) => StreamParseResult::Error { error_type: t, message: m },
                    _ => StreamParseResult::NoEvent,
                },
                None => StreamParseResult::NoEvent,
            }
        } else {
            StreamParseResult::NoEvent
        }
    }

    /// Decodes one parsed event.
    pub fn parse_value(&mut self, v: &Json) -> (r: StreamParseResult)
        ensures
            (final(self)@, r@) == anthropic_step(old(self)@, v@),
    {
        if member_text(v, "type", "content_block_delta") && is_text(
            string_of(get2(v, "delta", "type")).as_ref(),
            "thinking_delta",
        ) {
            let message = string_of(get2(v, "delta", "thinking"));
            return StreamParseResult::EventLog {
                event_type: "thinking_delta".to_owned(),
                message,
                data: Some(v.copy()),
            };
        }
        if member_text(v, "type", "message_start") {
            let request_id = match string_of(get2(v, "message", "id")) {
                Some(id) => id,
                None => String::new(),
            };
            let input_tokens = u64_to_u32(as_u64_of(get3(v, "message", "usage", "input_tokens")));
            let output_tokens = u64_to_u32(
                as_u64_of(get3(v, "message", "usage", "output_tokens")),
            );
            let cache_creation_tokens = u64_to_u32(
                as_u64_of(get3(v, "message", "usage", "cache_creation_input_tokens")),
            );
            let cached_input_tokens = u64_to_u32(
                as_u64_of(get3(v, "message", "usage", "cache_read_input_tokens")),
            );
            return StreamParseResult::MessageStart {
                request_id,
                input_tokens,
                output_tokens,
                cached_input_tokens,
                cache_creation_tokens,
            };
        }
        if member_text(v, "type", "message_delta") {
            let output_tokens = u64_to_u32(as_u64_of(get2(v, "usage", "output_tokens")));
            if output_tokens.is_some() {
                return StreamParseResult::TokenUsage {
                    request_id: None,
                    input_tokens: None,
                    output_tokens,
                    total_tokens: None,
                    cached_input_tokens: None,
                    cache_creation_tokens: None,
                };
            }
        }
        self.typed_step(v)
    }

    /// Decodes one raw server-sent event.
    pub fn parse_event(&mut self, data: &str) -> (r: StreamParseResult)
        ensures
            (final(self)@, r@) == anthropic_event(old(self)@, data@),
    {
        match parse_json(data) {
            Some(v) => self.parse_value(&v),
            None => StreamParseResult::NoEvent,
        }
    }
}

impl Default for AnthropicStreamParser {
    fn default() -> (r: Self)
        ensures
            r@.tool_calls.len() == 0,
            r@.buffers.len() == 0,
    {
        AnthropicStreamParser::new()
    }
}

// ---------------------------------------------------------------------------
// The continuation request after a round of tool calls.
#[derive(Debug, Clone, Copy, PartialEq, Eq, Structural)]
pub enum AnthropicRole {
    User,
    Assistant,
}

/// A content block of a Messages request.
pub enum AnthropicContentBlock {
    Text { text: String },
    ToolUse { id: String, name: String, input: Json },
    ToolResult { tool_use_id: String, content: String, is_error: Option<bool> },
}

pub enum ContentBlockView {
    Text { text: Seq<char> },
    ToolUse { id: Seq<char>, name: Seq<char>, input: JsonView },
    ToolResult { tool_use_id: Seq<char>, content: Seq<char>, is_error: Option<bool> },
}

impl View for AnthropicContentBlock {
    type V = ContentBlockView;

    open spec fn view(&self) -> ContentBlockView {
        match self {
            AnthropicContentBlock::Text { text } => ContentBlockView::Text { text: text@ },
            AnthropicContentBlock::ToolUse { id, name, input } => ContentBlockView::ToolUse {
                id: id@,
                name: name@,
                input: input@,
            },
            AnthropicContentBlock::ToolResult { tool_use_id, content, is_error } =>
                ContentBlockView::ToolResult {
                tool_use_id: tool_use_id@,
                content: content@,
                is_error: *is_error,
            },
        }
    }
}

impl DeepView for AnthropicContentBlock {
    type V = ContentBlockView;

    open spec fn deep_view(&self) -> ContentBlockView {
        self.view()
    }
}

/// A message of a Messages request.
pub struct AnthropicMessage {
    pub role: AnthropicRole,
    pub content: Vec<AnthropicContentBlock>,
}

pub struct MessageView {
    pub role: AnthropicRole,
    pub content: Seq<ContentBlockView>,
}

impl View for AnthropicMessage {
    type V = MessageView;

    open spec fn view(&self) -> MessageView {
        MessageView { role: self.role, content: self.content.deep_view() }
    }
}

impl DeepView for AnthropicMessage {
    type V = MessageView;

    open spec fn deep_view(&self) -> MessageView {
        self.view()
    }
}

impl AnthropicMessage {
    pub fn with_blocks(role: AnthropicRole, blocks: Vec<AnthropicContentBlock>) -> (r: Self)
        ensures
            r@ == (MessageView { role, content: blocks.deep_view() }),
    {
        AnthropicMessage { role, content: blocks }
    }
}

/// The messages of the next request: the conversation so far (or, on the
/// first round, the base conversation with its system prompt), then the
/// assistant's tool uses when there are any, then the user's tool results.
pub open spec fn continuation_of(
    existing: Option<Seq<MessageView>>,
    base: (Seq<MessageView>, Option<Seq<char>>),
    uses: Seq<ContentBlockView>,
    results: Seq<ContentBlockView>,
) -> (Seq<MessageView>, Option<Seq<char>>) {
    let (messages, system) = match existing {
        Some(m) => (m, None),
        None => base,
    };
    let with_uses = if uses.len() > 0 {
        messages.push(MessageView { role: AnthropicRole::Assistant, content: uses })
    } else {
        messages
    };
    (with_uses.push(MessageView { role: AnthropicRole::User, content: results }), system)
}

/// Builds the next request's messages (see `continuation_of`). The base
/// conversation is the prompt history already converted to messages, with
/// its system prompt.
pub fn build_anthropic_continuation(
    existing: Option<Vec<AnthropicMessage>>,
    base_conversation: (Vec<AnthropicMessage>, Option<String>),
    tool_use_blocks: Vec<AnthropicContentBlock>,
    tool_result_blocks: Vec<AnthropicContentBlock>,
) -> (r: (Vec<AnthropicMessage>, Option<String>))
    ensures
        (r.0.deep_view(), r.1.deep_view()) == continuation_of(
            existing.deep_view(),
            (base_conversation.0.deep_view(), base_conversation.1.deep_view()),
            tool_use_blocks.deep_view(),
            tool_result_blocks.deep_view(),
        ),
{
    let (mut messages, system_prompt) = match existing {
        Some(m) => (m, None),
        None => base_conversation,
    };
    let ghost before = messages.deep_view();
    if tool_use_blocks.len() > 0 {
        let m = AnthropicMessage::with_blocks(AnthropicRole::Assistant, tool_use_blocks);
        let ghost mv = m@;
        messages.push(m);
        assert(messages.deep_view() =~= before.push(mv));
    } else {
        assert(tool_use_blocks.deep_view().len() == 0);
    }
    let ghost mid = messages.deep_view();
    let m = AnthropicMessage::with_blocks(AnthropicRole::User, tool_result_blocks);
    let ghost mv = m@;
    messages.push(m);
    assert(messages.deep_view() =~= mid.push(mv));
    (messages, system_prompt)
}

/// The pair of blocks that records one tool call and its outcome: the tool
/// use, and the result carrying the output's JSON text.
pub fn make_anthropic_tool_blocks(
    call_id: String,
    tool_name: String,
    args: Json,
    output: &Json,
    is_error: bool,
) -> (r: (AnthropicContentBlock, AnthropicContentBlock))
    ensures
        r.0@ == (ContentBlockView::ToolUse { id: call_id@, name: tool_name@, input: args@ }),
        r.1@ is ToolResult,
        r.1@->tool_use_id == call_id@,
        r.1@->is_error == Some(is_error),
        r.1@->content == json_text(output@),
{
    let content = match json_to_string(output) {
        Some(t) => t,
        None => "{}".to_owned(),
    };
    (
        AnthropicContentBlock::ToolUse { id: call_id.clone(), name: tool_name, input: args },
        AnthropicContentBlock::ToolResult { tool_use_id: call_id, content, is_error: Some(is_error) },
    )
}

} // verus!
