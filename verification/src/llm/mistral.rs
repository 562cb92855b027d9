//! Decoder for Mistral's chat-completion stream, which streams tool-call
//! arguments in fragments keyed by call id or by position.
use vstd::prelude::*;

use crate::json::{
    Json, JsonView, decode_opt_string, decode_opt_u32, decode_u32, items_view, lemma_items_view,
    opt_string_member, opt_u32_member, parse_json, parsed_json, str_of, string_of, u32_member,
};
use crate::table::{IndexTable, NameTable, tinsert, tlookup};
use crate::text::{decimal, push_decimal, same_text, trim, trim_seq};
use super::{
    ParseResultView, StreamParseResult, ToolInput, ToolInputDeltaView, ToolInputView,
    build_tool_call, build_tool_input_delta, parse_web_search_action, tool_call_of,
    web_search_action_of, clone_opt_string,
};
use vstd::string::StringExecFns;

verus! {

/// The `function` part of a streamed tool call.
pub struct MistralFunctionDelta {
    pub name: Option<String>,
    pub arguments: Option<String>,
}

/// One streamed tool-call fragment.
pub struct MistralToolCallDelta {
    pub id: Option<String>,
    pub index: Option<u32>,
    pub function: Option<MistralFunctionDelta>,
}

pub struct FunctionDeltaView {
    pub name: Option<Seq<char>>,
    pub arguments: Option<Seq<char>>,
}

pub struct ToolCallDeltaView {
    pub id: Option<Seq<char>>,
    pub index: Option<u32>,
    pub function: Option<FunctionDeltaView>,
}

impl View for MistralFunctionDelta {
    type V = FunctionDeltaView;

    open spec fn view(&self) -> FunctionDeltaView {
        FunctionDeltaView { name: self.name.deep_view(), arguments: self.arguments.deep_view() }
    }
}

impl DeepView for MistralFunctionDelta {
    type V = FunctionDeltaView;

    open spec fn deep_view(&self) -> FunctionDeltaView {
        self.view()
    }
}

impl View for MistralToolCallDelta {
    type V = ToolCallDeltaView;

    open spec fn view(&self) -> ToolCallDeltaView {
        ToolCallDeltaView {
            id: self.id.deep_view(),
            index: self.index,
            function: self.function.deep_view(),
        }
    }
}

impl DeepView for MistralToolCallDelta {
    type V = ToolCallDeltaView;

    open spec fn deep_view(&self) -> ToolCallDeltaView {
        self.view()
    }
}

impl ToolCallDeltaView {
    pub open spec fn name(self) -> Option<Seq<char>> {
        match self.function {
            Some(f) => f.name,
            None => None,
        }
    }

    pub open spec fn arguments(self) -> Option<Seq<char>> {
        match self.function {
            Some(f) => f.arguments,
            None => None,
        }
    }
}

/// What the parser remembers of one tool call.
pub struct MistralToolCallMeta {
    pub name: Option<String>,
    pub buffer: String,
    pub index: Option<u32>,
}

pub struct ToolCallMetaView {
    pub name: Option<Seq<char>>,
    pub buffer: Seq<char>,
    pub index: Option<u32>,
}

impl View for MistralToolCallMeta {
    type V = ToolCallMetaView;

    open spec fn view(&self) -> ToolCallMetaView {
        ToolCallMetaView { name: self.name.deep_view(), buffer: self.buffer@, index: self.index }
    }
}

impl DeepView for MistralToolCallMeta {
    type V = ToolCallMetaView;

    open spec fn deep_view(&self) -> ToolCallMetaView {
        self.view()
    }
}

impl MistralToolCallMeta {
    pub fn copy(&self) -> (r: MistralToolCallMeta)
        ensures
            r@ == self@,
    {
        MistralToolCallMeta {
            name: clone_opt_string(&self.name),
            buffer: self.buffer.clone(),
            index: self.index,
        }
    }
}

/// Model of the parser's memory: tool calls by id, and the id given to each
/// position.
pub struct MistralParserView {
    pub tool_calls: Seq<(Seq<char>, ToolCallMetaView)>,
    pub index_to_id: Seq<(u32, Seq<char>)>,
}

/// Mistral stream parser.
pub struct MistralStreamParser {
    tool_calls: NameTable<MistralToolCallMeta>,
    index_to_id: IndexTable<String>,
}

impl View for MistralStreamParser {
    type V = MistralParserView;

    closed spec fn view(&self) -> MistralParserView {
        MistralParserView { tool_calls: self.tool_calls@, index_to_id: self.index_to_id@ }
    }
}

// ---------------------------------------------------------------------------
// Decoding of the wire format.
/// The optional `function` part: missing or null, or an object with optional
/// string `name` and `arguments`.
pub open spec fn decode_function(f: Option<JsonView>) -> Option<Option<FunctionDeltaView>> {
    match f {
        None => Some(None),
        Some(JsonView::Null) => Some(None),
        Some(x) => if x.is_object() && opt_string_member(x, "name"@) is Some && opt_string_member(
            x,
            "arguments"@,
        ) is Some {
            Some(
                Some(
                    FunctionDeltaView {
                        name: opt_string_member(x, "name"@)->0,
                        arguments: opt_string_member(x, "arguments"@)->0,
                    },
                ),
            )
        } else {
            None
        },
    }
}

/// A tool-call fragment: an object with optional `id`, `index` and `function`.
pub open spec fn decode_tool_call(j: JsonView) -> Option<ToolCallDeltaView> {
    if j.is_object() && opt_string_member(j, "id"@) is Some && opt_u32_member(j, "index"@) is Some
        && decode_function(j.field("function"@)) is Some {
        Some(
            ToolCallDeltaView {
                id: opt_string_member(j, "id"@)->0,
                index: opt_u32_member(j, "index"@)->0,
                function: decode_function(j.field("function"@))->0,
            },
        )
    } else {
        None
    }
}

/// A list of fragments decodes when every item does.
pub open spec fn decode_tool_calls(items: Seq<JsonView>) -> Option<Seq<ToolCallDeltaView>> {
    if forall|k: int| 0 <= k < items.len() ==> (#[trigger] decode_tool_call(items[k])) is Some {
        Some(Seq::new(items.len(), |k: int| decode_tool_call(items[k])->0))
    } else {
        None
    }
}

pub struct ChoiceView {
    pub content: Option<Seq<char>>,
    pub tool_calls: Option<Seq<ToolCallDeltaView>>,
    pub finish_reason: Option<Seq<char>>,
}

/// A choice: an object whose `delta` object has an optional string `content`
/// and optional list `tool_calls`, with an optional string `finish_reason`.
pub open spec fn decode_choice(j: JsonView) -> Option<ChoiceView> {
    match j.field("delta"@) {
        Some(d) => {
            let calls: Option<Option<Seq<ToolCallDeltaView>>> = match d.field("tool_calls"@) {
                None => Some(None),
                Some(JsonView::Null) => Some(None),
                Some(JsonView::Array(items)) => match decode_tool_calls(items) {
                    Some(c) => Some(Some(c)),
                    None => None,
                },
                _ => None,
            };
            if j.is_object() && d.is_object() && opt_string_member(d, "content"@) is Some
                && calls is Some && opt_string_member(j, "finish_reason"@) is Some {
                Some(
                    ChoiceView {
                        content: opt_string_member(d, "content"@)->0,
                        tool_calls: calls->0,
                        finish_reason: opt_string_member(j, "finish_reason"@)->0,
                    },
                )
            } else {
                None
            }
        },
        None => None,
    }
}

pub struct ChunkView {
    pub id: Seq<char>,
    pub choices: Seq<ChoiceView>,
    pub usage: Option<(u32, u32, u32)>,
}

/// Token usage: missing or null, or an object with `prompt_tokens`,
/// `completion_tokens` and `total_tokens`.
pub open spec fn decode_usage(u: Option<JsonView>) -> Option<Option<(u32, u32, u32)>> {
    match u {
        None => Some(None),
        Some(JsonView::Null) => Some(None),
        Some(x) => match (
            u32_member(x, "prompt_tokens"@),
            u32_member(x, "completion_tokens"@),
            u32_member(x, "total_tokens"@),
        ) {
            (Some(p), Some(c), Some(t)) => if x.is_object() {
                Some(Some((p, c, t)))
            } else {
                None
            },
            _ => None,
        },
    }
}

/// A chunk: an object with a string `id`, a list of decodable `choices` and
/// optional `usage`.
pub open spec fn decode_chunk(v: JsonView) -> Option<ChunkView> {
    match (v.str_field("id"@), v.array_field("choices"@), decode_usage(v.field("usage"@))) {
        (Some(id), Some(cs), Some(usage)) => if v.is_object() && forall|k: int|
            0 <= k < cs.len() ==> (#[trigger] decode_choice(cs[k])) is Some {
            Some(
                ChunkView {
                    id,
                    choices: Seq::new(cs.len(), |k: int| decode_choice(cs[k])->0),
                    usage,
                },
            )
        } else {
            None
        },
        _ => None,
    }
}

// ---------------------------------------------------------------------------
// Steps of the parser.
/// The id given to a position that never received one.
pub open spec fn fallback_id(index: u32) -> Seq<char> {
    "mistral_tool_"@ + decimal(index as nat)
}

/// The call id of a fragment: its own id (remembered for its position), else
/// the id remembered for its position, else one made from the position.
pub open spec fn resolve_step(st: MistralParserView, call: ToolCallDeltaView) -> (
    MistralParserView,
    Seq<char>,
) {
    match call.id {
        Some(id) => (
            match call.index {
                Some(i) => MistralParserView {
                    tool_calls: st.tool_calls,
                    index_to_id: tinsert(st.index_to_id, i, id),
                },
                None => st,
            },
            id,
        ),
        None => match call.index {
            Some(i) => match tlookup(st.index_to_id, i) {
                Some(e) => (st, e),
                None => (
                    MistralParserView {
                        tool_calls: st.tool_calls,
                        index_to_id: tinsert(st.index_to_id, i, fallback_id(i)),
                    },
                    fallback_id(i),
                ),
            },
            None => (st, "mistral_tool_0"@),
        },
    }
}

/// The record of a call after a fragment: name and position are filled in
/// once, argument text is appended.
pub open spec fn merged_meta(
    old: Option<ToolCallMetaView>,
    name: Option<Seq<char>>,
    index: Option<u32>,
    delta: Option<Seq<char>>,
) -> ToolCallMetaView {
    let base = match old {
        Some(m) => m,
        None => ToolCallMetaView { name, buffer: Seq::empty(), index },
    };
    ToolCallMetaView {
        name: if base.name is None && name is Some {
            name
        } else {
            base.name
        },
        buffer: match delta {
            Some(d) => base.buffer + d,
            None => base.buffer,
        },
        index: if base.index is None && index is Some {
            index
        } else {
            base.index
        },
    }
}

pub open spec fn upsert_step(
    st: MistralParserView,
    id: Seq<char>,
    name: Option<Seq<char>>,
    index: Option<u32>,
    delta: Option<Seq<char>>,
) -> (MistralParserView, ToolCallMetaView) {
    let m = merged_meta(tlookup(st.tool_calls, id), name, index, delta);
    (MistralParserView { tool_calls: tinsert(st.tool_calls, id, m), index_to_id: st.index_to_id }, m)
}

pub open spec fn name_or_default(name: Option<Seq<char>>) -> Seq<char> {
    match name {
        Some(n) => n,
        None => "tool_call"@,
    }
}

pub open spec fn is_final_reason(fr: Option<Seq<char>>) -> bool {
    fr == Some("tool_calls"@) || fr == Some("stop"@)
}

/// One fragment: a complete call once the arguments parse and the choice has
/// finished; otherwise the argument text so far, as a tool-input delta.
pub open spec fn handle_step(
    st: MistralParserView,
    call: ToolCallDeltaView,
    fr: Option<Seq<char>>,
    raw: JsonView,
) -> (MistralParserView, Option<ParseResultView>) {
    let (st1, tool_id) = resolve_step(st, call);
    let (st2, m) = upsert_step(st1, tool_id, call.name(), call.index, call.arguments());
    let text = match call.arguments() {
        Some(a) => a,
        None => m.buffer,
    };
    if text.len() == 0 {
        (st2, None)
    } else {
        match parsed_json(text) {
            Some(j) => if is_final_reason(fr) {
                (
                    st2,
                    Some(
                        ParseResultView::ToolCall(
                            tool_call_of(
                                name_or_default(m.name),
                                Some(tool_id),
                                Some(ToolInputView::Json(j)),
                                call.index,
                                Some(raw),
                            ),
                        ),
                    ),
                )
            } else {
                (
                    st2,
                    Some(
                        ParseResultView::ToolInput(
                            ToolInputDeltaView {
                                partial_json: text,
                                index: call.index,
                                tool_name: m.name,
                                tool_id: Some(tool_id),
                                web_search: web_search_action_of(j),
                            },
                        ),
                    ),
                )
            },
            None => (
                st2,
                Some(
                    ParseResultView::ToolInput(
                        ToolInputDeltaView {
                            partial_json: text,
                            index: call.index,
                            tool_name: m.name,
                            tool_id: Some(tool_id),
                            web_search: None,
                        },
                    ),
                ),
            ),
        }
    }
}

/// Fragments in order, until one yields a result.
pub open spec fn calls_step(
    st: MistralParserView,
    calls: Seq<ToolCallDeltaView>,
    fr: Option<Seq<char>>,
    raw: JsonView,
) -> (MistralParserView, Option<ParseResultView>)
    decreases calls.len(),
{
    if calls.len() == 0 {
        (st, None)
    } else {
        let (st1, r) = handle_step(st, calls[0], fr, raw);
        if r is Some {
            (st1, r)
        } else {
            calls_step(st1, calls.subrange(1, calls.len() as int), fr, raw)
        }
    }
}

/// Raw fragments in order, skipping those that do not decode.
pub open spec fn raw_calls_step(
    st: MistralParserView,
    items: Seq<JsonView>,
    fr: Option<Seq<char>>,
    raw: JsonView,
) -> (MistralParserView, Option<ParseResultView>)
    decreases items.len(),
{
    if items.len() == 0 {
        (st, None)
    } else {
        let (st1, r) = match decode_tool_call(items[0]) {
            Some(c) => handle_step(st, c, fr, raw),
            None => (st, None),
        };
        if r is Some {
            (st1, r)
        } else {
            raw_calls_step(st1, items.subrange(1, items.len() as int), fr, raw)
        }
    }
}

/// The earliest remembered call is dropped, and reported when its buffered
/// arguments parse.
pub open spec fn pop_step(st: MistralParserView, raw: JsonView) -> (
    MistralParserView,
    Option<ParseResultView>,
) {
    if st.tool_calls.len() == 0 {
        (st, None)
    } else {
        let (id, m) = st.tool_calls[0];
        let st1 = MistralParserView {
            tool_calls: st.tool_calls.subrange(1, st.tool_calls.len() as int),
            index_to_id: st.index_to_id,
        };
        if m.buffer.len() == 0 {
            (st1, None)
        } else {
            match parsed_json(m.buffer) {
                Some(j) => (
                    st1,
                    Some(
                        ParseResultView::ToolCall(
                            tool_call_of(
                                name_or_default(m.name),
                                Some(id),
                                Some(ToolInputView::Json(j)),
                                m.index,
                                Some(raw),
                            ),
                        ),
                    ),
                ),
                None => (st1, None),
            }
        }
    }
}

/// The first choice of a chunk: its text, else its tool-call fragments, else
/// a buffered call when the choice finished for tool calls.
pub open spec fn choice_step(st: MistralParserView, id: Seq<char>, ch: ChoiceView, raw: JsonView) -> (
    MistralParserView,
    Option<ParseResultView>,
) {
    match ch.content {
        Some(t) => (st, Some(ParseResultView::TextDelta { text: t, request_id: Some(id) })),
        None => {
            let (st1, r) = match ch.tool_calls {
                Some(calls) => calls_step(st, calls, ch.finish_reason, raw),
                None => (st, None),
            };
            if r is Some {
                (st1, r)
            } else if ch.finish_reason == Some("tool_calls"@) {
                pop_step(st1, raw)
            } else {
                (st1, None)
            }
        },
    }
}

/// Tool calls of a complete `message` in the first choice.
pub open spec fn raw_step(st: MistralParserView, v: JsonView) -> (MistralParserView, ParseResultView) {
    match v.array_field("choices"@) {
        Some(cs) => if cs.len() > 0 {
            let ch = cs[0];
            let fr = str_of(ch.field("finish_reason"@));
            match ch.field("message"@) {
                Some(m) => match m.array_field("tool_calls"@) {
                    Some(items) => {
                        let (st1, r) = raw_calls_step(st, items, fr, v);
                        match r {
                            Some(x) => (st1, x),
                            None => (st1, ParseResultView::NoEvent),
                        }
                    },
                    None => (st, ParseResultView::NoEvent),
                },
                None => (st, ParseResultView::NoEvent),
            }
        } else {
            (st, ParseResultView::NoEvent)
        },
        None => (st, ParseResultView::NoEvent),
    }
}

/// One parsed event.
pub open spec fn mistral_step(st: MistralParserView, v: JsonView) -> (MistralParserView, ParseResultView) {
    match decode_chunk(v) {
        Some(c) => {
            let (st1, r) = if c.choices.len() > 0 {
                choice_step(st, c.id, c.choices[0], v)
            } else {
                (st, None)
            };
            match r {
                Some(x) => (st1, x),
                None => match c.usage {
                    Some((p, co, t)) => (
                        st1,
                        ParseResultView::TokenUsage {
                            request_id: Some(c.id),
                            input_tokens: Some(p),
                            output_tokens: Some(co),
                            total_tokens: Some(t),
                            cached_input_tokens: None,
                            cache_creation_tokens: None,
                        },
                    ),
                    None => raw_step(st1, v),
                },
            }
        },
        None => raw_step(st, v),
    }
}

/// One raw event: `[DONE]`, `null` and text that is not JSON report nothing.
pub open spec fn mistral_event(st: MistralParserView, data: Seq<char>) -> (
    MistralParserView,
    ParseResultView,
) {
    if trim_seq(data) == "[DONE]"@ || trim_seq(data) == "null"@ {
        (st, ParseResultView::NoEvent)
    } else {
        match parsed_json(data) {
            Some(v) => mistral_step(st, v),
            None => (st, ParseResultView::NoEvent),
        }
    }
}

// ---------------------------------------------------------------------------
// Executable decoding.
fn decode_function_exec(f: Option<&Json>) -> (r: Option<Option<MistralFunctionDelta>>)
    ensures
        r.deep_view() == decode_function(f.deep_view()),
{
    match f {
        None => Some(None),
        Some(Json::Null) => Some(None),
        Some(x) => {
            if !x.is_object() {
                return None;
            }
            match (decode_opt_string(x, "name"), decode_opt_string(x, "arguments")) {
                (Some(name), Some(arguments)) => Some(Some(MistralFunctionDelta { name, arguments })),
                _ => None,
            }
        },
    }
}

/// Decodes one tool-call fragment.
pub fn decode_tool_call_exec(j: &Json) -> (r: Option<MistralToolCallDelta>)
    ensures
        r.deep_view() == decode_tool_call(j@),
{
    if !j.is_object() {
        return None;
    }
    match (decode_opt_string(j, "id"), decode_opt_u32(j, "index"), decode_function_exec(j.get("function"))) {
        (Some(id), Some(index), Some(function)) => Some(MistralToolCallDelta { id, index, function }),
        _ => None,
    }
}

fn decode_tool_calls_exec(items: &Vec<Json>) -> (r: Option<Vec<MistralToolCallDelta>>)
    ensures
        r.deep_view() == decode_tool_calls(items_view(items@)),
{
    let ghost iv = items_view(items@);
    proof {
        lemma_items_view(items@);
    }
    let mut out: Vec<MistralToolCallDelta> = Vec::new();
    let mut i: usize = 0;
    while i < items.len()
        invariant
            i <= items@.len(),
            iv == items_view(items@),
            iv.len() == items@.len(),
            forall|j: int| 0 <= j < items@.len() ==> #[trigger] iv[j] == items@[j]@,
            forall|j: int| 0 <= j < i ==> (#[trigger] decode_tool_call(iv[j])) is Some,
            out.deep_view() == Seq::new(i as nat, |k: int| decode_tool_call(iv[k])->0),
        decreases items@.len() - i,
    {
        match decode_tool_call_exec(&items[i]) {
            Some(c) => {
                let ghost before = out.deep_view();
                let ghost cv = c.deep_view();
                out.push(c);
                assert(out.deep_view() =~= before.push(cv));
                assert(out.deep_view() =~= Seq::new((i + 1) as nat, |k: int| decode_tool_call(iv[k])->0));
            },
            None => {
                assert(decode_tool_call(iv[i as int]) is None);
                return None;
            },
        }
        i = i + 1;
    }
    Some(out)
}

/// One decoded choice of a chunk.
pub struct MistralChoice {
    pub content: Option<String>,
    pub tool_calls: Option<Vec<MistralToolCallDelta>>,
    pub finish_reason: Option<String>,
}

impl View for MistralChoice {
    type V = ChoiceView;

    open spec fn view(&self) -> ChoiceView {
        ChoiceView {
            content: self.content.deep_view(),
            tool_calls: self.tool_calls.deep_view(),
            finish_reason: self.finish_reason.deep_view(),
        }
    }
}

impl DeepView for MistralChoice {
    type V = ChoiceView;

    open spec fn deep_view(&self) -> ChoiceView {
        self.view()
    }
}

fn decode_choice_exec(j: &Json) -> (r: Option<MistralChoice>)
    ensures
        r.deep_view() == decode_choice(j@),
{
    let d = match j.get("delta") {
        Some(d) => d,
        None => return None,
    };
    let calls: Option<Option<Vec<MistralToolCallDelta>>> = match d.get("tool_calls") {
        None => Some(None),
        Some(Json::Null) => Some(None),
        Some(Json::Array(items)) => match decode_tool_calls_exec(items) {
            Some(c) => Some(Some(c)),
            None => None,
        },
        Some(_) => None,
    };
    if !(j.is_object() && d.is_object()) {
        return None;
    }
    match (decode_opt_string(d, "content"), calls, decode_opt_string(j, "finish_reason")) {
        (Some(content), Some(tool_calls), Some(finish_reason)) => Some(
            MistralChoice { content, tool_calls, finish_reason },
        ),
        _ => None,
    }
}

fn decode_usage_exec(u: Option<&Json>) -> (r: Option<Option<(u32, u32, u32)>>)
    ensures
        r == decode_usage(u.deep_view()),
{
    match u {
        None => Some(None),
        Some(Json::Null) => Some(None),
        Some(x) => match (
            decode_u32(x, "prompt_tokens"),
            decode_u32(x, "completion_tokens"),
            decode_u32(x, "total_tokens"),
        ) {
            (Some(p), Some(c), Some(t)) => if x.is_object() {
                Some(Some((p, c, t)))
            } else {
                None
            },
            _ => None,
        },
    }
}

/// One decoded chunk.
pub struct MistralChunk {
    pub id: String,
    pub choices: Vec<MistralChoice>,
    pub usage: Option<(u32, u32, u32)>,
}

impl View for MistralChunk {
    type V = ChunkView;

    open spec fn view(&self) -> ChunkView {
        ChunkView { id: self.id@, choices: self.choices.deep_view(), usage: self.usage }
    }
}

fn decode_chunk_exec(v: &Json) -> (r: Option<MistralChunk>)
    ensures
        match r {
            Some(c) => decode_chunk(v@) == Some(c@),
            None => decode_chunk(v@) is None,
        },
{
    let id = match string_of(v.get("id")) {
        Some(id) => id,
        None => return None,
    };
    let cs = match v.get("choices") {
        Some(x) => match x.as_array() {
            Some(a) => a,
            None => return None,
        },
        None => return None,
    };
    let usage = match decode_usage_exec(v.get("usage")) {
        Some(u) => u,
        None => return None,
    };
    if !v.is_object() {
        return None;
    }
    let ghost iv = items_view(cs@);
    proof {
        lemma_items_view(cs@);
    }
    let mut choices: Vec<MistralChoice> = Vec::new();
    let mut i: usize = 0;
    while i < cs.len()
        invariant
            i <= cs@.len(),
            iv == items_view(cs@),
            iv.len() == cs@.len(),
            v@.array_field("choices"@) == Some(iv),
            v@.str_field("id"@) == Some(id@),
            decode_usage(v@.field("usage"@)) == Some(usage),
            v@.is_object(),
            forall|j: int| 0 <= j < cs@.len() ==> #[trigger] iv[j] == cs@[j]@,
            forall|j: int| 0 <= j < i ==> (#[trigger] decode_choice(iv[j])) is Some,
            choices.deep_view() == Seq::new(i as nat, |k: int| decode_choice(iv[k])->0),
        decreases cs@.len() - i,
    {
        match decode_choice_exec(&cs[i]) {
            Some(c) => {
                let ghost before = choices.deep_view();
                let ghost cv = c.deep_view();
                choices.push(c);
                assert(choices.deep_view() =~= before.push(cv));
                assert(choices.deep_view() =~= Seq::new((i + 1) as nat, |k: int| decode_choice(iv[k])->0));
            },
            None => {
                assert(decode_choice(iv[i as int]) is None);
                return None;
            },
        }
        i = i + 1;
    }
    Some(MistralChunk { id, choices, usage })
}

fn fallback_text(index: u32) -> (r: String)
    ensures
        r@ == fallback_id(index),
{
    let mut out = "mistral_tool_".to_owned();
    push_decimal(&mut out, index as u64);
    out
}

impl MistralStreamParser {
    pub fn new() -> (r: Self)
        ensures
            r@.tool_calls.len() == 0,
            r@.index_to_id.len() == 0,
    {
        MistralStreamParser { tool_calls: NameTable::new(), index_to_id: IndexTable::new() }
    }

    /// The call id of a fragment (see `resolve_step`).
    pub fn resolve_tool_id(&mut self, call: &MistralToolCallDelta) -> (r: String)
        ensures
            (final(self)@, r@) == resolve_step(old(self)@, call@),
    {
        if let Some(id) = &call.id {
            if let Some(index) = call.index {
                self.index_to_id.insert(index, id.clone());
            }
            return id.clone();
        }
        if let Some(index) = call.index {
            if let Some(existing) = self.index_to_id.get(index) {
                return existing.clone();
            }
            let fallback = fallback_text(index);
            self.index_to_id.insert(index, fallback.clone());
            return fallback;
        }
        "mistral_tool_0".to_owned()
    }

    /// Records a fragment for `tool_id` and returns the call's name and the
    /// argument text buffered so far.
    pub fn upsert_tool_meta(
        &mut self,
        tool_id: String,
        name: Option<String>,
        index: Option<u32>,
        arguments_delta: Option<&str>,
    ) -> (r: (Option<String>, String))
        ensures
            ({
                let (st, m) = upsert_step(
                    old(self)@,
                    tool_id@,
                    name.deep_view(),
                    index,
                    arguments_delta.deep_view(),
                );
                &&& final(self)@ == st
                &&& r.0.deep_view() == m.name
                &&& r.1@ == m.buffer
            }),
    {
        let mut entry = match self.tool_calls.get(tool_id.as_str()) {
            Some(m) => m.copy(),
            None => MistralToolCallMeta { name: clone_opt_string(&name), buffer: String::new(), index },
        };
        if entry.name.is_none() && name.is_some() {
            entry.name = name;
        }
        if entry.index.is_none() && index.is_some() {
            entry.index = index;
        }
        if let Some(delta) = arguments_delta {
            entry.buffer.append(delta);
        }
        let result = (clone_opt_string(&entry.name), entry.buffer.clone());
        self.tool_calls.insert(tool_id, entry);
        result
    }

    fn handle_tool_call_delta(
        &mut self,
        call: &MistralToolCallDelta,
        finish_reason: Option<&String>,
        raw: &Json,
    ) -> (r: Option<StreamParseResult>)
        ensures
            (final(self)@, r.deep_view()) == handle_step(old(self)@, call@, finish_reason.deep_view(), raw@),
    {
        let tool_id = self.resolve_tool_id(call);
        let index = call.index;
        let (name, arguments) = match &call.function {
            Some(f) => (clone_opt_string(&f.name), clone_opt_string(&f.arguments)),
            None => (None, None),
        };
        let (resolved_name, buffer) = self.upsert_tool_meta(
            tool_id.clone(),
            name,
            index,
            match &arguments {
                Some(a) => Some(a.as_str()),
                None => None,
            },
        );
        let arguments_text = match arguments {
            Some(a) => a,
            None => buffer,
        };
        if arguments_text.as_str().is_empty() {
            return None;
        }
        let is_final = match finish_reason {
            Some(f) => same_text(f.as_str(), "tool_calls") || same_text(f.as_str(), "stop"),
            None => false,
        };
        match parse_json(arguments_text.as_str()) {
            Some(json) => {
                if is_final {
                    let tool_name = match resolved_name {
                        Some(n) => n,
                        None => "tool_call".to_owned(),
                    };
                    let call = build_tool_call(
                        tool_name,
                        Some(tool_id),
                        Some(ToolInput::Json(json)),
                        index,
                        Some(raw.copy()),
                    );
                    Some(StreamParseResult::ToolCall(call))
                } else {
                    let web_search = parse_web_search_action(&json);
                    let delta = build_tool_input_delta(
                        arguments_text,
                        index,
                        resolved_name,
                        Some(tool_id),
                        web_search,
                    );
                    Some(StreamParseResult::ToolInput(delta))
                }
            },
            None => {
                let delta = build_tool_input_delta(
                    arguments_text,
                    index,
                    resolved_name,
                    Some(tool_id),
                    None,
                );
                Some(StreamParseResult::ToolInput(delta))
            },
        }
    }

    fn pop_buffered_tool_call(&mut self, raw: &Json) -> (r: Option<StreamParseResult>)
        ensures
            (final(self)@, r.deep_view()) == pop_step(old(self)@, raw@),
    {
        match self.tool_calls.take_first() {
            Some((tool_id, meta)) => {
                if meta.buffer.as_str().is_empty() {
                    return None;
                }
                match parse_json(meta.buffer.as_str()) {
                    Some(value) => {
                        let tool_name = match meta.name {
                            Some(n) => n,
                            None => "tool_call".to_owned(),
                        };
                        let call = build_tool_call(
                            tool_name,
                            Some(tool_id),
                            Some(ToolInput::Json(value)),
                            meta.index,
                            Some(raw.copy()),
                        );
                        Some(StreamParseResult::ToolCall(call))
                    },
                    None => None,
                }
            },
            None => None,
        }
    }

    fn calls(&mut self, calls: &Vec<MistralToolCallDelta>, fr: Option<&String>, raw: &Json) -> (r:
        Option<StreamParseResult>)
        ensures
            (final(self)@, r.deep_view()) == calls_step(old(self)@, calls.deep_view(), fr.deep_view(), raw@),
    {
        let ghost cv = calls.deep_view();
        assert(cv.subrange(0, cv.len() as int) =~= cv);
        let mut i: usize = 0;
        while i < calls.len()
            invariant
                i <= calls@.len(),
                cv == calls.deep_view(),
                cv.len() == calls@.len(),
                calls_step(old(self)@, cv, fr.deep_view(), raw@) == calls_step(
                    self@,
                    cv.subrange(i as int, cv.len() as int),
                    fr.deep_view(),
                    raw@,
                ),
            decreases calls@.len() - i,
        {
            let ghost st = self@;
            let ghost rest = cv.subrange(i as int, cv.len() as int);
            assert(rest[0] == cv[i as int]);
            assert(rest.subrange(1, rest.len() as int) =~= cv.subrange(i + 1, cv.len() as int));
            if let Some(result) = self.handle_tool_call_delta(&calls[i], fr, raw) {
                return Some(result);
            }
            i = i + 1;
        }
        None
    }

    fn raw_calls(&mut self, items: &Vec<Json>, fr: Option<&String>, raw: &Json) -> (r: Option<
        StreamParseResult,
    >)
        ensures
            (final(self)@, r.deep_view()) == raw_calls_step(old(self)@, items_view(items@), fr.deep_view(), raw@),
    {
        let ghost iv = items_view(items@);
        proof {
            lemma_items_view(items@);
        }
        assert(iv.subrange(0, iv.len() as int) =~= iv);
        let mut i: usize = 0;
        while i < items.len()
            invariant
                i <= items@.len(),
                iv == items_view(items@),
                iv.len() == items@.len(),
                forall|j: int| 0 <= j < items@.len() ==> #[trigger] iv[j] == items@[j]@,
                raw_calls_step(old(self)@, iv, fr.deep_view(), raw@) == raw_calls_step(
                    self@,
                    iv.subrange(i as int, iv.len() as int),
                    fr.deep_view(),
                    raw@,
                ),
            decreases items@.len() - i,
        {
            let ghost rest = iv.subrange(i as int, iv.len() as int);
            assert(rest[0] == iv[i as int]);
            assert(rest.subrange(1, rest.len() as int) =~= iv.subrange(i + 1, iv.len() as int));
            if let Some(delta) = decode_tool_call_exec(&items[i]) {
                if let Some(result) = self.handle_tool_call_delta(&delta, fr, raw) {
                    return Some(result);
                }
            }
            i = i + 1;
        }
        None
    }

    fn raw_path(&mut self, v: &Json) -> (r: StreamParseResult)
        ensures
            (final(self)@, r@) == raw_step(old(self)@, v@),
    {
        if let Some(choices) = v.get("choices") {
            if let Some(cs) = choices.as_array() {
                proof {
                    lemma_items_view(cs@);
                }
                if cs.len() > 0 {
                    let choice = &cs[0];
                    let finish_reason = match choice.get("finish_reason") {
                        Some(f) => f.as_str(),
                        None => None,
                    };
                    if let Some(message) = choice.get("message") {
                        if let Some(tool_calls) = message.get("tool_calls") {
                            if let Some(items) = tool_calls.as_array() {
                                return match self.raw_calls(items, finish_reason, v) {
                                    Some(x) => x,
                                    None => StreamParseResult::NoEvent,
                                };
                            }
                        }
                    }
                }
            }
        }
        StreamParseResult::NoEvent
    }

    /// Decodes one parsed event.
    pub fn parse_value(&mut self, value: &Json) -> (r: StreamParseResult)
        ensures
            (final(self)@, r@) == mistral_step(old(self)@, value@),
    {
        if let Some(chunk) = decode_chunk_exec(value) {
            let mut result: Option<StreamParseResult> = None;
            if chunk.choices.len() > 0 {
                let choice = &chunk.choices[0];
                let finish_reason = choice.finish_reason.as_ref();
                if let Some(text) = &choice.content {
                    return StreamParseResult::TextDelta {
                        text: text.clone(),
                        request_id: Some(chunk.id.clone()),
                    };
                }
                if let Some(tool_calls) = &choice.tool_calls {
                    result = self.calls(tool_calls, finish_reason, value);
                }
                if result.is_none() {
                    let is_tool_calls = match finish_reason {
                        Some(f) => same_text(f.as_str(), "tool_calls"),
                        None => false,
                    };
                    if is_tool_calls {
                        result = self.pop_buffered_tool_call(value);
                    }
                }
            }
            if let Some(x) = result {
                return x;
            }
            if let Some((p, c, t)) = chunk.usage {
                return StreamParseResult::TokenUsage {
                    request_id: Some(chunk.id),
                    input_tokens: Some(p),
                    output_tokens: Some(c),
                    total_tokens: Some(t),
                    cached_input_tokens: None,
                    cache_creation_tokens: None,
                };
            }
        }
        self.raw_path(value)
    }

    /// Decodes one raw server-sent event.
    pub fn parse_event(&mut self, data: &str) -> (r: StreamParseResult)
        ensures
            (final(self)@, r@) == mistral_event(old(self)@, data@),
    {
        let trimmed = trim(data);
        if trimmed == "[DONE]".to_owned() || trimmed == "null".to_owned() {
            return StreamParseResult::NoEvent;
        }
        match parse_json(data) {
            Some(v) => self.parse_value(&v),
            None => StreamParseResult::NoEvent,
        }
    }
}

impl Default for MistralStreamParser {
    fn default() -> (r: Self)
        ensures
            r@.tool_calls.len() == 0,
            r@.index_to_id.len() == 0,
    {
        MistralStreamParser::new()
    }
}

} // verus!
