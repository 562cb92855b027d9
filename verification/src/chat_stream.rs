//! The decisions of a streamed chat turn: which provider serves it, which
//! tools it offers, how each decoded stream event changes the turn and what
//! it sends to the client, and when a round of tool calls continues the turn.
use vstd::prelude::*;

use crate::json::{Json, JsonView, parse_json, parsed_json};
use crate::llm::{
    ParseResultView, StreamParseResult, StreamWebSearchAction, StreamWebSearchState, ToolCall,
    ToolCallView, ToolInput, ToolInputDelta, ToolInputDeltaView, ToolInputView, ToolKind,
    ToolResultView, WebSearchActionView, WebSearchStateView, clone_opt_string, copy_opt_action,
};
use crate::llm::web_search::{
    WebSearchStates, call_id_of, state_or_empty, update_web_search_action_state,
    update_web_search_results_state, with_action, with_results,
};
use crate::table::{NameSet, NameTable, set_add, tinsert, tlookup};

verus! {

// ---------------------------------------------------------------------------
// Provider selection.
/// The providers a chat can be streamed from.
#[derive(Debug, Clone, Copy, PartialEq, Eq, Structural)]
pub enum LlmProvider {
    OpenAI,
    Anthropic,
    Mistral,
    Gemini,
}

/// Why a provider cannot serve a chat.
#[derive(Debug, Clone, Copy, PartialEq, Eq, Structural)]
pub enum ProviderError {
    NotConfigured,
    DisabledByAdmin,
    InvalidProvider,
}

/// For each provider: `None` when it has no settings, else whether an
/// administrator has enabled it.
#[derive(Debug, Clone, Copy, PartialEq, Eq, Structural)]
pub struct ProviderAvailability {
    pub openai: Option<bool>,
    pub anthropic: Option<bool>,
    pub mistral: Option<bool>,
    pub gemini: Option<bool>,
}

/// What `str::to_lowercase` returns for a text.
pub uninterp spec fn lowercase_text(s: Seq<char>) -> Seq<char>;

/// Calls `str::to_lowercase`; the contract only names its result.
#[verifier::external_body]
fn lowercase(s: &str) -> (r: String)
    ensures
        r@ == lowercase_text(s@),
{
    s.to_lowercase()
}

/// The provider a lowercase name denotes.
pub open spec fn provider_named(lower: Seq<char>) -> Option<LlmProvider> {
    if lower == "openai"@ {
        Some(LlmProvider::OpenAI)
    } else if lower == "anthropic"@ {
        Some(LlmProvider::Anthropic)
    } else if lower == "mistral"@ {
        Some(LlmProvider::Mistral)
    } else if lower == "gemini"@ {
        Some(LlmProvider::Gemini)
    } else {
        None
    }
}

pub open spec fn availability_of(a: ProviderAvailability, p: LlmProvider) -> Option<bool> {
    match p {
        LlmProvider::OpenAI => a.openai,
        LlmProvider::Anthropic => a.anthropic,
        LlmProvider::Mistral => a.mistral,
        LlmProvider::Gemini => a.gemini,
    }
}

/// The provider for a lowercase name: unknown names are invalid, providers
/// without settings are not configured, disabled ones are refused.
pub open spec fn provider_choice(lower: Seq<char>, a: ProviderAvailability) -> Result<
    LlmProvider,
    ProviderError,
> {
    match provider_named(lower) {
        None => Err(ProviderError::InvalidProvider),
        Some(p) => match availability_of(a, p) {
            None => Err(ProviderError::NotConfigured),
            Some(false) => Err(ProviderError::DisabledByAdmin),
            Some(true) => Ok(p),
        },
    }
}

fn text_is(s: &String, lit: &str) -> (r: bool)
    ensures
        r == (s@ == lit@),
{
    crate::text::same_text(s.as_str(), lit)
}

/// Chooses the provider for an already lowercased name (see `provider_choice`).
pub fn provider_from_lowercase(lower: &String, availability: ProviderAvailability) -> (r: Result<
    LlmProvider,
    ProviderError,
>)
    ensures
        r == provider_choice(lower@, availability),
{
    let p = if text_is(lower, "openai") {
        LlmProvider::OpenAI
    } else if text_is(lower, "anthropic") {
        LlmProvider::Anthropic
    } else if text_is(lower, "mistral") {
        LlmProvider::Mistral
    } else if text_is(lower, "gemini") {
        LlmProvider::Gemini
    } else {
        return Err(ProviderError::InvalidProvider);
    };
    let state = match p {
        LlmProvider::OpenAI => availability.openai,
        LlmProvider::Anthropic => availability.anthropic,
        LlmProvider::Mistral => availability.mistral,
        LlmProvider::Gemini => availability.gemini,
    };
    match state {
        None => Err(ProviderError::NotConfigured),
        Some(false) => Err(ProviderError::DisabledByAdmin),
        Some(true) => Ok(p),
    }
}

/// Chooses the provider for a requested name, compared without case.
pub fn select_provider(name: &str, availability: ProviderAvailability) -> (r: Result<
    LlmProvider,
    ProviderError,
>)
    ensures
        r == provider_choice(lowercase_text(name@), availability),
{
    let lower = lowercase(name);
    provider_from_lowercase(&lower, availability)
}

// ---------------------------------------------------------------------------
// Tool routing.
/// `base` followed by the ids of `extra` that are not already present,
/// each added once, in order.
pub open spec fn merge_ids(base: Seq<u128>, extra: Seq<u128>) -> Seq<u128>
    decreases extra.len(),
{
    if extra.len() == 0 {
        base
    } else {
        let m = merge_ids(base, extra.drop_last());
        if m.contains(extra.last()) {
            m
        } else {
            m.push(extra.last())
        }
    }
}

/// Appends the ids of `extra` missing from `base` (see `merge_ids`).
pub fn merge_server_ids(base: Vec<u128>, extra: &Vec<u128>) -> (r: Vec<u128>)
    ensures
        r@ == merge_ids(base@, extra@),
{
    let mut out = base;
    let ghost b = out@;
    let mut i: usize = 0;
    assert(extra@.subrange(0, 0) =~= Seq::<u128>::empty());
    while i < extra.len()
        invariant
            i <= extra@.len(),
            out@ == merge_ids(b, extra@.subrange(0, i as int)),
        decreases extra@.len() - i,
    {
        let id = extra[i];
        let ghost pre = extra@.subrange(0, i + 1);
        assert(pre.drop_last() =~= extra@.subrange(0, i as int));
        let mut found = false;
        let mut j: usize = 0;
        while j < out.len()
            invariant
                j <= out@.len(),
                found == exists|k: int| 0 <= k < j && out@[k] == id,
            decreases out@.len() - j,
        {
            if out[j] == id {
                found = true;
            }
            j = j + 1;
        }
        if !found {
            out.push(id);
        } else {
            assert(out@.contains(id));
        }
        i = i + 1;
    }
    assert(extra@.subrange(0, extra@.len() as int) =~= extra@);
    out
}

/// The tools a turn offers before the tool catalogue is read.
pub struct ToolRouting {
    /// Web search, when the request or an active skill asks for it.
    pub web_search: bool,
    /// The selected tool servers, then those that active skills add.
    pub mcp_servers: Vec<u128>,
    /// Whether the tool catalogue is read at all: not for Gemini when web
    /// search is the only thing asked for.
    pub load_mcp_tools: bool,
}

pub open spec fn gemini_web_search_only(
    provider: LlmProvider,
    web_search: bool,
    no_selected_tools: bool,
    servers: Seq<u128>,
) -> bool {
    provider == LlmProvider::Gemini && web_search && no_selected_tools && servers.len() == 0
}

/// Plans the tools of a turn.
pub fn plan_tool_routing(
    provider: LlmProvider,
    requested_web_search: bool,
    skill_web_search: bool,
    no_selected_tools: bool,
    selected_servers: Vec<u128>,
    skill_servers: &Vec<u128>,
) -> (r: ToolRouting)
    ensures
        r.web_search == (requested_web_search || skill_web_search),
        r.mcp_servers@ == merge_ids(selected_servers@, skill_servers@),
        r.load_mcp_tools == !gemini_web_search_only(
            provider,
            requested_web_search || skill_web_search,
            no_selected_tools,
            merge_ids(selected_servers@, skill_servers@),
        ),
{
    let web_search = requested_web_search || skill_web_search;
    let servers = merge_server_ids(selected_servers, skill_servers);
    let only_search = provider == LlmProvider::Gemini && web_search && no_selected_tools
        && servers.len() == 0;
    ToolRouting { web_search, mcp_servers: servers, load_mcp_tools: !only_search }
}

/// Which provider-specific tool loop a turn runs, once the tool catalogue
/// is known.
#[derive(Debug, Clone, Copy, PartialEq, Eq, Structural)]
pub struct ToolingFlags {
    /// Tools from the catalogue are offered (the catalogue is not empty).
    pub mcp_tooling: bool,
    pub openai: bool,
    pub anthropic: bool,
    pub mistral: bool,
    pub gemini: bool,
    /// Mistral runs through its conversations API: for web search or tools.
    pub mistral_use_conversations: bool,
}

pub open spec fn tooling_flags_of(provider: LlmProvider, web_search: bool, tool_count: nat) -> ToolingFlags {
    let mcp = tool_count > 0;
    ToolingFlags {
        mcp_tooling: mcp,
        openai: provider == LlmProvider::OpenAI && mcp,
        anthropic: provider == LlmProvider::Anthropic && mcp,
        mistral: provider == LlmProvider::Mistral && mcp,
        gemini: provider == LlmProvider::Gemini && mcp,
        mistral_use_conversations: provider == LlmProvider::Mistral && (web_search || mcp),
    }
}

pub fn tooling_flags(provider: LlmProvider, web_search: bool, tool_count: usize) -> (r: ToolingFlags)
    ensures
        r == tooling_flags_of(provider, web_search, tool_count as nat),
{
    let mcp = tool_count > 0;
    ToolingFlags {
        mcp_tooling: mcp,
        openai: provider == LlmProvider::OpenAI && mcp,
        anthropic: provider == LlmProvider::Anthropic && mcp,
        mistral: provider == LlmProvider::Mistral && mcp,
        gemini: provider == LlmProvider::Gemini && mcp,
        mistral_use_conversations: provider == LlmProvider::Mistral && (web_search || mcp),
    }
}

// ---------------------------------------------------------------------------
// The turn: what decoded stream events do.
/// The most rounds of tool calls one turn runs.
pub const MAX_TOOL_ROUNDS: u32 = 3;

/// What the turn sends to the client for a decoded event.
pub enum ChatAction {
    /// Streamed text.
    Delta { text: String },
    /// The reply has started; the prompt's token count so far.
    MessageStart { input_tokens: i32 },
    /// Updated token counts.
    MessageEnd { input_tokens: i32, output_tokens: i32 },
    /// A tool call, or a fragment of one (`input_text`).
    ToolCall {
        tool_name: String,
        tool_id: Option<String>,
        input_text: Option<String>,
        input: Option<ToolInput>,
        kind: ToolKind,
        web_search: Option<StreamWebSearchAction>,
    },
    /// The outcome of a tool. The status of a tool that the provider ran
    /// itself is not decided here (`None`); web-search results are a success.
    ToolResult {
        tool_name: Option<String>,
        tool_id: Option<String>,
        kind: ToolKind,
        status: Option<String>,
        output: Option<Json>,
        web_search: Option<StreamWebSearchState>,
    },
    /// A provider event shown as is (reasoning, thinking).
    EventLog { event_type: String, message: Option<String>, data: Option<Json> },
    /// The provider reported an error; the turn ends.
    AiError { error_type: String, message: String },
}

pub enum ActionView {
    Delta { text: Seq<char> },
    MessageStart { input_tokens: i32 },
    MessageEnd { input_tokens: i32, output_tokens: i32 },
    ToolCall {
        tool_name: Seq<char>,
        tool_id: Option<Seq<char>>,
        input_text: Option<Seq<char>>,
        input: Option<ToolInputView>,
        kind: ToolKind,
        web_search: Option<WebSearchActionView>,
    },
    ToolResult {
        tool_name: Option<Seq<char>>,
        tool_id: Option<Seq<char>>,
        kind: ToolKind,
        status: Option<Seq<char>>,
        output: Option<JsonView>,
        web_search: Option<WebSearchStateView>,
    },
    EventLog { event_type: Seq<char>, message: Option<Seq<char>>, data: Option<JsonView> },
    AiError { error_type: Seq<char>, message: Seq<char> },
}

impl View for ChatAction {
    type V = ActionView;

    open spec fn view(&self) -> ActionView {
        match self {
            ChatAction::Delta { text } => ActionView::Delta { text: text@ },
            ChatAction::MessageStart { input_tokens } => ActionView::MessageStart {
                input_tokens: *input_tokens,
            },
            ChatAction::MessageEnd { input_tokens, output_tokens } => ActionView::MessageEnd {
                input_tokens: *input_tokens,
                output_tokens: *output_tokens,
            },
            ChatAction::ToolCall { tool_name, tool_id, input_text, input, kind, web_search } =>
                ActionView::ToolCall {
                tool_name: tool_name@,
                tool_id: tool_id.deep_view(),
                input_text: input_text.deep_view(),
                input: input.deep_view(),
                kind: *kind,
                web_search: web_search.deep_view(),
            },
            ChatAction::ToolResult { tool_name, tool_id, kind, status, output, web_search } =>
                ActionView::ToolResult {
                tool_name: tool_name.deep_view(),
                tool_id: tool_id.deep_view(),
                kind: *kind,
                status: status.deep_view(),
                output: output.deep_view(),
                web_search: web_search.deep_view(),
            },
            ChatAction::EventLog { event_type, message, data } => ActionView::EventLog {
                event_type: event_type@,
                message: message.deep_view(),
                data: data.deep_view(),
            },
            ChatAction::AiError { error_type, message } => ActionView::AiError {
                error_type: error_type@,
                message: message@,
            },
        }
    }
}

impl DeepView for ChatAction {
    type V = ActionView;

    open spec fn deep_view(&self) -> ActionView {
        self.view()
    }
}

/// The model of a turn.
pub struct TurnView {
    /// Tools from the catalogue are offered.
    pub mcp_tooling: bool,
    pub request_tokens: i32,
    pub response_tokens: i32,
    pub total_tokens: i32,
    /// All text of the reply.
    pub content: Seq<char>,
    /// The text of the current round.
    pub round_content: Seq<char>,
    pub request_id: Option<Seq<char>>,
    /// The last response id a provider gave (used to continue a response).
    pub response_id: Option<Seq<char>>,
    pub tool_round: u32,
    /// Tool-call ids already reported as complete calls.
    pub seen: Seq<Seq<char>>,
    /// Argument text streamed so far, by call id.
    pub buffers: Seq<(Seq<char>, Seq<char>)>,
    /// The latest arguments that parsed, by call id.
    pub inputs: Seq<(Seq<char>, JsonView)>,
    pub searches: Map<Seq<char>, WebSearchStateView>,
    pub last_search: Option<Seq<char>>,
    /// Catalogue tool calls waiting to be run.
    pub pending: Seq<ToolCallView>,
    /// Catalogue tool calls announced to the client: id and name.
    pub emitted: Seq<(Seq<char>, Seq<char>)>,
    /// Ids of tool calls whose result was sent.
    pub completed: Seq<Seq<char>>,
    /// The provider reported an error.
    pub finished: bool,
}

pub open spec fn kind_of(web_search: bool) -> ToolKind {
    if web_search {
        ToolKind::WebSearch
    } else {
        ToolKind::Other
    }
}

/// A token count as the turn stores it (`u32` read as `i32`).
pub open spec fn token_value(t: u32) -> i32 {
    t as i32
}

/// A counter after a reported count: added in later rounds of a tool loop,
/// replaced otherwise, unchanged when nothing is reported.
pub open spec fn counted(acc: bool, current: i32, t: Option<u32>) -> int {
    match t {
        Some(x) => if acc {
            current + token_value(x)
        } else {
            token_value(x) as int
        },
        None => current as int,
    }
}

pub open spec fn accumulates(st: TurnView) -> bool {
    st.mcp_tooling && st.tool_round > 0
}

pub open spec fn fits_i32(x: int) -> bool {
    i32::MIN <= x <= i32::MAX
}

/// The token counts an event reports stay within `i32`.
pub open spec fn event_fits(st: TurnView, ev: ParseResultView) -> bool {
    let acc = accumulates(st);
    match ev {
        ParseResultView::TokenUsage { input_tokens, output_tokens, total_tokens, .. } => {
            &&& fits_i32(counted(acc, st.request_tokens, input_tokens))
            &&& fits_i32(counted(acc, st.response_tokens, output_tokens))
            &&& fits_i32(counted(acc, st.total_tokens, total_tokens))
        },
        ParseResultView::MessageStart { input_tokens, output_tokens, .. } => {
            &&& fits_i32(counted(acc, st.request_tokens, input_tokens))
            &&& fits_i32(counted(acc, st.response_tokens, output_tokens))
        },
        _ => true,
    }
}

/// A table after `k => v`, unless `k` is already there.
pub open spec fn or_insert<V>(s: Seq<(Seq<char>, V)>, k: Seq<char>, v: V) -> Seq<(Seq<char>, V)> {
    if tlookup(s, k) is Some {
        s
    } else {
        tinsert(s, k, v)
    }
}

pub open spec fn text_or_empty(s: Option<Seq<char>>) -> Seq<char> {
    match s {
        Some(t) => t,
        None => Seq::empty(),
    }
}

/// Web-search progress after a search action (see `update_web_search_action_state`).
pub open spec fn search_action_update(
    m: Map<Seq<char>, WebSearchStateView>,
    last: Option<Seq<char>>,
    tool_id: Option<Seq<char>>,
    action: Option<WebSearchActionView>,
) -> (Map<Seq<char>, WebSearchStateView>, Option<Seq<char>>) {
    match call_id_of(tool_id, last) {
        None => (m, last),
        Some(id) => (m.insert(id, with_action(state_or_empty(m, id), action)), Some(id)),
    }
}

/// The value that a tool call's input stands for: its JSON, or its text as
/// a JSON string.
pub open spec fn input_value(i: ToolInputView) -> JsonView {
    match i {
        ToolInputView::Json(v) => v,
        ToolInputView::Text(t) => JsonView::Str(t),
    }
}

/// A text fragment: appended to the reply and to the round.
pub open spec fn text_step(st: TurnView, text: Seq<char>, rid: Option<Seq<char>>) -> (
    TurnView,
    Seq<ActionView>,
) {
    (
        TurnView {
            content: st.content + text,
            round_content: st.round_content + text,
            request_id: rid,
            ..st
        },
        seq![ActionView::Delta { text }],
    )
}

/// Token usage: counters updated, the response id kept when one is given.
pub open spec fn usage_step(
    st: TurnView,
    rid: Option<Seq<char>>,
    i: Option<u32>,
    o: Option<u32>,
    t: Option<u32>,
) -> (TurnView, Seq<ActionView>) {
    let acc = accumulates(st);
    let st1 = TurnView {
        request_tokens: counted(acc, st.request_tokens, i) as i32,
        response_tokens: counted(acc, st.response_tokens, o) as i32,
        total_tokens: counted(acc, st.total_tokens, t) as i32,
        response_id: if rid is Some {
            rid
        } else {
            st.response_id
        },
        request_id: rid,
        ..st
    };
    (
        st1,
        seq![
            ActionView::MessageEnd {
                input_tokens: st1.request_tokens,
                output_tokens: st1.response_tokens,
            },
        ],
    )
}

/// The start of a reply: counters updated, its id becomes the request and
/// response id.
pub open spec fn start_step(st: TurnView, rid: Seq<char>, i: Option<u32>, o: Option<u32>) -> (
    TurnView,
    Seq<ActionView>,
) {
    let acc = accumulates(st);
    let st1 = TurnView {
        request_tokens: counted(acc, st.request_tokens, i) as i32,
        response_tokens: counted(acc, st.response_tokens, o) as i32,
        request_id: Some(rid),
        response_id: Some(rid),
        ..st
    };
    (st1, seq![ActionView::MessageStart { input_tokens: st1.request_tokens }])
}

/// A fragment of a tool call's arguments. It is shown to the client; with an
/// id it is buffered, and the buffer is read once it parses. A catalogue
/// tool is announced by id; once its arguments parse, it is queued to run
/// and reported as a complete call (once per id).
pub open spec fn tool_input_step(st: TurnView, d: ToolInputDeltaView, mcp_tool: bool) -> (
    TurnView,
    Seq<ActionView>,
) {
    let ws = d.is_web_search();
    let name = match d.tool_name {
        Some(n) => n,
        None => "tool_call"@,
    };
    let buffered = match d.tool_id {
        Some(id) => text_or_empty(tlookup(st.buffers, id)) + d.partial_json,
        None => Seq::empty(),
    };
    let parsed = match d.tool_id {
        Some(_) => parsed_json(buffered),
        None => None,
    };
    let buffers1 = match d.tool_id {
        Some(id) => tinsert(st.buffers, id, buffered),
        None => st.buffers,
    };
    let inputs1 = match (d.tool_id, parsed) {
        (Some(id), Some(v)) => tinsert(st.inputs, id, v),
        _ => st.inputs,
    };
    let (searches1, last1) = if ws {
        search_action_update(st.searches, st.last_search, d.tool_id, d.web_search)
    } else {
        (st.searches, st.last_search)
    };
    let first = ActionView::ToolCall {
        tool_name: name,
        tool_id: d.tool_id,
        input_text: Some(d.partial_json),
        input: None,
        kind: kind_of(ws),
        web_search: d.web_search,
    };
    let emitted1 = if st.mcp_tooling && !ws && mcp_tool && d.tool_id is Some {
        or_insert(st.emitted, d.tool_id->0, name)
    } else {
        st.emitted
    };
    let st1 = TurnView {
        buffers: buffers1,
        inputs: inputs1,
        searches: searches1,
        last_search: last1,
        emitted: emitted1,
        ..st
    };
    if st.mcp_tooling && mcp_tool && d.tool_id is Some && parsed is Some && !st.seen.contains(
        d.tool_id->0,
    ) {
        let id = d.tool_id->0;
        let v = parsed->0;
        (
            TurnView {
                seen: st.seen.push(id),
                pending: st.pending.push(
                    ToolCallView {
                        tool_name: name,
                        tool_id: Some(id),
                        input: Some(ToolInputView::Json(v)),
                        index: d.index,
                        raw: None,
                        web_search: d.web_search,
                    },
                ),
                emitted: tinsert(emitted1, id, name),
                ..st1
            },
            seq![
                first,
                ActionView::ToolCall {
                    tool_name: name,
                    tool_id: Some(id),
                    input_text: None,
                    input: Some(ToolInputView::Json(v)),
                    kind: kind_of(ws),
                    web_search: d.web_search,
                },
            ],
        )
    } else {
        (st1, seq![first])
    }
}

/// A complete tool call: ignored when its id was already reported; else
/// its input is kept by id, a catalogue tool is queued and announced, a web
/// search is recorded, and the call is shown.
pub open spec fn tool_call_step(st: TurnView, c: ToolCallView, mcp_tool: bool) -> (
    TurnView,
    Seq<ActionView>,
) {
    if c.tool_id is Some && st.seen.contains(c.tool_id->0) {
        (st, Seq::empty())
    } else {
        let seen1 = match c.tool_id {
            Some(id) => st.seen.push(id),
            None => st.seen,
        };
        let inputs1 = match (c.tool_id, c.input) {
            (Some(id), Some(i)) => if input_value(i) is Null {
                st.inputs
            } else {
                tinsert(st.inputs, id, input_value(i))
            },
            _ => st.inputs,
        };
        let ws = c.is_web_search();
        let queue = st.mcp_tooling && mcp_tool;
        let pending1 = if queue {
            st.pending.push(c)
        } else {
            st.pending
        };
        let emitted1 = if queue && c.tool_id is Some {
            tinsert(st.emitted, c.tool_id->0, c.tool_name)
        } else {
            st.emitted
        };
        let (searches1, last1) = if ws {
            search_action_update(st.searches, st.last_search, c.tool_id, c.web_search)
        } else {
            (st.searches, st.last_search)
        };
        (
            TurnView {
                seen: seen1,
                inputs: inputs1,
                pending: pending1,
                emitted: emitted1,
                searches: searches1,
                last_search: last1,
                ..st
            },
            seq![
                ActionView::ToolCall {
                    tool_name: c.tool_name,
                    tool_id: c.tool_id,
                    input_text: None,
                    input: c.input,
                    kind: kind_of(ws),
                    web_search: c.web_search,
                },
            ],
        )
    }
}

/// A search action: recorded for its call (or the last search); the call
/// is shown once per id, with the query recorded so far.
pub open spec fn search_action_step(
    st: TurnView,
    tool_id: Option<Seq<char>>,
    query: Option<Seq<char>>,
    queries: Option<Seq<Seq<char>>>,
) -> (TurnView, Seq<ActionView>) {
    match call_id_of(tool_id, st.last_search) {
        None => (st, Seq::empty()),
        Some(id) => {
            let e = with_action(
                state_or_empty(st.searches, id),
                Some(WebSearchActionView { query, queries }),
            );
            let st1 = TurnView {
                searches: st.searches.insert(id, e),
                last_search: Some(id),
                ..st
            };
            if st.seen.contains(id) {
                (st1, Seq::empty())
            } else {
                (
                    TurnView { seen: st.seen.push(id), ..st1 },
                    seq![
                        ActionView::ToolCall {
                            tool_name: "web_search_call"@,
                            tool_id: Some(id),
                            input_text: None,
                            input: None,
                            kind: ToolKind::WebSearch,
                            web_search: Some(
                                WebSearchActionView { query: e.query, queries: e.queries },
                            ),
                        },
                    ],
                )
            }
        },
    }
}

/// Search results: appended to their call (or the last search), which is
/// then complete; shown with everything recorded for the call.
pub open spec fn search_results_step(
    st: TurnView,
    tool_id: Option<Seq<char>>,
    results: Seq<crate::llm::WebSearchResultView>,
) -> (TurnView, Seq<ActionView>) {
    match call_id_of(tool_id, st.last_search) {
        None => (st, Seq::empty()),
        Some(id) => {
            let e = with_results(state_or_empty(st.searches, id), results);
            (
                TurnView {
                    searches: st.searches.insert(id, e),
                    last_search: Some(id),
                    completed: set_add(st.completed, id),
                    ..st
                },
                seq![
                    ActionView::ToolResult {
                        tool_name: Some("web_search_call"@),
                        tool_id: Some(id),
                        kind: ToolKind::WebSearch,
                        status: Some("success"@),
                        output: None,
                        web_search: Some(e),
                    },
                ],
            )
        },
    }
}

/// The outcome of a tool the provider ran: its call is complete.
pub open spec fn tool_result_step(st: TurnView, r: ToolResultView) -> (TurnView, Seq<ActionView>) {
    (
        TurnView {
            completed: match r.tool_id {
                Some(id) => set_add(st.completed, id),
                None => st.completed,
            },
            ..st
        },
        seq![
            ActionView::ToolResult {
                tool_name: r.tool_name,
                tool_id: r.tool_id,
                kind: kind_of(r.is_web_search()),
                status: None,
                output: r.output,
                web_search: None,
            },
        ],
    )
}

/// One decoded event. `mcp_tool` tells whether the event's tool (see
/// `event_tool_name`) is in the tool catalogue.
pub open spec fn turn_step(st: TurnView, ev: ParseResultView, mcp_tool: bool) -> (
    TurnView,
    Seq<ActionView>,
) {
    match ev {
        ParseResultView::NoEvent => (st, Seq::empty()),
        ParseResultView::TextDelta { text, request_id } => text_step(st, text, request_id),
        ParseResultView::TokenUsage { request_id, input_tokens, output_tokens, total_tokens, .. } =>
            usage_step(st, request_id, input_tokens, output_tokens, total_tokens),
        ParseResultView::MessageStart { request_id, input_tokens, output_tokens, .. } => start_step(
            st,
            request_id,
            input_tokens,
            output_tokens,
        ),
        ParseResultView::ToolInput(d) => tool_input_step(st, d, mcp_tool),
        ParseResultView::EventLog { event_type, message, data } => (
            st,
            seq![ActionView::EventLog { event_type, message, data }],
        ),
        ParseResultView::ToolCall(c) => tool_call_step(st, c, mcp_tool),
        ParseResultView::WebSearchAction { tool_id, query, queries, .. } => search_action_step(
            st,
            tool_id,
            query,
            queries,
        ),
        ParseResultView::WebSearchResult { tool_id, results, .. } => search_results_step(
            st,
            tool_id,
            results,
        ),
        ParseResultView::ToolResult(r) => tool_result_step(st, r),
        ParseResultView::Error { error_type, message } => (
            TurnView { finished: true, ..st },
            seq![ActionView::AiError { error_type, message }],
        ),
    }
}

/// The tool name whose catalogue membership an event's step depends on.
pub open spec fn event_tool(ev: ParseResultView) -> Option<Seq<char>> {
    match ev {
        ParseResultView::ToolInput(d) => Some(
            match d.tool_name {
                Some(n) => n,
                None => "tool_call"@,
            },
        ),
        ParseResultView::ToolCall(c) => Some(c.tool_name),
        _ => None,
    }
}

/// The state of a streamed turn.
pub struct ChatTurn {
    mcp_tooling: bool,
    request_tokens: i32,
    response_tokens: i32,
    total_tokens: i32,
    message_content: String,
    stream_message_content: String,
    request_id: Option<String>,
    openai_response_id: Option<String>,
    tool_round: u32,
    seen_tool_call_ids: NameSet,
    tool_input_buffers: NameTable<String>,
    tool_inputs: NameTable<Json>,
    web_search_state: WebSearchStates,
    last_web_search_call_id: Option<String>,
    pending_tool_calls: Vec<ToolCall>,
    emitted_tool_calls: NameTable<String>,
    completed_tool_results: NameSet,
    finished: bool,
}

impl View for ChatTurn {
    type V = TurnView;

    closed spec fn view(&self) -> TurnView {
        TurnView {
            mcp_tooling: self.mcp_tooling,
            request_tokens: self.request_tokens,
            response_tokens: self.response_tokens,
            total_tokens: self.total_tokens,
            content: self.message_content@,
            round_content: self.stream_message_content@,
            request_id: self.request_id.deep_view(),
            response_id: self.openai_response_id.deep_view(),
            tool_round: self.tool_round,
            seen: self.seen_tool_call_ids@,
            buffers: self.tool_input_buffers@,
            inputs: self.tool_inputs@,
            searches: self.web_search_state@,
            last_search: self.last_web_search_call_id.deep_view(),
            pending: self.pending_tool_calls.deep_view(),
            emitted: self.emitted_tool_calls@,
            completed: self.completed_tool_results@,
            finished: self.finished,
        }
    }
}

/// A fresh turn.
pub open spec fn new_turn(mcp_tooling: bool) -> TurnView {
    TurnView {
        mcp_tooling,
        request_tokens: 0,
        response_tokens: 0,
        total_tokens: 0,
        content: Seq::empty(),
        round_content: Seq::empty(),
        request_id: None,
        response_id: None,
        tool_round: 0,
        seen: Seq::empty(),
        buffers: Seq::empty(),
        inputs: Seq::empty(),
        searches: Map::empty(),
        last_search: None,
        pending: Seq::empty(),
        emitted: Seq::empty(),
        completed: Seq::empty(),
        finished: false,
    }
}

fn count_into(acc: bool, current: i32, t: Option<u32>) -> (r: i32)
    requires
        fits_i32(counted(acc, current, t)),
    ensures
        r == counted(acc, current, t),
{
    match t {
        Some(x) => {
            let v = x as i32;
            if acc {
                current + v
            } else {
                v
            }
        },
        None => current,
    }
}

impl ChatTurn {
    pub fn new(mcp_tooling: bool) -> (r: Self)
        ensures
            r@ == new_turn(mcp_tooling),
    {
        let r = ChatTurn {
            mcp_tooling,
            request_tokens: 0,
            response_tokens: 0,
            total_tokens: 0,
            message_content: String::new(),
            stream_message_content: String::new(),
            request_id: None,
            openai_response_id: None,
            tool_round: 0,
            seen_tool_call_ids: NameSet::new(),
            tool_input_buffers: NameTable::new(),
            tool_inputs: NameTable::new(),
            web_search_state: WebSearchStates::new(),
            last_web_search_call_id: None,
            pending_tool_calls: Vec::new(),
            emitted_tool_calls: NameTable::new(),
            completed_tool_results: NameSet::new(),
            finished: false,
        };
        assert(r.pending_tool_calls.deep_view() =~= Seq::<ToolCallView>::empty());
        assert(r@ =~= new_turn(mcp_tooling));
        r
    }

    fn text_event(&mut self, text: String, rid: Option<String>) -> (r: Vec<ChatAction>)
        ensures
            (final(self)@, r.deep_view()) == text_step(old(self)@, text@, rid.deep_view()),
    {
        self.message_content.append(text.as_str());
        self.stream_message_content.append(text.as_str());
        self.request_id = rid;
        let mut out: Vec<ChatAction> = Vec::new();
        out.push(ChatAction::Delta { text });
        assert(out.deep_view() =~= text_step(old(self)@, text@, rid.deep_view()).1);
        assert(self@ =~= text_step(old(self)@, text@, rid.deep_view()).0);
        out
    }

    fn usage_event(
        &mut self,
        rid: Option<String>,
        i: Option<u32>,
        o: Option<u32>,
        t: Option<u32>,
    ) -> (r: Vec<ChatAction>)
        requires
            fits_i32(counted(accumulates(old(self)@), old(self)@.request_tokens, i)),
            fits_i32(counted(accumulates(old(self)@), old(self)@.response_tokens, o)),
            fits_i32(counted(accumulates(old(self)@), old(self)@.total_tokens, t)),
        ensures
            (final(self)@, r.deep_view()) == usage_step(old(self)@, rid.deep_view(), i, o, t),
    {
        let acc = self.mcp_tooling && self.tool_round > 0;
        self.request_tokens = count_into(acc, self.request_tokens, i);
        self.response_tokens = count_into(acc, self.response_tokens, o);
        self.total_tokens = count_into(acc, self.total_tokens, t);
        if rid.is_some() {
            self.openai_response_id = clone_opt_string(&rid);
        }
        self.request_id = rid;
        let mut out: Vec<ChatAction> = Vec::new();
        out.push(
            ChatAction::MessageEnd {
                input_tokens: self.request_tokens,
                output_tokens: self.response_tokens,
            },
        );
        let ghost expected = usage_step(old(self)@, rid.deep_view(), i, o, t);
        assert(out.deep_view() =~= expected.1);
        assert(self@ =~= expected.0);
        out
    }

    fn start_event(&mut self, rid: String, i: Option<u32>, o: Option<u32>) -> (r: Vec<ChatAction>)
        requires
            fits_i32(counted(accumulates(old(self)@), old(self)@.request_tokens, i)),
            fits_i32(counted(accumulates(old(self)@), old(self)@.response_tokens, o)),
        ensures
            (final(self)@, r.deep_view()) == start_step(old(self)@, rid@, i, o),
    {
        let acc = self.mcp_tooling && self.tool_round > 0;
        self.request_tokens = count_into(acc, self.request_tokens, i);
        self.response_tokens = count_into(acc, self.response_tokens, o);
        self.openai_response_id = Some(rid.clone());
        self.request_id = Some(rid);
        let mut out: Vec<ChatAction> = Vec::new();
        out.push(ChatAction::MessageStart { input_tokens: self.request_tokens });
        let ghost expected = start_step(old(self)@, rid@, i, o);
        assert(out.deep_view() =~= expected.1);
        assert(self@ =~= expected.0);
        out
    }

    fn tool_input_event(&mut self, d: ToolInputDelta, mcp_tool: bool) -> (r: Vec<ChatAction>)
        ensures
            (final(self)@, r.deep_view()) == tool_input_step(old(self)@, d@, mcp_tool),
    {
        let ghost dv = d@;
        let ws = d.is_web_search();
        let kind = if ws {
            ToolKind::WebSearch
        } else {
            ToolKind::Other
        };
        let name: String = match &d.tool_name {
            Some(n) => n.clone(),
            None => "tool_call".to_owned(),
        };
        let mut parsed: Option<Json> = None;
        if let Some(id) = &d.tool_id {
            let mut buf = match self.tool_input_buffers.get(id.as_str()) {
                Some(b) => b.clone(),
                None => String::new(),
            };
            buf.append(d.partial_json.as_str());
            let p = parse_json(buf.as_str());
            self.tool_input_buffers.insert(id.clone(), buf);
            if let Some(v) = p {
                self.tool_inputs.insert(id.clone(), v.copy());
                parsed = Some(v);
            }
        }
        if ws {
            let _ = update_web_search_action_state(
                &mut self.web_search_state,
                &mut self.last_web_search_call_id,
                clone_opt_string(&d.tool_id),
                copy_opt_action(&d.web_search),
            );
        }
        let mut out: Vec<ChatAction> = Vec::new();
        out.push(
            ChatAction::ToolCall {
                tool_name: name.clone(),
                tool_id: clone_opt_string(&d.tool_id),
                input_text: Some(d.partial_json.clone()),
                input: None,
                kind,
                web_search: copy_opt_action(&d.web_search),
            },
        );
        if self.mcp_tooling && !ws && mcp_tool {
            if let Some(id) = &d.tool_id {
                if self.emitted_tool_calls.get(id.as_str()).is_none() {
                    self.emitted_tool_calls.insert(id.clone(), name.clone());
                }
            }
        }
        let ghost mid = self@;
        let ghost first = out.deep_view();
        if self.mcp_tooling && mcp_tool {
            if let Some(id) = &d.tool_id {
                if let Some(v) = parsed {
                    if self.seen_tool_call_ids.insert(id.clone()) {
                        let call = ToolCall {
                            tool_name: name.clone(),
                            tool_id: Some(id.clone()),
                            input: Some(ToolInput::Json(v.copy())),
                            index: d.index,
                            raw: None,
                            web_search: copy_opt_action(&d.web_search),
                        };
                        let ghost cv = call@;
                        self.pending_tool_calls.push(call);
                        self.emitted_tool_calls.insert(id.clone(), name.clone());
                        let ghost before = out.deep_view();
                        out.push(
                            ChatAction::ToolCall {
                                tool_name: name,
                                tool_id: Some(id.clone()),
                                input_text: None,
                                input: Some(ToolInput::Json(v)),
                                kind,
                                web_search: copy_opt_action(&d.web_search),
                            },
                        );
                        assert(self.pending_tool_calls.deep_view() =~= mid.pending.push(cv));
                    }
                }
            }
        }
        let ghost expected = tool_input_step(old(self)@, dv, mcp_tool);
        assert(out.deep_view() =~= expected.1);
        assert(self@ =~= expected.0);
        out
    }

    fn tool_call_event(&mut self, c: ToolCall, mcp_tool: bool) -> (r: Vec<ChatAction>)
        ensures
            (final(self)@, r.deep_view()) == tool_call_step(old(self)@, c@, mcp_tool),
    {
        let ghost cv = c@;
        if let Some(id) = &c.tool_id {
            if self.seen_tool_call_ids.contains(id.as_str()) {
                let out: Vec<ChatAction> = Vec::new();
                assert(out.deep_view() =~= Seq::<ActionView>::empty());
                return out;
            }
            self.seen_tool_call_ids.insert(id.clone());
        }
        if let Some(id) = &c.tool_id {
            if let Some(input) = &c.input {
                let v = input_json(input);
                if !v.is_null() {
                    self.tool_inputs.insert(id.clone(), v);
                }
            }
        }
        let ws = c.is_web_search();
        if self.mcp_tooling && mcp_tool {
            let ghost before = self.pending_tool_calls.deep_view();
            self.pending_tool_calls.push(c.copy());
            assert(self.pending_tool_calls.deep_view() =~= before.push(cv));
            if let Some(id) = &c.tool_id {
                self.emitted_tool_calls.insert(id.clone(), c.tool_name.clone());
            }
        }
        if ws {
            let _ = update_web_search_action_state(
                &mut self.web_search_state,
                &mut self.last_web_search_call_id,
                clone_opt_string(&c.tool_id),
                copy_opt_action(&c.web_search),
            );
        }
        let mut out: Vec<ChatAction> = Vec::new();
        out.push(
            ChatAction::ToolCall {
                tool_name: c.tool_name,
                tool_id: c.tool_id,
                input_text: None,
                input: c.input,
                kind: if ws {
                    ToolKind::WebSearch
                } else {
                    ToolKind::Other
                },
                web_search: c.web_search,
            },
        );
        let ghost expected = tool_call_step(old(self)@, cv, mcp_tool);
        assert(out.deep_view() =~= expected.1);
        assert(self@ =~= expected.0);
        out
    }

    fn search_action_event(
        &mut self,
        tool_id: Option<String>,
        query: Option<String>,
        queries: Option<Vec<String>>,
    ) -> (r: Vec<ChatAction>)
        ensures
            (final(self)@, r.deep_view()) == search_action_step(
                old(self)@,
                tool_id.deep_view(),
                query.deep_view(),
                queries.deep_view(),
            ),
    {
        let ghost expected = search_action_step(
            old(self)@,
            tool_id.deep_view(),
            query.deep_view(),
            queries.deep_view(),
        );
        let entry = update_web_search_action_state(
            &mut self.web_search_state,
            &mut self.last_web_search_call_id,
            tool_id,
            Some(StreamWebSearchAction { query, queries }),
        );
        let mut out: Vec<ChatAction> = Vec::new();
        match entry {
            Some((id, e)) => {
                if self.seen_tool_call_ids.insert(id.clone()) {
                    out.push(
                        ChatAction::ToolCall {
                            tool_name: "web_search_call".to_owned(),
                            tool_id: Some(id),
                            input_text: None,
                            input: None,
                            kind: ToolKind::WebSearch,
                            web_search: Some(StreamWebSearchAction { query: e.query, queries: e.queries }),
                        },
                    );
                }
            },
            None => {},
        }
        assert(out.deep_view() =~= expected.1);
        assert(self@ =~= expected.0);
        out
    }

    fn search_results_event(
        &mut self,
        tool_id: Option<String>,
        results: Vec<crate::llm::StreamWebSearchResult>,
    ) -> (r: Vec<ChatAction>)
        ensures
            (final(self)@, r.deep_view()) == search_results_step(
                old(self)@,
                tool_id.deep_view(),
                results.deep_view(),
            ),
    {
        let ghost expected = search_results_step(old(self)@, tool_id.deep_view(), results.deep_view());
        let entry = update_web_search_results_state(
            &mut self.web_search_state,
            &mut self.last_web_search_call_id,
            tool_id,
            results,
        );
        let mut out: Vec<ChatAction> = Vec::new();
        match entry {
            Some((id, e)) => {
                self.completed_tool_results.insert(id.clone());
                out.push(
                    ChatAction::ToolResult {
                        tool_name: Some("web_search_call".to_owned()),
                        tool_id: Some(id),
                        kind: ToolKind::WebSearch,
                        status: Some("success".to_owned()),
                        output: None,
                        web_search: Some(e),
                    },
                );
            },
            None => {},
        }
        proof {
            reveal_strlit("success");
            reveal_strlit("web_search_call");
        }
        assert(out.deep_view() =~= expected.1);
        assert(self@ =~= expected.0);
        out
    }

    fn tool_result_event(&mut self, r: crate::llm::ToolResult) -> (out: Vec<ChatAction>)
        ensures
            (final(self)@, out.deep_view()) == tool_result_step(old(self)@, r@),
    {
        let ghost expected = tool_result_step(old(self)@, r@);
        if let Some(id) = &r.tool_id {
            self.completed_tool_results.insert(id.clone());
        }
        let ws = r.is_web_search();
        let mut out: Vec<ChatAction> = Vec::new();
        out.push(
            ChatAction::ToolResult {
                tool_name: r.tool_name,
                tool_id: r.tool_id,
                kind: if ws {
                    ToolKind::WebSearch
                } else {
                    ToolKind::Other
                },
                status: None,
                output: r.output,
                web_search: None,
            },
        );
        assert(out.deep_view() =~= expected.1);
        assert(self@ =~= expected.0);
        out
    }

    /// Applies one decoded event (see `turn_step`); `mcp_tool` tells whether
    /// the event's tool (`event_tool_name`) is in the tool catalogue.
    pub fn apply_event(&mut self, ev: StreamParseResult, mcp_tool: bool) -> (r: Vec<ChatAction>)
        requires
            event_fits(old(self)@, ev@),
        ensures
            (final(self)@, r.deep_view()) == turn_step(old(self)@, ev@, mcp_tool),
    {
        match ev {
            StreamParseResult::NoEvent => {
                let out: Vec<ChatAction> = Vec::new();
                assert(out.deep_view() =~= Seq::<ActionView>::empty());
                out
            },
            StreamParseResult::TextDelta { text, request_id } => self.text_event(text, request_id),
            StreamParseResult::TokenUsage { request_id, input_tokens, output_tokens, total_tokens, .. } =>
                self.usage_event(request_id, input_tokens, output_tokens, total_tokens),
            StreamParseResult::MessageStart { request_id, input_tokens, output_tokens, .. } =>
                self.start_event(request_id, input_tokens, output_tokens),
            StreamParseResult::ToolInput(d) => self.tool_input_event(d, mcp_tool),
            StreamParseResult::EventLog { event_type, message, data } => {
                let mut out: Vec<ChatAction> = Vec::new();
                out.push(ChatAction::EventLog { event_type, message, data });
                assert(out.deep_view() =~= turn_step(old(self)@, ev@, mcp_tool).1);
                out
            },
            StreamParseResult::ToolCall(c) => self.tool_call_event(c, mcp_tool),
            StreamParseResult::WebSearchAction { tool_id, query, queries, .. } =>
                self.search_action_event(tool_id, query, queries),
            StreamParseResult::WebSearchResult { tool_id, results, .. } =>
                self.search_results_event(tool_id, results),
            StreamParseResult::ToolResult(r) => self.tool_result_event(r),
            StreamParseResult::Error { error_type, message } => {
                self.finished = true;
                let mut out: Vec<ChatAction> = Vec::new();
                out.push(ChatAction::AiError { error_type, message });
                assert(out.deep_view() =~= turn_step(old(self)@, ev@, mcp_tool).1);
                assert(self@ =~= turn_step(old(self)@, ev@, mcp_tool).0);
                out
            },
        }
    }
}

/// Events of one stream message in order; an error ends the message, so
/// the events after it are dropped.
pub open spec fn turn_steps(st: TurnView, evs: Seq<ParseResultView>, tools: Seq<bool>) -> (
    TurnView,
    Seq<ActionView>,
)
    decreases evs.len(),
{
    if evs.len() == 0 {
        (st, Seq::empty())
    } else {
        let (st1, a1) = turn_step(st, evs[0], tools[0]);
        if evs[0] is Error {
            (st1, a1)
        } else {
            let (st2, a2) = turn_steps(st1, evs.drop_first(), tools.drop_first());
            (st2, a1 + a2)
        }
    }
}

/// Every event that `turn_steps` applies keeps the token counts in `i32`.
pub open spec fn steps_fit(st: TurnView, evs: Seq<ParseResultView>, tools: Seq<bool>) -> bool
    decreases evs.len(),
{
    evs.len() == 0 || (event_fits(st, evs[0]) && (evs[0] is Error || steps_fit(
        turn_step(st, evs[0], tools[0]).0,
        evs.drop_first(),
        tools.drop_first(),
    )))
}

/// Whether a stream's end runs the queued tool calls: tools are offered,
/// calls are queued, and fewer than `MAX_TOOL_ROUNDS` rounds ran.
pub open spec fn runs_tools(st: TurnView) -> bool {
    st.mcp_tooling && st.pending.len() > 0 && st.tool_round < MAX_TOOL_ROUNDS
}

/// The total token count, when no provider reported one, is input plus output.
pub open spec fn with_total(st: TurnView) -> TurnView {
    if st.total_tokens == 0 {
        TurnView { total_tokens: (st.request_tokens + st.response_tokens) as i32, ..st }
    } else {
        st
    }
}

pub open spec fn total_fits(st: TurnView) -> bool {
    st.total_tokens == 0 ==> fits_i32(st.request_tokens + st.response_tokens)
}

/// The provider-specific loop that carries tool results to the next round.
#[derive(Debug, Clone, Copy, PartialEq, Eq, Structural)]
pub enum ToolLoop {
    OpenAI,
    MistralConversations,
    Mistral,
    Anthropic,
    Gemini,
    NoLoop,
}

/// The loop a turn uses, in this order of precedence.
pub open spec fn tool_loop_of(f: ToolingFlags) -> ToolLoop {
    if f.openai {
        ToolLoop::OpenAI
    } else if f.mistral_use_conversations {
        ToolLoop::MistralConversations
    } else if f.mistral {
        ToolLoop::Mistral
    } else if f.anthropic {
        ToolLoop::Anthropic
    } else if f.gemini {
        ToolLoop::Gemini
    } else {
        ToolLoop::NoLoop
    }
}

pub fn tool_loop(f: ToolingFlags) -> (r: ToolLoop)
    ensures
        r == tool_loop_of(f),
{
    if f.openai {
        ToolLoop::OpenAI
    } else if f.mistral_use_conversations {
        ToolLoop::MistralConversations
    } else if f.mistral {
        ToolLoop::Mistral
    } else if f.anthropic {
        ToolLoop::Anthropic
    } else if f.gemini {
        ToolLoop::Gemini
    } else {
        ToolLoop::NoLoop
    }
}

/// Whether a round of tool calls continues the turn: not when a tool needs
/// an account connection; otherwise when the loop produced something to send
/// back, and (OpenAI) a response id or (Mistral conversations) a
/// conversation id is known to continue from.
pub open spec fn continues(
    st: TurnView,
    oauth_required: bool,
    lp: ToolLoop,
    produced: nat,
    conversation_known: bool,
) -> bool {
    !oauth_required && produced > 0 && match lp {
        ToolLoop::OpenAI => st.response_id is Some,
        ToolLoop::MistralConversations => conversation_known,
        ToolLoop::Mistral => true,
        ToolLoop::Anthropic => true,
        ToolLoop::Gemini => true,
        ToolLoop::NoLoop => false,
    }
}

/// The arguments a tool call is run with: its input, or (when that is null
/// or an empty object) the arguments last streamed for its id, as an
/// object: null becomes `{}` and any other non-object is wrapped as `value`.
pub open spec fn arguments_for(st: TurnView, c: ToolCallView) -> JsonView {
    let v = match c.input {
        Some(i) => input_value(i),
        None => JsonView::Null,
    };
    let v1 = match c.tool_id {
        Some(id) => if (v is Null || v.is_empty_object()) && tlookup(st.inputs, id) is Some {
            tlookup(st.inputs, id)->0
        } else {
            v
        },
        None => v,
    };
    match v1 {
        JsonView::Object(_) => v1,
        JsonView::Null => JsonView::Object(Seq::empty()),
        _ => JsonView::Object(seq![("value"@, v1)]),
    }
}

/// Tool calls announced to the client whose result was never sent, in the
/// order they were announced.
pub open spec fn unresolved(e: Seq<(Seq<char>, Seq<char>)>, done: Seq<Seq<char>>) -> Seq<
    (Seq<char>, Seq<char>),
>
    decreases e.len(),
{
    if e.len() == 0 {
        Seq::empty()
    } else {
        let r = unresolved(e.drop_last(), done);
        if done.contains(e.last().0) {
            r
        } else {
            r.push(e.last())
        }
    }
}

impl ChatTurn {
    /// Applies the events of one stream message in order (see `turn_steps`).
    pub fn apply_events(&mut self, events: Vec<StreamParseResult>, mcp_tools: &Vec<bool>) -> (r: Vec<
        ChatAction,
    >)
        requires
            mcp_tools@.len() == events@.len(),
            steps_fit(old(self)@, events.deep_view(), mcp_tools@),
        ensures
            (final(self)@, r.deep_view()) == turn_steps(old(self)@, events.deep_view(), mcp_tools@),
    {
        let ghost all = events.deep_view();
        let ghost n = all.len();
        let mut rest = events;
        let mut out: Vec<ChatAction> = Vec::new();
        let mut i: usize = 0;
        assert(all.subrange(0, n as int) =~= all);
        assert(mcp_tools@.subrange(0, n as int) =~= mcp_tools@);
        assert(out.deep_view() =~= Seq::<ActionView>::empty());
        let total = rest.len();
        loop
            invariant_except_break
                n == total,
                i <= n,
                n == all.len(),
                rest@.len() + i == n,
                n == mcp_tools@.len(),
                rest.deep_view() == all.subrange(i as int, n as int),
                steps_fit(self@, all.subrange(i as int, n as int), mcp_tools@.subrange(i as int, n as int)),
                turn_steps(old(self)@, all, mcp_tools@) == ({
                    let (sf, af) = turn_steps(
                        self@,
                        all.subrange(i as int, n as int),
                        mcp_tools@.subrange(i as int, n as int),
                    );
                    (sf, out.deep_view() + af)
                }),
            ensures
                turn_steps(old(self)@, all, mcp_tools@) == (self@, out.deep_view()),
            decreases n - i,
        {
            if rest.len() == 0 {
                proof {
                    assert(all.subrange(i as int, n as int) =~= Seq::<ParseResultView>::empty());
                    assert(out.deep_view() + Seq::<ActionView>::empty() =~= out.deep_view());
                }
                break;
            }
            assert(i < n);
            let ghost evs = all.subrange(i as int, n as int);
            let ghost ts = mcp_tools@.subrange(i as int, n as int);
            let ghost s0 = self@;
            let ghost before = out.deep_view();
            let ev = rest.remove(0);
            assert(ev.deep_view() == evs[0]);
            assert(mcp_tools@[i as int] == ts[0]);
            let stop = matches!(ev, StreamParseResult::Error { .. });
            let actions = self.apply_event(ev, mcp_tools[i]);
            let ghost a1 = actions.deep_view();
            let mut more = actions;
            out.append(&mut more);
            assert(out.deep_view() =~= before + a1);
            assert(evs.drop_first() =~= all.subrange(i + 1, n as int));
            assert(ts.drop_first() =~= mcp_tools@.subrange(i + 1, n as int));
            assert(rest.deep_view() =~= all.subrange(i + 1, n as int));
            i = i + 1;
            if stop {
                break;
            }
            proof {
                let (s2, a2) = turn_steps(self@, evs.drop_first(), ts.drop_first());
                assert(turn_steps(s0, evs, ts) == (s2, a1 + a2));
                assert(before + (a1 + a2) =~= out.deep_view() + a2);
            }
        }
        out
    }
}

impl ChatTurn {
    /// A provider's stream ended: fills in the total token count when none
    /// was reported, and tells whether the queued tool calls run now.
    pub fn stream_ended(&mut self) -> (r: bool)
        requires
            total_fits(old(self)@),
        ensures
            final(self)@ == with_total(old(self)@),
            r == runs_tools(old(self)@),
    {
        if self.total_tokens == 0 {
            self.total_tokens = self.request_tokens + self.response_tokens;
        }
        self.mcp_tooling && self.pending_tool_calls.len() > 0 && self.tool_round < MAX_TOOL_ROUNDS
    }

    /// The turn is over: fills in the total token count when none was reported.
    pub fn finish(&mut self)
        requires
            total_fits(old(self)@),
        ensures
            final(self)@ == with_total(old(self)@),
    {
        if self.total_tokens == 0 {
            self.total_tokens = self.request_tokens + self.response_tokens;
        }
    }

    /// Hands out the queued tool calls, in the order they came.
    pub fn take_pending_calls(&mut self) -> (r: Vec<ToolCall>)
        ensures
            r.deep_view() == old(self)@.pending,
            final(self)@ == (TurnView { pending: Seq::empty(), ..old(self)@ }),
    {
        let mut taken: Vec<ToolCall> = Vec::new();
        std::mem::swap(&mut taken, &mut self.pending_tool_calls);
        assert(self.pending_tool_calls.deep_view() =~= Seq::<ToolCallView>::empty());
        assert(self@ =~= TurnView { pending: Seq::empty(), ..old(self)@ });
        taken
    }

    /// The arguments to run a tool call with (see `arguments_for`).
    pub fn call_arguments(&self, call: &ToolCall) -> (r: Json)
        ensures
            r@ == arguments_for(self@, call@),
    {
        let v = match &call.input {
            Some(i) => input_json(i),
            None => Json::Null,
        };
        let v1 = match &call.tool_id {
            Some(id) => {
                if v.is_null() || v.is_empty_object() {
                    match self.tool_inputs.get(id.as_str()) {
                        Some(b) => b.copy(),
                        None => v,
                    }
                } else {
                    v
                }
            },
            None => v,
        };
        match v1 {
            Json::Object(m) => Json::Object(m),
            Json::Null => {
                let r = Json::Object(Vec::new());
                assert(r@ =~= JsonView::Object(Seq::empty())) by {
                    crate::json::lemma_entries_view(Seq::<(String, Json)>::empty());
                }
                r
            },
            other => {
                let mut m: Vec<(String, Json)> = Vec::new();
                m.push(("value".to_owned(), other));
                let r = Json::Object(m);
                assert(r@ =~= JsonView::Object(seq![("value"@, other@)])) by {
                    crate::json::lemma_entries_view(m@);
                }
                r
            },
        }
    }

    /// Records that a tool call's result was sent.
    pub fn record_tool_result(&mut self, tool_id: &Option<String>)
        ensures
            final(self)@ == (TurnView {
                completed: match tool_id.deep_view() {
                    Some(id) => set_add(old(self)@.completed, id),
                    None => old(self)@.completed,
                },
                ..old(self)@
            }),
    {
        if let Some(id) = tool_id {
            self.completed_tool_results.insert(id.clone());
        }
        assert(self@ =~= TurnView {
            completed: match tool_id.deep_view() {
                Some(id) => set_add(old(self)@.completed, id),
                None => old(self)@.completed,
            },
            ..old(self)@
        });
    }

    /// Ends a round of tool calls (see `continues`): when the turn goes on,
    /// the round count grows by one.
    pub fn finish_tool_round(
        &mut self,
        oauth_required: bool,
        lp: ToolLoop,
        produced: usize,
        conversation_known: bool,
    ) -> (r: bool)
        requires
            old(self)@.tool_round < MAX_TOOL_ROUNDS,
        ensures
            r == continues(old(self)@, oauth_required, lp, produced as nat, conversation_known),
            final(self)@ == if r {
                TurnView { tool_round: (old(self)@.tool_round + 1) as u32, ..old(self)@ }
            } else {
                old(self)@
            },
    {
        let go = !oauth_required && produced > 0 && match lp {
            ToolLoop::OpenAI => self.openai_response_id.is_some(),
            ToolLoop::MistralConversations => conversation_known,
            ToolLoop::Mistral => true,
            ToolLoop::Anthropic => true,
            ToolLoop::Gemini => true,
            ToolLoop::NoLoop => false,
        };
        if go {
            self.tool_round = self.tool_round + 1;
        }
        go
    }

    /// A new provider stream continues the turn: the round's text starts afresh.
    pub fn begin_round(&mut self)
        ensures
            final(self)@ == (TurnView { round_content: Seq::empty(), ..old(self)@ }),
    {
        self.stream_message_content = String::new();
        assert(self@ =~= TurnView { round_content: Seq::empty(), ..old(self)@ });
    }

    /// Tool calls announced to the client without a result (see `unresolved`).
    pub fn unresolved_tool_calls(&self) -> (r: Vec<(String, String)>)
        ensures
            r.deep_view() == unresolved(self@.emitted, self@.completed),
    {
        let ghost e = self@.emitted;
        let ghost done = self@.completed;
        let mut out: Vec<(String, String)> = Vec::new();
        let mut i: usize = 0;
        assert(e.subrange(0, 0) =~= Seq::<(Seq<char>, Seq<char>)>::empty());
        while i < self.emitted_tool_calls.len()
            invariant
                i <= e.len(),
                e == self@.emitted,
                done == self@.completed,
                out.deep_view() == unresolved(e.subrange(0, i as int), done),
            decreases e.len() - i,
        {
            let (id, name) = self.emitted_tool_calls.entry_at(i);
            let ghost pre = e.subrange(0, i + 1);
            assert(pre.drop_last() =~= e.subrange(0, i as int));
            if !self.completed_tool_results.contains(id.as_str()) {
                let ghost before = out.deep_view();
                out.push((id.clone(), name.clone()));
                assert(out.deep_view() =~= before.push(e[i as int]));
            }
            i = i + 1;
        }
        assert(e.subrange(0, e.len() as int) =~= e);
        out
    }

    pub fn request_tokens(&self) -> (r: i32)
        ensures
            r == self@.request_tokens,
    {
        self.request_tokens
    }

    pub fn response_tokens(&self) -> (r: i32)
        ensures
            r == self@.response_tokens,
    {
        self.response_tokens
    }

    pub fn total_tokens(&self) -> (r: i32)
        ensures
            r == self@.total_tokens,
    {
        self.total_tokens
    }

    pub fn message_content(&self) -> (r: &String)
        ensures
            r@ == self@.content,
    {
        &self.message_content
    }

    pub fn round_content(&self) -> (r: &String)
        ensures
            r@ == self@.round_content,
    {
        &self.stream_message_content
    }

    pub fn request_id(&self) -> (r: &Option<String>)
        ensures
            r.deep_view() == self@.request_id,
    {
        &self.request_id
    }

    pub fn response_id(&self) -> (r: &Option<String>)
        ensures
            r.deep_view() == self@.response_id,
    {
        &self.openai_response_id
    }

    pub fn tool_round(&self) -> (r: u32)
        ensures
            r == self@.tool_round,
    {
        self.tool_round
    }

    pub fn is_finished(&self) -> (r: bool)
        ensures
            r == self@.finished,
    {
        self.finished
    }

    /// Whether applying `ev` keeps the token counts within `i32` (see `event_fits`).
    pub fn event_fits(&self, ev: &StreamParseResult) -> (r: bool)
        ensures
            r == event_fits(self@, ev@),
    {
        let acc = self.mcp_tooling && self.tool_round > 0;
        match ev {
            StreamParseResult::TokenUsage { input_tokens, output_tokens, total_tokens, .. } => {
                count_fits(acc, self.request_tokens, *input_tokens) && count_fits(
                    acc,
                    self.response_tokens,
                    *output_tokens,
                ) && count_fits(acc, self.total_tokens, *total_tokens)
            },
            StreamParseResult::MessageStart { input_tokens, output_tokens, .. } => {
                count_fits(acc, self.request_tokens, *input_tokens) && count_fits(
                    acc,
                    self.response_tokens,
                    *output_tokens,
                )
            },
            _ => true,
        }
    }
}

fn count_fits(acc: bool, current: i32, t: Option<u32>) -> (r: bool)
    ensures
        r == fits_i32(counted(acc, current, t)),
{
    match t {
        Some(x) => {
            let v = x as i32;
            if acc {
                let sum = current as i64 + v as i64;
                i32::MIN as i64 <= sum && sum <= i32::MAX as i64
            } else {
                true
            }
        },
        None => true,
    }
}

impl ChatTurn {
    /// Whether `finish` or `stream_ended` can fill in the total (see `total_fits`).
    pub fn total_fits(&self) -> (r: bool)
        ensures
            r == total_fits(self@),
    {
        if self.total_tokens == 0 {
            let sum = self.request_tokens as i64 + self.response_tokens as i64;
            i32::MIN as i64 <= sum && sum <= i32::MAX as i64
        } else {
            true
        }
    }
}

// ---------------------------------------------------------------------------
// Mistral conversation events.
/// The data of a conversations-API message: its JSON, or the text itself.
pub open spec fn envelope_data(data: Seq<char>) -> JsonView {
    match parsed_json(data) {
        Some(v) => v,
        None => JsonView::Str(data),
    }
}

/// The value handed to the conversations decoder: with an event name, an
/// object of the data and the name; without one, the data.
pub open spec fn envelope_value(event: Seq<char>, data: Seq<char>) -> JsonView {
    if event.len() > 0 {
        JsonView::Object(seq![("data"@, envelope_data(data)), ("event"@, JsonView::Str(event))])
    } else {
        envelope_data(data)
    }
}

/// The conversation id a `conversation.response.started` message gives.
pub open spec fn envelope_conversation_id(event: Seq<char>, data: Seq<char>) -> Option<Seq<char>> {
    let name = if event.len() > 0 {
        Some(event)
    } else {
        envelope_data(data).str_field("type"@)
    };
    if name == Some("conversation.response.started"@) {
        envelope_data(data).str_field("conversation_id"@)
    } else {
        None
    }
}

/// Reads a conversations-API message (its event name and data): the
/// conversation id it starts, if any, and the value to decode (see
/// `envelope_value`).
pub fn conversation_envelope(event: &str, data: &str) -> (r: (Option<String>, Json))
    ensures
        r.0.deep_view() == envelope_conversation_id(event@, data@),
        r.1@ == envelope_value(event@, data@),
{
    let parsed = match parse_json(data) {
        Some(v) => v,
        None => Json::Str(data.to_owned()),
    };
    let has_event = !event.is_empty();
    let name: Option<String> = if has_event {
        Some(event.to_owned())
    } else {
        crate::json::string_of(parsed.get("type"))
    };
    let started = match &name {
        Some(n) => text_is(n, "conversation.response.started"),
        None => false,
    };
    let conversation_id = if started {
        crate::json::string_of(parsed.get("conversation_id"))
    } else {
        None
    };
    if has_event {
        let mut m: Vec<(String, Json)> = Vec::new();
        m.push(("data".to_owned(), parsed));
        m.push(("event".to_owned(), Json::Str(event.to_owned())));
        proof {
            crate::json::lemma_entries_view(m@);
            assert(crate::json::entries_view(m@) =~= seq![
                ("data"@, envelope_data(data@)),
                ("event"@, JsonView::Str(event@)),
            ]);
        }
        (conversation_id, Json::Object(m))
    } else {
        (conversation_id, parsed)
    }
}

// ---------------------------------------------------------------------------
// Running a catalogue tool.
/// The access a tool-server policy grants.
#[derive(Debug, Clone, Copy, PartialEq, Eq, Structural)]
pub enum McpPermission {
    ReadWrite,
    ReadOnly,
    Denied,
}

/// Why a tool may not run: a denied server, or a read-only grant for a tool
/// that is not read-only.
pub open spec fn access_error(permission: McpPermission, tool_is_read_only: bool) -> Option<Seq<char>> {
    match permission {
        McpPermission::Denied => Some("mcp access denied"@),
        McpPermission::ReadOnly => if !tool_is_read_only {
            Some("mcp access read_only: tool is not read-only"@)
        } else {
            None
        },
        McpPermission::ReadWrite => None,
    }
}

pub fn mcp_access_error(permission: McpPermission, tool_is_read_only: bool) -> (r: Option<String>)
    ensures
        r.deep_view() == access_error(permission, tool_is_read_only),
{
    match permission {
        McpPermission::Denied => Some("mcp access denied".to_owned()),
        McpPermission::ReadOnly => if !tool_is_read_only {
            Some("mcp access read_only: tool is not read-only".to_owned())
        } else {
            None
        },
        McpPermission::ReadWrite => None,
    }
}

/// The output recorded for a tool that failed: `{"error": .., "is_error": true}`.
pub open spec fn error_output(error: Seq<char>) -> JsonView {
    JsonView::Object(seq![("error"@, JsonView::Str(error)), ("is_error"@, JsonView::Bool(true))])
}

pub fn tool_error_output(error: String) -> (r: Json)
    ensures
        r@ == error_output(error@),
{
    let mut m: Vec<(String, Json)> = Vec::new();
    m.push(("error".to_owned(), Json::Str(error)));
    m.push(("is_error".to_owned(), Json::Bool(true)));
    let r = Json::Object(m);
    proof {
        crate::json::lemma_entries_view(m@);
        assert(crate::json::entries_view(m@) =~= seq![
            ("error"@, JsonView::Str(error@)),
            ("is_error"@, JsonView::Bool(true)),
        ]);
    }
    r
}

/// The output sent for a tool call that never got a result.
pub open spec fn unfinished_output() -> JsonView {
    JsonView::Object(seq![("error"@, JsonView::Str("Tool execution did not complete"@))])
}

pub fn unfinished_tool_output() -> (r: Json)
    ensures
        r@ == unfinished_output(),
{
    let mut m: Vec<(String, Json)> = Vec::new();
    m.push(("error".to_owned(), Json::Str("Tool execution did not complete".to_owned())));
    let r = Json::Object(m);
    proof {
        crate::json::lemma_entries_view(m@);
        assert(crate::json::entries_view(m@) =~= seq![
            ("error"@, JsonView::Str("Tool execution did not complete"@)),
        ]);
    }
    r
}

/// The status shown for a catalogue tool's result.
pub fn tool_status(is_error: bool) -> (r: String)
    ensures
        r@ == if is_error {
            "error"@
        } else {
            "success"@
        },
{
    if is_error {
        "error".to_owned()
    } else {
        "success".to_owned()
    }
}

/// The JSON value a tool input stands for (see `input_value`).
pub fn input_json(i: &ToolInput) -> (r: Json)
    ensures
        r@ == input_value(i@),
{
    match i {
        ToolInput::Json(v) => v.copy(),
        ToolInput::Text(t) => Json::Str(t.clone()),
    }
}

/// The tool name of an event whose step depends on the tool catalogue.
pub fn event_tool_name(ev: &StreamParseResult) -> (r: Option<String>)
    ensures
        r.deep_view() == event_tool(ev@),
{
    match ev {
        StreamParseResult::ToolInput(d) => Some(
            match &d.tool_name {
                Some(n) => n.clone(),
                None => "tool_call".to_owned(),
            },
        ),
        StreamParseResult::ToolCall(c) => Some(c.tool_name.clone()),
        _ => None,
    }
}

/// How a failed provider request is reported to the client.
pub enum ProviderFailure {
    /// The provider's quota or rate limit is exhausted.
    ApiQuotaExhausted,
    /// The provider answered with an error.
    ProviderError { message: String },
    /// The request could not be made or the stream broke.
    ConnectionFailed,
}

/// The message of a provider error whose body names none.
pub open spec fn status_error_message(status: u16, provider: Seq<char>) -> Seq<char> {
    crate::text::decimal(status as nat) + " error from "@ + provider + " provider"@
}

/// Classifies a provider's error answer: status 429, or a body that tells of
/// a rate limit, is an exhausted quota; otherwise it is a provider error
/// with the message the body carries (`body_message`), or one naming the
/// status and the provider.
pub fn classify_status_failure(
    status: u16,
    body_is_rate_limit: bool,
    body_message: Option<String>,
    provider: &str,
) -> (r: ProviderFailure)
    ensures
        status == 429 || body_is_rate_limit ==> r is ApiQuotaExhausted,
        !(status == 429 || body_is_rate_limit) ==> (r matches ProviderFailure::ProviderError { message }
            && message@ == match body_message {
            Some(m) => m@,
            None => status_error_message(status, provider@),
        }),
{
    if status == 429 || body_is_rate_limit {
        return ProviderFailure::ApiQuotaExhausted;
    }
    let message = match body_message {
        Some(m) => m,
        None => {
            let mut t = crate::text::u64_text(status as u64);
            t.append(" error from ");
            t.append(provider);
            t.append(" provider");
            t
        },
    };
    ProviderFailure::ProviderError { message }
}

} // verus!
