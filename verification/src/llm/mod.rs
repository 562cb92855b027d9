//! What a provider's event stream reports, and the decoders that turn each
//! provider's events into it.
use vstd::prelude::*;

use crate::json::{Json, JsonView, items_view, lemma_items_view};

pub mod tool;
pub mod web_search;
pub mod groq;
pub mod anthropic;
pub mod mistral;
pub mod mistral_conversations;
pub mod openai;
pub mod gemini;
pub mod laws;
pub mod member_laws;
pub mod tool_config;

pub use tool::{
    ToolCall, ToolCallView, ToolInput, ToolInputDelta, ToolInputDeltaView, ToolInputView, ToolKind,
    ToolResult, ToolResultView, is_web_search_name, tool_name_is_web_search,
};

verus! {

/// The query or queries of a web search.
pub struct StreamWebSearchAction {
    pub query: Option<String>,
    pub queries: Option<Vec<String>>,
}

pub struct WebSearchActionView {
    pub query: Option<Seq<char>>,
    pub queries: Option<Seq<Seq<char>>>,
}

impl View for StreamWebSearchAction {
    type V = WebSearchActionView;

    open spec fn view(&self) -> WebSearchActionView {
        WebSearchActionView { query: self.query.deep_view(), queries: self.queries.deep_view() }
    }
}

impl DeepView for StreamWebSearchAction {
    type V = WebSearchActionView;

    open spec fn deep_view(&self) -> WebSearchActionView {
        self.view()
    }
}

/// One page found by a web search.
pub struct StreamWebSearchResult {
    pub title: String,
    pub url: String,
    pub source: Option<String>,
    pub page_age: Option<String>,
    pub snippet: Option<String>,
}

pub struct WebSearchResultView {
    pub title: Seq<char>,
    pub url: Seq<char>,
    pub source: Option<Seq<char>>,
    pub page_age: Option<Seq<char>>,
    pub snippet: Option<Seq<char>>,
}

impl View for StreamWebSearchResult {
    type V = WebSearchResultView;

    open spec fn view(&self) -> WebSearchResultView {
        WebSearchResultView {
            title: self.title@,
            url: self.url@,
            source: self.source.deep_view(),
            page_age: self.page_age.deep_view(),
            snippet: self.snippet.deep_view(),
        }
    }
}

impl DeepView for StreamWebSearchResult {
    type V = WebSearchResultView;

    open spec fn deep_view(&self) -> WebSearchResultView {
        self.view()
    }
}

/// What is known so far of one web search call.
pub struct StreamWebSearchState {
    pub query: Option<String>,
    pub queries: Option<Vec<String>>,
    pub results: Vec<StreamWebSearchResult>,
}

pub struct WebSearchStateView {
    pub query: Option<Seq<char>>,
    pub queries: Option<Seq<Seq<char>>>,
    pub results: Seq<WebSearchResultView>,
}

impl View for StreamWebSearchState {
    type V = WebSearchStateView;

    open spec fn view(&self) -> WebSearchStateView {
        WebSearchStateView {
            query: self.query.deep_view(),
            queries: self.queries.deep_view(),
            results: self.results.deep_view(),
        }
    }
}

impl DeepView for StreamWebSearchState {
    type V = WebSearchStateView;

    open spec fn deep_view(&self) -> WebSearchStateView {
        self.view()
    }
}

/// The outcome of decoding one stream event.
#[allow(inconsistent_fields)]
pub enum StreamParseResult {
    NoEvent,
    MessageStart {
        request_id: String,
        input_tokens: Option<u32>,
        output_tokens: Option<u32>,
        cached_input_tokens: Option<u32>,
        cache_creation_tokens: Option<u32>,
    },
    TextDelta { text: String, request_id: Option<String> },
    ToolInput(ToolInputDelta),
    EventLog { event_type: String, message: Option<String>, data: Option<Json> },
    ToolCall(ToolCall),
    WebSearchAction {
        tool_name: String,
        tool_id: Option<String>,
        query: Option<String>,
        queries: Option<Vec<String>>,
    },
    WebSearchResult {
        tool_name: String,
        tool_id: Option<String>,
        results: Vec<StreamWebSearchResult>,
    },
    ToolResult(ToolResult),
    TokenUsage {
        request_id: Option<String>,
        input_tokens: Option<u32>,
        output_tokens: Option<u32>,
        total_tokens: Option<u32>,
        cached_input_tokens: Option<u32>,
        cache_creation_tokens: Option<u32>,
    },
    Error { error_type: String, message: String },
}

#[allow(inconsistent_fields)]
pub enum ParseResultView {
    NoEvent,
    MessageStart {
        request_id: Seq<char>,
        input_tokens: Option<u32>,
        output_tokens: Option<u32>,
        cached_input_tokens: Option<u32>,
        cache_creation_tokens: Option<u32>,
    },
    TextDelta { text: Seq<char>, request_id: Option<Seq<char>> },
    ToolInput(ToolInputDeltaView),
    EventLog { event_type: Seq<char>, message: Option<Seq<char>>, data: Option<JsonView> },
    ToolCall(ToolCallView),
    WebSearchAction {
        tool_name: Seq<char>,
        tool_id: Option<Seq<char>>,
        query: Option<Seq<char>>,
        queries: Option<Seq<Seq<char>>>,
    },
    WebSearchResult {
        tool_name: Seq<char>,
        tool_id: Option<Seq<char>>,
        results: Seq<WebSearchResultView>,
    },
    ToolResult(ToolResultView),
    TokenUsage {
        request_id: Option<Seq<char>>,
        input_tokens: Option<u32>,
        output_tokens: Option<u32>,
        total_tokens: Option<u32>,
        cached_input_tokens: Option<u32>,
        cache_creation_tokens: Option<u32>,
    },
    Error { error_type: Seq<char>, message: Seq<char> },
}

impl View for StreamParseResult {
    type V = ParseResultView;

    open spec fn view(&self) -> ParseResultView {
        match self {
            StreamParseResult::NoEvent => ParseResultView::NoEvent,
            StreamParseResult::MessageStart {
                request_id,
                input_tokens,
                output_tokens,
                cached_input_tokens,
                cache_creation_tokens,
            } => ParseResultView::MessageStart {
                request_id: request_id@,
                input_tokens: *input_tokens,
                output_tokens: *output_tokens,
                cached_input_tokens: *cached_input_tokens,
                cache_creation_tokens: *cache_creation_tokens,
            },
            StreamParseResult::TextDelta { text, request_id } => ParseResultView::TextDelta {
                text: text@,
                request_id: request_id.deep_view(),
            },
            StreamParseResult::ToolInput(d) => ParseResultView::ToolInput(d@),
            StreamParseResult::EventLog { event_type, message, data } => ParseResultView::EventLog {
                event_type: event_type@,
                message: message.deep_view(),
                data: data.deep_view(),
            },
            StreamParseResult::ToolCall(c) => ParseResultView::ToolCall(c@),
            StreamParseResult::WebSearchAction { tool_name, tool_id, query, queries } =>
                ParseResultView::WebSearchAction {
                tool_name: tool_name@,
                tool_id: tool_id.deep_view(),
                query: query.deep_view(),
                queries: queries.deep_view(),
            },
            StreamParseResult::WebSearchResult { tool_name, tool_id, results } =>
                ParseResultView::WebSearchResult {
                tool_name: tool_name@,
                tool_id: tool_id.deep_view(),
                results: results.deep_view(),
            },
            StreamParseResult::ToolResult(r) => ParseResultView::ToolResult(r@),
            StreamParseResult::TokenUsage {
                request_id,
                input_tokens,
                output_tokens,
                total_tokens,
                cached_input_tokens,
                cache_creation_tokens,
            } => ParseResultView::TokenUsage {
                request_id: request_id.deep_view(),
                input_tokens: *input_tokens,
                output_tokens: *output_tokens,
                total_tokens: *total_tokens,
                cached_input_tokens: *cached_input_tokens,
                cache_creation_tokens: *cache_creation_tokens,
            },
            StreamParseResult::Error { error_type, message } => ParseResultView::Error {
                error_type: error_type@,
                message: message@,
            },
        }
    }
}

impl DeepView for StreamParseResult {
    type V = ParseResultView;

    open spec fn deep_view(&self) -> ParseResultView {
        self.view()
    }
}

impl StreamParseResult {
    /// The request id of a text delta or of a message start.
    pub fn request_id(&self) -> (r: Option<String>)
        ensures
            r.deep_view() == match self@ {
                ParseResultView::TextDelta { request_id, .. } => request_id,
                ParseResultView::MessageStart { request_id, .. } => Some(request_id),
                _ => None,
            },
    {
        match self {
            StreamParseResult::TextDelta { request_id, .. } => clone_opt_string(request_id),
            StreamParseResult::MessageStart { request_id, .. } => Some(request_id.clone()),
            _ => None,
        }
    }

    /// The text of a text delta.
    pub fn text(&self) -> (r: Option<&str>)
        ensures
            r.deep_view() == match self@ {
                ParseResultView::TextDelta { text, .. } => Some(text),
                _ => None,
            },
    {
        match self {
            StreamParseResult::TextDelta { text, .. } => Some(text.as_str()),
            _ => None,
        }
    }
}

pub fn clone_opt_string(s: &Option<String>) -> (r: Option<String>)
    ensures
        r.deep_view() == s.deep_view(),
{
    match s {
        Some(t) => Some(t.clone()),
        None => None,
    }
}

pub fn copy_strings(v: &Vec<String>) -> (r: Vec<String>)
    ensures
        r.deep_view() == v.deep_view(),
{
    let mut out: Vec<String> = Vec::new();
    let mut i: usize = 0;
    while i < v.len()
        invariant
            i <= v@.len(),
            out@.len() == i,
            forall|j: int| 0 <= j < i ==> #[trigger] out@[j]@ == v@[j]@,
        decreases v@.len() - i,
    {
        out.push(v[i].clone());
        i = i + 1;
    }
    assert(out.deep_view() =~= v.deep_view());
    out
}

pub fn copy_opt_strings(v: &Option<Vec<String>>) -> (r: Option<Vec<String>>)
    ensures
        r.deep_view() == v.deep_view(),
{
    match v {
        Some(items) => Some(copy_strings(items)),
        None => None,
    }
}

impl StreamWebSearchAction {
    pub fn copy(&self) -> (r: StreamWebSearchAction)
        ensures
            r@ == self@,
    {
        StreamWebSearchAction { query: clone_opt_string(&self.query), queries: copy_opt_strings(&self.queries) }
    }
}

pub fn copy_opt_action(a: &Option<StreamWebSearchAction>) -> (r: Option<StreamWebSearchAction>)
    ensures
        r.deep_view() == a.deep_view(),
{
    match a {
        Some(x) => Some(x.copy()),
        None => None,
    }
}

impl StreamWebSearchResult {
    pub fn copy(&self) -> (r: StreamWebSearchResult)
        ensures
            r@ == self@,
    {
        StreamWebSearchResult {
            title: self.title.clone(),
            url: self.url.clone(),
            source: clone_opt_string(&self.source),
            page_age: clone_opt_string(&self.page_age),
            snippet: clone_opt_string(&self.snippet),
        }
    }
}

pub fn copy_results(v: &Vec<StreamWebSearchResult>) -> (r: Vec<StreamWebSearchResult>)
    ensures
        r.deep_view() == v.deep_view(),
{
    let mut out: Vec<StreamWebSearchResult> = Vec::new();
    let mut i: usize = 0;
    while i < v.len()
        invariant
            i <= v@.len(),
            out@.len() == i,
            forall|j: int| 0 <= j < i ==> #[trigger] out@[j]@ == v@[j]@,
        decreases v@.len() - i,
    {
        out.push(v[i].copy());
        i = i + 1;
    }
    assert(out.deep_view() =~= v.deep_view());
    out
}

impl StreamWebSearchState {
    pub fn copy(&self) -> (r: StreamWebSearchState)
        ensures
            r@ == self@,
    {
        StreamWebSearchState {
            query: clone_opt_string(&self.query),
            queries: copy_opt_strings(&self.queries),
            results: copy_results(&self.results),
        }
    }
}

/// The strings among `items`, in order.
pub open spec fn str_items(items: Seq<JsonView>) -> Seq<Seq<char>>
    decreases items.len(),
{
    if items.len() == 0 {
        Seq::empty()
    } else {
        let init = str_items(items.subrange(0, items.len() - 1));
        match items[items.len() - 1].as_str() {
            Some(s) => init.push(s),
            None => init,
        }
    }
}

/// The strings among a JSON array's items, in order.
pub fn string_items(items: &Vec<Json>) -> (r: Vec<String>)
    ensures
        r.deep_view() == str_items(items_view(items@)),
{
    let ghost iv = items_view(items@);
    proof {
        lemma_items_view(items@);
    }
    let mut out: Vec<String> = Vec::new();
    let mut i: usize = 0;
    while i < items.len()
        invariant
            i <= items@.len(),
            iv == items_view(items@),
            iv.len() == items@.len(),
            forall|j: int| 0 <= j < items@.len() ==> #[trigger] iv[j] == items@[j]@,
            out.deep_view() == str_items(iv.subrange(0, i as int)),
        decreases items@.len() - i,
    {
        let ghost before = out.deep_view();
        assert(iv.subrange(0, i + 1).subrange(0, i as int) =~= iv.subrange(0, i as int));
        match items[i].as_str() {
            Some(s) => {
                out.push(s.clone());
                assert(out.deep_view() =~= before.push(s@));
            },
            None => {},
        }
        i = i + 1;
    }
    assert(iv.subrange(0, items@.len() as int) =~= iv);
    out
}

/// The search action a web-search tool's arguments describe: `query` and
/// `queries` as given, with `queries` defaulting to the single `query`.
pub open spec fn web_search_action_of(input: JsonView) -> Option<WebSearchActionView> {
    let query = input.str_field("query"@);
    let listed = match input.array_field("queries"@) {
        Some(arr) => Some(str_items(arr)),
        None => None,
    };
    let queries = if listed is None && query is Some {
        Some(seq![query->0])
    } else {
        listed
    };
    if query is None && queries is None {
        None
    } else {
        Some(WebSearchActionView { query, queries })
    }
}

pub fn parse_web_search_action(input: &Json) -> (r: Option<StreamWebSearchAction>)
    ensures
        r.deep_view() == web_search_action_of(input@),
{
    let query = match input.get("query") {
        Some(q) => match q.as_str() {
            Some(s) => Some(s.clone()),
            None => None,
        },
        None => None,
    };
    let mut queries = match input.get("queries") {
        Some(q) => match q.as_array() {
            Some(arr) => Some(string_items(arr)),
            None => None,
        },
        None => None,
    };
    if queries.is_none() {
        if let Some(query_value) = &query {
            let mut one: Vec<String> = Vec::new();
            one.push(query_value.clone());
            assert(one.deep_view() =~= seq![query_value@]);
            queries = Some(one);
        }
    }
    if query.is_none() && queries.is_none() {
        None
    } else {
        Some(StreamWebSearchAction { query, queries })
    }
}

/// The call `build_tool_call` makes: a web-search tool whose input is a JSON
/// document also carries the search action that input describes.
pub open spec fn tool_call_of(
    tool_name: Seq<char>,
    tool_id: Option<Seq<char>>,
    input: Option<ToolInputView>,
    index: Option<u32>,
    raw: Option<JsonView>,
) -> ToolCallView {
    ToolCallView {
        tool_name,
        tool_id,
        input,
        index,
        raw,
        web_search: if is_web_search_name(tool_name) {
            match input {
                Some(ToolInputView::Json(v)) => web_search_action_of(v),
                _ => None,
            }
        } else {
            None
        },
    }
}

pub fn build_tool_call(
    tool_name: String,
    tool_id: Option<String>,
    input: Option<ToolInput>,
    index: Option<u32>,
    raw: Option<Json>,
) -> (r: ToolCall)
    ensures
        r@ == tool_call_of(
            tool_name@,
            tool_id.deep_view(),
            input.deep_view(),
            index,
            raw.deep_view(),
        ),
{
    let web_search = if tool_name_is_web_search(tool_name.as_str()) {
        match &input {
            Some(value) => match value.as_json() {
                Some(v) => parse_web_search_action(v),
                None => None,
            },
            None => None,
        }
    } else {
        None
    };
    ToolCall { tool_name, tool_id, input, index, raw, web_search }
}

pub fn build_tool_input_delta(
    partial_json: String,
    index: Option<u32>,
    tool_name: Option<String>,
    tool_id: Option<String>,
    web_search: Option<StreamWebSearchAction>,
) -> (r: ToolInputDelta)
    ensures
        r@ == (ToolInputDeltaView {
            partial_json: partial_json@,
            index,
            tool_name: tool_name.deep_view(),
            tool_id: tool_id.deep_view(),
            web_search: web_search.deep_view(),
        }),
{
    ToolInputDelta { partial_json, index, tool_name, tool_id, web_search }
}

} // verus!
