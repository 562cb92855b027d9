//! Tool calls, tool inputs and tool results reported by a provider stream.
use vstd::prelude::*;

use crate::json::{Json, JsonView};
use crate::text::{contains_seq, str_contains};
use super::{StreamWebSearchAction, WebSearchActionView};

verus! {

/// A tool name denotes web search when it contains `web_search`.
pub open spec fn is_web_search_name(name: Seq<char>) -> bool {
    contains_seq(name, "web_search"@)
}

pub fn tool_name_is_web_search(name: &str) -> (r: bool)
    ensures
        r == is_web_search_name(name@),
{
    str_contains(name, "web_search")
}

#[derive(Debug, Clone, Copy, PartialEq, Eq, Structural)]
pub enum ToolKind {
    WebSearch,
    Other,
}

/// What a tool call carries as its arguments: a JSON document or raw text.
pub enum ToolInput {
    Json(Json),
    Text(String),
}

pub enum ToolInputView {
    Json(JsonView),
    Text(Seq<char>),
}

impl View for ToolInput {
    type V = ToolInputView;

    open spec fn view(&self) -> ToolInputView {
        match self {
            ToolInput::Json(v) => ToolInputView::Json(v@),
            ToolInput::Text(t) => ToolInputView::Text(t@),
        }
    }
}

impl DeepView for ToolInput {
    type V = ToolInputView;

    open spec fn deep_view(&self) -> ToolInputView {
        self.view()
    }
}

impl ToolInputView {
    pub open spec fn json(self) -> Option<JsonView> {
        match self {
            ToolInputView::Json(v) => Some(v),
            ToolInputView::Text(_) => None,
        }
    }
}

impl ToolInput {
    pub fn as_json(&self) -> (r: Option<&Json>)
        ensures
            r.deep_view() == self@.json(),
    {
        match self {
            ToolInput::Json(value) => Some(value),
            ToolInput::Text(_) => None,
        }
    }

    pub fn as_text(&self) -> (r: Option<&str>)
        ensures
            r.deep_view() == match self@ {
                ToolInputView::Json(_) => None,
                ToolInputView::Text(t) => Some(t),
            },
    {
        match self {
            ToolInput::Json(_) => None,
            ToolInput::Text(value) => Some(value.as_str()),
        }
    }

    pub fn copy(&self) -> (r: ToolInput)
        ensures
            r@ == self@,
    {
        match self {
            ToolInput::Json(v) => ToolInput::Json(v.copy()),
            ToolInput::Text(t) => ToolInput::Text(t.clone()),
        }
    }
}

/// A complete tool invocation.
pub struct ToolCall {
    pub tool_name: String,
    pub tool_id: Option<String>,
    pub input: Option<ToolInput>,
    pub index: Option<u32>,
    pub raw: Option<Json>,
    pub web_search: Option<StreamWebSearchAction>,
}

pub struct ToolCallView {
    pub tool_name: Seq<char>,
    pub tool_id: Option<Seq<char>>,
    pub input: Option<ToolInputView>,
    pub index: Option<u32>,
    pub raw: Option<JsonView>,
    pub web_search: Option<WebSearchActionView>,
}

impl View for ToolCall {
    type V = ToolCallView;

    open spec fn view(&self) -> ToolCallView {
        ToolCallView {
            tool_name: self.tool_name@,
            tool_id: self.tool_id.deep_view(),
            input: self.input.deep_view(),
            index: self.index,
            raw: self.raw.deep_view(),
            web_search: self.web_search.deep_view(),
        }
    }
}

impl DeepView for ToolCall {
    type V = ToolCallView;

    open spec fn deep_view(&self) -> ToolCallView {
        self.view()
    }
}

impl ToolCallView {
    pub open spec fn is_web_search(self) -> bool {
        self.web_search is Some || is_web_search_name(self.tool_name)
    }
}

impl ToolCall {
    pub fn copy(&self) -> (r: ToolCall)
        ensures
            r@ == self@,
    {
        ToolCall {
            tool_name: self.tool_name.clone(),
            tool_id: super::clone_opt_string(&self.tool_id),
            input: match &self.input {
                Some(i) => Some(i.copy()),
                None => None,
            },
            index: self.index,
            raw: match &self.raw {
                Some(j) => Some(j.copy()),
                None => None,
            },
            web_search: super::copy_opt_action(&self.web_search),
        }
    }

    /// A call is a web search when it carries a search action or its name says so.
    pub fn is_web_search(&self) -> (r: bool)
        ensures
            r == self@.is_web_search(),
    {
        self.web_search.is_some() || tool_name_is_web_search(self.tool_name.as_str())
    }

    pub fn kind(&self) -> (r: ToolKind)
        ensures
            r == (if self@.is_web_search() {
                ToolKind::WebSearch
            } else {
                ToolKind::Other
            }),
    {
        if self.is_web_search() {
            ToolKind::WebSearch
        } else {
            ToolKind::Other
        }
    }
}

/// A fragment of a tool call's arguments, streamed before the call completes.
pub struct ToolInputDelta {
    pub partial_json: String,
    pub index: Option<u32>,
    pub tool_name: Option<String>,
    pub tool_id: Option<String>,
    pub web_search: Option<StreamWebSearchAction>,
}

pub struct ToolInputDeltaView {
    pub partial_json: Seq<char>,
    pub index: Option<u32>,
    pub tool_name: Option<Seq<char>>,
    pub tool_id: Option<Seq<char>>,
    pub web_search: Option<WebSearchActionView>,
}

impl View for ToolInputDelta {
    type V = ToolInputDeltaView;

    open spec fn view(&self) -> ToolInputDeltaView {
        ToolInputDeltaView {
            partial_json: self.partial_json@,
            index: self.index,
            tool_name: self.tool_name.deep_view(),
            tool_id: self.tool_id.deep_view(),
            web_search: self.web_search.deep_view(),
        }
    }
}

impl DeepView for ToolInputDelta {
    type V = ToolInputDeltaView;

    open spec fn deep_view(&self) -> ToolInputDeltaView {
        self.view()
    }
}

impl ToolInputDeltaView {
    pub open spec fn is_web_search(self) -> bool {
        self.web_search is Some || match self.tool_name {
            Some(n) => is_web_search_name(n),
            None => false,
        }
    }
}

impl ToolInputDelta {
    pub fn is_web_search(&self) -> (r: bool)
        ensures
            r == self@.is_web_search(),
    {
        if self.web_search.is_some() {
            return true;
        }
        match &self.tool_name {
            Some(n) => tool_name_is_web_search(n.as_str()),
            None => false,
        }
    }
}

/// The outcome of a tool that the provider ran itself.
pub struct ToolResult {
    pub tool_name: Option<String>,
    pub tool_id: Option<String>,
    pub output: Option<Json>,
    pub index: Option<u32>,
    pub raw: Option<Json>,
}

pub struct ToolResultView {
    pub tool_name: Option<Seq<char>>,
    pub tool_id: Option<Seq<char>>,
    pub output: Option<JsonView>,
    pub index: Option<u32>,
    pub raw: Option<JsonView>,
}

impl View for ToolResult {
    type V = ToolResultView;

    open spec fn view(&self) -> ToolResultView {
        ToolResultView {
            tool_name: self.tool_name.deep_view(),
            tool_id: self.tool_id.deep_view(),
            output: self.output.deep_view(),
            index: self.index,
            raw: self.raw.deep_view(),
        }
    }
}

impl DeepView for ToolResult {
    type V = ToolResultView;

    open spec fn deep_view(&self) -> ToolResultView {
        self.view()
    }
}

impl ToolResultView {
    pub open spec fn is_web_search(self) -> bool {
        match self.tool_name {
            Some(n) => is_web_search_name(n),
            None => false,
        }
    }
}

impl ToolResult {
    pub fn is_web_search(&self) -> (r: bool)
        ensures
            r == self@.is_web_search(),
    {
        match &self.tool_name {
            Some(n) => tool_name_is_web_search(n.as_str()),
            None => false,
        }
    }
}

} // verus!
