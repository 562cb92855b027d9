use grengin_api::chat_stream::{classify_status_failure, ProviderFailure};
use grengin_api::chat_stream::{
    conversation_envelope, event_tool_name, mcp_access_error, merge_server_ids, plan_tool_routing,
    provider_from_lowercase, select_provider, tool_error_output, tool_loop, tool_status,
    tooling_flags, unfinished_tool_output, ChatAction, ChatTurn, LlmProvider, McpPermission,
    ProviderAvailability, ProviderError, ToolLoop, MAX_TOOL_ROUNDS,
};
use grengin_api::json::{parse_json, Json};
use grengin_api::llm::{
    StreamParseResult, StreamWebSearchResult, ToolCall, ToolInput, ToolInputDelta, ToolKind,
    ToolResult,
};

fn all_enabled() -> ProviderAvailability {
    ProviderAvailability { openai: Some(true), anthropic: Some(true), mistral: Some(true), gemini: Some(true) }
}

fn usage(input: Option<u32>, output: Option<u32>, total: Option<u32>) -> StreamParseResult {
    StreamParseResult::TokenUsage {
        request_id: Some("resp_1".to_string()),
        input_tokens: input,
        output_tokens: output,
        total_tokens: total,
        cached_input_tokens: None,
        cache_creation_tokens: None,
    }
}

fn delta(id: &str, name: &str, partial: &str) -> StreamParseResult {
    StreamParseResult::ToolInput(ToolInputDelta {
        partial_json: partial.to_string(),
        index: Some(0),
        tool_name: Some(name.to_string()),
        tool_id: Some(id.to_string()),
        web_search: None,
    })
}

fn call(id: &str, name: &str, input: Option<ToolInput>) -> ToolCall {
    ToolCall {
        tool_name: name.to_string(),
        tool_id: Some(id.to_string()),
        input,
        index: None,
        raw: None,
        web_search: None,
    }
}

#[test]
fn provider_selection_ignores_case_and_checks_settings() {
    assert_eq!(select_provider("OpenAI", all_enabled()), Ok(LlmProvider::OpenAI));
    assert_eq!(select_provider("GEMINI", all_enabled()), Ok(LlmProvider::Gemini));
    assert_eq!(select_provider("groq", all_enabled()), Err(ProviderError::InvalidProvider));
    let mut a = all_enabled();
    a.mistral = None;
    a.anthropic = Some(false);
    assert_eq!(select_provider("mistral", a), Err(ProviderError::NotConfigured));
    assert_eq!(select_provider("Anthropic", a), Err(ProviderError::DisabledByAdmin));
    assert_eq!(provider_from_lowercase(&"OpenAI".to_string(), all_enabled()), Err(ProviderError::InvalidProvider));
}

#[test]
fn routing_merges_servers_and_skips_catalogue_for_plain_gemini_search() {
    assert_eq!(merge_server_ids(vec![1, 2], &vec![2, 3, 3, 1, 4]), vec![1, 2, 3, 4]);
    assert_eq!(merge_server_ids(vec![5, 5], &vec![5]), vec![5, 5]);
    let r = plan_tool_routing(LlmProvider::Gemini, false, true, true, vec![], &vec![]);
    assert!(r.web_search);
    assert!(!r.load_mcp_tools);
    let r = plan_tool_routing(LlmProvider::Gemini, true, false, true, vec![], &vec![7]);
    assert_eq!(r.mcp_servers, vec![7]);
    assert!(r.load_mcp_tools);
    let r = plan_tool_routing(LlmProvider::OpenAI, true, false, true, vec![], &vec![]);
    assert!(r.load_mcp_tools);
}

#[test]
fn tooling_flags_and_loops() {
    let f = tooling_flags(LlmProvider::Mistral, true, 0);
    assert!(!f.mcp_tooling);
    assert!(f.mistral_use_conversations);
    assert_eq!(tool_loop(f), ToolLoop::MistralConversations);
    let f = tooling_flags(LlmProvider::Mistral, false, 0);
    assert!(!f.mistral_use_conversations);
    assert_eq!(tool_loop(f), ToolLoop::NoLoop);
    let f = tooling_flags(LlmProvider::Anthropic, false, 2);
    assert!(f.mcp_tooling && f.anthropic);
    assert_eq!(tool_loop(f), ToolLoop::Anthropic);
    assert_eq!(tool_loop(tooling_flags(LlmProvider::OpenAI, false, 1)), ToolLoop::OpenAI);
    assert_eq!(tool_loop(tooling_flags(LlmProvider::Gemini, true, 1)), ToolLoop::Gemini);
}

#[test]
fn text_and_tokens_first_round_replace_counts() {
    let mut t = ChatTurn::new(true);
    let a = t.apply_event(StreamParseResult::TextDelta { text: "Hel".to_string(), request_id: None }, false);
    assert!(matches!(&a[..], [ChatAction::Delta { text }] if text == "Hel"));
    t.apply_event(StreamParseResult::TextDelta { text: "lo".to_string(), request_id: Some("r".to_string()) }, false);
    assert_eq!(t.message_content(), "Hello");
    assert_eq!(t.round_content(), "Hello");
    assert_eq!(t.request_id().as_deref(), Some("r"));

    let a = t.apply_event(usage(Some(10), Some(5), None), false);
    assert!(matches!(&a[..], [ChatAction::MessageEnd { input_tokens: 10, output_tokens: 5 }]));
    let a = t.apply_event(usage(Some(12), None, Some(20)), false);
    assert!(matches!(&a[..], [ChatAction::MessageEnd { input_tokens: 12, output_tokens: 5 }]));
    assert_eq!(t.total_tokens(), 20);
    assert_eq!(t.response_id().as_deref(), Some("resp_1"));
}

#[test]
fn message_start_sets_ids_and_counts() {
    let mut t = ChatTurn::new(false);
    let a = t.apply_event(
        StreamParseResult::MessageStart {
            request_id: "msg_9".to_string(),
            input_tokens: Some(7),
            output_tokens: Some(1),
            cached_input_tokens: None,
            cache_creation_tokens: None,
        },
        false,
    );
    assert!(matches!(&a[..], [ChatAction::MessageStart { input_tokens: 7 }]));
    assert_eq!(t.request_id().as_deref(), Some("msg_9"));
    assert_eq!(t.response_id().as_deref(), Some("msg_9"));
    assert_eq!(t.response_tokens(), 1);
}

#[test]
fn streamed_catalogue_call_is_queued_once_when_its_arguments_parse() {
    let mut t = ChatTurn::new(true);
    let a = t.apply_event(delta("c1", "search_docs", "{\"q\":"), true);
    assert_eq!(a.len(), 1);
    match &a[0] {
        ChatAction::ToolCall { tool_name, input_text, input, kind, .. } => {
            assert_eq!(tool_name, "search_docs");
            assert_eq!(input_text.as_deref(), Some("{\"q\":"));
            assert!(input.is_none());
            assert_eq!(*kind, ToolKind::Other);
        }
        _ => panic!("expected a tool call"),
    }
    let a = t.apply_event(delta("c1", "search_docs", "\"x\"}"), true);
    assert_eq!(a.len(), 2);
    match &a[1] {
        ChatAction::ToolCall { tool_id, input: Some(ToolInput::Json(j)), input_text: None, .. } => {
            assert_eq!(tool_id.as_deref(), Some("c1"));
            assert!(j.get("q").is_some());
        }
        _ => panic!("expected the complete call"),
    }
    // The same id is not queued again.
    let a = t.apply_event(StreamParseResult::ToolCall(call("c1", "search_docs", None)), true);
    assert!(a.is_empty());
    assert!(t.stream_ended());
    let pending = t.take_pending_calls();
    assert_eq!(pending.len(), 1);
    assert_eq!(pending[0].tool_id.as_deref(), Some("c1"));
    assert!(!t.stream_ended());
    // The call was announced and has no result yet.
    assert_eq!(t.unresolved_tool_calls(), vec![("c1".to_string(), "search_docs".to_string())]);
    t.record_tool_result(&Some("c1".to_string()));
    assert!(t.unresolved_tool_calls().is_empty());
}

#[test]
fn calls_outside_the_catalogue_are_shown_but_not_queued() {
    let mut t = ChatTurn::new(true);
    let a = t.apply_event(StreamParseResult::ToolCall(call("x1", "other", None)), false);
    assert_eq!(a.len(), 1);
    assert!(!t.stream_ended());
    assert!(t.unresolved_tool_calls().is_empty());
    // Without a catalogue nothing is queued either.
    let mut t = ChatTurn::new(false);
    t.apply_event(StreamParseResult::ToolCall(call("x2", "docs", None)), true);
    assert!(t.take_pending_calls().is_empty());
}

#[test]
fn buffered_arguments_stand_in_for_an_empty_input() {
    let mut t = ChatTurn::new(true);
    t.apply_event(delta("c9", "docs", "{\"page\":2}"), false);
    let c = call("c9", "docs", Some(ToolInput::Json(parse_json("{}").unwrap())));
    let args = t.call_arguments(&c);
    assert!(args.get("page").is_some());
    // Null becomes an empty object; other values are wrapped.
    let c = call("zz", "docs", None);
    assert!(t.call_arguments(&c).is_empty_object());
    let c = call("zz", "docs", Some(ToolInput::Text("raw".to_string())));
    let args = t.call_arguments(&c);
    assert_eq!(args.get("value").and_then(|v| v.as_str()).map(|s| s.as_str()), Some("raw"));
}

#[test]
fn web_search_events_follow_the_last_call() {
    let mut t = ChatTurn::new(false);
    let a = t.apply_event(
        StreamParseResult::WebSearchAction {
            tool_name: "web_search_call".to_string(),
            tool_id: Some("ws_1".to_string()),
            query: Some("rust".to_string()),
            queries: None,
        },
        false,
    );
    match &a[..] {
        [ChatAction::ToolCall { tool_name, tool_id, kind, web_search: Some(ws), .. }] => {
            assert_eq!(tool_name, "web_search_call");
            assert_eq!(tool_id.as_deref(), Some("ws_1"));
            assert_eq!(*kind, ToolKind::WebSearch);
            assert_eq!(ws.query.as_deref(), Some("rust"));
        }
        _ => panic!("expected a web search call"),
    }
    // A repeated action for the same call is recorded but not shown again.
    let a = t.apply_event(
        StreamParseResult::WebSearchAction {
            tool_name: "web_search_call".to_string(),
            tool_id: None,
            query: Some("rust 2".to_string()),
            queries: None,
        },
        false,
    );
    assert!(a.is_empty());
    let a = t.apply_event(
        StreamParseResult::WebSearchResult {
            tool_name: "web_search_call".to_string(),
            tool_id: None,
            results: vec![StreamWebSearchResult {
                title: "T".to_string(),
                url: "https://t".to_string(),
                source: None,
                page_age: None,
                snippet: None,
            }],
        },
        false,
    );
    match &a[..] {
        [ChatAction::ToolResult { tool_id, status, web_search: Some(st), .. }] => {
            assert_eq!(tool_id.as_deref(), Some("ws_1"));
            assert_eq!(status.as_deref(), Some("success"));
            assert_eq!(st.query.as_deref(), Some("rust 2"));
            assert_eq!(st.results.len(), 1);
        }
        _ => panic!("expected a web search result"),
    }
}

#[test]
fn provider_tool_results_and_errors() {
    let mut t = ChatTurn::new(false);
    let a = t.apply_event(
        StreamParseResult::ToolResult(ToolResult {
            tool_name: Some("web_search".to_string()),
            tool_id: Some("r1".to_string()),
            output: Some(Json::Bool(true)),
            index: None,
            raw: None,
        }),
        false,
    );
    assert!(matches!(&a[..], [ChatAction::ToolResult { kind: ToolKind::WebSearch, status: None, .. }]));
    assert!(!t.is_finished());
    let events = vec![
        StreamParseResult::TextDelta { text: "a".to_string(), request_id: None },
        StreamParseResult::Error { error_type: "overloaded".to_string(), message: "busy".to_string() },
        StreamParseResult::TextDelta { text: "b".to_string(), request_id: None },
    ];
    let a = t.apply_events(events, &vec![false, false, false]);
    assert_eq!(a.len(), 2);
    assert!(matches!(&a[1], ChatAction::AiError { error_type, message } if error_type == "overloaded" && message == "busy"));
    assert!(t.is_finished());
    assert_eq!(t.message_content(), "a");
}

#[test]
fn later_rounds_add_token_counts() {
    let mut t = ChatTurn::new(true);
    t.apply_event(usage(Some(10), Some(4), Some(14)), false);
    t.apply_event(StreamParseResult::ToolCall(call("k", "tool", None)), true);
    assert!(t.stream_ended());
    let _ = t.take_pending_calls();
    assert!(t.finish_tool_round(false, ToolLoop::OpenAI, 1, false));
    assert_eq!(t.tool_round(), 1);
    t.begin_round();
    assert_eq!(t.round_content(), "");
    t.apply_event(usage(Some(3), Some(2), Some(5)), false);
    assert_eq!(t.request_tokens(), 13);
    assert_eq!(t.response_tokens(), 6);
    assert_eq!(t.total_tokens(), 19);
    assert!(t.event_fits(&usage(Some(1), None, None)));
    assert!(!t.event_fits(&usage(Some(i32::MAX as u32), None, None)));
}

#[test]
fn tool_rounds_stop_at_the_limit_and_on_missing_anchors() {
    let mut t = ChatTurn::new(true);
    for round in 0..MAX_TOOL_ROUNDS {
        t.apply_event(StreamParseResult::ToolCall(call(&format!("c{round}"), "tool", None)), true);
        assert!(t.stream_ended());
        let _ = t.take_pending_calls();
        assert!(t.finish_tool_round(false, ToolLoop::Anthropic, 1, false));
    }
    t.apply_event(StreamParseResult::ToolCall(call("late", "tool", None)), true);
    assert!(!t.stream_ended());

    let mut t = ChatTurn::new(true);
    // OpenAI continues only from a known response id.
    assert!(!t.finish_tool_round(false, ToolLoop::OpenAI, 1, false));
    assert!(!t.finish_tool_round(true, ToolLoop::Gemini, 1, true));
    assert!(!t.finish_tool_round(false, ToolLoop::Mistral, 0, true));
    assert!(!t.finish_tool_round(false, ToolLoop::MistralConversations, 1, false));
    assert!(t.finish_tool_round(false, ToolLoop::MistralConversations, 1, true));
    assert!(!t.finish_tool_round(false, ToolLoop::NoLoop, 3, true));
}

#[test]
fn total_defaults_to_input_plus_output() {
    let mut t = ChatTurn::new(false);
    t.apply_event(usage(Some(8), Some(2), None), false);
    assert!(t.total_fits());
    t.finish();
    assert_eq!(t.total_tokens(), 10);
}

#[test]
fn tool_helpers() {
    assert_eq!(mcp_access_error(McpPermission::Denied, true).as_deref(), Some("mcp access denied"));
    assert_eq!(
        mcp_access_error(McpPermission::ReadOnly, false).as_deref(),
        Some("mcp access read_only: tool is not read-only")
    );
    assert_eq!(mcp_access_error(McpPermission::ReadOnly, true), None);
    assert_eq!(mcp_access_error(McpPermission::ReadWrite, false), None);
    let e = tool_error_output("boom".to_string());
    assert_eq!(e.get("error").and_then(|v| v.as_str()).map(|s| s.as_str()), Some("boom"));
    assert!(matches!(e.get("is_error"), Some(Json::Bool(true))));
    assert!(unfinished_tool_output().get("error").is_some());
    assert_eq!(tool_status(true), "error");
    assert_eq!(tool_status(false), "success");
    assert_eq!(event_tool_name(&delta("a", "n", "")).as_deref(), Some("n"));
    assert_eq!(event_tool_name(&StreamParseResult::NoEvent), None);
}

#[test]
fn conversation_envelopes() {
    let (cid, v) = conversation_envelope("conversation.response.started", r#"{"conversation_id":"conv_1"}"#);
    assert_eq!(cid.as_deref(), Some("conv_1"));
    assert_eq!(v.get("event").and_then(|e| e.as_str()).map(|s| s.as_str()), Some("conversation.response.started"));
    assert!(v.get("data").and_then(|d| d.get("conversation_id")).is_some());

    let (cid, v) = conversation_envelope("", r#"{"type":"conversation.response.started","conversation_id":"c2"}"#);
    assert_eq!(cid.as_deref(), Some("c2"));
    assert!(v.get("type").is_some());

    let (cid, v) = conversation_envelope("message.output.delta", "not json");
    assert_eq!(cid, None);
    assert_eq!(v.get("data").and_then(|d| d.as_str()).map(|s| s.as_str()), Some("not json"));
}

#[test]
fn provider_status_failures_are_classified() {
    assert!(matches!(classify_status_failure(429, false, Some("slow down".into()), "openai"), ProviderFailure::ApiQuotaExhausted));
    assert!(matches!(classify_status_failure(500, true, None, "openai"), ProviderFailure::ApiQuotaExhausted));
    match classify_status_failure(400, false, Some("bad model".into()), "mistral") {
        ProviderFailure::ProviderError { message } => assert_eq!(message, "bad model"),
        _ => panic!("expected a provider error"),
    }
    match classify_status_failure(503, false, None, "gemini") {
        ProviderFailure::ProviderError { message } => assert_eq!(message, "503 error from gemini provider"),
        _ => panic!("expected a provider error"),
    }
}
