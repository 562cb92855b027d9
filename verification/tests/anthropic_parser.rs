use grengin_api::json::Json;
use grengin_api::llm::anthropic::{
    build_anthropic_continuation, make_anthropic_tool_blocks, u64_to_u32, AnthropicContentBlock,
    AnthropicMessage, AnthropicRole, AnthropicStreamParser,
};
use grengin_api::llm::StreamParseResult;

#[test]
fn anthropic_message_start_reads_id_and_usage() {
    let mut p = AnthropicStreamParser::new();
    let r = p.parse_event(
        r#"{"type":"message_start","message":{"id":"msg_1","usage":{"input_tokens":12,"output_tokens":3,"cache_read_input_tokens":5,"cache_creation_input_tokens":7}}}"#,
    );
    match r {
        StreamParseResult::MessageStart {
            request_id,
            input_tokens,
            output_tokens,
            cached_input_tokens,
            cache_creation_tokens,
        } => {
            assert_eq!(request_id, "msg_1");
            assert_eq!(input_tokens, Some(12));
            assert_eq!(output_tokens, Some(3));
            assert_eq!(cached_input_tokens, Some(5));
            assert_eq!(cache_creation_tokens, Some(7));
        }
        _ => panic!("expected a message start"),
    }
}

#[test]
fn anthropic_message_start_without_id_has_empty_id() {
    let mut p = AnthropicStreamParser::new();
    match p.parse_event(r#"{"type":"message_start","message":{}}"#) {
        StreamParseResult::MessageStart { request_id, input_tokens, .. } => {
            assert_eq!(request_id, "");
            assert_eq!(input_tokens, None);
        }
        _ => panic!("expected a message start"),
    }
}

#[test]
fn anthropic_message_delta_reports_output_tokens() {
    let mut p = AnthropicStreamParser::new();
    match p.parse_event(r#"{"type":"message_delta","delta":{},"usage":{"output_tokens":42}}"#) {
        StreamParseResult::TokenUsage { output_tokens, input_tokens, total_tokens, .. } => {
            assert_eq!(output_tokens, Some(42));
            assert_eq!(input_tokens, None);
            assert_eq!(total_tokens, None);
        }
        _ => panic!("expected token usage"),
    }
    // A count beyond u32 is dropped, so nothing is reported.
    assert!(matches!(
        p.parse_event(r#"{"type":"message_delta","usage":{"output_tokens":4294967296}}"#),
        StreamParseResult::NoEvent
    ));
}

#[test]
fn anthropic_thinking_delta_is_an_event_log() {
    let mut p = AnthropicStreamParser::new();
    match p.parse_event(
        r#"{"type":"content_block_delta","index":0,"delta":{"type":"thinking_delta","thinking":"hmm"}}"#,
    ) {
        StreamParseResult::EventLog { event_type, message, data } => {
            assert_eq!(event_type, "thinking_delta");
            assert_eq!(message.as_deref(), Some("hmm"));
            assert!(data.is_some());
        }
        _ => panic!("expected an event log"),
    }
}

#[test]
fn anthropic_text_delta() {
    let mut p = AnthropicStreamParser::new();
    match p.parse_event(
        r#"{"type":"content_block_delta","index":0,"delta":{"type":"text_delta","text":"Hello"}}"#,
    ) {
        StreamParseResult::TextDelta { text, request_id } => {
            assert_eq!(text, "Hello");
            assert_eq!(request_id, None);
        }
        _ => panic!("expected a text delta"),
    }
}

#[test]
fn anthropic_tool_use_then_fragments_name_their_tool() {
    let mut p = AnthropicStreamParser::new();
    match p.parse_event(
        r#"{"type":"content_block_start","index":1,"content_block":{"type":"tool_use","id":"tu_1","name":"lookup","input":{}}}"#,
    ) {
        StreamParseResult::ToolCall(call) => {
            assert_eq!(call.tool_name, "lookup");
            assert_eq!(call.tool_id.as_deref(), Some("tu_1"));
            assert_eq!(call.index, Some(1));
            assert!(call.web_search.is_none());
        }
        _ => panic!("expected a tool call"),
    }
    match p.parse_event(
        r#"{"type":"content_block_delta","index":1,"delta":{"type":"input_json_delta","partial_json":"{\"a\":"}}"#,
    ) {
        StreamParseResult::ToolInput(d) => {
            assert_eq!(d.partial_json, "{\"a\":");
            assert_eq!(d.tool_name.as_deref(), Some("lookup"));
            assert_eq!(d.tool_id.as_deref(), Some("tu_1"));
            assert_eq!(d.index, Some(1));
            assert!(!d.is_web_search());
        }
        _ => panic!("expected a tool input"),
    }
    // A fragment at an index with no tool carries no name.
    match p.parse_event(
        r#"{"type":"content_block_delta","index":9,"delta":{"type":"input_json_delta","partial_json":"x"}}"#,
    ) {
        StreamParseResult::ToolInput(d) => {
            assert_eq!(d.tool_name, None);
            assert_eq!(d.tool_id, None);
        }
        _ => panic!("expected a tool input"),
    }
}

#[test]
fn anthropic_web_search_fragments_yield_the_query_once_complete() {
    let mut p = AnthropicStreamParser::new();
    let _ = p.parse_event(
        r#"{"type":"content_block_start","index":0,"content_block":{"type":"server_tool_use","id":"srv_1","name":"web_search","input":{}}}"#,
    );
    match p.parse_event(
        r#"{"type":"content_block_delta","index":0,"delta":{"type":"input_json_delta","partial_json":"{\"query\":"}}"#,
    ) {
        StreamParseResult::ToolInput(d) => assert!(d.web_search.is_none()),
        _ => panic!("expected a tool input"),
    }
    match p.parse_event(
        r#"{"type":"content_block_delta","index":0,"delta":{"type":"input_json_delta","partial_json":"\"rust\"}"}}"#,
    ) {
        StreamParseResult::ToolInput(d) => {
            assert!(d.is_web_search());
            let ws = d.web_search.expect("a web search action");
            assert_eq!(ws.query.as_deref(), Some("rust"));
            assert_eq!(ws.queries, Some(vec!["rust".to_string()]));
        }
        _ => panic!("expected a tool input"),
    }
    // Stopping the block clears its buffer: a new fragment starts afresh.
    assert!(matches!(
        p.parse_event(r#"{"type":"content_block_stop","index":0}"#),
        StreamParseResult::NoEvent
    ));
    match p.parse_event(
        r#"{"type":"content_block_delta","index":0,"delta":{"type":"input_json_delta","partial_json":"\"x\"}"}}"#,
    ) {
        StreamParseResult::ToolInput(d) => assert!(d.web_search.is_none()),
        _ => panic!("expected a tool input"),
    }
}

#[test]
fn anthropic_web_search_results() {
    let mut p = AnthropicStreamParser::new();
    match p.parse_event(
        r#"{"type":"content_block_start","index":2,"content_block":{"type":"web_search_tool_result","tool_use_id":"srv_1","content":[{"type":"web_search_result","title":"Rust","url":"https://rust-lang.org","page_age":"1 day"},{"title":"B","url":"https://b"}]}}"#,
    ) {
        StreamParseResult::WebSearchResult { tool_name, tool_id, results } => {
            assert_eq!(tool_name, "web_search_call");
            assert_eq!(tool_id.as_deref(), Some("srv_1"));
            assert_eq!(results.len(), 2);
            assert_eq!(results[0].title, "Rust");
            assert_eq!(results[0].url, "https://rust-lang.org");
            assert_eq!(results[0].page_age.as_deref(), Some("1 day"));
            assert_eq!(results[1].page_age, None);
        }
        _ => panic!("expected web search results"),
    }
}

#[test]
fn anthropic_error_event_keeps_provider_type() {
    let mut p = AnthropicStreamParser::new();
    match p.parse_event(
        r#"{"type":"error","error":{"type":"overloaded_error","message":"Overloaded"}}"#,
    ) {
        StreamParseResult::Error { error_type, message } => {
            assert_eq!(error_type, "overloaded_error");
            assert_eq!(message, "Overloaded");
        }
        _ => panic!("expected an error"),
    }
}

#[test]
fn anthropic_other_events_report_nothing() {
    let mut p = AnthropicStreamParser::new();
    assert!(matches!(p.parse_event(r#"{"type":"ping"}"#), StreamParseResult::NoEvent));
    assert!(matches!(p.parse_event(r#"{"type":"message_stop"}"#), StreamParseResult::NoEvent));
    assert!(matches!(p.parse_event("garbage"), StreamParseResult::NoEvent));
    assert!(matches!(p.parse_event(""), StreamParseResult::NoEvent));
}

#[test]
fn anthropic_u64_to_u32_drops_large_values() {
    assert_eq!(u64_to_u32(Some(7)), Some(7));
    assert_eq!(u64_to_u32(Some(4294967295)), Some(4294967295));
    assert_eq!(u64_to_u32(Some(4294967296)), None);
    assert_eq!(u64_to_u32(None), None);
}

#[test]
fn anthropic_tool_blocks_carry_the_output_text() {
    let output = grengin_api::json::parse_json(r#"{"ok":true}"#).unwrap();
    let (use_block, result_block) =
        make_anthropic_tool_blocks("c1".to_string(), "lookup".to_string(), Json::Null, &output, false);
    match use_block {
        AnthropicContentBlock::ToolUse { id, name, input } => {
            assert_eq!(id, "c1");
            assert_eq!(name, "lookup");
            assert!(input.is_null());
        }
        _ => panic!("expected a tool use"),
    }
    match result_block {
        AnthropicContentBlock::ToolResult { tool_use_id, content, is_error } => {
            assert_eq!(tool_use_id, "c1");
            assert_eq!(content, r#"{"ok":true}"#);
            assert_eq!(is_error, Some(false));
        }
        _ => panic!("expected a tool result"),
    }
}

#[test]
fn anthropic_continuation_appends_uses_then_results() {
    let base = (
        vec![AnthropicMessage::with_blocks(
            AnthropicRole::User,
            vec![AnthropicContentBlock::Text { text: "hi".to_string() }],
        )],
        Some("system".to_string()),
    );
    let uses = vec![AnthropicContentBlock::Text { text: "calling".to_string() }];
    let results = vec![AnthropicContentBlock::ToolResult {
        tool_use_id: "c1".to_string(),
        content: "{}".to_string(),
        is_error: Some(false),
    }];
    let (messages, system) = build_anthropic_continuation(None, base, uses, results);
    assert_eq!(messages.len(), 3);
    assert_eq!(messages[1].role, AnthropicRole::Assistant);
    assert_eq!(messages[2].role, AnthropicRole::User);
    assert_eq!(system.as_deref(), Some("system"));

    // With an existing conversation the base is ignored and no system prompt returned;
    // with no tool uses only the results are appended.
    let (messages2, system2) = build_anthropic_continuation(
        Some(messages),
        (Vec::new(), Some("ignored".to_string())),
        Vec::new(),
        Vec::new(),
    );
    assert_eq!(messages2.len(), 4);
    assert_eq!(messages2[3].role, AnthropicRole::User);
    assert_eq!(system2, None);
}
