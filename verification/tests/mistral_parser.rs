use grengin_api::llm::mistral::{MistralFunctionDelta, MistralStreamParser, MistralToolCallDelta};
use grengin_api::llm::StreamParseResult;

fn fragment(id: Option<&str>, index: Option<u32>) -> MistralToolCallDelta {
    MistralToolCallDelta {
        id: id.map(|s| s.to_string()),
        index,
        function: Some(MistralFunctionDelta { name: None, arguments: None }),
    }
}

#[test]
fn mistral_text_delta_carries_chunk_id() {
    let mut p = MistralStreamParser::new();
    match p.parse_event(r#"{"id":"cmpl-1","choices":[{"index":0,"delta":{"content":"Bonjour"}}]}"#) {
        StreamParseResult::TextDelta { text, request_id } => {
            assert_eq!(text, "Bonjour");
            assert_eq!(request_id.as_deref(), Some("cmpl-1"));
        }
        _ => panic!("expected a text delta"),
    }
}

#[test]
fn mistral_usage_is_reported_when_choices_say_nothing() {
    let mut p = MistralStreamParser::new();
    match p.parse_event(
        r#"{"id":"cmpl-2","choices":[{"index":0,"delta":{},"finish_reason":"stop"}],"usage":{"prompt_tokens":10,"completion_tokens":4,"total_tokens":14}}"#,
    ) {
        StreamParseResult::TokenUsage { request_id, input_tokens, output_tokens, total_tokens, .. } => {
            assert_eq!(request_id.as_deref(), Some("cmpl-2"));
            assert_eq!(input_tokens, Some(10));
            assert_eq!(output_tokens, Some(4));
            assert_eq!(total_tokens, Some(14));
        }
        _ => panic!("expected token usage"),
    }
}

#[test]
fn mistral_done_null_and_garbage_report_nothing() {
    let mut p = MistralStreamParser::new();
    assert!(matches!(p.parse_event(" [DONE] "), StreamParseResult::NoEvent));
    assert!(matches!(p.parse_event("null"), StreamParseResult::NoEvent));
    assert!(matches!(p.parse_event("{not json"), StreamParseResult::NoEvent));
}

#[test]
fn mistral_arguments_accumulate_until_the_call_finishes() {
    let mut p = MistralStreamParser::new();
    match p.parse_event(
        r#"{"id":"c","choices":[{"index":0,"delta":{"tool_calls":[{"id":"call_1","index":0,"function":{"name":"lookup","arguments":"{\"q\":"}}]}}]}"#,
    ) {
        StreamParseResult::ToolInput(d) => {
            assert_eq!(d.partial_json, "{\"q\":");
            assert_eq!(d.tool_name.as_deref(), Some("lookup"));
            assert_eq!(d.tool_id.as_deref(), Some("call_1"));
            assert_eq!(d.index, Some(0));
        }
        _ => panic!("expected a tool input"),
    }
    // The next fragment names only the position: the id is found again.
    match p.parse_event(
        r#"{"id":"c","choices":[{"index":0,"delta":{"tool_calls":[{"index":0,"function":{"arguments":"\"x\"}"}}]}}]}"#,
    ) {
        StreamParseResult::ToolInput(d) => {
            assert_eq!(d.partial_json, "\"x\"}");
            assert_eq!(d.tool_id.as_deref(), Some("call_1"));
            assert_eq!(d.tool_name.as_deref(), Some("lookup"));
        }
        _ => panic!("expected a tool input"),
    }
    // Finishing for tool calls with no new fragment reports the buffered call.
    match p.parse_event(
        r#"{"id":"c","choices":[{"index":0,"delta":{},"finish_reason":"tool_calls"}]}"#,
    ) {
        StreamParseResult::ToolCall(call) => {
            assert_eq!(call.tool_name, "lookup");
            assert_eq!(call.tool_id.as_deref(), Some("call_1"));
            assert_eq!(call.index, Some(0));
            let input = call.input.expect("input");
            let json = input.as_json().expect("json input");
            assert_eq!(json.get("q").and_then(|v| v.as_str()).map(|s| s.as_str()), Some("x"));
            assert!(call.raw.is_some());
        }
        _ => panic!("expected a tool call"),
    }
    // The buffered call was taken.
    assert!(matches!(
        p.parse_event(r#"{"id":"c","choices":[{"index":0,"delta":{},"finish_reason":"tool_calls"}]}"#),
        StreamParseResult::NoEvent
    ));
}

#[test]
fn mistral_complete_arguments_with_finish_reason_make_a_call() {
    let mut p = MistralStreamParser::new();
    match p.parse_event(
        r#"{"id":"c","choices":[{"index":0,"delta":{"tool_calls":[{"id":"w1","function":{"name":"web_search","arguments":"{\"query\":\"rust\"}"}}]},"finish_reason":"tool_calls"}]}"#,
    ) {
        StreamParseResult::ToolCall(call) => {
            assert_eq!(call.tool_name, "web_search");
            assert!(call.is_web_search());
            let ws = call.web_search.expect("web search action");
            assert_eq!(ws.query.as_deref(), Some("rust"));
        }
        _ => panic!("expected a tool call"),
    }
}

#[test]
fn mistral_message_tool_calls_are_read_when_the_chunk_is_not_a_delta() {
    let mut p = MistralStreamParser::new();
    match p.parse_event(
        r#"{"choices":[{"finish_reason":"stop","message":{"tool_calls":[{"id":"m1","function":{"name":"f","arguments":"{}"}}]}}]}"#,
    ) {
        StreamParseResult::ToolCall(call) => {
            assert_eq!(call.tool_name, "f");
            assert_eq!(call.tool_id.as_deref(), Some("m1"));
        }
        _ => panic!("expected a tool call"),
    }
}

#[test]
fn mistral_position_without_id_gets_a_stable_fallback() {
    let mut p = MistralStreamParser::new();
    assert_eq!(p.resolve_tool_id(&fragment(None, Some(3))), "mistral_tool_3");
    assert_eq!(p.resolve_tool_id(&fragment(None, Some(3))), "mistral_tool_3");
    assert_eq!(p.resolve_tool_id(&fragment(Some("real"), Some(3))), "real");
    assert_eq!(p.resolve_tool_id(&fragment(None, Some(3))), "real");
    assert_eq!(p.resolve_tool_id(&fragment(None, None)), "mistral_tool_0");
    assert_eq!(p.resolve_tool_id(&fragment(None, Some(12))), "mistral_tool_12");
}

#[test]
fn mistral_upsert_keeps_first_name_and_appends_arguments() {
    let mut p = MistralStreamParser::new();
    let (name, buf) = p.upsert_tool_meta("t".to_string(), Some("first".to_string()), Some(1), Some("ab"));
    assert_eq!(name.as_deref(), Some("first"));
    assert_eq!(buf, "ab");
    let (name, buf) = p.upsert_tool_meta("t".to_string(), Some("second".to_string()), None, Some("cd"));
    assert_eq!(name.as_deref(), Some("first"));
    assert_eq!(buf, "abcd");
    let (name, buf) = p.upsert_tool_meta("t".to_string(), None, None, None);
    assert_eq!(name.as_deref(), Some("first"));
    assert_eq!(buf, "abcd");
}
