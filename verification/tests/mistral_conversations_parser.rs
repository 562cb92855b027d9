use grengin_api::json::{parse_json, Json};
use grengin_api::llm::mistral_conversations::MistralConversationStreamParser;
use grengin_api::llm::StreamParseResult;

#[test]
fn conversation_event_wrapper_reads_event_or_type() {
    let p = MistralConversationStreamParser::new();
    let wrapped = parse_json(r#"{"event":"message.output.delta","data":{"content":"x"}}"#).unwrap();
    let (name, payload) = p.parse_event_wrapper(&wrapped).expect("wrapper");
    assert_eq!(name, "message.output.delta");
    assert!(payload.get("content").is_some());

    let typed = parse_json(r#"{"type":"tool.execution.done","name":"n"}"#).unwrap();
    let (name, payload) = p.parse_event_wrapper(&typed).expect("wrapper");
    assert_eq!(name, "tool.execution.done");
    assert!(payload.get("name").is_some());

    let no_data = parse_json(r#"{"event":"e"}"#).unwrap();
    let (_, payload) = p.parse_event_wrapper(&no_data).expect("wrapper");
    assert!(payload.is_null());

    assert!(p.parse_event_wrapper(&parse_json(r#"{"x":1}"#).unwrap()).is_none());
}

#[test]
fn conversation_text_from_string_and_chunks() {
    let mut p = MistralConversationStreamParser::new();
    match p.parse_event(r#"{"event":"message.output.delta","data":{"content":"Hello"}}"#) {
        StreamParseResult::TextDelta { text, request_id } => {
            assert_eq!(text, "Hello");
            assert_eq!(request_id, None);
        }
        _ => panic!("expected a text delta"),
    }
    match p.parse_event(
        r#"{"type":"message.output.delta","content":[{"type":"text","text":"a"},{"type":"text","text":""},{"type":"text","text":"b"}]}"#,
    ) {
        StreamParseResult::TextDelta { text, .. } => assert_eq!(text, "ab"),
        _ => panic!("expected a text delta"),
    }
    // Empty text reports nothing.
    assert!(matches!(
        p.parse_event(r#"{"type":"message.output.delta","content":""}"#),
        StreamParseResult::NoEvent
    ));
}

#[test]
fn conversation_tool_references_take_precedence_over_text() {
    let mut p = MistralConversationStreamParser::new();
    match p.parse_event(
        r#"{"type":"message.output.delta","content":[{"type":"text","text":"see"},{"type":"tool_reference","title":"Doc","url":"https://d","tool":"web_search","description":"about"},{"type":"tool_reference"}]}"#,
    ) {
        StreamParseResult::WebSearchResult { tool_name, tool_id, results } => {
            assert_eq!(tool_name, "web_search_call");
            assert_eq!(tool_id, None);
            assert_eq!(results.len(), 1);
            assert_eq!(results[0].title, "Doc");
            assert_eq!(results[0].url, "https://d");
            assert_eq!(results[0].source.as_deref(), Some("web_search"));
            assert_eq!(results[0].snippet.as_deref(), Some("about"));
        }
        _ => panic!("expected web search results"),
    }
}

#[test]
fn conversation_tool_execution_started_reports_arguments() {
    let mut p = MistralConversationStreamParser::new();
    match p.parse_event(
        r#"{"type":"tool.execution.started","name":"web_search","id":"ex1","arguments":"{\"query\":\"q\"}"}"#,
    ) {
        StreamParseResult::ToolInput(d) => {
            assert_eq!(d.tool_name.as_deref(), Some("web_search"));
            assert_eq!(d.tool_id.as_deref(), Some("ex1"));
            assert_eq!(d.index, None);
            assert_eq!(d.web_search.expect("action").query.as_deref(), Some("q"));
        }
        _ => panic!("expected a tool input"),
    }
    // Without arguments nothing is reported.
    assert!(matches!(
        p.parse_event(r#"{"type":"tool.execution.delta","name":"x"}"#),
        StreamParseResult::NoEvent
    ));
}

#[test]
fn conversation_tool_execution_done_with_search_results() {
    let mut p = MistralConversationStreamParser::new();
    match p.parse_event(
        r#"{"type":"tool.execution.done","name":"web_search","id":"ex1","info":{"results":[{"title":"T","url":"https://t","source":"s","snippet":"sn"},{"title":"","url":""}]}}"#,
    ) {
        StreamParseResult::WebSearchResult { tool_id, results, .. } => {
            assert_eq!(tool_id.as_deref(), Some("ex1"));
            assert_eq!(results.len(), 1);
            assert_eq!(results[0].source.as_deref(), Some("s"));
            assert_eq!(results[0].snippet.as_deref(), Some("sn"));
        }
        _ => panic!("expected web search results"),
    }
}

#[test]
fn conversation_tool_execution_done_output_fallbacks() {
    let p = MistralConversationStreamParser::new();
    // Empty info falls back to output.
    let payload = parse_json(r#"{"name":"calc","id":"e2","info":{},"output":{"v":3}}"#).unwrap();
    match p.parse_tool_execution(&payload, true) {
        Some(StreamParseResult::ToolResult(r)) => {
            assert_eq!(r.tool_name.as_deref(), Some("calc"));
            assert_eq!(r.tool_id.as_deref(), Some("e2"));
            assert!(!r.is_web_search());
            assert!(r.raw.is_some());
            let out = r.output.expect("output");
            assert!(out.get("v").is_some());
        }
        _ => panic!("expected a tool result"),
    }
    // Nothing usable: the payload itself is the output; the name defaults.
    let payload = parse_json(r#"{"id":"e3"}"#).unwrap();
    match p.parse_tool_execution(&payload, true) {
        Some(StreamParseResult::ToolResult(r)) => {
            assert_eq!(r.tool_name.as_deref(), Some("tool_call"));
            assert!(r.output.expect("output").get("id").is_some());
        }
        _ => panic!("expected a tool result"),
    }
}

#[test]
fn conversation_function_call_fragments_accumulate() {
    let mut p = MistralConversationStreamParser::new();
    match p.parse_event(
        r#"{"type":"function.call.delta","tool_call_id":"fc1","name":"lookup","arguments":"{\"a\""}"#,
    ) {
        StreamParseResult::ToolInput(d) => {
            assert_eq!(d.partial_json, "{\"a\"");
            assert_eq!(d.tool_name.as_deref(), Some("lookup"));
            assert_eq!(d.tool_id.as_deref(), Some("fc1"));
        }
        _ => panic!("expected a tool input"),
    }
    match p.parse_event(r#"{"type":"function.call.delta","tool_call_id":"fc1","arguments":":1}"}"#) {
        StreamParseResult::ToolCall(call) => {
            assert_eq!(call.tool_name, "lookup");
            assert_eq!(call.tool_id.as_deref(), Some("fc1"));
            let input = call.input.expect("input");
            assert!(input.as_json().expect("json").get("a").is_some());
        }
        _ => panic!("expected a tool call"),
    }
    // Without a call id nothing is reported.
    assert!(matches!(
        p.parse_event(r#"{"type":"function.call.delta","arguments":"{}"}"#),
        StreamParseResult::NoEvent
    ));
}

#[test]
fn conversation_usage_and_errors() {
    let mut p = MistralConversationStreamParser::new();
    match p.parse_event(
        r#"{"type":"conversation.response.done","usage":{"prompt_tokens":5,"completion_tokens":6,"total_tokens":11}}"#,
    ) {
        StreamParseResult::TokenUsage { input_tokens, output_tokens, total_tokens, request_id, .. } => {
            assert_eq!(input_tokens, Some(5));
            assert_eq!(output_tokens, Some(6));
            assert_eq!(total_tokens, Some(11));
            assert_eq!(request_id, None);
        }
        _ => panic!("expected token usage"),
    }
    assert!(matches!(
        p.parse_event(r#"{"type":"conversation.response.done"}"#),
        StreamParseResult::NoEvent
    ));
    match p.parse_event(r#"{"type":"conversation.response.error","message":"boom","code":3051}"#) {
        StreamParseResult::Error { error_type, message } => {
            assert_eq!(error_type, "3051");
            assert_eq!(message, "boom");
        }
        _ => panic!("expected an error"),
    }
    match p.parse_event(r#"{"type":"conversation.response.error","code":-7}"#) {
        StreamParseResult::Error { error_type, message } => {
            assert_eq!(error_type, "-7");
            assert_eq!(message, "mistral error");
        }
        _ => panic!("expected an error"),
    }
    match p.parse_event(r#"{"type":"conversation.response.error"}"#) {
        StreamParseResult::Error { error_type, .. } => assert_eq!(error_type, "mistral_error"),
        _ => panic!("expected an error"),
    }
    assert!(matches!(p.parse_event("nope"), StreamParseResult::NoEvent));
    assert!(matches!(p.parse_event(r#"{"type":"other"}"#), StreamParseResult::NoEvent));
}

#[test]
fn conversation_null_payload_is_not_an_object() {
    let p = MistralConversationStreamParser::new();
    assert!(p.parse_message_output_delta(&Json::Null, None).is_none());
}
