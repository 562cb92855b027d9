use grengin_api::json::{parse_json, Json};
use grengin_api::llm::openai::{
    extract_tool_output, openai_web_search_query_and_queries, parse_openai_url_citation,
    parse_tool_input, resolve_tool_id, resolve_tool_name, OpenaiStreamParser,
};
use grengin_api::llm::{StreamParseResult, ToolInput};

#[test]
fn openai_created_is_a_message_start() {
    let mut p = OpenaiStreamParser::new();
    match p.parse_event(
        r#"{"type":"response.created","response":{"id":"resp_1","usage":{"input_tokens":9,"output_tokens":0,"total_tokens":9}}}"#,
    ) {
        StreamParseResult::MessageStart { request_id, input_tokens, output_tokens, .. } => {
            assert_eq!(request_id, "resp_1");
            assert_eq!(input_tokens, Some(9));
            assert_eq!(output_tokens, Some(0));
        }
        _ => panic!("expected a message start"),
    }
    match p.parse_event(r#"{"type":"response.created","response":{"id":"resp_2"}}"#) {
        StreamParseResult::MessageStart { request_id, input_tokens, .. } => {
            assert_eq!(request_id, "resp_2");
            assert_eq!(input_tokens, None);
        }
        _ => panic!("expected a message start"),
    }
}

#[test]
fn openai_text_delta_uses_item_id() {
    let mut p = OpenaiStreamParser::new();
    match p.parse_event(r#"{"type":"response.output_text.delta","item_id":"msg_1","delta":"Hi"}"#) {
        StreamParseResult::TextDelta { text, request_id } => {
            assert_eq!(text, "Hi");
            assert_eq!(request_id.as_deref(), Some("msg_1"));
        }
        _ => panic!("expected a text delta"),
    }
}

#[test]
fn openai_completed_reports_usage() {
    let mut p = OpenaiStreamParser::new();
    match p.parse_event(
        r#"{"type":"response.completed","response":{"id":"resp_1","output":[],"usage":{"input_tokens":10,"output_tokens":20,"total_tokens":30}}}"#,
    ) {
        StreamParseResult::TokenUsage { request_id, input_tokens, output_tokens, total_tokens, .. } => {
            assert_eq!(request_id.as_deref(), Some("resp_1"));
            assert_eq!(input_tokens, Some(10));
            assert_eq!(output_tokens, Some(20));
            assert_eq!(total_tokens, Some(30));
        }
        _ => panic!("expected token usage"),
    }
}

#[test]
fn openai_function_call_announced_then_streamed_then_done() {
    let mut p = OpenaiStreamParser::new();
    assert!(matches!(
        p.parse_event(
            r#"{"type":"response.output_item.added","item":{"type":"function_call","id":"fc_1","name":"lookup","call_id":"call_1","arguments":"","status":"in_progress"}}"#,
        ),
        StreamParseResult::NoEvent
    ));
    assert_eq!(
        p.get_tool_meta("fc_1"),
        (Some("lookup".to_string()), Some("call_1".to_string()))
    );
    match p.parse_event(
        r#"{"type":"response.function_call_arguments.delta","item_id":"fc_1","delta":"{\"q\":"}"#,
    ) {
        StreamParseResult::ToolInput(d) => {
            assert_eq!(d.partial_json, "{\"q\":");
            assert_eq!(d.tool_name.as_deref(), Some("lookup"));
            assert_eq!(d.tool_id.as_deref(), Some("call_1"));
        }
        _ => panic!("expected a tool input"),
    }
    match p.parse_event(
        r#"{"type":"response.function_call_arguments.done","item_id":"fc_1","arguments":"{\"q\":\"x\"}"}"#,
    ) {
        StreamParseResult::ToolCall(call) => {
            assert_eq!(call.tool_name, "lookup");
            assert_eq!(call.tool_id.as_deref(), Some("call_1"));
            match call.input {
                Some(ToolInput::Json(j)) => assert!(j.get("q").is_some()),
                _ => panic!("expected JSON input"),
            }
        }
        _ => panic!("expected a tool call"),
    }
    // The announcement was used up.
    assert_eq!(p.get_tool_meta("fc_1"), (None, None));
}

#[test]
fn openai_tool_meta_record_and_take() {
    let mut p = OpenaiStreamParser::new();
    p.record_function_call_meta(&"i1".to_string(), &"f".to_string(), &None);
    assert_eq!(p.get_tool_meta("i1"), (Some("f".to_string()), None));
    assert_eq!(p.take_tool_meta("i1"), (Some("f".to_string()), None));
    assert_eq!(p.take_tool_meta("i1"), (None, None));
}

#[test]
fn openai_web_search_call_item() {
    let mut p = OpenaiStreamParser::new();
    match p.parse_event(
        r#"{"type":"response.output_item.done","item":{"type":"web_search_call","id":"ws_1","status":"completed","action":{"type":"search","query":"rust"}}}"#,
    ) {
        StreamParseResult::WebSearchAction { tool_name, tool_id, query, queries } => {
            assert_eq!(tool_name, "web_search_call");
            assert_eq!(tool_id.as_deref(), Some("ws_1"));
            assert_eq!(query.as_deref(), Some("rust"));
            assert_eq!(queries, Some(vec!["rust".to_string()]));
        }
        _ => panic!("expected a web search action"),
    }
}

#[test]
fn openai_citation_annotation() {
    let mut p = OpenaiStreamParser::new();
    match p.parse_event(
        r#"{"type":"response.output_text.annotation.added","annotation":{"type":"url_citation","title":"Rust","url":"https://rust-lang.org"}}"#,
    ) {
        StreamParseResult::WebSearchResult { tool_name, tool_id, results } => {
            assert_eq!(tool_name, "web_search_call");
            assert_eq!(tool_id, None);
            assert_eq!(results.len(), 1);
            assert_eq!(results[0].url, "https://rust-lang.org");
        }
        _ => panic!("expected a web search result"),
    }
    let other = parse_json(r#"{"type":"file_citation","title":"a","url":"b"}"#).unwrap();
    assert!(parse_openai_url_citation(&other).is_none());
}

#[test]
fn openai_reasoning_events_are_logged() {
    let mut p = OpenaiStreamParser::new();
    match p.parse_event(r#"{"type":"response.reasoning_summary_text.delta","delta":"thinking..."}"#) {
        StreamParseResult::EventLog { event_type, message, data } => {
            assert_eq!(event_type, "response.reasoning_summary_text.delta");
            assert_eq!(message.as_deref(), Some("thinking..."));
            assert!(data.is_none());
        }
        _ => panic!("expected an event log"),
    }
    match p.parse_event(r#"{"type":"response.reasoning.started"}"#) {
        StreamParseResult::EventLog { message, data, .. } => {
            assert_eq!(message, None);
            assert!(data.is_some());
        }
        _ => panic!("expected an event log"),
    }
}

#[test]
fn openai_error_events() {
    let mut p = OpenaiStreamParser::new();
    match p.parse_event(r#"{"type":"error","error":{"type":"rate_limit","message":"slow down"}}"#) {
        StreamParseResult::Error { error_type, message } => {
            assert_eq!(error_type, "rate_limit");
            assert_eq!(message, "slow down");
        }
        _ => panic!("expected an error"),
    }
    match p.parse_event(r#"{"type":"error","error":{}}"#) {
        StreamParseResult::Error { error_type, message } => {
            assert_eq!(error_type, "openai_error");
            assert_eq!(message, "OpenAI stream error");
        }
        _ => panic!("expected an error"),
    }
    // An untyped error member: the code stands in for the type.
    match p.parse_event(r#"{"error":{"code":"invalid_key","message":"bad key"}}"#) {
        StreamParseResult::Error { error_type, message } => {
            assert_eq!(error_type, "invalid_key");
            assert_eq!(message, "bad key");
        }
        _ => panic!("expected an error"),
    }
}

#[test]
fn openai_chat_completion_chunks() {
    let mut p = OpenaiStreamParser::new();
    match p.parse_event(r#"{"id":"chatcmpl-1","choices":[{"delta":{"content":"Yo"}}]}"#) {
        StreamParseResult::TextDelta { text, request_id } => {
            assert_eq!(text, "Yo");
            assert_eq!(request_id.as_deref(), Some("chatcmpl-1"));
        }
        _ => panic!("expected a text delta"),
    }
    match p.parse_event(
        r#"{"id":"chatcmpl-1","choices":[],"usage":{"prompt_tokens":1,"completion_tokens":2,"total_tokens":3}}"#,
    ) {
        StreamParseResult::TokenUsage { total_tokens, .. } => assert_eq!(total_tokens, Some(3)),
        _ => panic!("expected token usage"),
    }
    assert!(matches!(p.parse_event("not json"), StreamParseResult::NoEvent));
    assert!(matches!(p.parse_event(r#"{"type":"response.in_progress"}"#), StreamParseResult::NoEvent));
}

#[test]
fn openai_tool_input_readings() {
    assert!(parse_tool_input(Json::Null).is_none());
    assert!(parse_tool_input(Json::Str("   ".to_string())).is_none());
    match parse_tool_input(Json::Str("  {\"a\":1}".to_string())) {
        Some(ToolInput::Json(j)) => assert!(j.get("a").is_some()),
        _ => panic!("expected JSON"),
    }
    match parse_tool_input(Json::Str("{broken".to_string())) {
        Some(ToolInput::Text(t)) => assert_eq!(t, "{broken"),
        _ => panic!("expected text"),
    }
    match parse_tool_input(Json::Str("plain words".to_string())) {
        Some(ToolInput::Text(t)) => assert_eq!(t, "plain words"),
        _ => panic!("expected text"),
    }
    match parse_tool_input(Json::Bool(true)) {
        Some(ToolInput::Json(Json::Bool(true))) => {}
        _ => panic!("expected JSON true"),
    }
}

#[test]
fn openai_item_helpers() {
    let item = parse_json(r#"{"type":"mcp_call","call_id":"c9","id":"i9","result":{"ok":1},"content":"x"}"#).unwrap();
    assert!(extract_tool_output(&item).expect("output").get("ok").is_some());
    assert_eq!(resolve_tool_id(&item).as_deref(), Some("c9"));
    assert_eq!(resolve_tool_name(&item, "mcp_call"), "mcp_call");
    let named = parse_json(r#"{"tool_name":"t","id":"only"}"#).unwrap();
    assert_eq!(resolve_tool_name(&named, "x"), "t");
    assert_eq!(resolve_tool_id(&named).as_deref(), Some("only"));
    assert_eq!(resolve_tool_name(&parse_json("{}").unwrap(), ""), "tool_call");
}

#[test]
fn openai_query_defaults_to_queries() {
    let (q, qs) = openai_web_search_query_and_queries(&Some("a".to_string()), &None);
    assert_eq!(q.as_deref(), Some("a"));
    assert_eq!(qs, Some(vec!["a".to_string()]));
    let (q, qs) = openai_web_search_query_and_queries(&None, &Some(vec!["b".to_string()]));
    assert_eq!(q, None);
    assert_eq!(qs, Some(vec!["b".to_string()]));
}

#[test]
fn openai_mcp_item_output_is_a_tool_result() {
    let mut p = OpenaiStreamParser::new();
    match p.parse_event(
        r#"{"type":"response.output_item.done","item":{"type":"mcp_call","id":"m1","name":"search_docs","output":"done"}}"#,
    ) {
        StreamParseResult::ToolResult(r) => {
            assert_eq!(r.tool_name.as_deref(), Some("search_docs"));
            assert_eq!(r.tool_id.as_deref(), Some("m1"));
            assert!(r.output.is_some());
        }
        _ => panic!("expected a tool result"),
    }
}
