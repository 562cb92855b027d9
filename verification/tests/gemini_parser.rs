use grengin_api::json::parse_json;
use grengin_api::llm::gemini::{gemini_results, GeminiStreamParser};
use grengin_api::llm::{StreamParseResult, ToolInput};

#[test]
fn gemini_one_event_many_results_are_reported_in_order() {
    let mut p = GeminiStreamParser::new();
    let event = r#"{"candidates":[{"content":{"parts":[{"text":"Hel"},{"text":""},{"text":"lo"},{"functionCall":{"name":"lookup","id":"g1","args":{"q":1}}}]}}],"usageMetadata":{"promptTokenCount":3,"candidatesTokenCount":4,"totalTokenCount":7}}"#;
    match p.parse_event(event) {
        StreamParseResult::TextDelta { text, request_id } => {
            assert_eq!(text, "Hel");
            assert_eq!(request_id, None);
        }
        _ => panic!("expected the first text"),
    }
    // Queued results come out whatever the next input is.
    match p.parse_event("ignored") {
        StreamParseResult::TextDelta { text, .. } => assert_eq!(text, "lo"),
        _ => panic!("expected the second text"),
    }
    match p.parse_event("") {
        StreamParseResult::ToolCall(call) => {
            assert_eq!(call.tool_name, "lookup");
            assert_eq!(call.tool_id.as_deref(), Some("g1"));
            match call.input {
                Some(ToolInput::Json(j)) => assert!(j.get("q").is_some()),
                _ => panic!("expected JSON arguments"),
            }
            assert!(call.raw.is_some());
        }
        _ => panic!("expected a tool call"),
    }
    match p.parse_event("") {
        StreamParseResult::TokenUsage { input_tokens, output_tokens, total_tokens, .. } => {
            assert_eq!(input_tokens, Some(3));
            assert_eq!(output_tokens, Some(4));
            assert_eq!(total_tokens, Some(7));
        }
        _ => panic!("expected token usage"),
    }
    assert!(matches!(p.parse_event(""), StreamParseResult::NoEvent));
}

#[test]
fn gemini_function_call_without_name_or_args() {
    let v = parse_json(r#"{"candidates":[{"content":{"parts":[{"functionCall":{"args":{}}},{"functionCall":{"name":"f"}}]}}]}"#).unwrap();
    let results = gemini_results(&v);
    assert_eq!(results.len(), 1);
    match &results[0] {
        StreamParseResult::ToolCall(call) => {
            assert_eq!(call.tool_name, "f");
            assert_eq!(call.tool_id, None);
            match &call.input {
                Some(ToolInput::Json(j)) => assert!(j.is_empty_object()),
                _ => panic!("expected empty JSON arguments"),
            }
        }
        _ => panic!("expected a tool call"),
    }
}

#[test]
fn gemini_grounding_queries_and_chunks() {
    let v = parse_json(
        r#"{"candidates":[{"groundingMetadata":{"webSearchQueries":["rust verus","x"],"groundingChunks":[{"web":{"uri":"https://a","title":"A"}},{"web":{}},{"uri":"https://b"}]}}]}"#,
    )
    .unwrap();
    let results = gemini_results(&v);
    assert_eq!(results.len(), 2);
    match &results[0] {
        StreamParseResult::WebSearchAction { tool_name, tool_id, query, queries } => {
            assert_eq!(tool_name, "web_search_call");
            assert_eq!(tool_id.as_deref(), Some("gemini_web_search"));
            assert_eq!(query.as_deref(), Some("rust verus"));
            assert_eq!(queries.as_ref().map(|q| q.len()), Some(2));
        }
        _ => panic!("expected a web search action"),
    }
    match &results[1] {
        StreamParseResult::WebSearchResult { tool_id, results, .. } => {
            assert_eq!(tool_id.as_deref(), Some("gemini_web_search"));
            assert_eq!(results.len(), 2);
            assert_eq!(results[0].title, "A");
            assert_eq!(results[1].url, "https://b");
            assert_eq!(results[1].title, "");
        }
        _ => panic!("expected web search results"),
    }
}

#[test]
fn gemini_snake_case_grounding_and_arrays_of_responses() {
    let v = parse_json(
        r#"[{"candidates":[{"grounding_metadata":{"web_search_queries":["q"]}}]},{"usageMetadata":{"totalTokenCount":9}}]"#,
    )
    .unwrap();
    let results = gemini_results(&v);
    assert_eq!(results.len(), 2);
    assert!(matches!(results[0], StreamParseResult::WebSearchAction { .. }));
    match &results[1] {
        StreamParseResult::TokenUsage { input_tokens, total_tokens, .. } => {
            assert_eq!(*input_tokens, None);
            assert_eq!(*total_tokens, Some(9));
        }
        _ => panic!("expected token usage"),
    }
    // Usage with no known count reports nothing.
    let empty_usage = parse_json(r#"{"usageMetadata":{}}"#).unwrap();
    assert!(gemini_results(&empty_usage).is_empty());
}

#[test]
fn gemini_errors() {
    let mut p = GeminiStreamParser::new();
    match p.parse_event(r#"{"error":{"code":429,"message":"quota","status":"RESOURCE_EXHAUSTED"}}"#) {
        StreamParseResult::Error { error_type, message } => {
            assert_eq!(error_type, "RESOURCE_EXHAUSTED");
            assert_eq!(message, "quota");
        }
        _ => panic!("expected an error"),
    }
    match p.parse_event(r#"{"error":{}}"#) {
        StreamParseResult::Error { error_type, message } => {
            assert_eq!(error_type, "gemini_error");
            assert_eq!(message, "Gemini stream error");
        }
        _ => panic!("expected an error"),
    }
    // Text that does not parse is reported as a provider error with the parser's message.
    match p.parse_event("{oops") {
        StreamParseResult::Error { error_type, message } => {
            assert_eq!(error_type, "provider_error");
            assert!(!message.is_empty());
        }
        _ => panic!("expected an error"),
    }
    assert!(matches!(p.parse_event("  [DONE] "), StreamParseResult::NoEvent));
    assert!(matches!(p.parse_event("   "), StreamParseResult::NoEvent));
}

#[test]
fn gemini_drain_reports_all_results_of_an_event() {
    let mut p = GeminiStreamParser::new();
    let event = r#"{"candidates":[{"content":{"parts":[{"text":"Hel"},{"text":"lo"}]}}],"usageMetadata":{"promptTokenCount":3,"candidatesTokenCount":4,"totalTokenCount":7}}"#;
    let all = p.parse_with_pending(event);
    assert_eq!(all.len(), 3);
    assert!(matches!(&all[0], StreamParseResult::TextDelta { text, .. } if text == "Hel"));
    assert!(matches!(&all[1], StreamParseResult::TextDelta { text, .. } if text == "lo"));
    assert!(matches!(&all[2], StreamParseResult::TokenUsage { total_tokens: Some(7), .. }));
    assert!(matches!(p.parse_event(""), StreamParseResult::NoEvent));
    let none = p.parse_with_pending("[DONE]");
    assert_eq!(none.len(), 1);
    assert!(matches!(none[0], StreamParseResult::NoEvent));
}
