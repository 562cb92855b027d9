use grengin_api::llm::groq::GroqStreamParser;
use grengin_api::llm::StreamParseResult;

#[test]
fn groq_text_delta_prefers_metadata_id() {
    let parser = GroqStreamParser::new();
    let r = parser.parse_event(r#"{"id":"chunk-1","choices":[{"delta":{"content":"Hi"}}],"x_groq":{"id":"req-9"}}"#);
    match r {
        StreamParseResult::TextDelta { text, request_id } => {
            assert_eq!(text, "Hi");
            assert_eq!(request_id.as_deref(), Some("req-9"));
        }
        _ => panic!("expected a text delta"),
    }
}

#[test]
fn groq_done_and_empty_content_report_nothing() {
    let parser = GroqStreamParser::new();
    assert!(matches!(parser.parse_event("  [DONE]\n"), StreamParseResult::NoEvent));
    assert!(matches!(
        parser.parse_event(r#"{"id":"c","choices":[{"delta":{"content":""}}]}"#),
        StreamParseResult::NoEvent
    ));
    assert!(matches!(parser.parse_event("not json"), StreamParseResult::NoEvent));
}
