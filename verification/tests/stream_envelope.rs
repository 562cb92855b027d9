use grengin_api::chat_stream::ProviderFailure;
use grengin_api::stream_envelope::{
    classify_image_failure, conversation_is_new, next_envelope, plan_conversation, ChatRequestError,
    ConversationStart, EnvelopeEvent, EnvelopeInput, EnvelopePhase,
};

fn begin(is_new: bool, budget_warning: bool, has_skills: bool, image_generation: bool) -> EnvelopeInput {
    EnvelopeInput::Begin { is_new, budget_warning, has_skills, image_generation }
}

#[test]
fn stream_opens_with_conversation_then_warning_then_skills() {
    let (p, ev) = next_envelope(EnvelopePhase::Start, begin(true, true, true, false));
    assert_eq!(p, EnvelopePhase::Streaming);
    assert_eq!(
        ev,
        vec![EnvelopeEvent::Conversation { is_new: true }, EnvelopeEvent::BudgetWarning, EnvelopeEvent::Skills]
    );
    let (_, ev) = next_envelope(EnvelopePhase::Start, begin(false, false, false, false));
    assert_eq!(ev, vec![EnvelopeEvent::Conversation { is_new: false }]);
}

#[test]
fn image_generation_answers_once_then_done() {
    let (p, ev) = next_envelope(EnvelopePhase::Start, begin(true, true, true, true));
    assert_eq!(p, EnvelopePhase::AwaitingImage);
    assert_eq!(ev, vec![EnvelopeEvent::Conversation { is_new: true }, EnvelopeEvent::BudgetWarning]);
    let (p2, ev) = next_envelope(p, EnvelopeInput::ImageResult { generated: true });
    assert_eq!(p2, EnvelopePhase::Finished);
    assert_eq!(ev, vec![EnvelopeEvent::ImageGenerated, EnvelopeEvent::Done]);
    let (_, ev) = next_envelope(p, EnvelopeInput::ImageResult { generated: false });
    assert_eq!(ev, vec![EnvelopeEvent::AiError, EnvelopeEvent::Done]);
}

#[test]
fn only_done_follows_an_error() {
    let (p, ev) = next_envelope(EnvelopePhase::Streaming, EnvelopeInput::Failed);
    assert_eq!((p, ev), (EnvelopePhase::ErrorSent, vec![EnvelopeEvent::AiError]));
    let (p, ev) = next_envelope(p, EnvelopeInput::Close { unanswered: 2, saved: 1 });
    assert_eq!((p, ev), (EnvelopePhase::Finished, vec![EnvelopeEvent::Done]));
}

#[test]
fn closing_sends_unanswered_results_and_artifacts_then_done() {
    let (p, ev) = next_envelope(EnvelopePhase::Streaming, EnvelopeInput::Cancelled);
    assert_eq!((p, ev), (EnvelopePhase::Closing, vec![EnvelopeEvent::Cancelled]));
    let (p, ev) = next_envelope(EnvelopePhase::Streaming, EnvelopeInput::Ended);
    assert_eq!((p, ev), (EnvelopePhase::Closing, vec![]));
    let (p, ev) = next_envelope(p, EnvelopeInput::Close { unanswered: 2, saved: 1 });
    assert_eq!(p, EnvelopePhase::Finished);
    assert_eq!(
        ev,
        vec![
            EnvelopeEvent::UnansweredResult,
            EnvelopeEvent::UnansweredResult,
            EnvelopeEvent::ArtifactSaved,
            EnvelopeEvent::Done
        ]
    );
}

#[test]
fn nothing_is_sent_once_finished() {
    for input in [EnvelopeInput::Close { unanswered: 0, saved: 0 }, EnvelopeInput::Failed, begin(true, true, true, true)] {
        assert_eq!(next_envelope(EnvelopePhase::Finished, input), (EnvelopePhase::Finished, vec![]));
    }
    assert_eq!(
        next_envelope(EnvelopePhase::Start, EnvelopeInput::Close { unanswered: 1, saved: 0 }),
        (EnvelopePhase::Start, vec![])
    );
}

#[test]
fn image_failures_are_classified() {
    assert!(matches!(
        classify_image_failure("status 429 Too Many Requests", None),
        ProviderFailure::ApiQuotaExhausted
    ));
    match classify_image_failure("request failed: {\"error\":\"bad prompt\"}", Some("bad prompt".into())) {
        ProviderFailure::ProviderError { message } => assert_eq!(message, "bad prompt"),
        _ => panic!("expected a provider error"),
    }
    match classify_image_failure("boom", None) {
        ProviderFailure::ProviderError { message } => assert_eq!(message, "boom"),
        _ => panic!("expected a provider error"),
    }
}

#[test]
fn a_request_continues_or_starts_a_conversation() {
    let existing = plan_conversation(Some(7), None).ok().unwrap();
    assert!(matches!(existing, ConversationStart::Existing(7)));
    assert!(!conversation_is_new(&existing));
    let new = plan_conversation(None, Some("hello".to_string())).ok().unwrap();
    assert!(matches!(&new, ConversationStart::New { first_prompt } if first_prompt == "hello"));
    assert!(conversation_is_new(&new));
    assert!(matches!(plan_conversation(None, None), Err(ChatRequestError::EmptyMessages)));
}
