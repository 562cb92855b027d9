//! The frame of a chat stream: the events that open it (the conversation,
//! a budget warning, the active skills), the answer of an image-generation
//! model, and the events that close it, ending with `done`.
use vstd::prelude::*;

use crate::text::contains_seq;

verus! {

/// Where a chat stream stands.
#[derive(Debug, Clone, Copy, PartialEq, Eq, Structural)]
pub enum EnvelopePhase {
    /// Nothing has been sent yet.
    Start,
    /// The stream is opened for an image-generation model; its image (or
    /// error) is awaited.
    AwaitingImage,
    /// The model's events are being relayed (see `ChatTurn`).
    Streaming,
    /// The model's stream has ended or was cancelled; the results of tool
    /// calls left unanswered and the saved artifacts are sent now, before
    /// `done`.
    Closing,
    /// An error was sent: the stream ends, and only `done` follows.
    ErrorSent,
    /// `done` was sent; nothing more is.
    Finished,
}

/// What happened that the frame reacts to.
#[derive(Debug, Clone, Copy, PartialEq, Eq, Structural)]
pub enum EnvelopeInput {
    /// The request was accepted: whether the conversation is new, whether
    /// the department budget is low, whether skills are active, and whether
    /// the model generates images.
    Begin { is_new: bool, budget_warning: bool, has_skills: bool, image_generation: bool },
    /// The image model answered: with an image, or with an error.
    ImageResult { generated: bool },
    /// The provider request failed, the stream broke, or the provider
    /// reported an error inside its stream (the turn's `AiError` action):
    /// the error is sent once, by the frame.
    Failed,
    /// The client cancelled the stream.
    Cancelled,
    /// The model's stream ended by itself.
    Ended,
    /// The stream's closing work is done: this many tool calls were left
    /// unanswered and this many artifacts were saved.
    Close { unanswered: usize, saved: usize },
}

/// An event of the frame, as sent to the client.
#[derive(Debug, Clone, Copy, PartialEq, Eq, Structural)]
pub enum EnvelopeEvent {
    Conversation { is_new: bool },
    BudgetWarning,
    Skills,
    ImageGenerated,
    AiError,
    Cancelled,
    /// The failed result of a tool call that was left unanswered.
    UnansweredResult,
    ArtifactSaved,
    Done,
}

pub open spec fn when(c: bool, e: EnvelopeEvent) -> Seq<EnvelopeEvent> {
    if c {
        seq![e]
    } else {
        Seq::empty()
    }
}

/// `n` copies of an event.
pub open spec fn copies(n: nat, e: EnvelopeEvent) -> Seq<EnvelopeEvent> {
    Seq::new(n, |_i: int| e)
}

/// The events that open a stream: the conversation, a budget warning when
/// the budget is low, and the active skills, except for an image model,
/// which uses no skills.
pub open spec fn opening(is_new: bool, budget_warning: bool, has_skills: bool, image_generation: bool) -> Seq<
    EnvelopeEvent,
> {
    seq![EnvelopeEvent::Conversation { is_new }] + when(budget_warning, EnvelopeEvent::BudgetWarning) + when(
        has_skills && !image_generation,
        EnvelopeEvent::Skills,
    )
}

/// One step of the frame: the next phase and the events to send.
pub open spec fn envelope_step(phase: EnvelopePhase, input: EnvelopeInput) -> (EnvelopePhase, Seq<EnvelopeEvent>) {
    match (phase, input) {
        (
            EnvelopePhase::Start,
            EnvelopeInput::Begin { is_new, budget_warning, has_skills, image_generation },
        ) => (
            if image_generation {
                EnvelopePhase::AwaitingImage
            } else {
                EnvelopePhase::Streaming
            },
            opening(is_new, budget_warning, has_skills, image_generation),
        ),
        (EnvelopePhase::AwaitingImage, EnvelopeInput::ImageResult { generated }) => (
            EnvelopePhase::Finished,
            seq![
                if generated {
                    EnvelopeEvent::ImageGenerated
                } else {
                    EnvelopeEvent::AiError
                },
                EnvelopeEvent::Done,
            ],
        ),
        (EnvelopePhase::Streaming, EnvelopeInput::Failed) => (EnvelopePhase::ErrorSent, seq![EnvelopeEvent::AiError]),
        (EnvelopePhase::Streaming, EnvelopeInput::Cancelled) => (
            EnvelopePhase::Closing,
            seq![EnvelopeEvent::Cancelled],
        ),
        (EnvelopePhase::Streaming, EnvelopeInput::Ended) => (EnvelopePhase::Closing, Seq::empty()),
        (EnvelopePhase::Closing, EnvelopeInput::Close { unanswered, saved }) => (
            EnvelopePhase::Finished,
            copies(unanswered as nat, EnvelopeEvent::UnansweredResult) + copies(
                saved as nat,
                EnvelopeEvent::ArtifactSaved,
            ) + seq![EnvelopeEvent::Done],
        ),
        (EnvelopePhase::ErrorSent, EnvelopeInput::Close { .. }) => (
            EnvelopePhase::Finished,
            seq![EnvelopeEvent::Done],
        ),
        _ => (phase, Seq::empty()),
    }
}

fn push_copies(events: &mut Vec<EnvelopeEvent>, n: usize, e: EnvelopeEvent)
    ensures
        final(events)@ == old(events)@ + copies(n as nat, e),
{
    let ghost start = events@;
    let mut i: usize = 0;
    while i < n
        invariant
            i <= n,
            events@ == start + copies(i as nat, e),
        decreases n - i,
    {
        events.push(e);
        i = i + 1;
        assert(events@ =~= start + copies(i as nat, e));
    }
}

/// Decides what the frame sends next. From the start, the conversation
/// comes first, then a budget warning when the budget is low, then the
/// active skills (none for an image model); an image model answers with its
/// image or an error, then `done`; after an error only `done` follows; a
/// cancelled or ended stream sends the results of unanswered tool calls and
/// the saved artifacts, then `done`; nothing is sent once `done` was.
pub fn next_envelope(phase: EnvelopePhase, input: EnvelopeInput) -> (r: (EnvelopePhase, Vec<EnvelopeEvent>))
    ensures
        (r.0, r.1@) == envelope_step(phase, input),
        phase == EnvelopePhase::Start && input is Begin ==> {
            &&& r.1@.len() >= 1
            &&& r.1@[0] == EnvelopeEvent::Conversation { is_new: input->is_new }
            &&& input->budget_warning ==> r.1@[1] == EnvelopeEvent::BudgetWarning
            &&& input->image_generation ==> r.1@ == seq![EnvelopeEvent::Conversation { is_new: input->is_new }]
                + when(input->budget_warning, EnvelopeEvent::BudgetWarning)
        },
        r.1@.contains(EnvelopeEvent::Done) <==> (phase != EnvelopePhase::Finished && r.0
            == EnvelopePhase::Finished),
        forall|i: int| 0 <= i < r.1@.len() && r.1@[i] == EnvelopeEvent::Done ==> i == r.1@.len() - 1,
        phase == EnvelopePhase::Finished ==> r.0 == EnvelopePhase::Finished && r.1@.len() == 0,
        phase == EnvelopePhase::ErrorSent ==> r.1@.len() == 0 || r.1@ == seq![EnvelopeEvent::Done],
        phase == EnvelopePhase::AwaitingImage && input is ImageResult ==> r.1@ == seq![
            if input->generated {
                EnvelopeEvent::ImageGenerated
            } else {
                EnvelopeEvent::AiError
            },
            EnvelopeEvent::Done,
        ],
{
    let mut events: Vec<EnvelopeEvent> = Vec::new();
    let next = match (phase, input) {
        (
            EnvelopePhase::Start,
            EnvelopeInput::Begin { is_new, budget_warning, has_skills, image_generation },
        ) => {
            events.push(EnvelopeEvent::Conversation { is_new });
            if budget_warning {
                events.push(EnvelopeEvent::BudgetWarning);
            }
            if has_skills && !image_generation {
                events.push(EnvelopeEvent::Skills);
            }
            assert(events@ =~= opening(is_new, budget_warning, has_skills, image_generation));
            if image_generation {
                assert(events@ =~= seq![EnvelopeEvent::Conversation { is_new }] + when(
                    budget_warning,
                    EnvelopeEvent::BudgetWarning,
                ));
                EnvelopePhase::AwaitingImage
            } else {
                EnvelopePhase::Streaming
            }
        },
        (EnvelopePhase::AwaitingImage, EnvelopeInput::ImageResult { generated }) => {
            events.push(
                if generated {
                    EnvelopeEvent::ImageGenerated
                } else {
                    EnvelopeEvent::AiError
                },
            );
            events.push(EnvelopeEvent::Done);
            EnvelopePhase::Finished
        },
        (EnvelopePhase::Streaming, EnvelopeInput::Failed) => {
            events.push(EnvelopeEvent::AiError);
            EnvelopePhase::ErrorSent
        },
        (EnvelopePhase::Streaming, EnvelopeInput::Cancelled) => {
            events.push(EnvelopeEvent::Cancelled);
            EnvelopePhase::Closing
        },
        (EnvelopePhase::Streaming, EnvelopeInput::Ended) => EnvelopePhase::Closing,
        (EnvelopePhase::Closing, EnvelopeInput::Close { unanswered, saved }) => {
            push_copies(&mut events, unanswered, EnvelopeEvent::UnansweredResult);
            push_copies(&mut events, saved, EnvelopeEvent::ArtifactSaved);
            events.push(EnvelopeEvent::Done);
            EnvelopePhase::Finished
        },
        (EnvelopePhase::ErrorSent, EnvelopeInput::Close { .. }) => {
            events.push(EnvelopeEvent::Done);
            EnvelopePhase::Finished
        },
        _ => phase,
    };
    proof {
        let (p1, e1) = envelope_step(phase, input);
        assert(events@ =~= e1);
        lemma_step_facts(phase, input);
    }
    (next, events)
}

/// What one step sends: `done` exactly when it enters the finished phase,
/// and then last; an error only as the last event before the phase where
/// only `done` follows, or just before `done`; the conversation only when
/// the stream opens.
proof fn lemma_step_facts(phase: EnvelopePhase, input: EnvelopeInput)
    ensures
        envelope_step(phase, input).1.contains(EnvelopeEvent::Done) <==> (phase != EnvelopePhase::Finished
            && envelope_step(phase, input).0 == EnvelopePhase::Finished),
        forall|i: int|
            0 <= i < envelope_step(phase, input).1.len() && envelope_step(phase, input).1[i] == EnvelopeEvent::Done
                ==> i == envelope_step(phase, input).1.len() - 1,
        forall|i: int|
            0 <= i < envelope_step(phase, input).1.len() && envelope_step(phase, input).1[i] == EnvelopeEvent::AiError
                ==> (i == envelope_step(phase, input).1.len() - 1 && envelope_step(phase, input).0
                == EnvelopePhase::ErrorSent) || (i == envelope_step(phase, input).1.len() - 2
                && envelope_step(phase, input).0 == EnvelopePhase::Finished),
        phase == EnvelopePhase::Finished ==> envelope_step(phase, input) == (
            EnvelopePhase::Finished,
            Seq::<EnvelopeEvent>::empty(),
        ),
        phase == EnvelopePhase::ErrorSent ==> envelope_step(phase, input) == (
            EnvelopePhase::ErrorSent,
            Seq::<EnvelopeEvent>::empty(),
        ) || envelope_step(phase, input) == (EnvelopePhase::Finished, seq![EnvelopeEvent::Done]),
        phase != EnvelopePhase::Start ==> envelope_step(phase, input).0 != EnvelopePhase::Start,
        forall|i: int|
            0 <= i < envelope_step(phase, input).1.len() && envelope_step(phase, input).1[i] is Conversation ==> i
                == 0 && phase == EnvelopePhase::Start && input is Begin,
        phase == EnvelopePhase::Start && input is Begin ==> envelope_step(phase, input).1[0] is Conversation
            && envelope_step(phase, input).0 != EnvelopePhase::Start,
        phase == EnvelopePhase::Start && !(input is Begin) ==> envelope_step(phase, input) == (
            EnvelopePhase::Start,
            Seq::<EnvelopeEvent>::empty(),
        ),
{
    let (p1, e1) = envelope_step(phase, input);
    match (phase, input) {
        (
            EnvelopePhase::Start,
            EnvelopeInput::Begin { is_new, budget_warning, has_skills, image_generation },
        ) => {
            let a = seq![EnvelopeEvent::Conversation { is_new }];
            let b = when(budget_warning, EnvelopeEvent::BudgetWarning);
            let c = when(has_skills && !image_generation, EnvelopeEvent::Skills);
            assert(e1 == a + b + c);
            assert forall|i: int| 0 <= i < e1.len() implies e1[i] != EnvelopeEvent::Done && e1[i]
                != EnvelopeEvent::AiError && (e1[i] is Conversation ==> i == 0) by {
                if i == 0 {
                } else if i < 1 + b.len() {
                    assert(e1[i] == b[i - 1]);
                } else {
                    assert(e1[i] == c[i - 1 - b.len()]);
                }
            }
        },
        (EnvelopePhase::AwaitingImage, EnvelopeInput::ImageResult { generated }) => {
            assert(e1[1] == EnvelopeEvent::Done);
        },
        (EnvelopePhase::Closing, EnvelopeInput::Close { unanswered, saved }) => {
            let a = copies(unanswered as nat, EnvelopeEvent::UnansweredResult);
            let b = copies(saved as nat, EnvelopeEvent::ArtifactSaved);
            assert(e1 == a + b + seq![EnvelopeEvent::Done]);
            assert forall|i: int| 0 <= i < e1.len() - 1 implies e1[i] == EnvelopeEvent::UnansweredResult || e1[i]
                == EnvelopeEvent::ArtifactSaved by {
                if i < a.len() {
                    assert(e1[i] == a[i]);
                } else {
                    assert(e1[i] == b[i - a.len()]);
                }
            }
            assert(e1[e1.len() - 1] == EnvelopeEvent::Done);
        },
        (EnvelopePhase::ErrorSent, EnvelopeInput::Close { .. }) => {
            assert(e1[0] == EnvelopeEvent::Done);
        },
        _ => {},
    }
}

/// A run of the frame over several inputs: the phase it ends in and all it
/// sent.
pub open spec fn envelope_run(phase: EnvelopePhase, inputs: Seq<EnvelopeInput>) -> (EnvelopePhase, Seq<
    EnvelopeEvent,
>)
    decreases inputs.len(),
{
    if inputs.len() == 0 {
        (phase, Seq::empty())
    } else {
        let (p1, e1) = envelope_step(phase, inputs[0]);
        let (p2, e2) = envelope_run(p1, inputs.drop_first());
        (p2, e1 + e2)
    }
}

proof fn lemma_run_from_end(phase: EnvelopePhase, inputs: Seq<EnvelopeInput>)
    ensures
        phase == EnvelopePhase::Finished ==> envelope_run(phase, inputs) == (
            EnvelopePhase::Finished,
            Seq::<EnvelopeEvent>::empty(),
        ),
        phase == EnvelopePhase::ErrorSent ==> envelope_run(phase, inputs).1 == Seq::<EnvelopeEvent>::empty()
            || envelope_run(phase, inputs).1 == seq![EnvelopeEvent::Done],
    decreases inputs.len(),
{
    if inputs.len() > 0 {
        let (p1, e1) = envelope_step(phase, inputs[0]);
        lemma_step_facts(phase, inputs[0]);
        lemma_run_from_end(p1, inputs.drop_first());
        let e2 = envelope_run(p1, inputs.drop_first()).1;
        if phase == EnvelopePhase::Finished {
            assert(e1 + e2 =~= Seq::<EnvelopeEvent>::empty());
        }
        if phase == EnvelopePhase::ErrorSent {
            if p1 == EnvelopePhase::Finished {
                assert(e1 + e2 =~= seq![EnvelopeEvent::Done]);
            } else {
                assert(e1 + e2 =~= e2);
            }
        }
    }
}

/// `done` is sent at most once, as the very last event, and exactly when the
/// stream reaches its end: also after an error or a cancellation, and
/// nothing follows it.
pub proof fn law_done_is_last(phase: EnvelopePhase, inputs: Seq<EnvelopeInput>)
    ensures
        envelope_run(phase, inputs).1.contains(EnvelopeEvent::Done) <==> (phase != EnvelopePhase::Finished
            && envelope_run(phase, inputs).0 == EnvelopePhase::Finished),
        forall|i: int|
            0 <= i < envelope_run(phase, inputs).1.len() && envelope_run(phase, inputs).1[i] == EnvelopeEvent::Done
                ==> i == envelope_run(phase, inputs).1.len() - 1,
        phase == EnvelopePhase::Finished ==> envelope_run(phase, inputs) == (
            EnvelopePhase::Finished,
            Seq::<EnvelopeEvent>::empty(),
        ),
    decreases inputs.len(),
{
    if inputs.len() > 0 {
        let (p1, e1) = envelope_step(phase, inputs[0]);
        let rest = inputs.drop_first();
        let (p2, e2) = envelope_run(p1, rest);
        lemma_step_facts(phase, inputs[0]);
        law_done_is_last(p1, rest);
        let ev = e1 + e2;
        assert(envelope_run(phase, inputs) == (p2, ev));
        if e1.contains(EnvelopeEvent::Done) {
            assert(e2 =~= Seq::<EnvelopeEvent>::empty());
            assert(ev =~= e1);
        }
        assert forall|i: int| 0 <= i < ev.len() && ev[i] == EnvelopeEvent::Done implies i == ev.len() - 1 by {
            if i < e1.len() {
                assert(e1[i] == EnvelopeEvent::Done);
                assert(e1.contains(EnvelopeEvent::Done));
                assert(e2.len() == 0);
            } else {
                assert(e2[i - e1.len()] == EnvelopeEvent::Done);
            }
        }
        if ev.contains(EnvelopeEvent::Done) {
            let i = choose|i: int| 0 <= i < ev.len() && ev[i] == EnvelopeEvent::Done;
            if i < e1.len() {
                assert(e1.contains(EnvelopeEvent::Done));
            } else {
                assert(e2.contains(EnvelopeEvent::Done)) by {
                    assert(e2[i - e1.len()] == EnvelopeEvent::Done);
                }
            }
        }
        if e2.contains(EnvelopeEvent::Done) {
            let j = choose|j: int| 0 <= j < e2.len() && e2[j] == EnvelopeEvent::Done;
            assert(ev[e1.len() + j] == EnvelopeEvent::Done);
        }
        if e1.contains(EnvelopeEvent::Done) {
            let j = choose|j: int| 0 <= j < e1.len() && e1[j] == EnvelopeEvent::Done;
            assert(ev[j] == EnvelopeEvent::Done);
        }
    }
}

/// The predicate of `law_error_ends_the_stream` on one sequence of events.
pub open spec fn error_is_last(ev: Seq<EnvelopeEvent>) -> bool {
    forall|i: int|
        0 <= i < ev.len() && #[trigger] ev[i] == EnvelopeEvent::AiError ==> i == ev.len() - 1 || (i == ev.len()
            - 2 && ev[ev.len() - 1] == EnvelopeEvent::Done)
}

proof fn lemma_error_shift(e1: Seq<EnvelopeEvent>, e2: Seq<EnvelopeEvent>)
    requires
        forall|i: int| 0 <= i < e1.len() ==> e1[i] != EnvelopeEvent::AiError,
        error_is_last(e2),
    ensures
        error_is_last(e1 + e2),
{
    let ev = e1 + e2;
    assert forall|i: int| 0 <= i < ev.len() && #[trigger] ev[i] == EnvelopeEvent::AiError implies i == ev.len() - 1 || (i
        == ev.len() - 2 && ev[ev.len() - 1] == EnvelopeEvent::Done) by {
        if i < e1.len() {
            assert(ev[i] == e1[i]);
        } else {
            let k = i - e1.len();
            assert(e2[k] == ev[i]);
            if k == e2.len() - 2 {
                assert(ev[i + 1] == e2[k + 1]);
            }
        }
    }
}

proof fn lemma_error_is_last_step(phase: EnvelopePhase, input: EnvelopeInput, e2: Seq<EnvelopeEvent>)
    requires
        error_is_last(e2),
        envelope_step(phase, input).0 == EnvelopePhase::Finished ==> e2.len() == 0,
        envelope_step(phase, input).0 == EnvelopePhase::ErrorSent ==> e2.len() == 0 || e2 == seq![
            EnvelopeEvent::Done,
        ],
    ensures
        error_is_last(envelope_step(phase, input).1 + e2),
{
    let (p1, e1) = envelope_step(phase, input);
    match (phase, input) {
        (
            EnvelopePhase::Start,
            EnvelopeInput::Begin { is_new, budget_warning, has_skills, image_generation },
        ) => {
            let b = when(budget_warning, EnvelopeEvent::BudgetWarning);
            let c = when(has_skills && !image_generation, EnvelopeEvent::Skills);
            assert forall|i: int| 0 <= i < e1.len() implies e1[i] != EnvelopeEvent::AiError by {
                if i == 0 {
                } else if i < 1 + b.len() {
                    assert(e1[i] == b[i - 1]);
                } else {
                    assert(e1[i] == c[i - 1 - b.len()]);
                }
            }
            lemma_error_shift(e1, e2);
        },
        (EnvelopePhase::AwaitingImage, EnvelopeInput::ImageResult { generated }) => {
            assert(e1 + e2 =~= e1);
        },
        (EnvelopePhase::Streaming, EnvelopeInput::Failed) => {
            if e2.len() == 0 {
                assert(e1 + e2 =~= seq![EnvelopeEvent::AiError]);
            } else {
                assert(e1 + e2 =~= seq![EnvelopeEvent::AiError, EnvelopeEvent::Done]);
            }
        },
        (EnvelopePhase::Closing, EnvelopeInput::Close { unanswered, saved }) => {
            let a = copies(unanswered as nat, EnvelopeEvent::UnansweredResult);
            let b = copies(saved as nat, EnvelopeEvent::ArtifactSaved);
            assert forall|i: int| 0 <= i < e1.len() implies e1[i] != EnvelopeEvent::AiError by {
                if i < a.len() {
                    assert(e1[i] == a[i]);
                } else if i < a.len() + b.len() {
                    assert(e1[i] == b[i - a.len()]);
                }
            }
            lemma_error_shift(e1, e2);
        },
        _ => {
            assert forall|i: int| 0 <= i < e1.len() implies e1[i] != EnvelopeEvent::AiError by {}
            lemma_error_shift(e1, e2);
        },
    }
}

/// The stream ends after an error: whatever sent it (a failed request, a
/// broken stream, an error the provider reported, a failed image), the
/// only event that may follow `ai_error` is `done`.
pub proof fn law_error_ends_the_stream(phase: EnvelopePhase, inputs: Seq<EnvelopeInput>)
    ensures
        error_is_last(envelope_run(phase, inputs).1),
    decreases inputs.len(),
{
    if inputs.len() > 0 {
        let (p1, e1) = envelope_step(phase, inputs[0]);
        let rest = inputs.drop_first();
        law_error_ends_the_stream(p1, rest);
        lemma_run_from_end(p1, rest);
        lemma_error_is_last_step(phase, inputs[0], envelope_run(p1, rest).1);
    }
}

/// A stream opens with the conversation: the first event sent from the
/// start is `conversation`, and it is never sent again.
pub proof fn law_conversation_opens_the_stream(phase: EnvelopePhase, inputs: Seq<EnvelopeInput>)
    ensures
        phase == EnvelopePhase::Start && envelope_run(phase, inputs).1.len() > 0 ==> envelope_run(
            phase,
            inputs,
        ).1[0] is Conversation,
        forall|i: int|
            0 <= i < envelope_run(phase, inputs).1.len() && (#[trigger] envelope_run(phase, inputs).1[i]) is Conversation
                ==> i == 0 && phase == EnvelopePhase::Start,
    decreases inputs.len(),
{
    if inputs.len() > 0 {
        let (p1, e1) = envelope_step(phase, inputs[0]);
        let rest = inputs.drop_first();
        let (p2, e2) = envelope_run(p1, rest);
        lemma_step_facts(phase, inputs[0]);
        law_conversation_opens_the_stream(p1, rest);
        let ev = e1 + e2;
        assert(envelope_run(phase, inputs) == (p2, ev));
        if phase == EnvelopePhase::Start && !(inputs[0] is Begin) {
            assert(ev =~= e2);
        }
        assert forall|i: int| 0 <= i < ev.len() && (#[trigger] ev[i]) is Conversation implies i == 0 && phase
            == EnvelopePhase::Start by {
            if i < e1.len() {
                assert(e1[i] is Conversation);
            } else {
                assert(e2[i - e1.len()] is Conversation);
                if phase == EnvelopePhase::Start && !(inputs[0] is Begin) {
                    assert(e1.len() == 0);
                } else {
                    assert(p1 != EnvelopePhase::Start);
                }
            }
        }
        if phase == EnvelopePhase::Start && ev.len() > 0 {
            if inputs[0] is Begin {
                assert(ev[0] == e1[0]);
            } else {
                assert(ev[0] == e2[0]);
            }
        }
    }
}

/// An image-generation stream: the conversation, a budget warning when the
/// budget is low, the image or an error, then `done`; no skills and no
/// model events.
pub proof fn law_image_stream(is_new: bool, budget_warning: bool, has_skills: bool, generated: bool)
    ensures
        envelope_run(
            EnvelopePhase::Start,
            seq![
                EnvelopeInput::Begin { is_new, budget_warning, has_skills, image_generation: true },
                EnvelopeInput::ImageResult { generated },
            ],
        ) == (
            EnvelopePhase::Finished,
            seq![EnvelopeEvent::Conversation { is_new }] + when(budget_warning, EnvelopeEvent::BudgetWarning) + seq![
                if generated {
                    EnvelopeEvent::ImageGenerated
                } else {
                    EnvelopeEvent::AiError
                },
                EnvelopeEvent::Done,
            ],
        ),
{
    let inputs = seq![
        EnvelopeInput::Begin { is_new, budget_warning, has_skills, image_generation: true },
        EnvelopeInput::ImageResult { generated },
    ];
    let x = if generated {
        EnvelopeEvent::ImageGenerated
    } else {
        EnvelopeEvent::AiError
    };
    assert(inputs.drop_first() =~= seq![EnvelopeInput::ImageResult { generated }]);
    assert(inputs.drop_first().drop_first() =~= Seq::<EnvelopeInput>::empty());
    assert(when(has_skills && !true, EnvelopeEvent::Skills) =~= Seq::<EnvelopeEvent>::empty());
    let o = opening(is_new, budget_warning, has_skills, true);
    assert(o =~= seq![EnvelopeEvent::Conversation { is_new }] + when(budget_warning, EnvelopeEvent::BudgetWarning));
    let tail = inputs.drop_first();
    assert(tail[0] == EnvelopeInput::ImageResult { generated });
    assert(envelope_run(EnvelopePhase::Finished, tail.drop_first()) == (
        EnvelopePhase::Finished,
        Seq::<EnvelopeEvent>::empty(),
    ));
    let r1 = envelope_run(EnvelopePhase::AwaitingImage, tail);
    assert(r1.0 == EnvelopePhase::Finished);
    assert(r1.1 =~= seq![x, EnvelopeEvent::Done] + Seq::<EnvelopeEvent>::empty());
    assert(inputs[0] == EnvelopeInput::Begin { is_new, budget_warning, has_skills, image_generation: true });
    assert(o + r1.1 =~= seq![EnvelopeEvent::Conversation { is_new }] + when(
        budget_warning,
        EnvelopeEvent::BudgetWarning,
    ) + seq![x, EnvelopeEvent::Done]);
}

/// How a failed image generation is reported: a rate-limit status (` 429 `
/// in the error) is an exhausted quota; otherwise a provider error with the
/// message the provider's answer carries (`body_message`, read from the
/// text after the error's first `": "`), or the error's
/// own text.
pub fn classify_image_failure(err: &str, body_message: Option<String>) -> (r: crate::chat_stream::ProviderFailure)
    ensures
        contains_seq(err@, " 429 "@) ==> r is ApiQuotaExhausted,
        !contains_seq(err@, " 429 "@) ==> (r matches crate::chat_stream::ProviderFailure::ProviderError { message }
            && message@ == match body_message {
            Some(m) => m@,
            None => err@,
        }),
{
    if crate::text::str_contains(err, " 429 ") {
        return crate::chat_stream::ProviderFailure::ApiQuotaExhausted;
    }
    let message = match body_message {
        Some(m) => m,
        None => err.to_owned(),
    };
    crate::chat_stream::ProviderFailure::ProviderError { message }
}

/// Which conversation a chat request continues or starts.
pub enum ConversationStart {
    /// The request names a conversation.
    Existing(u128),
    /// A new conversation, titled from the request's first message.
    New { first_prompt: String },
}

/// Why a chat request is refused before anything is sent.
#[derive(Debug, Clone, Copy, PartialEq, Eq, Structural)]
pub enum ChatRequestError {
    /// A new conversation needs a first message.
    EmptyMessages,
}

/// A request that names a conversation continues it; one that names none
/// starts a new conversation from its first message, and is refused when it
/// has no message.
pub fn plan_conversation(chat_id: Option<u128>, first_message: Option<String>) -> (r: Result<
    ConversationStart,
    ChatRequestError,
>)
    ensures
        chat_id matches Some(c) ==> (r matches Ok(ConversationStart::Existing(id)) && id == c),
        chat_id is None && first_message is None ==> r == Err::<ConversationStart, ChatRequestError>(
            ChatRequestError::EmptyMessages,
        ),
        chat_id is None && first_message is Some ==> (r matches Ok(ConversationStart::New { first_prompt })
            && first_prompt@ == first_message->0@),
{
    match chat_id {
        Some(c) => Ok(ConversationStart::Existing(c)),
        None => match first_message {
            Some(t) => Ok(ConversationStart::New { first_prompt: t }),
            None => Err(ChatRequestError::EmptyMessages),
        },
    }
}

/// The `is_new` flag of the opening `conversation` event: whether the
/// request created the conversation.
pub fn conversation_is_new(start: &ConversationStart) -> (r: bool)
    ensures
        r == (start is New),
{
    match start {
        ConversationStart::Existing(_) => false,
        ConversationStart::New { .. } => true,
    }
}


/// The opening of a stream: the conversation event first; then the budget
/// warning exactly when the budget is low; then the skills event exactly when
/// skills are active and the model is not an image model, whatever the
/// budget, as the last opening event; nothing else.
pub proof fn law_opening_events(is_new: bool, budget_warning: bool, has_skills: bool, image_generation: bool)
    ensures
        ({
            let ev = envelope_step(
                EnvelopePhase::Start,
                EnvelopeInput::Begin { is_new, budget_warning, has_skills, image_generation },
            ).1;
            let skills = has_skills && !image_generation;
            &&& ev.len() == 1 + (if budget_warning { 1int } else { 0int }) + (if skills { 1int } else { 0int })
            &&& ev[0] == EnvelopeEvent::Conversation { is_new }
            &&& ev.contains(EnvelopeEvent::Skills) <==> skills
            &&& ev.contains(EnvelopeEvent::BudgetWarning) <==> budget_warning
            &&& skills ==> ev.last() == EnvelopeEvent::Skills
            &&& budget_warning ==> ev[1] == EnvelopeEvent::BudgetWarning
        }),
{
    let ev = opening(is_new, budget_warning, has_skills, image_generation);
    let skills = has_skills && !image_generation;
    let c = EnvelopeEvent::Conversation { is_new };
    if budget_warning && skills {
        assert(ev =~= seq![c, EnvelopeEvent::BudgetWarning, EnvelopeEvent::Skills]);
        assert(ev[2] == EnvelopeEvent::Skills);
        assert(ev[1] == EnvelopeEvent::BudgetWarning);
    } else if budget_warning {
        assert(ev =~= seq![c, EnvelopeEvent::BudgetWarning]);
        assert(ev[1] == EnvelopeEvent::BudgetWarning);
        assert(!ev.contains(EnvelopeEvent::Skills));
    } else if skills {
        assert(ev =~= seq![c, EnvelopeEvent::Skills]);
        assert(ev[1] == EnvelopeEvent::Skills);
        assert(!ev.contains(EnvelopeEvent::BudgetWarning));
    } else {
        assert(ev =~= seq![c]);
        assert(!ev.contains(EnvelopeEvent::Skills));
        assert(!ev.contains(EnvelopeEvent::BudgetWarning));
    }
}


/// The close of a stream that ended or was cancelled: one failed result for
/// each tool call left unanswered, then one event for each saved artifact,
/// then `done`, and the stream is finished; after an error only `done` is
/// sent.
pub proof fn law_closing_events(unanswered: usize, saved: usize)
    ensures
        ({
            let (p, ev) = envelope_step(EnvelopePhase::Closing, EnvelopeInput::Close { unanswered, saved });
            &&& p == EnvelopePhase::Finished
            &&& ev.len() == unanswered + saved + 1
            &&& forall|k: int| 0 <= k < unanswered ==> #[trigger] ev[k] == EnvelopeEvent::UnansweredResult
            &&& forall|k: int|
                unanswered <= k < unanswered + saved ==> #[trigger] ev[k] == EnvelopeEvent::ArtifactSaved
            &&& ev.last() == EnvelopeEvent::Done
        }),
        envelope_step(EnvelopePhase::ErrorSent, EnvelopeInput::Close { unanswered, saved }) == (
            EnvelopePhase::Finished,
            seq![EnvelopeEvent::Done],
        ),
{
    let a = copies(unanswered as nat, EnvelopeEvent::UnansweredResult);
    let b = copies(saved as nat, EnvelopeEvent::ArtifactSaved);
    let ev = a + b + seq![EnvelopeEvent::Done];
    assert forall|k: int| 0 <= k < unanswered implies #[trigger] ev[k] == EnvelopeEvent::UnansweredResult by {
        assert(ev[k] == a[k]);
    }
    assert forall|k: int| unanswered <= k < unanswered + saved implies #[trigger] ev[k]
        == EnvelopeEvent::ArtifactSaved by {
        assert(ev[k] == b[k - unanswered]);
    }
}


/// While the model streams: a failure sends one error and leaves only `done`
/// to follow; a cancellation sends the cancelled event and moves on to the
/// closing events; a normal end sends nothing yet and moves on to them.
pub proof fn law_streaming_outcomes(unanswered: usize, saved: usize)
    ensures
        envelope_step(EnvelopePhase::Streaming, EnvelopeInput::Failed) == (
            EnvelopePhase::ErrorSent,
            seq![EnvelopeEvent::AiError],
        ),
        envelope_step(EnvelopePhase::Streaming, EnvelopeInput::Cancelled) == (
            EnvelopePhase::Closing,
            seq![EnvelopeEvent::Cancelled],
        ),
        envelope_step(EnvelopePhase::Streaming, EnvelopeInput::Ended) == (
            EnvelopePhase::Closing,
            Seq::<EnvelopeEvent>::empty(),
        ),
        envelope_run(
            EnvelopePhase::Streaming,
            seq![EnvelopeInput::Failed, EnvelopeInput::Close { unanswered, saved }],
        ) == (EnvelopePhase::Finished, seq![EnvelopeEvent::AiError, EnvelopeEvent::Done]),
{
    let inputs = seq![EnvelopeInput::Failed, EnvelopeInput::Close { unanswered, saved }];
    let tail = inputs.drop_first();
    assert(tail =~= seq![EnvelopeInput::Close { unanswered, saved }]);
    assert(tail.drop_first() =~= Seq::<EnvelopeInput>::empty());
    assert(tail[0] == EnvelopeInput::Close { unanswered, saved });
    assert(inputs[0] == EnvelopeInput::Failed);
    let r2 = envelope_run(EnvelopePhase::ErrorSent, tail);
    assert(envelope_run(EnvelopePhase::Finished, tail.drop_first()) == (
        EnvelopePhase::Finished,
        Seq::<EnvelopeEvent>::empty(),
    ));
    assert(r2.1 =~= seq![EnvelopeEvent::Done]);
    assert(seq![EnvelopeEvent::AiError] + r2.1 =~= seq![EnvelopeEvent::AiError, EnvelopeEvent::Done]);
}

} // verus!
