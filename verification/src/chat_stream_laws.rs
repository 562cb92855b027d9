//! Properties of a streamed chat turn that hold across events.
use vstd::prelude::*;

use crate::chat_stream::{
    ActionView, MAX_TOOL_ROUNDS, ToolLoop, TurnView, continues, runs_tools, turn_step, turn_steps, unresolved,
};
use crate::llm::{ParseResultView, ToolCallView};

verus! {

/// Every tool call announced to the client ends with a result: the calls
/// flushed as failed at the end are exactly the announced calls whose result
/// was not sent.
pub proof fn law_every_announced_call_gets_a_result(
    emitted: Seq<(Seq<char>, Seq<char>)>,
    done: Seq<Seq<char>>,
)
    ensures
        forall|k: int|
            0 <= k < emitted.len() && !done.contains(#[trigger] emitted[k].0) ==> unresolved(
                emitted,
                done,
            ).contains(emitted[k]),
        forall|x: (Seq<char>, Seq<char>)|
            #[trigger] unresolved(emitted, done).contains(x) ==> emitted.contains(x)
                && !done.contains(x.0),
    decreases emitted.len(),
{
    if emitted.len() > 0 {
        let init = emitted.drop_last();
        law_every_announced_call_gets_a_result(init, done);
        let r = unresolved(init, done);
        assert forall|k: int|
            0 <= k < emitted.len() && !done.contains(#[trigger] emitted[k].0) implies unresolved(
            emitted,
            done,
        ).contains(emitted[k]) by {
            if k < emitted.len() - 1 {
                assert(init[k] == emitted[k]);
                assert(r.contains(init[k]));
                let j = choose|j: int| 0 <= j < r.len() && r[j] == init[k];
                if !done.contains(emitted.last().0) {
                    assert(r.push(emitted.last())[j] == emitted[k]);
                }
            } else {
                assert(unresolved(emitted, done) == r.push(emitted.last()));
                assert(r.push(emitted.last())[r.len() as int] == emitted[k]);
            }
        }
        assert forall|x: (Seq<char>, Seq<char>)|
            #[trigger] unresolved(emitted, done).contains(x) implies emitted.contains(x)
            && !done.contains(x.0) by {
            if r.contains(x) {
                let j = choose|j: int| 0 <= j < init.len() && init[j] == x;
                assert(emitted[j] == x);
            } else {
                assert(x == emitted.last());
                assert(emitted[emitted.len() - 1] == x);
            }
        }
    }
}

/// A complete tool call whose id was already reported is ignored: the turn
/// does not change and nothing is sent.
pub proof fn law_reported_call_is_not_repeated(st: TurnView, c: ToolCallView, mcp_tool: bool)
    requires
        c.tool_id is Some,
        st.seen.contains(c.tool_id->0),
    ensures
        turn_step(st, ParseResultView::ToolCall(c), mcp_tool) == (st, Seq::<
            crate::chat_stream::ActionView,
        >::empty()),
{
}

/// Ids reported as complete calls stay reported: no event forgets one.
pub proof fn law_reported_ids_are_kept(st: TurnView, ev: ParseResultView, mcp_tool: bool)
    ensures
        forall|x: Seq<char>|
            st.seen.contains(x) ==> #[trigger] turn_step(st, ev, mcp_tool).0.seen.contains(x),
{
    assert forall|x: Seq<char>| st.seen.contains(x) implies #[trigger] turn_step(
        st,
        ev,
        mcp_tool,
    ).0.seen.contains(x) by {
        let s1 = turn_step(st, ev, mcp_tool).0.seen;
        if s1 != st.seen {
            let j = choose|j: int| 0 <= j < st.seen.len() && st.seen[j] == x;
            assert(s1 == st.seen.push(s1.last()));
            assert(s1[j] == x);
        }
    }
}

/// Without tools from the catalogue nothing is queued to run and nothing is
/// announced as awaiting a result.
pub proof fn law_no_catalogue_no_queue(st: TurnView, ev: ParseResultView, mcp_tool: bool)
    requires
        !st.mcp_tooling,
    ensures
        turn_step(st, ev, mcp_tool).0.pending == st.pending,
        turn_step(st, ev, mcp_tool).0.emitted == st.emitted,
{
}

/// The reply's text is the text deltas in order: a delta appends its text
/// and every other event leaves the text as it was.
pub proof fn law_reply_text_is_the_deltas(st: TurnView, ev: ParseResultView, mcp_tool: bool)
    ensures
        turn_step(st, ev, mcp_tool).0.content == match ev {
            ParseResultView::TextDelta { text, .. } => st.content + text,
            _ => st.content,
        },
{
}

/// A turn runs at most `MAX_TOOL_ROUNDS` rounds of tool calls: events never
/// change the round count, tools run only below the limit, and a round that
/// continues the turn adds one.
pub proof fn law_tool_rounds_are_bounded(
    st: TurnView,
    ev: ParseResultView,
    mcp_tool: bool,
    oauth_required: bool,
    lp: crate::chat_stream::ToolLoop,
    produced: nat,
    conversation_known: bool,
)
    ensures
        turn_step(st, ev, mcp_tool).0.tool_round == st.tool_round,
        runs_tools(st) ==> st.tool_round < MAX_TOOL_ROUNDS,
        st.tool_round >= MAX_TOOL_ROUNDS ==> !runs_tools(st),
        continues(st, oauth_required, lp, produced, conversation_known) ==> !oauth_required
            && produced > 0,
{
}

/// An error ends the events of a message: what follows it is dropped.
pub proof fn law_error_ends_the_message(
    st: TurnView,
    error_type: Seq<char>,
    message: Seq<char>,
    rest: Seq<ParseResultView>,
    tools: Seq<bool>,
)
    requires
        tools.len() == rest.len() + 1,
    ensures
        turn_steps(
            st,
            seq![ParseResultView::Error { error_type, message }] + rest,
            tools,
        ) == turn_step(st, ParseResultView::Error { error_type, message }, tools[0]),
        turn_step(st, ParseResultView::Error { error_type, message }, tools[0]).0.finished,
{
    let evs = seq![ParseResultView::Error { error_type, message }] + rest;
    assert(evs[0] == ParseResultView::Error { error_type, message });
}


/// A round of tool calls continues the turn exactly when no account
/// connection is asked for, the round produced at least one result to send
/// back, a tool loop is running, and the loop can resume: OpenAI needs the
/// response id, Mistral conversations the conversation id; the Mistral,
/// Anthropic and Gemini loops need nothing more.
pub proof fn law_tool_round_continues(
    st: TurnView,
    oauth_required: bool,
    lp: ToolLoop,
    produced: nat,
    conversation_known: bool,
)
    ensures
        continues(st, oauth_required, lp, produced, conversation_known) <==> {
            &&& !oauth_required
            &&& produced > 0
            &&& lp != ToolLoop::NoLoop
            &&& lp == ToolLoop::OpenAI ==> st.response_id is Some
            &&& lp == ToolLoop::MistralConversations ==> conversation_known
        },
        !oauth_required && produced > 0 && (lp == ToolLoop::Gemini || lp == ToolLoop::Anthropic
            || lp == ToolLoop::Mistral) ==> continues(st, oauth_required, lp, produced, conversation_known),
{
}


/// Token usage reported by the provider: outside the later rounds of a tool
/// loop over the catalogue, each count replaces the turn's count; in those
/// rounds it is added to it; the input count goes to the request tokens, the
/// output count to the response tokens and the total to the total; the
/// usage's id becomes the request id and, when given, the response id; and
/// the client is told the input and output counts.
pub proof fn law_usage_counts_tokens(
    st: TurnView,
    rid: Option<Seq<char>>,
    input: u32,
    output: u32,
    total: u32,
    cached: Option<u32>,
    creation: Option<u32>,
    mcp_tool: bool,
)
    requires
        input <= i32::MAX,
        output <= i32::MAX,
        total <= i32::MAX,
        st.mcp_tooling && st.tool_round > 0 ==> {
            &&& st.request_tokens + input <= i32::MAX
            &&& st.response_tokens + output <= i32::MAX
            &&& st.total_tokens + total <= i32::MAX
        },
    ensures
        ({
            let (s1, acts) = turn_step(
                st,
                ParseResultView::TokenUsage {
                    request_id: rid,
                    input_tokens: Some(input),
                    output_tokens: Some(output),
                    total_tokens: Some(total),
                    cached_input_tokens: cached,
                    cache_creation_tokens: creation,
                },
                mcp_tool,
            );
            let acc = st.mcp_tooling && st.tool_round > 0;
            &&& s1.request_tokens == if acc { st.request_tokens + input } else { input as int }
            &&& s1.response_tokens == if acc { st.response_tokens + output } else { output as int }
            &&& s1.total_tokens == if acc { st.total_tokens + total } else { total as int }
            &&& s1.request_id == rid
            &&& s1.response_id == if rid is Some { rid } else { st.response_id }
            &&& acts == seq![
                ActionView::MessageEnd { input_tokens: s1.request_tokens, output_tokens: s1.response_tokens },
            ]
        }),
{
}

/// The start of a reply: the input and output counts it reports replace the
/// turn's counts (or are added to them in the later rounds of a tool loop
/// over the catalogue), its id becomes the request and the response id, and
/// the client is told the input count.
pub proof fn law_start_counts_tokens(
    st: TurnView,
    rid: Seq<char>,
    input: u32,
    output: u32,
    cached: Option<u32>,
    creation: Option<u32>,
    mcp_tool: bool,
)
    requires
        input <= i32::MAX,
        output <= i32::MAX,
        st.mcp_tooling && st.tool_round > 0 ==> {
            &&& st.request_tokens + input <= i32::MAX
            &&& st.response_tokens + output <= i32::MAX
        },
    ensures
        ({
            let (s1, acts) = turn_step(
                st,
                ParseResultView::MessageStart {
                    request_id: rid,
                    input_tokens: Some(input),
                    output_tokens: Some(output),
                    cached_input_tokens: cached,
                    cache_creation_tokens: creation,
                },
                mcp_tool,
            );
            let acc = st.mcp_tooling && st.tool_round > 0;
            &&& s1.request_tokens == if acc { st.request_tokens + input } else { input as int }
            &&& s1.response_tokens == if acc { st.response_tokens + output } else { output as int }
            &&& s1.total_tokens == st.total_tokens
            &&& s1.request_id == Some(rid)
            &&& s1.response_id == Some(rid)
            &&& acts == seq![ActionView::MessageStart { input_tokens: s1.request_tokens }]
        }),
{
}


/// A text delta is relayed to the client as it came, added to the reply and
/// to the current round's text; its id becomes the request id, and the
/// token counts, the response id and the tool state stay as they were.
pub proof fn law_text_is_relayed(st: TurnView, text: Seq<char>, rid: Option<Seq<char>>, mcp_tool: bool)
    ensures
        ({
            let (s1, acts) = turn_step(st, ParseResultView::TextDelta { text, request_id: rid }, mcp_tool);
            &&& acts == seq![ActionView::Delta { text }]
            &&& s1.content == st.content + text
            &&& s1.round_content == st.round_content + text
            &&& s1.request_id == rid
            &&& s1.response_id == st.response_id
            &&& s1.request_tokens == st.request_tokens
            &&& s1.response_tokens == st.response_tokens
            &&& s1.total_tokens == st.total_tokens
            &&& s1.pending == st.pending
            &&& s1.emitted == st.emitted
        }),
{
}

} // verus!
