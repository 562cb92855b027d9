//! Properties that hold across calls of the stream decoders and of the
//! web-search bookkeeping.
use vstd::prelude::*;

use crate::json::{JsonView, parsed_json};
use crate::table::{keys_unique, tinsert, tremove, lemma_tinsert_lookup, lemma_tinsert_unique, lemma_tremove_lookup, tlookup};
use super::{ParseResultView, WebSearchActionView, WebSearchResultView, WebSearchStateView, web_search_action_of};
use super::web_search::{with_action, with_results};
use super::anthropic::{AnthropicParserView, block_start_step, input_json_step};
use super::tool::is_web_search_name;
use super::mistral::{MistralParserView, ToolCallDeltaView, ToolCallMetaView, merged_meta, resolve_step, upsert_step};
use super::openai::{EventView, OutputItemView, ToolMetaView, handle_event_step, openai_event, tool_input_of};
use super::mistral_conversations::{ToolBufferView, conversation_step, exec_result_item, exec_result_items, function_call_step};
use super::{ToolInputDeltaView, ToolInputView};
use super::gemini::gemini_event;
use super::tool_call_of;

verus! {

/// A search action and a batch of results for the same call may arrive in
/// either order: the recorded progress is the same.
pub proof fn law_action_and_results_commute(
    st: WebSearchStateView,
    action: Option<WebSearchActionView>,
    results: Seq<WebSearchResultView>,
)
    ensures
        with_results(with_action(st, action), results) == with_action(with_results(st, results), action),
{
}

/// Results accumulate: two batches recorded one after the other are the
/// recorded results followed by both batches, in order.
pub proof fn law_results_accumulate(
    st: WebSearchStateView,
    first: Seq<WebSearchResultView>,
    second: Seq<WebSearchResultView>,
)
    ensures
        with_results(with_results(st, first), second) == with_results(st, first + second),
{
    assert(st.results + first + second =~= st.results + (first + second));
}

/// A search action never discards results already recorded.
pub proof fn law_action_keeps_results(st: WebSearchStateView, action: Option<WebSearchActionView>)
    ensures
        with_action(st, action).results == st.results,
{
}

/// A web-search action that names a query always lists queries.
pub proof fn law_query_implies_queries(input: JsonView)
    ensures
        web_search_action_of(input) is Some && web_search_action_of(input)->0.query is Some
            ==> web_search_action_of(input)->0.queries is Some,
{
}

/// Anthropic: argument fragments streamed for a content block are reported
/// with the name and id of the tool call that the block started.
pub proof fn law_anthropic_fragments_name_their_tool(
    st: AnthropicParserView,
    index: u32,
    block: JsonView,
    partial: Seq<char>,
)
    requires
        block_start_step(st, index, block).1 is ToolCall,
    ensures
        ({
            let st1 = block_start_step(st, index, block).0;
            let call = block_start_step(st, index, block).1->ToolCall_0;
            let r = input_json_step(st1, index, partial).1;
            &&& r is ToolInput
            &&& r->ToolInput_0.tool_id == call.tool_id
            &&& call.tool_name.len() > 0 ==> r->ToolInput_0.tool_name == Some(call.tool_name)
        }),
{
    let name = block.str_field("name"@)->0;
    let id = block.str_field("id"@)->0;
    lemma_tinsert_lookup(st.tool_calls, index, (name, Some(id)), index);
}

/// Mistral: once a fragment gives a call id for a position, later fragments
/// at that position without an id belong to the same call.
pub proof fn law_mistral_position_keeps_its_id(
    st: MistralParserView,
    first: ToolCallDeltaView,
    later: ToolCallDeltaView,
)
    requires
        first.id is Some,
        first.index is Some,
        later.id is None,
        later.index == first.index,
    ensures
        resolve_step(resolve_step(st, first).0, later).1 == first.id->0,
{
    lemma_tinsert_lookup(st.index_to_id, first.index->0, first.id->0, first.index->0);
}

/// Mistral: argument fragments of one call accumulate in the order they
/// arrive.
pub proof fn law_mistral_arguments_accumulate(
    st: MistralParserView,
    id: Seq<char>,
    a: Seq<char>,
    b: Seq<char>,
)
    ensures
        ({
            let (st1, m1) = upsert_step(st, id, None, None, Some(a));
            let (st2, m2) = upsert_step(st1, id, None, None, Some(b));
            m2.buffer == m1.buffer + b && m1.buffer.subrange(
                m1.buffer.len() - a.len(),
                m1.buffer.len() as int,
            ) == a
        }),
{
    let (st1, m1) = upsert_step(st, id, None, None, Some(a));
    lemma_tinsert_lookup(st.tool_calls, id, m1, id);
    let base = match tlookup(st.tool_calls, id) {
        Some(m) => m.buffer,
        None => Seq::<char>::empty(),
    };
    assert(m1.buffer == base + a);
    assert((base + a).subrange(base.len() as int, (base + a).len() as int) =~= a);
}

/// OpenAI: a function call announced by an output item is reported, when
/// its arguments are done, under the announced name and call id.
pub proof fn law_openai_done_uses_announced_call(
    st: Seq<(Seq<char>, ToolMetaView)>,
    id: Seq<char>,
    name: Seq<char>,
    call_id: Option<Seq<char>>,
    arguments: Option<JsonView>,
    status: Option<Seq<char>>,
    done_arguments: JsonView,
    raw1: JsonView,
    raw2: JsonView,
)
    ensures
        ({
            let added = EventView::OutputItemAdded(
                OutputItemView::FunctionCall { id, name, call_id, arguments, status },
            );
            let st1 = handle_event_step(st, added, raw1).0;
            let done = EventView::ArgumentsDone { item_id: id, arguments: done_arguments };
            handle_event_step(st1, done, raw2).1 == Some(
                ParseResultView::ToolCall(
                    tool_call_of(name, call_id, tool_input_of(done_arguments), None, Some(raw2)),
                ),
            )
        }),
{
    lemma_tinsert_lookup(st, id, ToolMetaView { name, call_id }, id);
}

/// Gemini: while results are queued, each call reports the next queued
/// result, whatever event text it is given.
pub proof fn law_gemini_queue_ignores_input(
    pending: Seq<ParseResultView>,
    data1: Seq<char>,
    data2: Seq<char>,
)
    requires
        pending.len() > 0,
    ensures
        gemini_event(pending, data1) == gemini_event(pending, data2),
        gemini_event(pending, data1).1 == pending[0],
{
}

/// One recorded Mistral fragment: the call id, and the name, position and
/// argument text it carried.
pub type MetaCall = (Seq<char>, Option<Seq<char>>, Option<u32>, Option<Seq<char>>);

/// The parser's state after recording the fragments in order.
pub open spec fn upsert_run(st: MistralParserView, calls: Seq<MetaCall>) -> MistralParserView
    decreases calls.len(),
{
    if calls.len() == 0 {
        st
    } else {
        let c = calls.last();
        upsert_step(upsert_run(st, calls.drop_last()), c.0, c.1, c.2, c.3).0
    }
}

/// What the fragments with id `t` make of a call's record, the others being
/// passed over.
pub open spec fn meta_after(m: Option<ToolCallMetaView>, calls: Seq<MetaCall>, t: Seq<char>) -> Option<
    ToolCallMetaView,
>
    decreases calls.len(),
{
    if calls.len() == 0 {
        m
    } else {
        let c = calls.last();
        let m0 = meta_after(m, calls.drop_last(), t);
        if c.0 == t {
            Some(merged_meta(m0, c.1, c.2, c.3))
        } else {
            m0
        }
    }
}

/// Some fragment has id `t`.
pub open spec fn has_call(calls: Seq<MetaCall>, t: Seq<char>) -> bool {
    exists|j: int| 0 <= j < calls.len() && (#[trigger] calls[j]).0 == t
}

/// The argument texts of the fragments with id `t`, joined in order.
pub open spec fn deltas_of(calls: Seq<MetaCall>, t: Seq<char>) -> Seq<char>
    decreases calls.len(),
{
    if calls.len() == 0 {
        Seq::empty()
    } else {
        let c = calls.last();
        deltas_of(calls.drop_last(), t) + if c.0 == t {
            match c.3 {
                Some(d) => d,
                None => Seq::empty(),
            }
        } else {
            Seq::empty()
        }
    }
}

/// The first name that a fragment with id `t` carried.
pub open spec fn first_name_of(calls: Seq<MetaCall>, t: Seq<char>) -> Option<Seq<char>>
    decreases calls.len(),
{
    if calls.len() == 0 {
        None
    } else {
        let c = calls.last();
        let r = first_name_of(calls.drop_last(), t);
        if r is None && c.0 == t {
            c.1
        } else {
            r
        }
    }
}

/// The first position that a fragment with id `t` carried.
pub open spec fn first_index_of(calls: Seq<MetaCall>, t: Seq<char>) -> Option<u32>
    decreases calls.len(),
{
    if calls.len() == 0 {
        None
    } else {
        let c = calls.last();
        let r = first_index_of(calls.drop_last(), t);
        if r is None && c.0 == t {
            c.2
        } else {
            r
        }
    }
}

proof fn lemma_upsert_run_lookup(st: MistralParserView, calls: Seq<MetaCall>, t: Seq<char>)
    ensures
        tlookup(upsert_run(st, calls).tool_calls, t) == meta_after(tlookup(st.tool_calls, t), calls, t),
    decreases calls.len(),
{
    if calls.len() > 0 {
        let c = calls.last();
        let s0 = upsert_run(st, calls.drop_last());
        lemma_upsert_run_lookup(st, calls.drop_last(), t);
        let m = merged_meta(tlookup(s0.tool_calls, c.0), c.1, c.2, c.3);
        lemma_tinsert_lookup(s0.tool_calls, c.0, m, t);
    }
}

proof fn lemma_meta_from_nothing(calls: Seq<MetaCall>, t: Seq<char>)
    ensures
        has_call(calls, t) ==> meta_after(None, calls, t) == Some(
            ToolCallMetaView {
                name: first_name_of(calls, t),
                buffer: deltas_of(calls, t),
                index: first_index_of(calls, t),
            },
        ),
        !has_call(calls, t) ==> meta_after(None, calls, t) is None && first_name_of(calls, t) is None
            && first_index_of(calls, t) is None && deltas_of(calls, t) == Seq::<char>::empty(),
    decreases calls.len(),
{
    if calls.len() > 0 {
        let rest = calls.drop_last();
        let c = calls.last();
        lemma_meta_from_nothing(rest, t);
        if has_call(rest, t) {
            let j = choose|j: int| 0 <= j < rest.len() && (#[trigger] rest[j]).0 == t;
            assert(calls[j] == rest[j]);
        } else if c.0 == t {
            assert(calls[calls.len() - 1] == c);
        }
        if !has_call(calls, t) {
            assert(c.0 != t) by {
                if c.0 == t {
                    assert(calls[calls.len() - 1].0 == t);
                }
            }
            assert forall|j: int| 0 <= j < rest.len() implies (#[trigger] rest[j]).0 != t by {
                assert(calls[j] == rest[j]);
            }
        }
        let d = match c.3 {
            Some(x) => x,
            None => Seq::<char>::empty(),
        };
        if c.0 == t {
            assert(deltas_of(calls, t) == deltas_of(rest, t) + d);
            let m0 = meta_after(None, rest, t);
            if has_call(rest, t) {
                let b = m0->0;
                assert(b.buffer == deltas_of(rest, t));
                assert(merged_meta(m0, c.1, c.2, c.3).buffer =~= deltas_of(rest, t) + d);
                assert(merged_meta(m0, c.1, c.2, c.3).name == first_name_of(calls, t));
                assert(merged_meta(m0, c.1, c.2, c.3).index == first_index_of(calls, t));
            } else {
                assert(m0 is None);
                assert(merged_meta(m0, c.1, c.2, c.3).buffer =~= deltas_of(rest, t) + d);
                assert(merged_meta(m0, c.1, c.2, c.3).name == first_name_of(calls, t));
                assert(merged_meta(m0, c.1, c.2, c.3).index == first_index_of(calls, t));
            }
            assert(meta_after(None, calls, t) == Some(merged_meta(m0, c.1, c.2, c.3)));
            assert(has_call(calls, t));
        } else {
            assert(deltas_of(calls, t) =~= deltas_of(rest, t));
            assert(meta_after(None, calls, t) == meta_after(None, rest, t));
            assert(first_name_of(calls, t) == first_name_of(rest, t));
            assert(first_index_of(calls, t) == first_index_of(rest, t));
            if has_call(calls, t) {
                let j = choose|j: int| 0 <= j < calls.len() && (#[trigger] calls[j]).0 == t;
                assert(j < rest.len());
                assert(rest[j] == calls[j]);
                assert(has_call(rest, t));
            }
        }
    }
}

/// Mistral: the record of a call after any run of fragments, interleaved
/// with fragments of other calls. Fragments of other calls leave it as it
/// is; from a parser that had no record of it, it holds the first name and
/// position any of its fragments carried and the argument texts of its
/// fragments joined in order (and there is none if no fragment named it).
pub proof fn law_mistral_calls_accumulate(st: MistralParserView, calls: Seq<MetaCall>, t: Seq<char>)
    ensures
        tlookup(upsert_run(st, calls).tool_calls, t) == meta_after(tlookup(st.tool_calls, t), calls, t),
        tlookup(st.tool_calls, t) is None && has_call(calls, t) ==> tlookup(upsert_run(st, calls).tool_calls, t)
            == Some(
            ToolCallMetaView {
                name: first_name_of(calls, t),
                buffer: deltas_of(calls, t),
                index: first_index_of(calls, t),
            },
        ),
        tlookup(st.tool_calls, t) is None && !has_call(calls, t) ==> tlookup(
            upsert_run(st, calls).tool_calls,
            t,
        ) is None,
{
    lemma_upsert_run_lookup(st, calls, t);
    lemma_meta_from_nothing(calls, t);
}

/// An OpenAI event that records or consumes the function-call data of item
/// `i`.
pub open spec fn touches_item(ev: EventView, i: Seq<char>) -> bool {
    match ev {
        EventView::OutputItemAdded(OutputItemView::FunctionCall { id, .. }) => id == i,
        EventView::ArgumentsDone { item_id, .. } => item_id == i,
        _ => false,
    }
}

/// The function-call data after handling the events in order.
pub open spec fn openai_run(st: Seq<(Seq<char>, ToolMetaView)>, evs: Seq<(EventView, JsonView)>) -> Seq<
    (Seq<char>, ToolMetaView),
>
    decreases evs.len(),
{
    if evs.len() == 0 {
        st
    } else {
        let e = evs.last();
        handle_event_step(openai_run(st, evs.drop_last()), e.0, e.1).0
    }
}

/// Handling an event keeps the item ids of the recorded calls distinct, and
/// leaves the data of every item the event does not touch as it was.
pub proof fn lemma_openai_step_keeps(st: Seq<(Seq<char>, ToolMetaView)>, ev: EventView, raw: JsonView, i: Seq<char>)
    requires
        keys_unique(st),
    ensures
        keys_unique(handle_event_step(st, ev, raw).0),
        !touches_item(ev, i) ==> tlookup(handle_event_step(st, ev, raw).0, i) == tlookup(st, i),
{
    match ev {
        EventView::OutputItemAdded(OutputItemView::FunctionCall { id, name, call_id, .. }) => {
            lemma_tinsert_unique(st, id, ToolMetaView { name, call_id });
            lemma_tinsert_lookup(st, id, ToolMetaView { name, call_id }, i);
        },
        EventView::ArgumentsDone { item_id, arguments } => {
            lemma_tremove_lookup(st, item_id, i);
        },
        _ => {},
    }
}

proof fn lemma_openai_run_keeps(st: Seq<(Seq<char>, ToolMetaView)>, evs: Seq<(EventView, JsonView)>, i: Seq<char>)
    requires
        keys_unique(st),
        forall|k: int| 0 <= k < evs.len() ==> !touches_item(#[trigger] evs[k].0, i),
    ensures
        keys_unique(openai_run(st, evs)),
        tlookup(openai_run(st, evs), i) == tlookup(st, i),
    decreases evs.len(),
{
    if evs.len() > 0 {
        let rest = evs.drop_last();
        assert forall|k: int| 0 <= k < rest.len() implies !touches_item(#[trigger] rest[k].0, i) by {
            assert(rest[k] == evs[k]);
        }
        lemma_openai_run_keeps(st, rest, i);
        let e = evs.last();
        assert(!touches_item(evs[evs.len() - 1].0, i));
        lemma_openai_step_keeps(openai_run(st, rest), e.0, e.1, i);
    }
}

/// OpenAI: once an output item announces a function call, and however many
/// events about other items follow, an argument fragment of that item is
/// reported under the announced name and call id; its arguments being done
/// are reported as the complete call; and a second "done" for the item
/// reports nothing, its data having been used up.
pub proof fn law_openai_function_call_across_events(
    st: Seq<(Seq<char>, ToolMetaView)>,
    id: Seq<char>,
    name: Seq<char>,
    call_id: Option<Seq<char>>,
    arguments: Option<JsonView>,
    status: Option<Seq<char>>,
    raw_added: JsonView,
    between: Seq<(EventView, JsonView)>,
    delta: Seq<char>,
    raw_delta: JsonView,
    done_arguments: JsonView,
    raw_done: JsonView,
    again_arguments: JsonView,
    raw_again: JsonView,
)
    requires
        keys_unique(st),
        forall|k: int| 0 <= k < between.len() ==> !touches_item(#[trigger] between[k].0, id),
    ensures
        ({
            let added = EventView::OutputItemAdded(
                OutputItemView::FunctionCall { id, name, call_id, arguments, status },
            );
            let st2 = openai_run(handle_event_step(st, added, raw_added).0, between);
            let (st3, done) = handle_event_step(
                st2,
                EventView::ArgumentsDone { item_id: id, arguments: done_arguments },
                raw_done,
            );
            &&& handle_event_step(st2, EventView::ArgumentsDelta { item_id: id, delta }, raw_delta).1 == Some(
                ParseResultView::ToolInput(
                    ToolInputDeltaView {
                        partial_json: delta,
                        index: None,
                        tool_name: Some(name),
                        tool_id: call_id,
                        web_search: None,
                    },
                ),
            )
            &&& done == Some(
                ParseResultView::ToolCall(
                    tool_call_of(name, call_id, tool_input_of(done_arguments), None, Some(raw_done)),
                ),
            )
            &&& handle_event_step(
                st3,
                EventView::ArgumentsDone { item_id: id, arguments: again_arguments },
                raw_again,
            ).1 is None
        }),
{
    let added = EventView::OutputItemAdded(OutputItemView::FunctionCall { id, name, call_id, arguments, status });
    let st1 = handle_event_step(st, added, raw_added).0;
    lemma_openai_step_keeps(st, added, raw_added, id);
    lemma_tinsert_lookup(st, id, ToolMetaView { name, call_id }, id);
    lemma_openai_run_keeps(st1, between, id);
    let st2 = openai_run(st1, between);
    lemma_tremove_lookup(st2, id, id);
}

/// An Anthropic content-block event that changes the parser's state: a
/// block starts, an argument fragment arrives, or a block stops.
pub enum BlockEventView {
    Start(u32, JsonView),
    Input(u32, Seq<char>),
    Stop(u32),
}

pub open spec fn block_event_step(st: AnthropicParserView, e: BlockEventView) -> AnthropicParserView {
    match e {
        BlockEventView::Start(j, b) => block_start_step(st, j, b).0,
        BlockEventView::Input(j, p) => input_json_step(st, j, p).0,
        BlockEventView::Stop(j) => AnthropicParserView { tool_calls: st.tool_calls, buffers: tremove(st.buffers, j) },
    }
}

/// The parser's state after the block events in order.
pub open spec fn block_run(st: AnthropicParserView, evs: Seq<BlockEventView>) -> AnthropicParserView
    decreases evs.len(),
{
    if evs.len() == 0 {
        st
    } else {
        block_event_step(block_run(st, evs.drop_last()), evs.last())
    }
}

/// The event starts or stops block `i`.
pub open spec fn opens_or_closes(e: BlockEventView, i: u32) -> bool {
    match e {
        BlockEventView::Start(j, _) => j == i,
        BlockEventView::Stop(j) => j == i,
        BlockEventView::Input(_, _) => false,
    }
}

/// The argument fragments of block `i`, joined in order.
pub open spec fn fragments_of(evs: Seq<BlockEventView>, i: u32) -> Seq<char>
    decreases evs.len(),
{
    if evs.len() == 0 {
        Seq::empty()
    } else {
        fragments_of(evs.drop_last(), i) + match evs.last() {
            BlockEventView::Input(j, p) => if j == i {
                p
            } else {
                Seq::empty()
            },
            _ => Seq::empty(),
        }
    }
}

pub open spec fn buffer_text(st: AnthropicParserView, i: u32) -> Seq<char> {
    match tlookup(st.buffers, i) {
        Some(b) => b,
        None => Seq::empty(),
    }
}

proof fn lemma_block_run(
    st: AnthropicParserView,
    evs: Seq<BlockEventView>,
    i: u32,
    name: Seq<char>,
    id: Seq<char>,
)
    requires
        keys_unique(st.buffers),
        tlookup(st.tool_calls, i) == Some((name, Some(id))),
        name.len() > 0 && is_web_search_name(name),
        forall|k: int| 0 <= k < evs.len() ==> !opens_or_closes(#[trigger] evs[k], i),
    ensures
        keys_unique(block_run(st, evs).buffers),
        tlookup(block_run(st, evs).tool_calls, i) == Some((name, Some(id))),
        buffer_text(block_run(st, evs), i) == buffer_text(st, i) + fragments_of(evs, i),
    decreases evs.len(),
{
    if evs.len() == 0 {
        assert(buffer_text(st, i) + Seq::<char>::empty() =~= buffer_text(st, i));
    } else {
        let rest = evs.drop_last();
        assert forall|k: int| 0 <= k < rest.len() implies !opens_or_closes(#[trigger] rest[k], i) by {
            assert(rest[k] == evs[k]);
        }
        lemma_block_run(st, rest, i, name, id);
        let s0 = block_run(st, rest);
        let e = evs.last();
        assert(!opens_or_closes(evs[evs.len() - 1], i));
        match e {
            BlockEventView::Start(j, b) => {
                let bs = block_start_step(s0, j, b);
                if bs.0 != s0 {
                    let nm = b.str_field("name"@)->0;
                    let bid = b.str_field("id"@)->0;
                    lemma_tinsert_lookup(s0.tool_calls, j, (nm, Some(bid)), i);
                }
                assert(fragments_of(evs, i) =~= fragments_of(rest, i));
            },
            BlockEventView::Input(j, p) => {
                let (nj, idj) = match tlookup(s0.tool_calls, j) {
                    Some(c) => c,
                    None => (Seq::<char>::empty(), None),
                };
                if nj.len() > 0 && is_web_search_name(nj) {
                    let buf = match tlookup(s0.buffers, j) {
                        Some(b) => b,
                        None => Seq::<char>::empty(),
                    } + p;
                    lemma_tinsert_unique(s0.buffers, j, buf);
                    lemma_tinsert_lookup(s0.buffers, j, buf, i);
                }
                if j == i {
                    assert(fragments_of(evs, i) =~= fragments_of(rest, i) + p);
                    assert(buffer_text(st, i) + fragments_of(rest, i) + p =~= buffer_text(st, i) + fragments_of(
                        evs,
                        i,
                    ));
                } else {
                    assert(fragments_of(evs, i) =~= fragments_of(rest, i));
                }
            },
            BlockEventView::Stop(j) => {
                lemma_tremove_lookup(s0.buffers, j, i);
                assert(fragments_of(evs, i) =~= fragments_of(rest, i));
            },
        }
    }
}

/// Anthropic: after a block starts a tool call, and any run of events that
/// neither starts nor stops that block (fragments of it and of other
/// blocks, other blocks starting and stopping), a fragment of the block is
/// reported with the call's name and id; for a web-search tool its search
/// action is read from all the block's fragments so far, joined, when that
/// text is JSON, and for another tool it carries none.
pub proof fn law_anthropic_fragments_accumulate(
    st: AnthropicParserView,
    i: u32,
    block: JsonView,
    evs: Seq<BlockEventView>,
    partial: Seq<char>,
)
    requires
        block_start_step(st, i, block).1 is ToolCall,
        block_start_step(st, i, block).1->ToolCall_0.tool_name.len() > 0,
        keys_unique(st.buffers),
        tlookup(st.buffers, i) is None,
        forall|k: int| 0 <= k < evs.len() ==> !opens_or_closes(#[trigger] evs[k], i),
    ensures
        ({
            let call = block_start_step(st, i, block).1->ToolCall_0;
            let st2 = block_run(block_start_step(st, i, block).0, evs);
            let all = fragments_of(evs, i) + partial;
            input_json_step(st2, i, partial).1 == ParseResultView::ToolInput(
                ToolInputDeltaView {
                    partial_json: partial,
                    index: Some(i),
                    tool_name: Some(call.tool_name),
                    tool_id: call.tool_id,
                    web_search: if is_web_search_name(call.tool_name) {
                        match parsed_json(all) {
                            Some(j) => web_search_action_of(j),
                            None => None,
                        }
                    } else {
                        None
                    },
                },
            )
        }),
{
    let name = block.str_field("name"@)->0;
    let id = block.str_field("id"@)->0;
    let st1 = block_start_step(st, i, block).0;
    lemma_tinsert_lookup(st.tool_calls, i, (name, Some(id)), i);
    if is_web_search_name(name) {
        lemma_block_run(st1, evs, i, name, id);
        assert(buffer_text(st1, i) == Seq::<char>::empty());
        assert(Seq::<char>::empty() + fragments_of(evs, i) =~= fragments_of(evs, i));
    } else {
        lemma_block_run_names(st1, evs, i, name, id);
    }
}

proof fn lemma_block_run_names(
    st: AnthropicParserView,
    evs: Seq<BlockEventView>,
    i: u32,
    name: Seq<char>,
    id: Seq<char>,
)
    requires
        tlookup(st.tool_calls, i) == Some((name, Some(id))),
        forall|k: int| 0 <= k < evs.len() ==> !opens_or_closes(#[trigger] evs[k], i),
    ensures
        tlookup(block_run(st, evs).tool_calls, i) == Some((name, Some(id))),
    decreases evs.len(),
{
    if evs.len() > 0 {
        let rest = evs.drop_last();
        assert forall|k: int| 0 <= k < rest.len() implies !opens_or_closes(#[trigger] rest[k], i) by {
            assert(rest[k] == evs[k]);
        }
        lemma_block_run_names(st, rest, i, name, id);
        let s0 = block_run(st, rest);
        assert(!opens_or_closes(evs[evs.len() - 1], i));
        match evs.last() {
            BlockEventView::Start(j, b) => {
                let bs = block_start_step(s0, j, b);
                if bs.0 != s0 {
                    let nm = b.str_field("name"@)->0;
                    let bid = b.str_field("id"@)->0;
                    lemma_tinsert_lookup(s0.tool_calls, j, (nm, Some(bid)), i);
                }
            },
            _ => {},
        }
    }
}


/// OpenAI: a chat-completion chunk (an object with no `type`) whose string
/// `id` is given, whose `choices` are empty and whose `usage` object holds
/// the counts `prompt_tokens`, `completion_tokens` and `total_tokens` is
/// reported as token usage: the input tokens are the prompt tokens, the
/// output tokens the completion tokens, the total the total tokens, the
/// request id the chunk's id, and no cache counts; the tool-call table is
/// left as it was.
pub proof fn law_openai_chunk_usage_counts(
    st: Seq<(Seq<char>, ToolMetaView)>,
    data: Seq<char>,
    v: JsonView,
    usage: JsonView,
    id: Seq<char>,
    prompt: u32,
    completion: u32,
    total: u32,
)
    requires
        parsed_json(data) == Some(v),
        v.is_object(),
        v.str_field("type"@) is None,
        v.str_field("id"@) == Some(id),
        v.array_field("choices"@) == Some(Seq::<JsonView>::empty()),
        v.field("usage"@) == Some(usage),
        usage.is_object(),
        usage.u64_field("prompt_tokens"@) == Some(prompt as u64),
        usage.u64_field("completion_tokens"@) == Some(completion as u64),
        usage.u64_field("total_tokens"@) == Some(total as u64),
    ensures
        openai_event(st, data) == (
            st,
            ParseResultView::TokenUsage {
                request_id: Some(id),
                input_tokens: Some(prompt),
                output_tokens: Some(completion),
                total_tokens: Some(total),
                cached_input_tokens: None,
                cache_creation_tokens: None,
            },
        ),
{
}

/// Mistral conversations: an item of a finished web search keeps its own
/// `title` string as the result's title and its own `url` string as the
/// result's url (each empty where the item has none), with its `source` and
/// `snippet`; an item with neither a title nor a url gives no result.
pub proof fn law_search_item_keeps_title_and_url(item: JsonView)
    ensures
        exec_result_item(item) is Some <==> (item.str_field("title"@) is Some
            && item.str_field("title"@)->0.len() > 0) || (item.str_field("url"@) is Some
            && item.str_field("url"@)->0.len() > 0),
        exec_result_item(item) matches Some(r) ==> {
            &&& item.str_field("title"@) matches Some(t) ==> r.title == t
            &&& item.str_field("title"@) is None ==> r.title.len() == 0
            &&& item.str_field("url"@) matches Some(u) ==> r.url == u
            &&& item.str_field("url"@) is None ==> r.url.len() == 0
            &&& r.source == item.str_field("source"@)
            &&& r.snippet == item.str_field("snippet"@)
            &&& r.page_age is None
        },
{
}

/// Mistral conversations: when every search item has a non-empty title, the
/// results are one per item and in the items' order, result `k` carrying the
/// title, url, source and snippet of item `k`.
pub proof fn law_search_items_in_order(items: Seq<JsonView>)
    requires
        forall|k: int|
            0 <= k < items.len() ==> (#[trigger] items[k]).str_field("title"@) is Some
                && items[k].str_field("title"@)->0.len() > 0,
    ensures
        exec_result_items(items).len() == items.len(),
        forall|k: int|
            0 <= k < items.len() ==> {
                let r = #[trigger] exec_result_items(items)[k];
                &&& Some(r.title) == items[k].str_field("title"@)
                &&& (items[k].str_field("url"@) matches Some(u) ==> r.url == u)
                &&& (items[k].str_field("url"@) is None ==> r.url.len() == 0)
                &&& r.source == items[k].str_field("source"@)
                &&& r.snippet == items[k].str_field("snippet"@)
            },
    decreases items.len(),
{
    if items.len() > 0 {
        let init = items.subrange(0, items.len() - 1);
        assert forall|k: int|
            0 <= k < init.len() implies (#[trigger] init[k]).str_field("title"@) is Some
            && init[k].str_field("title"@)->0.len() > 0 by {
            assert(init[k] == items[k]);
        }
        law_search_items_in_order(init);
        let last = items[items.len() - 1];
        law_search_item_keeps_title_and_url(last);
        let r = exec_result_items(items);
        assert forall|k: int| 0 <= k < items.len() implies {
            let x = #[trigger] exec_result_items(items)[k];
            &&& Some(x.title) == items[k].str_field("title"@)
            &&& (items[k].str_field("url"@) matches Some(u) ==> x.url == u)
            &&& (items[k].str_field("url"@) is None ==> x.url.len() == 0)
            &&& x.source == items[k].str_field("source"@)
            &&& x.snippet == items[k].str_field("snippet"@)
        } by {
            if k < items.len() - 1 {
                assert(init[k] == items[k]);
                assert(r[k] == exec_result_items(init)[k]);
            }
        }
    }
}


/// Mistral conversations: a finished `web_search` execution whose `info`
/// lists search items, each with a non-empty title, reports them as search
/// results of the execution's `id`, one per item and in order, each with the
/// item's own title and url.
pub proof fn law_conversation_search_done(
    st: Seq<(Seq<char>, ToolBufferView)>,
    v: JsonView,
    info: JsonView,
    items: Seq<JsonView>,
    id: Seq<char>,
)
    requires
        v.str_field("event"@) is None,
        v.str_field("type"@) == Some("tool.execution.done"@),
        v.str_field("name"@) == Some("web_search"@),
        v.str_field("id"@) == Some(id),
        v.field("info"@) == Some(info),
        info.array_field("results"@) == Some(items),
        items.len() > 0,
        forall|k: int|
            0 <= k < items.len() ==> (#[trigger] items[k]).str_field("title"@) is Some
                && items[k].str_field("title"@)->0.len() > 0,
    ensures
        conversation_step(st, v).0 == st,
        conversation_step(st, v).1 matches ParseResultView::WebSearchResult { tool_id, results, .. } && tool_id
            == Some(id) && results.len() == items.len() && forall|k: int|
            0 <= k < items.len() ==> {
                let r = #[trigger] results[k];
                &&& Some(r.title) == items[k].str_field("title"@)
                &&& (items[k].str_field("url"@) matches Some(u) ==> r.url == u)
                &&& (items[k].str_field("url"@) is None ==> r.url.len() == 0)
            },
{
    reveal_strlit("tool.execution.done");
    reveal_strlit("message.output.delta");
    reveal_strlit("tool.execution.started");
    reveal_strlit("tool.execution.delta");
    reveal_strlit("web_search");
    assert("tool.execution.done"@.len() != "message.output.delta"@.len());
    assert("tool.execution.done"@.len() != "tool.execution.started"@.len());
    assert("tool.execution.done"@.len() != "tool.execution.delta"@.len());
    assert("web_search"@.subrange(0, 0int + "web_search"@.len()) =~= "web_search"@);
    assert(is_web_search_name("web_search"@));
    match info {
        JsonView::Object(m) => {
            assert(m.len() > 0);
        },
        _ => {},
    }
    law_search_items_in_order(items);
}


/// Mistral conversations: argument fragments of one call accumulate. A first
/// fragment that does not parse yet is shown as input of the named call; the
/// second fragment for the same call id is appended to it, the call keeps the
/// name its first fragment gave, and once the joined text parses the call is
/// reported with that text as its input.
pub proof fn law_conversation_call_fragments_accumulate(
    st: Seq<(Seq<char>, ToolBufferView)>,
    first: JsonView,
    second: JsonView,
    id: Seq<char>,
    name: Seq<char>,
    a1: Seq<char>,
    a2: Seq<char>,
)
    requires
        tlookup(st, id) is None,
        first.str_field("tool_call_id"@) == Some(id),
        first.str_field("name"@) == Some(name),
        first.str_field("arguments"@) == Some(a1),
        a1.len() > 0,
        parsed_json(a1) is None,
        second.str_field("tool_call_id"@) == Some(id),
        second.str_field("arguments"@) == Some(a2),
    ensures
        ({
            let (st1, r1) = function_call_step(st, first);
            let (st2, r2) = function_call_step(st1, second);
            &&& r1 == Some(
                ParseResultView::ToolInput(
                    ToolInputDeltaView {
                        partial_json: a1,
                        index: None,
                        tool_name: Some(name),
                        tool_id: Some(id),
                        web_search: None,
                    },
                ),
            )
            &&& tlookup(st2, id) == Some(ToolBufferView { name: Some(name), buffer: a1 + a2 })
            &&& parsed_json(a1 + a2) matches Some(j) ==> r2 == Some(
                ParseResultView::ToolCall(
                    tool_call_of(name, Some(id), Some(ToolInputView::Json(j)), None, Some(second)),
                ),
            )
        }),
{
    let e1 = ToolBufferView { name: Some(name), buffer: Seq::<char>::empty() + a1 };
    assert(Seq::<char>::empty() + a1 =~= a1);
    let st1 = tinsert(st, id, e1);
    lemma_tinsert_lookup(st, id, e1, id);
    let e2 = ToolBufferView { name: Some(name), buffer: a1 + a2 };
    lemma_tinsert_lookup(st1, id, e2, id);
}

} // verus!
