//! Per-call web-search progress, accumulated across stream events.
use vstd::prelude::*;

use super::{
    StreamWebSearchAction, StreamWebSearchResult, StreamWebSearchState, WebSearchActionView,
    WebSearchResultView, WebSearchStateView, clone_opt_string,
};

verus! {

/// Web-search progress keyed by tool-call id.
pub struct WebSearchStates {
    entries: Vec<(String, StreamWebSearchState)>,
}

impl WebSearchStates {
    /// No call id occurs twice.
    #[verifier::type_invariant]
    spec fn keys_distinct(self) -> bool {
        forall|i: int, j: int|
            0 <= i < self.entries@.len() && 0 <= j < self.entries@.len() && i != j
                ==> self.entries@[i].0@ != self.entries@[j].0@
    }

    spec fn has(self, k: Seq<char>) -> bool {
        exists|i: int| 0 <= i < self.entries@.len() && self.entries@[i].0@ == k
    }

    spec fn index_of(self, k: Seq<char>) -> int {
        choose|i: int| 0 <= i < self.entries@.len() && self.entries@[i].0@ == k
    }
}

impl View for WebSearchStates {
    type V = Map<Seq<char>, WebSearchStateView>;

    closed spec fn view(&self) -> Map<Seq<char>, WebSearchStateView> {
        Map::new(|k: Seq<char>| self.has(k), |k: Seq<char>| self.entries@[self.index_of(k)].1@)
    }
}

/// The call an update applies to: the given id, else the last call seen.
pub open spec fn call_id_of(tool_id: Option<Seq<char>>, last: Option<Seq<char>>) -> Option<
    Seq<char>,
> {
    if tool_id is Some {
        tool_id
    } else {
        last
    }
}

pub open spec fn empty_state() -> WebSearchStateView {
    WebSearchStateView { query: None, queries: None, results: Seq::empty() }
}

/// The progress recorded for `id`, or an empty record.
pub open spec fn state_or_empty(m: Map<Seq<char>, WebSearchStateView>, id: Seq<char>) -> WebSearchStateView {
    if m.dom().contains(id) {
        m[id]
    } else {
        empty_state()
    }
}

/// A record after a search action: a query or query list that the action
/// gives replaces the recorded one; results stay.
pub open spec fn with_action(st: WebSearchStateView, action: Option<WebSearchActionView>) -> WebSearchStateView {
    match action {
        None => st,
        Some(a) => WebSearchStateView {
            query: if a.query is Some {
                a.query
            } else {
                st.query
            },
            queries: if a.queries is Some {
                a.queries
            } else {
                st.queries
            },
            results: st.results,
        },
    }
}

/// A record after new results: they are appended to the recorded ones.
pub open spec fn with_results(st: WebSearchStateView, results: Seq<WebSearchResultView>) -> WebSearchStateView {
    WebSearchStateView { query: st.query, queries: st.queries, results: st.results + results }
}

impl WebSearchStates {
    pub fn new() -> (r: WebSearchStates)
        ensures
            r@ == Map::<Seq<char>, WebSearchStateView>::empty(),
    {
        let r = WebSearchStates { entries: Vec::new() };
        assert(r@ =~= Map::<Seq<char>, WebSearchStateView>::empty());
        r
    }

    /// Position of `id`, if it is recorded.
    fn find(&self, id: &String) -> (r: Option<usize>)
        ensures
            match r {
                Some(i) => i < self.entries@.len() && self.entries@[i as int].0@ == id@
                    && self@.dom().contains(id@) && self@[id@] == self.entries@[i as int].1@,
                None => !self@.dom().contains(id@),
            },
    {
        proof {
            use_type_invariant(self);
        }
        let mut i: usize = 0;
        while i < self.entries.len()
            invariant
                i <= self.entries@.len(),
                self.keys_distinct(),
                forall|j: int| 0 <= j < i ==> self.entries@[j].0@ != id@,
            decreases self.entries@.len() - i,
        {
            if self.entries[i].0 == *id {
                proof {
                    assert(self.has(id@));
                    let k = self.index_of(id@);
                    assert(self.entries@[k].0@ == id@);
                    assert(k == i);
                }
                return Some(i);
            }
            i = i + 1;
        }
        None
    }

    /// The progress recorded for `id`.
    pub fn get(&self, id: &str) -> (r: Option<&StreamWebSearchState>)
        ensures
            match r {
                Some(st) => self@.dom().contains(id@) && st@ == self@[id@],
                None => !self@.dom().contains(id@),
            },
    {
        let key = id.to_owned();
        match self.find(&key) {
            Some(i) => Some(&self.entries[i].1),
            None => None,
        }
    }

    /// Records `st` as the progress of `id`, replacing any earlier record.
    fn upsert(&mut self, id: String, st: StreamWebSearchState)
        ensures
            final(self)@ == old(self)@.insert(id@, st@),
    {
        proof {
            use_type_invariant(&*self);
        }
        let ghost old_self = *self;
        match self.find(&id) {
            Some(i) => {
                let mut entries: Vec<(String, StreamWebSearchState)> = Vec::new();
                std::mem::swap(&mut entries, &mut self.entries);
                entries.set(i, (id, st));
                self.entries = entries;
                proof {
                    assert forall|k: Seq<char>| #![auto] self@.dom().contains(k) <==> old_self@.insert(id@, st@).dom().contains(k) by {
                        if old_self.has(k) {
                            let j = old_self.index_of(k);
                            assert(self.entries@[j].0@ == k);
                        }
                        if self.has(k) {
                            let j = self.index_of(k);
                            if j != i {
                                assert(old_self.entries@[j].0@ == k);
                            }
                        }
                    }
                    assert forall|k: Seq<char>| #![auto] self@.dom().contains(k) implies self@[k] == old_self@.insert(id@, st@)[k] by {
                        let j = self.index_of(k);
                        if k == id@ {
                            assert(j == i);
                        } else {
                            assert(old_self.entries@[j].0@ == k);
                            let j2 = old_self.index_of(k);
                            assert(j2 == j);
                        }
                    }
                    assert(self@ =~= old_self@.insert(id@, st@));
                }
            },
            None => {
                let mut entries: Vec<(String, StreamWebSearchState)> = Vec::new();
                std::mem::swap(&mut entries, &mut self.entries);
                entries.push((id, st));
                self.entries = entries;
                proof {
                    let n = old_self.entries@.len();
                    assert forall|k: Seq<char>| #![auto] self@.dom().contains(k) <==> old_self@.insert(id@, st@).dom().contains(k) by {
                        if old_self.has(k) {
                            let j = old_self.index_of(k);
                            assert(self.entries@[j].0@ == k);
                        }
                        if k == id@ {
                            assert(self.entries@[n as int].0@ == k);
                        }
                        if self.has(k) {
                            let j = self.index_of(k);
                            if j != n {
                                assert(old_self.entries@[j].0@ == k);
                            }
                        }
                    }
                    assert forall|k: Seq<char>| #![auto] self@.dom().contains(k) implies self@[k] == old_self@.insert(id@, st@)[k] by {
                        let j = self.index_of(k);
                        if k == id@ {
                            assert(j == n);
                        } else {
                            assert(old_self.entries@[j].0@ == k);
                            let j2 = old_self.index_of(k);
                            assert(j2 == j);
                        }
                    }
                    assert(self@ =~= old_self@.insert(id@, st@));
                }
            },
        }
    }
}

/// Records a search action for the given call, or for the last call seen
/// when the event names none, and reports the call's updated progress.
pub fn update_web_search_action_state(
    state: &mut WebSearchStates,
    last_call_id: &mut Option<String>,
    tool_id: Option<String>,
    action: Option<StreamWebSearchAction>,
) -> (r: Option<(String, StreamWebSearchState)>)
    ensures
        match call_id_of(tool_id.deep_view(), old(last_call_id).deep_view()) {
            None => {
                &&& r is None
                &&& final(state)@ == old(state)@
                &&& final(last_call_id).deep_view() == old(last_call_id).deep_view()
            },
            Some(id) => {
                let next = with_action(state_or_empty(old(state)@, id), action.deep_view());
                &&& final(last_call_id).deep_view() == Some(id)
                &&& final(state)@ == old(state)@.insert(id, next)
                &&& r.deep_view() == Some((id, next))
            },
        },
{
    let call_id = match tool_id {
        Some(t) => Some(t),
        None => clone_opt_string(last_call_id),
    };
    match call_id {
        Some(id) => {
            *last_call_id = Some(id.clone());
            let mut entry = match state.get(id.as_str()) {
                Some(e) => e.copy(),
                None => {
                    let e = StreamWebSearchState { query: None, queries: None, results: Vec::new() };
                    assert(e.results.deep_view() =~= Seq::<WebSearchResultView>::empty());
                    e
                },
            };
            if let Some(action) = action {
                if action.query.is_some() {
                    entry.query = action.query;
                }
                if action.queries.is_some() {
                    entry.queries = action.queries;
                }
            }
            let snapshot = entry.copy();
            state.upsert(id.clone(), entry);
            Some((id, snapshot))
        },
        None => None,
    }
}

/// Appends search results to the given call, or to the last call seen when
/// the event names none, and reports the call's updated progress.
pub fn update_web_search_results_state(
    state: &mut WebSearchStates,
    last_call_id: &mut Option<String>,
    tool_id: Option<String>,
    results: Vec<StreamWebSearchResult>,
) -> (r: Option<(String, StreamWebSearchState)>)
    ensures
        match call_id_of(tool_id.deep_view(), old(last_call_id).deep_view()) {
            None => {
                &&& r is None
                &&& final(state)@ == old(state)@
                &&& final(last_call_id).deep_view() == old(last_call_id).deep_view()
            },
            Some(id) => {
                let next = with_results(state_or_empty(old(state)@, id), results.deep_view());
                &&& final(last_call_id).deep_view() == Some(id)
                &&& final(state)@ == old(state)@.insert(id, next)
                &&& r.deep_view() == Some((id, next))
            },
        },
{
    let call_id = match tool_id {
        Some(t) => Some(t),
        None => clone_opt_string(last_call_id),
    };
    match call_id {
        Some(id) => {
            *last_call_id = Some(id.clone());
            let mut entry = match state.get(id.as_str()) {
                Some(e) => e.copy(),
                None => {
                    let e = StreamWebSearchState { query: None, queries: None, results: Vec::new() };
                    assert(e.results.deep_view() =~= Seq::<WebSearchResultView>::empty());
                    e
                },
            };
            let ghost before = entry.results.deep_view();
            let mut rs = results;
            let ghost added = rs.deep_view();
            entry.results.append(&mut rs);
            assert(entry.results.deep_view() =~= before + added);
            let snapshot = entry.copy();
            state.upsert(id.clone(), entry);
            Some((id, snapshot))
        },
        None => None,
    }
}

} // verus!
