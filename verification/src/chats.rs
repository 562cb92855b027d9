//! Listing a user's chats: the page that is asked for, how it is searched,
//! and the order of what a search finds.
use vstd::prelude::*;

use crate::table::{IdTable, keys_unique, lemma_tinsert_lookup, lemma_tinsert_unique, lemma_tremove_lookup, tinsert, tlookup, tremove};
use crate::text::{trim, trim_seq};

verus! {

/// How a chat list is produced.
#[derive(Debug, Clone, Copy, PartialEq, Eq, Structural)]
pub enum ChatListMode {
    /// Keyword search over the chats.
    Lexical,
    /// Search by meaning; when it finds nothing the recent chats are listed.
    Semantic,
    /// The most recently updated chats.
    Recent,
}

/// The list that a request asks for.
pub struct ChatListPlan {
    pub limit: u64,
    pub offset: u64,
    /// The search text, trimmed; absent when blank.
    pub search: Option<String>,
    pub archived: bool,
    pub mode: ChatListMode,
    /// A semantic search was asked for: the answer carries a (possibly
    /// empty) set of semantic results.
    pub semantic_results: bool,
}

pub struct ChatListPlanView {
    pub limit: u64,
    pub offset: u64,
    pub search: Option<Seq<char>>,
    pub archived: bool,
    pub mode: ChatListMode,
    pub semantic_results: bool,
}

impl View for ChatListPlan {
    type V = ChatListPlanView;

    open spec fn view(&self) -> ChatListPlanView {
        ChatListPlanView {
            limit: self.limit,
            offset: self.offset,
            search: self.search.deep_view(),
            archived: self.archived,
            mode: self.mode,
            semantic_results: self.semantic_results,
        }
    }
}

/// The default page size, and the largest one served.
pub const DEFAULT_CHAT_PAGE: u64 = 20;

pub const MAX_CHAT_PAGE: u64 = 100;

pub open spec fn search_text(search: Option<Seq<char>>) -> Option<Seq<char>> {
    match search {
        Some(s) => if trim_seq(s).len() > 0 {
            Some(trim_seq(s))
        } else {
            None
        },
        None => None,
    }
}

/// The plan of a request: the page size defaults to 20 and is capped at
/// 100, the offset defaults to 0, a blank search is no search; a search is
/// lexical unless a semantic one is asked for; without a search the recent
/// chats are listed; archived chats only when asked for.
pub open spec fn plan_of(
    limit: Option<u64>,
    offset: Option<u64>,
    search: Option<Seq<char>>,
    semantic: Option<bool>,
    archived: Option<bool>,
) -> ChatListPlanView {
    let s = search_text(search);
    let sem = semantic == Some(true);
    let l = match limit {
        Some(x) => x,
        None => DEFAULT_CHAT_PAGE,
    };
    ChatListPlanView {
        limit: if l < MAX_CHAT_PAGE {
            l
        } else {
            MAX_CHAT_PAGE
        },
        offset: match offset {
            Some(o) => o,
            None => 0,
        },
        search: s,
        archived: archived == Some(true),
        mode: if s is None {
            ChatListMode::Recent
        } else if sem {
            ChatListMode::Semantic
        } else {
            ChatListMode::Lexical
        },
        semantic_results: sem && s is Some,
    }
}

pub fn plan_chat_list(
    limit: Option<u64>,
    offset: Option<u64>,
    search: Option<String>,
    semantic: Option<bool>,
    archived: Option<bool>,
) -> (r: ChatListPlan)
    ensures
        r@ == plan_of(limit, offset, search.deep_view(), semantic, archived),
{
    let l = match limit {
        Some(x) => x,
        None => DEFAULT_CHAT_PAGE,
    };
    let s = match search {
        Some(text) => {
            let t = trim(text.as_str());
            if t.as_str().is_empty() {
                None
            } else {
                Some(t)
            }
        },
        None => None,
    };
    let sem = match semantic {
        Some(b) => b,
        None => false,
    };
    let mode = if s.is_none() {
        ChatListMode::Recent
    } else if sem {
        ChatListMode::Semantic
    } else {
        ChatListMode::Lexical
    };
    let semantic_results = sem && s.is_some();
    ChatListPlan {
        limit: if l < MAX_CHAT_PAGE {
            l
        } else {
            MAX_CHAT_PAGE
        },
        offset: match offset {
            Some(o) => o,
            None => 0,
        },
        search: s,
        archived: match archived {
            Some(b) => b,
            None => false,
        },
        mode,
        semantic_results,
    }
}

/// A semantic search page is used when it found something; otherwise the
/// recent chats are listed.
pub fn semantic_page_usable(total: Option<u64>) -> (r: bool)
    ensures
        r == (total matches Some(t) && t > 0),
{
    match total {
        Some(t) => t > 0,
        None => false,
    }
}

/// The rows by id: a later row with an id replaces an earlier one.
pub open spec fn row_table<T>(rows: Seq<(u128, T)>) -> Seq<(u128, T)>
    decreases rows.len(),
{
    if rows.len() == 0 {
        Seq::empty()
    } else {
        tinsert(row_table(rows.drop_last()), rows.last().0, rows.last().1)
    }
}

/// The rows in the order of `ids`: each id takes its row, which is then
/// used up; ids without a row are skipped.
pub open spec fn pick_rows<T>(ids: Seq<u128>, table: Seq<(u128, T)>) -> Seq<T>
    decreases ids.len(),
{
    if ids.len() == 0 {
        Seq::empty()
    } else {
        match tlookup(table, ids[0]) {
            Some(r) => seq![r] + pick_rows(ids.drop_first(), tremove(table, ids[0])),
            None => pick_rows(ids.drop_first(), table),
        }
    }
}

/// Puts rows found by a search in the order the search ranked their ids
/// (see `pick_rows`).
pub fn order_by_ids<T: DeepView>(ids: &Vec<u128>, rows: Vec<(u128, T)>) -> (r: Vec<T>)
    ensures
        r.deep_view() == pick_rows(ids@, row_table(rows.deep_view())),
{
    let ghost all = rows.deep_view();
    let ghost n = all.len();
    let mut table: IdTable<T> = IdTable::new();
    let mut rest = rows;
    let mut i: usize = 0;
    let total = rest.len();
    assert(all.subrange(0, 0) =~= Seq::<(u128, T::V)>::empty());
    while rest.len() > 0
        invariant
            i <= n,
            n == total,
            n == all.len(),
            rest@.len() + i == n,
            rest.deep_view() == all.subrange(i as int, n as int),
            table@ == row_table(all.subrange(0, i as int)),
        decreases rest@.len(),
    {
        let ghost pre = all.subrange(0, i + 1);
        let ghost old_rest = rest.deep_view();
        assert(old_rest[0] == all[i as int]);
        let (id, row) = rest.remove(0);
        assert(rest.deep_view() =~= old_rest.subrange(1, old_rest.len() as int));
        table.insert(id, row);
        assert(pre.drop_last() =~= all.subrange(0, i as int));
        assert(rest.deep_view() =~= all.subrange(i + 1, n as int));
        i = i + 1;
    }
    assert(all.subrange(0, n as int) =~= all);
    let ghost t0 = table@;
    let mut out: Vec<T> = Vec::new();
    let mut j: usize = 0;
    assert(ids@.subrange(0, ids@.len() as int) =~= ids@);
    assert(out.deep_view() =~= Seq::<T::V>::empty());
    while j < ids.len()
        invariant
            j <= ids@.len(),
            pick_rows(ids@, t0) == out.deep_view() + pick_rows(
                ids@.subrange(j as int, ids@.len() as int),
                table@,
            ),
        decreases ids@.len() - j,
    {
        let ghost rest_ids = ids@.subrange(j as int, ids@.len() as int);
        let ghost before = out.deep_view();
        let ghost tb = table@;
        assert(rest_ids[0] == ids@[j as int]);
        assert(rest_ids.drop_first() =~= ids@.subrange(j + 1, ids@.len() as int));
        match table.remove(ids[j]) {
            Some(row) => {
                let ghost rv = row.deep_view();
                out.push(row);
                assert(out.deep_view() =~= before.push(rv));
                assert(before + (seq![rv] + pick_rows(rest_ids.drop_first(), table@))
                    =~= out.deep_view() + pick_rows(rest_ids.drop_first(), table@));
            },
            None => {},
        }
        j = j + 1;
    }
    assert(ids@.subrange(ids@.len() as int, ids@.len() as int) =~= Seq::<u128>::empty());
    assert(out.deep_view() + Seq::<T::V>::empty() =~= out.deep_view());
    out
}


proof fn lemma_row_table_unique<T>(rows: Seq<(u128, T)>)
    ensures
        keys_unique(row_table(rows)),
    decreases rows.len(),
{
    if rows.len() > 0 {
        lemma_row_table_unique(rows.drop_last());
        lemma_tinsert_unique(row_table(rows.drop_last()), rows.last().0, rows.last().1);
    }
}

proof fn lemma_row_table_lookup<T>(rows: Seq<(u128, T)>, j: int)
    requires
        0 <= j < rows.len(),
        forall|j2: int| j < j2 < rows.len() ==> (#[trigger] rows[j2]).0 != rows[j].0,
    ensures
        tlookup(row_table(rows), rows[j].0) == Some(rows[j].1),
    decreases rows.len(),
{
    let init = rows.drop_last();
    lemma_tinsert_lookup(row_table(init), rows.last().0, rows.last().1, rows[j].0);
    if j < rows.len() - 1 {
        assert(rows[rows.len() - 1].0 != rows[j].0);
        assert forall|j2: int| j < j2 < init.len() implies (#[trigger] init[j2]).0 != init[j].0 by {
            assert(init[j2] == rows[j2]);
        }
        lemma_row_table_lookup(init, j);
        assert(init[j] == rows[j]);
    }
}

proof fn lemma_pick_rows<T>(ids: Seq<u128>, t: Seq<(u128, T)>)
    requires
        keys_unique(t),
        forall|a: int, b: int| 0 <= a < b < ids.len() ==> #[trigger] ids[a] != #[trigger] ids[b],
        forall|k: int| 0 <= k < ids.len() ==> tlookup(t, #[trigger] ids[k]) is Some,
    ensures
        pick_rows(ids, t).len() == ids.len(),
        forall|k: int| 0 <= k < ids.len() ==> #[trigger] pick_rows(ids, t)[k] == tlookup(t, ids[k])->0,
    decreases ids.len(),
{
    if ids.len() > 0 {
        let rest = ids.drop_first();
        let t2 = tremove(t, ids[0]);
        lemma_tremove_lookup(t, ids[0], ids[0]);
        assert forall|k: int| 0 <= k < rest.len() implies tlookup(t2, #[trigger] rest[k]) == tlookup(
            t,
            rest[k],
        ) by {
            assert(rest[k] == ids[k + 1]);
            lemma_tremove_lookup(t, ids[0], rest[k]);
        }
        assert forall|a: int, b: int| 0 <= a < b < rest.len() implies #[trigger] rest[a] != #[trigger] rest[b] by {
            assert(rest[a] == ids[a + 1] && rest[b] == ids[b + 1]);
        }
        assert forall|k: int| 0 <= k < rest.len() implies tlookup(t2, #[trigger] rest[k]) is Some by {
            assert(rest[k] == ids[k + 1]);
            lemma_tremove_lookup(t, ids[0], rest[k]);
        }
        lemma_pick_rows(rest, t2);
        let r = pick_rows(ids, t);
        assert forall|k: int| 0 <= k < ids.len() implies #[trigger] r[k] == tlookup(t, ids[k])->0 by {
            if k > 0 {
                assert(rest[k - 1] == ids[k]);
                lemma_tremove_lookup(t, ids[0], rest[k - 1]);
            }
        }
    }
}

/// Rows found by a search come out in the order the search ranked their
/// ids: when the ids are distinct and each has a row, the result has one
/// row per id, and at each id's position the row given for that id (the
/// last one given, where several were).
pub proof fn law_rows_follow_the_ranking<T>(ids: Seq<u128>, rows: Seq<(u128, T)>)
    requires
        forall|a: int, b: int| 0 <= a < b < ids.len() ==> #[trigger] ids[a] != #[trigger] ids[b],
        forall|k: int|
            0 <= k < ids.len() ==> exists|j: int| 0 <= j < rows.len() && (#[trigger] rows[j]).0 == #[trigger] ids[k],
    ensures
        pick_rows(ids, row_table(rows)).len() == ids.len(),
        forall|k: int, j: int|
            0 <= k < ids.len() && 0 <= j < rows.len() && (#[trigger] rows[j]).0 == #[trigger] ids[k] && (forall|
                j2: int,
            | j < j2 < rows.len() ==> (#[trigger] rows[j2]).0 != ids[k]) ==> pick_rows(ids, row_table(rows))[k]
                == rows[j].1,
{
    let t = row_table(rows);
    lemma_row_table_unique(rows);
    assert forall|k: int| 0 <= k < ids.len() implies tlookup(t, #[trigger] ids[k]) is Some by {
        let j0 = choose|j: int| 0 <= j < rows.len() && (#[trigger] rows[j]).0 == ids[k];
        let lastj = choose|j: int|
            j0 <= j < rows.len() && rows[j].0 == ids[k] && forall|j2: int|
                j < j2 < rows.len() ==> (#[trigger] rows[j2]).0 != ids[k];
        lemma_last_row(rows, ids[k], j0);
        lemma_row_table_lookup(rows, lastj);
    }
    lemma_pick_rows(ids, t);
    assert forall|k: int, j: int|
        0 <= k < ids.len() && 0 <= j < rows.len() && (#[trigger] rows[j]).0 == #[trigger] ids[k] && (forall|
            j2: int,
        | j < j2 < rows.len() ==> (#[trigger] rows[j2]).0 != ids[k]) implies pick_rows(ids, t)[k] == rows[j].1 by {
        lemma_row_table_lookup(rows, j);
    }
}

proof fn lemma_last_row<T>(rows: Seq<(u128, T)>, id: u128, j0: int)
    requires
        0 <= j0 < rows.len(),
        rows[j0].0 == id,
    ensures
        exists|j: int|
            j0 <= j < rows.len() && rows[j].0 == id && forall|j2: int|
                j < j2 < rows.len() ==> (#[trigger] rows[j2]).0 != id,
    decreases rows.len() - j0,
{
    if exists|j2: int| j0 < j2 < rows.len() && (#[trigger] rows[j2]).0 == id {
        let j1 = choose|j2: int| j0 < j2 < rows.len() && (#[trigger] rows[j2]).0 == id;
        lemma_last_row(rows, id, j1);
    } else {
        assert(forall|j2: int| j0 < j2 < rows.len() ==> (#[trigger] rows[j2]).0 != id);
    }
}

} // verus!
