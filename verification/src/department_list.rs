//! The order of a department listing.
use vstd::prelude::*;

use crate::text::{char_vec, lemma_text_lt_irreflexive, lemma_text_lt_total, lemma_text_lt_transitive, text_less, text_lt};

verus! {

/// What a department listing is sorted by.
#[derive(Debug, Clone, Copy, PartialEq, Eq, Structural)]
pub enum DepartmentSortRule {
    Name,
    CreatedAt,
    UpdatedAt,
    Members,
    SubDepartments,
}

/// The values a listing can be sorted by; times are nanoseconds since the
/// epoch.
pub struct DepartmentSortRow {
    pub name: String,
    pub created_at: i128,
    pub updated_at: i128,
    pub member_count: i32,
    pub child_count: i32,
}

pub struct SortRowView {
    pub name: Seq<char>,
    pub created_at: i128,
    pub updated_at: i128,
    pub member_count: i32,
    pub child_count: i32,
}

impl View for DepartmentSortRow {
    type V = SortRowView;

    open spec fn view(&self) -> SortRowView {
        SortRowView {
            name: self.name@,
            created_at: self.created_at,
            updated_at: self.updated_at,
            member_count: self.member_count,
            child_count: self.child_count,
        }
    }
}

impl DeepView for DepartmentSortRow {
    type V = SortRowView;

    open spec fn deep_view(&self) -> SortRowView {
        self.view()
    }
}

/// `a` comes before `b` by the rule's value, ascending.
pub open spec fn key_lt(rule: DepartmentSortRule, a: SortRowView, b: SortRowView) -> bool {
    match rule {
        DepartmentSortRule::Name => text_lt(a.name, b.name),
        DepartmentSortRule::CreatedAt => a.created_at < b.created_at,
        DepartmentSortRule::UpdatedAt => a.updated_at < b.updated_at,
        DepartmentSortRule::Members => a.member_count < b.member_count,
        DepartmentSortRule::SubDepartments => a.child_count < b.child_count,
    }
}

pub open spec fn key_eq(rule: DepartmentSortRule, a: SortRowView, b: SortRowView) -> bool {
    match rule {
        DepartmentSortRule::Name => a.name == b.name,
        DepartmentSortRule::CreatedAt => a.created_at == b.created_at,
        DepartmentSortRule::UpdatedAt => a.updated_at == b.updated_at,
        DepartmentSortRule::Members => a.member_count == b.member_count,
        DepartmentSortRule::SubDepartments => a.child_count == b.child_count,
    }
}

/// Row `i` is listed before row `j`: by the rule's value, ascending or
/// descending; rows with equal values keep their order (a stable sort).
pub open spec fn precedes(
    rows: Seq<SortRowView>,
    rule: DepartmentSortRule,
    ascending: bool,
    i: int,
    j: int,
) -> bool {
    if ascending {
        key_lt(rule, rows[i], rows[j]) || (key_eq(rule, rows[i], rows[j]) && i < j)
    } else {
        key_lt(rule, rows[j], rows[i]) || (key_eq(rule, rows[i], rows[j]) && i < j)
    }
}

proof fn lemma_key_order(rule: DepartmentSortRule, a: SortRowView, b: SortRowView, c: SortRowView)
    ensures
        key_lt(rule, a, b) && key_lt(rule, b, c) ==> key_lt(rule, a, c),
        key_lt(rule, a, b) && key_eq(rule, b, c) ==> key_lt(rule, a, c),
        key_eq(rule, a, b) && key_lt(rule, b, c) ==> key_lt(rule, a, c),
        key_eq(rule, a, b) && key_eq(rule, b, c) ==> key_eq(rule, a, c),
        key_eq(rule, a, b) ==> key_eq(rule, b, a),
        key_eq(rule, a, a),
        !key_lt(rule, a, a),
        key_lt(rule, a, b) ==> !key_eq(rule, a, b) && !key_lt(rule, b, a),
        key_lt(rule, a, b) || key_lt(rule, b, a) || key_eq(rule, a, b),
{
    if rule == DepartmentSortRule::Name {
        if text_lt(a.name, b.name) && text_lt(b.name, c.name) {
            lemma_text_lt_transitive(a.name, b.name, c.name);
        }
        lemma_text_lt_irreflexive(a.name);
        lemma_text_lt_total(a.name, b.name);
        if text_lt(a.name, b.name) && text_lt(b.name, a.name) {
            lemma_text_lt_transitive(a.name, b.name, a.name);
        }
    }
}

proof fn lemma_precedes_transitive(
    rows: Seq<SortRowView>,
    rule: DepartmentSortRule,
    ascending: bool,
    i: int,
    j: int,
    k: int,
)
    requires
        precedes(rows, rule, ascending, i, j),
        precedes(rows, rule, ascending, j, k),
    ensures
        precedes(rows, rule, ascending, i, k),
{
    lemma_key_order(rule, rows[i], rows[j], rows[k]);
    lemma_key_order(rule, rows[k], rows[j], rows[i]);
    lemma_key_order(rule, rows[j], rows[i], rows[k]);
}

proof fn lemma_precedes_total(rows: Seq<SortRowView>, rule: DepartmentSortRule, ascending: bool, i: int, j: int)
    requires
        i != j,
    ensures
        precedes(rows, rule, ascending, i, j) != precedes(rows, rule, ascending, j, i),
{
    lemma_key_order(rule, rows[i], rows[j], rows[i]);
    lemma_key_order(rule, rows[j], rows[i], rows[j]);
}

fn key_less(rule: DepartmentSortRule, a: &DepartmentSortRow, b: &DepartmentSortRow) -> (r: bool)
    ensures
        r == key_lt(rule, a@, b@),
{
    match rule {
        DepartmentSortRule::Name => text_less(&char_vec(a.name.as_str()), &char_vec(b.name.as_str())),
        DepartmentSortRule::CreatedAt => a.created_at < b.created_at,
        DepartmentSortRule::UpdatedAt => a.updated_at < b.updated_at,
        DepartmentSortRule::Members => a.member_count < b.member_count,
        DepartmentSortRule::SubDepartments => a.child_count < b.child_count,
    }
}

fn key_same(rule: DepartmentSortRule, a: &DepartmentSortRow, b: &DepartmentSortRow) -> (r: bool)
    ensures
        r == key_eq(rule, a@, b@),
{
    match rule {
        DepartmentSortRule::Name => crate::text::same_text(a.name.as_str(), b.name.as_str()),
        DepartmentSortRule::CreatedAt => a.created_at == b.created_at,
        DepartmentSortRule::UpdatedAt => a.updated_at == b.updated_at,
        DepartmentSortRule::Members => a.member_count == b.member_count,
        DepartmentSortRule::SubDepartments => a.child_count == b.child_count,
    }
}

fn precedes_exec(rows: &Vec<DepartmentSortRow>, rule: DepartmentSortRule, ascending: bool, i: usize, j: usize) -> (r: bool)
    requires
        i < rows@.len(),
        j < rows@.len(),
    ensures
        r == precedes(rows.deep_view(), rule, ascending, i as int, j as int),
{
    let same = key_same(rule, &rows[i], &rows[j]);
    if ascending {
        key_less(rule, &rows[i], &rows[j]) || (same && i < j)
    } else {
        key_less(rule, &rows[j], &rows[i]) || (same && i < j)
    }
}

/// `order` lists row positions, each once, and in the listing's order.
pub open spec fn sorted_listing(
    rows: Seq<SortRowView>,
    rule: DepartmentSortRule,
    ascending: bool,
    order: Seq<usize>,
) -> bool {
    &&& forall|a: int| 0 <= a < order.len() ==> (#[trigger] order[a]) < rows.len()
    &&& forall|a: int, b: int| 0 <= a < b < order.len() ==> precedes(
        rows,
        rule,
        ascending,
        #[trigger] order[a] as int,
        #[trigger] order[b] as int,
    )
}

/// The rule a listing is sorted by when the request names none.
pub open spec fn rule_or_default(sort: Option<DepartmentSortRule>) -> DepartmentSortRule {
    match sort {
        Some(rule) => rule,
        None => DepartmentSortRule::Name,
    }
}

/// The order of a department listing: every row once, sorted by the rule's
/// value (by name where no rule is given), ascending or descending
/// (descending where no direction is given), equal values in their listed
/// order.
pub fn department_sort_order(
    rows: &Vec<DepartmentSortRow>,
    sort: Option<DepartmentSortRule>,
    ascending: Option<bool>,
) -> (r: Vec<usize>)
    ensures
        r@.len() == rows@.len(),
        sorted_listing(rows.deep_view(), rule_or_default(sort), ascending == Some(true), r@),
        forall|k: int| 0 <= k < rows@.len() ==> #[trigger] r@.contains(k as usize),
{
    let rule = match sort {
        Some(rule) => rule,
        None => DepartmentSortRule::Name,
    };
    let up = match ascending {
        Some(true) => true,
        _ => false,
    };
    sorted_positions(rows, rule, up)
}

fn sorted_positions(rows: &Vec<DepartmentSortRow>, rule: DepartmentSortRule, ascending: bool) -> (r: Vec<usize>)
    ensures
        r@.len() == rows@.len(),
        sorted_listing(rows.deep_view(), rule, ascending, r@),
        forall|k: int| 0 <= k < rows@.len() ==> #[trigger] r@.contains(k as usize),
{
    let ghost rv = rows.deep_view();
    let mut out: Vec<usize> = Vec::new();
    let mut i: usize = 0;
    while i < rows.len()
        invariant
            i <= rows@.len(),
            rv == rows.deep_view(),
            out@.len() == i,
            sorted_listing(rv, rule, ascending, out@),
            forall|a: int| 0 <= a < out@.len() ==> (#[trigger] out@[a]) < i,
            forall|k: int| 0 <= k < i ==> #[trigger] out@.contains(k as usize),
        decreases rows@.len() - i,
    {
        let mut p: usize = 0;
        while p < out.len() && !precedes_exec(rows, rule, ascending, i, out[p])
            invariant
                p <= out@.len(),
                i < rows@.len(),
                rv == rows.deep_view(),
                forall|a: int| 0 <= a < out@.len() ==> (#[trigger] out@[a]) < i,
                forall|a: int| 0 <= a < p ==> !precedes(rv, rule, ascending, i as int, #[trigger] out@[a] as int),
            decreases out@.len() - p,
        {
            p = p + 1;
        }
        let ghost o0 = out@;
        out.insert(p, i);
        proof {
            let o1 = out@;
            assert(o1 =~= o0.insert(p as int, i));
            assert forall|a: int| 0 <= a < p implies precedes(rv, rule, ascending, #[trigger] o0[a] as int, i as int) by {
                lemma_precedes_total(rv, rule, ascending, o0[a] as int, i as int);
            }
            if p < o0.len() {
                assert(precedes(rv, rule, ascending, i as int, o0[p as int] as int));
            }
            assert forall|a: int, b: int| 0 <= a < b < o1.len() implies precedes(
                rv,
                rule,
                ascending,
                #[trigger] o1[a] as int,
                #[trigger] o1[b] as int,
            ) by {
                if b < p {
                    assert(o1[a] == o0[a] && o1[b] == o0[b]);
                } else if b == p {
                    assert(o1[a] == o0[a]);
                } else if a == p {
                    assert(o1[b] == o0[b - 1]);
                    if b - 1 > p {
                        lemma_precedes_transitive(rv, rule, ascending, i as int, o0[p as int] as int, o0[b - 1] as int);
                    }
                } else if a < p {
                    assert(o1[a] == o0[a] && o1[b] == o0[b - 1]);
                    if b - 1 == p {
                        lemma_precedes_transitive(rv, rule, ascending, o0[a] as int, i as int, o0[p as int] as int);
                    } else {
                        lemma_precedes_transitive(rv, rule, ascending, o0[a] as int, i as int, o0[p as int] as int);
                        lemma_precedes_transitive(rv, rule, ascending, o0[a] as int, o0[p as int] as int, o0[b - 1] as int);
                    }
                } else {
                    assert(o1[a] == o0[a - 1] && o1[b] == o0[b - 1]);
                }
            }
            assert forall|k: int| 0 <= k < i + 1 implies #[trigger] o1.contains(k as usize) by {
                if k < i {
                    assert(o0.contains(k as usize));
                    let x = choose|x: int| 0 <= x < o0.len() && o0[x] == k as usize;
                    if x < p {
                        assert(o1[x] == k as usize);
                    } else {
                        assert(o1[x + 1] == k as usize);
                    }
                } else {
                    assert(o1[p as int] == i);
                }
            }
            assert forall|a: int| 0 <= a < o1.len() implies (#[trigger] o1[a]) < i + 1 by {
                if a < p {
                    assert(o1[a] == o0[a]);
                } else if a > p {
                    assert(o1[a] == o0[a - 1]);
                }
            }
        }
        i = i + 1;
    }
    out
}


/// A sorted listing follows the values of its column: of two rows listed one
/// before the other, the first has the smaller (ascending) or larger
/// (descending) number of sub-departments, members, creation time or update
/// time, or a name that does not sort after (ascending) or before
/// (descending) the other's; rows whose values are equal stay in the order in
/// which they were given.
pub proof fn law_listing_follows_its_column(
    rows: Seq<SortRowView>,
    rule: DepartmentSortRule,
    ascending: bool,
    order: Seq<usize>,
    a: int,
    b: int,
)
    requires
        sorted_listing(rows, rule, ascending, order),
        0 <= a < b < order.len(),
    ensures
        ({
            let x = rows[order[a] as int];
            let y = rows[order[b] as int];
            &&& rule == DepartmentSortRule::SubDepartments ==> if ascending {
                x.child_count <= y.child_count
            } else {
                x.child_count >= y.child_count
            }
            &&& rule == DepartmentSortRule::Members ==> if ascending {
                x.member_count <= y.member_count
            } else {
                x.member_count >= y.member_count
            }
            &&& rule == DepartmentSortRule::CreatedAt ==> if ascending {
                x.created_at <= y.created_at
            } else {
                x.created_at >= y.created_at
            }
            &&& rule == DepartmentSortRule::UpdatedAt ==> if ascending {
                x.updated_at <= y.updated_at
            } else {
                x.updated_at >= y.updated_at
            }
            &&& rule == DepartmentSortRule::Name ==> if ascending {
                !text_lt(y.name, x.name)
            } else {
                !text_lt(x.name, y.name)
            }
            &&& rule == DepartmentSortRule::SubDepartments && x.child_count == y.child_count
                ==> order[a] < order[b]
            &&& rule == DepartmentSortRule::Members && x.member_count == y.member_count ==> order[a]
                < order[b]
            &&& rule == DepartmentSortRule::CreatedAt && x.created_at == y.created_at ==> order[a]
                < order[b]
            &&& rule == DepartmentSortRule::UpdatedAt && x.updated_at == y.updated_at ==> order[a]
                < order[b]
            &&& rule == DepartmentSortRule::Name && x.name == y.name ==> order[a] < order[b]
        }),
{
    let i = order[a] as int;
    let j = order[b] as int;
    assert(precedes(rows, rule, ascending, i, j));
    lemma_key_order(rule, rows[i], rows[j], rows[i]);
    lemma_key_order(rule, rows[j], rows[i], rows[j]);
}


/// In a sorted listing a row whose column value comes first is listed first:
/// ascending, the row with fewer sub-departments or members, the earlier
/// creation or update, or the name that sorts first; descending, the
/// opposite.
pub proof fn law_smaller_value_listed_first(
    rows: Seq<SortRowView>,
    rule: DepartmentSortRule,
    ascending: bool,
    order: Seq<usize>,
    a: int,
    b: int,
)
    requires
        sorted_listing(rows, rule, ascending, order),
        0 <= a < order.len(),
        0 <= b < order.len(),
    ensures
        ({
            let x = rows[order[a] as int];
            let y = rows[order[b] as int];
            &&& rule == DepartmentSortRule::SubDepartments && (if ascending {
                x.child_count < y.child_count
            } else {
                x.child_count > y.child_count
            }) ==> a < b
            &&& rule == DepartmentSortRule::Members && (if ascending {
                x.member_count < y.member_count
            } else {
                x.member_count > y.member_count
            }) ==> a < b
            &&& rule == DepartmentSortRule::CreatedAt && (if ascending {
                x.created_at < y.created_at
            } else {
                x.created_at > y.created_at
            }) ==> a < b
            &&& rule == DepartmentSortRule::UpdatedAt && (if ascending {
                x.updated_at < y.updated_at
            } else {
                x.updated_at > y.updated_at
            }) ==> a < b
            &&& rule == DepartmentSortRule::Name && (if ascending {
                text_lt(x.name, y.name)
            } else {
                text_lt(y.name, x.name)
            }) ==> a < b
        }),
{
    lemma_text_lt_irreflexive(rows[order[a] as int].name);
    if b < a {
        law_listing_follows_its_column(rows, rule, ascending, order, b, a);
    }
}

} // verus!
