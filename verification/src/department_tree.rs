//! The department tree: departments nested under their parents, each with
//! its own member count and the members of its whole subtree.
use vstd::prelude::*;

use crate::table::{IdTable, lemma_tindex_bounds, tindex, tinsert, tlookup, tremove};

verus! {

/// A department as the tree reads it.
#[derive(Debug, Clone, Copy, PartialEq, Eq, Structural)]
pub struct TreeRow {
    pub id: u128,
    pub parent_id: Option<u128>,
    /// Members of the department itself.
    pub member_count: i32,
}

impl View for TreeRow {
    type V = TreeRow;

    open spec fn view(&self) -> TreeRow {
        *self
    }
}

impl DeepView for TreeRow {
    type V = TreeRow;

    open spec fn deep_view(&self) -> TreeRow {
        *self
    }
}

/// A department in the tree.
pub struct TreeNode {
    pub id: u128,
    /// The position of the department's row in the input.
    pub row: usize,
    pub member_count: i32,
    /// Members of the department and of all departments below it.
    pub total_member_count: i32,
    /// Number of departments directly below it.
    pub child_count: i32,
    pub children: Vec<TreeNode>,
}

pub struct NodeView {
    pub id: u128,
    pub row: usize,
    pub member_count: i32,
    pub total_member_count: int,
    pub child_count: i32,
    pub children: Seq<NodeView>,
}

pub open spec fn node_view(n: TreeNode) -> NodeView
    decreases n, 0nat,
{
    NodeView {
        id: n.id,
        row: n.row,
        member_count: n.member_count,
        total_member_count: n.total_member_count as int,
        child_count: n.child_count,
        children: nodes_view(n.children@),
    }
}

pub open spec fn nodes_view(s: Seq<TreeNode>) -> Seq<NodeView>
    decreases s, s.len(),
{
    if s.len() == 0 {
        Seq::empty()
    } else {
        seq![node_view(s[0])] + nodes_view(s.subrange(1, s.len() as int))
    }
}

impl View for TreeNode {
    type V = NodeView;

    open spec fn view(&self) -> NodeView {
        node_view(*self)
    }
}

pub proof fn lemma_nodes_view(s: Seq<TreeNode>)
    ensures
        nodes_view(s).len() == s.len(),
        forall|i: int| 0 <= i < s.len() ==> #[trigger] nodes_view(s)[i] == node_view(s[i]),
    decreases s.len(),
{
    if s.len() > 0 {
        let t = s.subrange(1, s.len() as int);
        lemma_nodes_view(t);
        assert forall|i: int| 0 <= i < s.len() implies #[trigger] nodes_view(s)[i] == node_view(
            s[i],
        ) by {
            if i > 0 {
                assert(nodes_view(s)[i] == nodes_view(t)[i - 1]);
                assert(t[i - 1] == s[i]);
            }
        }
    }
}

/// The departments by id: the position and row of the last row with it.
pub open spec fn node_table(rows: Seq<TreeRow>) -> Seq<(u128, (usize, TreeRow))>
    decreases rows.len(),
{
    if rows.len() == 0 {
        Seq::empty()
    } else {
        let i = rows.len() - 1;
        tinsert(node_table(rows.drop_last()), rows[i].id, (i as usize, rows[i]))
    }
}

pub open spec fn ids_or_empty(s: Option<Seq<u128>>) -> Seq<u128> {
    match s {
        Some(v) => v,
        None => Seq::empty(),
    }
}

/// The children of each parent, in row order.
pub open spec fn child_table(rows: Seq<TreeRow>) -> Seq<(u128, Seq<u128>)>
    decreases rows.len(),
{
    if rows.len() == 0 {
        Seq::empty()
    } else {
        let t = child_table(rows.drop_last());
        let r = rows.last();
        match r.parent_id {
            Some(p) => tinsert(t, p, ids_or_empty(tlookup(t, p)).push(r.id)),
            None => t,
        }
    }
}

/// The sum of the nodes' totals.
pub open spec fn sum_totals(s: Seq<NodeView>) -> int
    decreases s.len(),
{
    if s.len() == 0 {
        0
    } else {
        sum_totals(s.drop_last()) + s.last().total_member_count
    }
}

/// Attaching a department: when it is still unattached, it is taken out,
/// its children are attached below it in order, and its total is its own
/// members plus its children's totals. A department already attached (a
/// cycle, or an id listed twice) yields nothing. `fuel` bounds the nesting;
/// `law_fuel_suffices` shows that the number of departments is enough.
pub open spec fn attach(
    fuel: nat,
    id: u128,
    nodes: Seq<(u128, (usize, TreeRow))>,
    kids: Seq<(u128, Seq<u128>)>,
) -> (Option<NodeView>, Seq<(u128, (usize, TreeRow))>, Seq<(u128, Seq<u128>)>)
    decreases fuel, 0nat, 0nat,
{
    if fuel == 0 {
        (None, nodes, kids)
    } else {
        match tlookup(nodes, id) {
            None => (None, nodes, kids),
            Some((ix, row)) => {
                let (children, n2, k2) = attach_all(
                    (fuel - 1) as nat,
                    ids_or_empty(tlookup(kids, id)),
                    tremove(nodes, id),
                    tremove(kids, id),
                );
                (
                    Some(
                        NodeView {
                            id,
                            row: ix,
                            member_count: row.member_count,
                            total_member_count: row.member_count + sum_totals(children),
                            child_count: children.len() as i32,
                            children,
                        },
                    ),
                    n2,
                    k2,
                )
            },
        }
    }
}

/// Attaching the departments of `ids` in order, keeping those that attach.
pub open spec fn attach_all(
    fuel: nat,
    ids: Seq<u128>,
    nodes: Seq<(u128, (usize, TreeRow))>,
    kids: Seq<(u128, Seq<u128>)>,
) -> (Seq<NodeView>, Seq<(u128, (usize, TreeRow))>, Seq<(u128, Seq<u128>)>)
    decreases fuel, 1nat, ids.len(),
{
    if ids.len() == 0 {
        (Seq::empty(), nodes, kids)
    } else {
        let (first, n1, k1) = attach(fuel, ids[0], nodes, kids);
        let (rest, n2, k2) = attach_all(fuel, ids.drop_first(), n1, k1);
        (
            match first {
                Some(x) => seq![x] + rest,
                None => rest,
            },
            n2,
            k2,
        )
    }
}

/// The tree of `rows` from the departments `roots`.
pub open spec fn tree_of(rows: Seq<TreeRow>, roots: Seq<u128>) -> Seq<NodeView> {
    attach_all(rows.len(), roots, node_table(rows), child_table(rows)).0
}

/// The sum of the member counts in a table.
pub open spec fn table_members(t: Seq<(u128, (usize, TreeRow))>) -> int
    decreases t.len(),
{
    if t.len() == 0 {
        0
    } else {
        table_members(t.drop_last()) + t.last().1.1.member_count
    }
}

pub open spec fn table_nonneg(t: Seq<(u128, (usize, TreeRow))>) -> bool {
    forall|i: int| 0 <= i < t.len() ==> (#[trigger] t[i]).1.1.member_count >= 0
}

/// The sum of the rows' member counts.
pub open spec fn rows_members(rows: Seq<TreeRow>) -> int
    decreases rows.len(),
{
    if rows.len() == 0 {
        0
    } else {
        rows_members(rows.drop_last()) + rows.last().member_count
    }
}

pub open spec fn rows_nonneg(rows: Seq<TreeRow>) -> bool {
    forall|i: int| 0 <= i < rows.len() ==> (#[trigger] rows[i]).member_count >= 0
}

// ---------------------------------------------------------------------------
// Sums over tables.
proof fn lemma_members_update(t: Seq<(u128, (usize, TreeRow))>, i: int, x: (u128, (usize, TreeRow)))
    requires
        0 <= i < t.len(),
    ensures
        table_members(t.update(i, x)) == table_members(t) - t[i].1.1.member_count
            + x.1.1.member_count,
    decreases t.len(),
{
    let u = t.update(i, x);
    if i == t.len() - 1 {
        assert(u.drop_last() =~= t.drop_last());
    } else {
        lemma_members_update(t.drop_last(), i, x);
        assert(u.drop_last() =~= t.drop_last().update(i, x));
    }
}

proof fn lemma_members_remove(t: Seq<(u128, (usize, TreeRow))>, i: int)
    requires
        0 <= i < t.len(),
    ensures
        table_members(t.remove(i)) == table_members(t) - t[i].1.1.member_count,
    decreases t.len(),
{
    let u = t.remove(i);
    if i == t.len() - 1 {
        assert(u =~= t.drop_last());
    } else {
        lemma_members_remove(t.drop_last(), i);
        assert(u.drop_last() =~= t.drop_last().remove(i));
        assert(u.last() == t.last());
    }
}

proof fn lemma_members_tremove(t: Seq<(u128, (usize, TreeRow))>, k: u128)
    ensures
        table_members(tremove(t, k)) == table_members(t) - match tlookup(t, k) {
            Some(v) => v.1.member_count as int,
            None => 0,
        },
        table_nonneg(t) ==> table_nonneg(tremove(t, k)),
        tremove(t, k).len() == t.len() - (if tlookup(t, k) is Some {
            1int
        } else {
            0
        }),
{
    lemma_tindex_bounds(t, k);
    match tindex(t, k) {
        Some(i) => {
            lemma_members_remove(t, i);
            let u = t.remove(i);
            if table_nonneg(t) {
                assert forall|j: int| 0 <= j < u.len() implies (#[trigger] u[j]).1.1.member_count
                    >= 0 by {
                    if j < i {
                        assert(u[j] == t[j]);
                    } else {
                        assert(u[j] == t[j + 1]);
                    }
                }
            }
        },
        None => {},
    }
}

proof fn lemma_members_tinsert(t: Seq<(u128, (usize, TreeRow))>, k: u128, v: (usize, TreeRow))
    requires
        table_nonneg(t),
        v.1.member_count >= 0,
    ensures
        table_members(tinsert(t, k, v)) <= table_members(t) + v.1.member_count,
        table_nonneg(tinsert(t, k, v)),
{
    lemma_tindex_bounds(t, k);
    match tindex(t, k) {
        Some(i) => {
            lemma_members_update(t, i, (k, v));
            let u = t.update(i, (k, v));
            assert forall|j: int| 0 <= j < u.len() implies (#[trigger] u[j]).1.1.member_count >= 0 by {
                if j != i {
                    assert(u[j] == t[j]);
                }
            }
        },
        None => {
            let u = t.push((k, v));
            assert(u.drop_last() =~= t);
            assert forall|j: int| 0 <= j < u.len() implies (#[trigger] u[j]).1.1.member_count >= 0 by {
                if j < t.len() {
                    assert(u[j] == t[j]);
                }
            }
        },
    }
}

proof fn lemma_members_nonneg(t: Seq<(u128, (usize, TreeRow))>)
    requires
        table_nonneg(t),
    ensures
        table_members(t) >= 0,
    decreases t.len(),
{
    if t.len() > 0 {
        let u = t.drop_last();
        assert forall|j: int| 0 <= j < u.len() implies (#[trigger] u[j]).1.1.member_count >= 0 by {
            assert(u[j] == t[j]);
        }
        lemma_members_nonneg(u);
        assert(t.last() == t[t.len() - 1]);
    }
}

/// The table of the rows holds no more members than the rows.
proof fn lemma_node_table_members(rows: Seq<TreeRow>)
    requires
        rows_nonneg(rows),
    ensures
        table_members(node_table(rows)) <= rows_members(rows),
        table_nonneg(node_table(rows)),
        node_table(rows).len() <= rows.len(),
    decreases rows.len(),
{
    if rows.len() > 0 {
        let init = rows.drop_last();
        assert forall|i: int| 0 <= i < init.len() implies (#[trigger] init[i]).member_count >= 0 by {
            assert(init[i] == rows[i]);
        }
        lemma_node_table_members(init);
        let i = rows.len() - 1;
        assert(rows[i].member_count >= 0);
        lemma_members_tinsert(node_table(init), rows[i].id, (i as usize, rows[i]));
        lemma_tindex_bounds(node_table(init), rows[i].id);
    }
}

// ---------------------------------------------------------------------------
// What attaching keeps: members are neither lost nor counted twice.
proof fn lemma_sum_totals_prepend(x: NodeView, s: Seq<NodeView>)
    ensures
        sum_totals(seq![x] + s) == x.total_member_count + sum_totals(s),
    decreases s.len(),
{
    if s.len() == 0 {
        assert(seq![x] + s =~= seq![x]);
        assert(seq![x].drop_last() =~= Seq::<NodeView>::empty());
        assert(seq![x].last() == x);
        assert(sum_totals(Seq::<NodeView>::empty()) == 0);
        assert(sum_totals(seq![x]) == sum_totals(seq![x].drop_last()) + x.total_member_count);
    } else {
        lemma_sum_totals_prepend(x, s.drop_last());
        assert((seq![x] + s).drop_last() =~= seq![x] + s.drop_last());
        assert((seq![x] + s).last() == s.last());
    }
}

/// Attaching moves members from the table into the tree: what leaves the
/// table is exactly the new node's total, which is never negative; the
/// table only shrinks.
pub proof fn lemma_attach_conserves(
    fuel: nat,
    id: u128,
    nodes: Seq<(u128, (usize, TreeRow))>,
    kids: Seq<(u128, Seq<u128>)>,
)
    requires
        table_nonneg(nodes),
    ensures
        ({
            let (r, n2, _) = attach(fuel, id, nodes, kids);
            &&& table_nonneg(n2)
            &&& n2.len() <= nodes.len()
            &&& table_members(nodes) == table_members(n2) + match r {
                Some(x) => x.total_member_count,
                None => 0,
            }
            &&& (r matches Some(x) ==> x.total_member_count >= 0)
        }),
    decreases fuel, 0nat, 0nat,
{
    if fuel > 0 {
        if let Some((ix, row)) = tlookup(nodes, id) {
            lemma_members_tremove(nodes, id);
            let n1 = tremove(nodes, id);
            let k1 = tremove(kids, id);
            let cids = ids_or_empty(tlookup(kids, id));
            lemma_attach_all_conserves((fuel - 1) as nat, cids, n1, k1);
            let (children, n2, k2) = attach_all((fuel - 1) as nat, cids, n1, k1);
            lemma_sum_prefix_bound(children, 0);
            assert(children.subrange(0, 0) =~= Seq::<NodeView>::empty());
            lemma_tindex_bounds(nodes, id);
            let i = tindex(nodes, id)->0;
            assert(nodes[i].1.1.member_count >= 0);
            assert(row == nodes[i].1.1);
        }
    }
}

pub proof fn lemma_attach_all_conserves(
    fuel: nat,
    ids: Seq<u128>,
    nodes: Seq<(u128, (usize, TreeRow))>,
    kids: Seq<(u128, Seq<u128>)>,
)
    requires
        table_nonneg(nodes),
    ensures
        ({
            let (cs, n2, _) = attach_all(fuel, ids, nodes, kids);
            &&& table_nonneg(n2)
            &&& n2.len() <= nodes.len()
            &&& table_members(nodes) == table_members(n2) + sum_totals(cs)
            &&& forall|j: int| 0 <= j < cs.len() ==> (#[trigger] cs[j]).total_member_count >= 0
        }),
    decreases fuel, 1nat, ids.len(),
{
    if ids.len() > 0 {
        lemma_attach_conserves(fuel, ids[0], nodes, kids);
        let (first, n1, k1) = attach(fuel, ids[0], nodes, kids);
        lemma_attach_all_conserves(fuel, ids.drop_first(), n1, k1);
        let (rest, n2, k2) = attach_all(fuel, ids.drop_first(), n1, k1);
        if let Some(x) = first {
            lemma_sum_totals_prepend(x, rest);
            let cs = seq![x] + rest;
            assert forall|j: int| 0 <= j < cs.len() implies (#[trigger] cs[j]).total_member_count
                >= 0 by {
                if j > 0 {
                    assert(cs[j] == rest[j - 1]);
                }
            }
        }
    }
}

/// The fuel never cuts the tree short: with at least as much fuel as there
/// are departments left, a department that is still unattached attaches.
pub proof fn law_fuel_suffices(
    fuel: nat,
    id: u128,
    nodes: Seq<(u128, (usize, TreeRow))>,
    kids: Seq<(u128, Seq<u128>)>,
)
    requires
        fuel >= nodes.len(),
    ensures
        attach(fuel, id, nodes, kids).0 is Some <==> tlookup(nodes, id) is Some,
{
    if tlookup(nodes, id) is Some {
        lemma_tindex_bounds(nodes, id);
        assert(nodes.len() > 0);
    }
}

// ---------------------------------------------------------------------------
// Building the tree.
fn sum_children(member_count: i32, children: &Vec<TreeNode>, Ghost(bound): Ghost<int>) -> (r: i32)
    requires
        member_count >= 0,
        member_count + sum_totals(nodes_view(children@)) <= bound <= i32::MAX,
        forall|j: int|
            0 <= j < children@.len() ==> (#[trigger] nodes_view(children@)[j]).total_member_count
                >= 0,
    ensures
        r == member_count + sum_totals(nodes_view(children@)),
{
    let ghost cv = nodes_view(children@);
    proof {
        lemma_nodes_view(children@);
    }
    let mut total: i32 = member_count;
    let mut k: usize = 0;
    assert(cv.subrange(0, 0) =~= Seq::<NodeView>::empty());
    while k < children.len()
        invariant
            k <= children@.len(),
            cv == nodes_view(children@),
            cv.len() == children@.len(),
            forall|j: int| 0 <= j < children@.len() ==> #[trigger] cv[j] == node_view(children@[j]),
            forall|j: int| 0 <= j < cv.len() ==> (#[trigger] cv[j]).total_member_count >= 0,
            total == member_count + sum_totals(cv.subrange(0, k as int)),
            member_count + sum_totals(cv) <= bound <= i32::MAX,
            member_count >= 0,
        decreases children@.len() - k,
    {
        proof {
            lemma_sum_prefix_bound(cv, k as int + 1);
            assert(cv.subrange(0, k + 1).drop_last() =~= cv.subrange(0, k as int));
            assert(cv.subrange(0, k + 1).last() == cv[k as int]);
            assert(cv[k as int].total_member_count == children@[k as int].total_member_count);
        }
        total = total + children[k].total_member_count;
        k = k + 1;
    }
    assert(cv.subrange(0, cv.len() as int) =~= cv);
    total
}

/// A prefix of non-negative totals sums to no more than the whole.
proof fn lemma_sum_prefix_bound(s: Seq<NodeView>, k: int)
    requires
        0 <= k <= s.len(),
        forall|j: int| 0 <= j < s.len() ==> (#[trigger] s[j]).total_member_count >= 0,
    ensures
        0 <= sum_totals(s.subrange(0, k)) <= sum_totals(s),
    decreases s.len(),
{
    if k == s.len() {
        assert(s.subrange(0, k) =~= s);
        if s.len() > 0 {
            lemma_sum_prefix_bound(s.drop_last(), s.len() - 1);
            assert(s.drop_last().subrange(0, s.len() - 1) =~= s.drop_last());
            assert(s.last() == s[s.len() - 1]);
        }
    } else {
        let t = s.drop_last();
        assert forall|j: int| 0 <= j < t.len() implies (#[trigger] t[j]).total_member_count >= 0 by {
            assert(t[j] == s[j]);
        }
        lemma_sum_prefix_bound(t, k);
        assert(t.subrange(0, k) =~= s.subrange(0, k));
        assert(s.last() == s[s.len() - 1]);
    }
}

fn attach_exec(
    id: u128,
    nodes: &mut IdTable<(usize, TreeRow)>,
    kids: &mut IdTable<Vec<u128>>,
    fuel: usize,
) -> (r: Option<TreeNode>)
    requires
        table_nonneg(old(nodes)@),
        table_members(old(nodes)@) <= i32::MAX,
    ensures
        ({
            let (sr, sn, sk) = attach(fuel as nat, id, old(nodes)@, old(kids)@);
            &&& match r {
                Some(n) => sr == Some(n@),
                None => sr is None,
            }
            &&& final(nodes)@ == sn
            &&& final(kids)@ == sk
        }),
    decreases fuel, 0nat,
{
    if fuel == 0 {
        return None;
    }
    let ghost n0 = nodes@;
    let (ix, row) = match nodes.remove(id) {
        Some(e) => e,
        None => return None,
    };
    let child_ids: Vec<u128> = match kids.remove(id) {
        Some(v) => v,
        None => Vec::new(),
    };
    proof {
        lemma_members_tremove(n0, id);
        lemma_tindex_bounds(n0, id);
        let i = tindex(n0, id)->0;
        assert(n0[i].1.1.member_count >= 0);
        assert(child_ids@ == ids_or_empty(tlookup(old(kids)@, id)));
    }
    let ghost n1 = nodes@;
    let ghost k1 = kids@;
    let children = attach_all_exec(&child_ids, nodes, kids, fuel - 1);
    proof {
        assert(table_nonneg(n1));
        lemma_attach_all_conserves((fuel - 1) as nat, child_ids@, n1, k1);
        let (sc, sn, sk) = attach_all((fuel - 1) as nat, child_ids@, n1, k1);
        assert(nodes@ == sn);
        assert(table_nonneg(sn));
        assert(nodes_view(children@) == sc);
        assert(table_members(n1) == table_members(sn) + sum_totals(sc));
        assert(table_members(n0) == table_members(n1) + row.member_count);
    }
    let ghost cv = nodes_view(children@);
    proof {
        lemma_members_nonneg(nodes@);
        assert(row.member_count >= 0);
        lemma_nodes_view(children@);
    }
    let total = sum_children(row.member_count, &children, Ghost(table_members(n0)));
    let count = children.len() as i32;
    proof {
        lemma_nodes_view(children@);
    }
    let node = TreeNode {
        id,
        row: ix,
        member_count: row.member_count,
        total_member_count: total,
        child_count: count,
        children,
    };
    Some(node)
}

fn attach_all_exec(
    ids: &Vec<u128>,
    nodes: &mut IdTable<(usize, TreeRow)>,
    kids: &mut IdTable<Vec<u128>>,
    fuel: usize,
) -> (r: Vec<TreeNode>)
    requires
        table_nonneg(old(nodes)@),
        table_members(old(nodes)@) <= i32::MAX,
    ensures
        ({
            let (sc, sn, sk) = attach_all(fuel as nat, ids@, old(nodes)@, old(kids)@);
            &&& nodes_view(r@) == sc
            &&& final(nodes)@ == sn
            &&& final(kids)@ == sk
        }),
    decreases fuel, 1nat,
{
    let ghost all = ids@;
    let ghost n0 = nodes@;
    let ghost k0 = kids@;
    let mut out: Vec<TreeNode> = Vec::new();
    let mut i: usize = 0;
    assert(all.subrange(0, all.len() as int) =~= all);
    proof {
        lemma_nodes_view(out@);
    }
    while i < ids.len()
        invariant
            i <= all.len(),
            all == ids@,
            table_nonneg(nodes@),
            table_members(nodes@) <= i32::MAX,
            attach_all(fuel as nat, all, n0, k0) == ({
                let (rest, n2, k2) = attach_all(
                    fuel as nat,
                    all.subrange(i as int, all.len() as int),
                    nodes@,
                    kids@,
                );
                (nodes_view(out@) + rest, n2, k2)
            }),
        decreases all.len() - i,
    {
        let ghost rest_ids = all.subrange(i as int, all.len() as int);
        let ghost nb = nodes@;
        let ghost kb = kids@;
        assert(rest_ids[0] == all[i as int]);
        assert(rest_ids.drop_first() =~= all.subrange(i + 1, all.len() as int));
        proof {
            lemma_attach_conserves(fuel as nat, all[i as int], nb, kb);
        }
        let ghost before = nodes_view(out@);
        let ghost out_before = out@;
        match attach_exec(ids[i], nodes, kids, fuel) {
            Some(n) => {
                let ghost nv = n@;
                out.push(n);
                proof {
                    lemma_nodes_view(out@);
                    lemma_nodes_view(out_before);
                    assert(out@ == out_before.push(n));
                    assert(nodes_view(out@) =~= before.push(nv));
                    let (rest, n2, k2) = attach_all(fuel as nat, rest_ids.drop_first(), nodes@, kids@);
                    assert(before + (seq![nv] + rest) =~= nodes_view(out@) + rest);
                }
            },
            None => {},
        }
        i = i + 1;
    }
    proof {
        assert(all.subrange(all.len() as int, all.len() as int) =~= Seq::<u128>::empty());
        assert(nodes_view(out@) + Seq::<NodeView>::empty() =~= nodes_view(out@));
    }
    out
}

/// The departments at the top of the tree when no root is given: those
/// without a parent, or whose parent is not among the departments, in the
/// order the departments were first listed.
pub open spec fn roots_in(
    t: Seq<(u128, (usize, TreeRow))>,
    all: Seq<(u128, (usize, TreeRow))>,
) -> Seq<u128>
    decreases t.len(),
{
    if t.len() == 0 {
        Seq::empty()
    } else {
        let r = roots_in(t.drop_last(), all);
        let top = match t.last().1.1.parent_id {
            None => true,
            Some(p) => tlookup(all, p) is None,
        };
        if top {
            r.push(t.last().0)
        } else {
            r
        }
    }
}

/// The departments the tree starts from: the given root, or every top
/// department (see `roots_in`).
pub open spec fn roots_for(rows: Seq<TreeRow>, root: Option<u128>) -> Seq<u128> {
    match root {
        Some(r) => seq![r],
        None => roots_in(node_table(rows), node_table(rows)),
    }
}

/// Builds the department tree of `rows` (see `tree_of`), from `root` or
/// from every top department.
pub fn build_department_tree(rows: &Vec<TreeRow>, root: Option<u128>) -> (r: Vec<TreeNode>)
    requires
        rows_nonneg(rows@),
        rows_members(rows@) <= i32::MAX,
    ensures
        nodes_view(r@) == tree_of(rows@, roots_for(rows@, root)),
{
    let mut nodes: IdTable<(usize, TreeRow)> = IdTable::new();
    let mut kids: IdTable<Vec<u128>> = IdTable::new();
    let mut i: usize = 0;
    assert(rows@.subrange(0, 0) =~= Seq::<TreeRow>::empty());
    while i < rows.len()
        invariant
            i <= rows@.len(),
            nodes@ == node_table(rows@.subrange(0, i as int)),
            kids@ == child_table(rows@.subrange(0, i as int)),
        decreases rows@.len() - i,
    {
        let row = rows[i];
        let ghost pre = rows@.subrange(0, i + 1);
        assert(pre.drop_last() =~= rows@.subrange(0, i as int));
        assert(pre[i as int] == row);
        nodes.insert(row.id, (i, row));
        if let Some(p) = row.parent_id {
            let ghost before = kids@;
            let mut list: Vec<u128> = match kids.get(p) {
                Some(v) => {
                    let c = v.clone();
                    assert(c@ =~= v.deep_view());
                    c
                },
                None => Vec::new(),
            };
            assert(list@ == ids_or_empty(tlookup(before, p)));
            list.push(row.id);
            assert(list.deep_view() =~= list@);
            kids.insert(p, list);
        }
        i = i + 1;
    }
    assert(rows@.subrange(0, rows@.len() as int) =~= rows@);
    proof {
        lemma_node_table_members(rows@);
    }
    let roots: Vec<u128> = match root {
        Some(r) => {
            let mut v: Vec<u128> = Vec::new();
            v.push(r);
            assert(v@ =~= seq![r]);
            v
        },
        None => top_ids(&nodes),
    };
    attach_all_exec(&roots, &mut nodes, &mut kids, rows.len())
}

fn top_ids(nodes: &IdTable<(usize, TreeRow)>) -> (r: Vec<u128>)
    ensures
        r@ == roots_in(nodes@, nodes@),
{
    let ghost all = nodes@;
    let mut out: Vec<u128> = Vec::new();
    let mut i: usize = 0;
    assert(all.subrange(0, 0) =~= Seq::<(u128, (usize, TreeRow))>::empty());
    while i < nodes.len()
        invariant
            i <= all.len(),
            all == nodes@,
            out@ == roots_in(all.subrange(0, i as int), all),
        decreases all.len() - i,
    {
        let (id, entry) = nodes.entry_at(i);
        let ghost pre = all.subrange(0, i + 1);
        assert(pre.drop_last() =~= all.subrange(0, i as int));
        let top = match entry.1.parent_id {
            None => true,
            Some(p) => nodes.get(p).is_none(),
        };
        if top {
            out.push(id);
        }
        i = i + 1;
    }
    assert(all.subrange(0, all.len() as int) =~= all);
    out
}

// ---------------------------------------------------------------------------
// Laws of the tree.
/// Every node of the tree is counted correctly: its total is its own members
/// plus its children's totals, and its child count is the number of its
/// children (as `i32`).
pub open spec fn well_counted(n: NodeView) -> bool
    decreases n,
{
    &&& n.total_member_count == n.member_count + sum_totals(n.children)
    &&& n.child_count == n.children.len() as i32
    &&& forall|j: int| 0 <= j < n.children.len() ==> well_counted(#[trigger] n.children[j])
}

proof fn lemma_attach_well_counted(
    fuel: nat,
    id: u128,
    nodes: Seq<(u128, (usize, TreeRow))>,
    kids: Seq<(u128, Seq<u128>)>,
)
    ensures
        attach(fuel, id, nodes, kids).0 matches Some(x) ==> well_counted(x),
    decreases fuel, 0nat, 0nat,
{
    if fuel > 0 {
        if let Some((ix, row)) = tlookup(nodes, id) {
            let cids = ids_or_empty(tlookup(kids, id));
            lemma_attach_all_well_counted(
                (fuel - 1) as nat,
                cids,
                tremove(nodes, id),
                tremove(kids, id),
            );
            let (children, n2, k2) = attach_all(
                (fuel - 1) as nat,
                cids,
                tremove(nodes, id),
                tremove(kids, id),
            );
            let x = NodeView {
                id,
                row: ix,
                member_count: row.member_count,
                total_member_count: row.member_count + sum_totals(children),
                child_count: children.len() as i32,
                children,
            };
            assert(attach(fuel, id, nodes, kids).0 == Some(x));
            assert forall|j: int| 0 <= j < x.children.len() implies well_counted(
                #[trigger] x.children[j],
            ) by {
                assert(x.children[j] == attach_all(
                    (fuel - 1) as nat,
                    cids,
                    tremove(nodes, id),
                    tremove(kids, id),
                ).0[j]);
            }
            assert(well_counted(x));
        }
    }
}

proof fn lemma_attach_all_well_counted(
    fuel: nat,
    ids: Seq<u128>,
    nodes: Seq<(u128, (usize, TreeRow))>,
    kids: Seq<(u128, Seq<u128>)>,
)
    ensures
        forall|j: int|
            0 <= j < attach_all(fuel, ids, nodes, kids).0.len() ==> well_counted(
                #[trigger] attach_all(fuel, ids, nodes, kids).0[j],
            ),
    decreases fuel, 1nat, ids.len(),
{
    if ids.len() > 0 {
        lemma_attach_well_counted(fuel, ids[0], nodes, kids);
        let (first, n1, k1) = attach(fuel, ids[0], nodes, kids);
        lemma_attach_all_well_counted(fuel, ids.drop_first(), n1, k1);
        let (rest, n2, k2) = attach_all(fuel, ids.drop_first(), n1, k1);
        if let Some(x) = first {
            let cs = seq![x] + rest;
            assert forall|j: int| 0 <= j < cs.len() implies well_counted(#[trigger] cs[j]) by {
                if j > 0 {
                    assert(cs[j] == rest[j - 1]);
                }
            }
        }
    }
}

/// In every tree, each department's total is its own members plus its
/// children's totals, and its child count is the number of its children.
pub proof fn law_tree_totals_add_up(rows: Seq<TreeRow>, roots: Seq<u128>)
    ensures
        forall|j: int|
            0 <= j < tree_of(rows, roots).len() ==> well_counted(#[trigger] tree_of(rows, roots)[j]),
{
    lemma_attach_all_well_counted(rows.len(), roots, node_table(rows), child_table(rows));
}

/// The tree counts every member at most once: the totals of its top
/// departments add up to no more than the members of all departments, and
/// to exactly the members of the departments it takes in.
pub proof fn law_tree_counts_members_once(rows: Seq<TreeRow>, roots: Seq<u128>)
    requires
        rows_nonneg(rows),
    ensures
        sum_totals(tree_of(rows, roots)) == table_members(node_table(rows)) - table_members(
            attach_all(rows.len(), roots, node_table(rows), child_table(rows)).1,
        ),
        0 <= sum_totals(tree_of(rows, roots)) <= rows_members(rows),
{
    lemma_node_table_members(rows);
    lemma_attach_all_conserves(rows.len(), roots, node_table(rows), child_table(rows));
    let (cs, n2, k2) = attach_all(rows.len(), roots, node_table(rows), child_table(rows));
    lemma_members_nonneg(n2);
    lemma_sum_prefix_bound(cs, 0);
    assert(cs.subrange(0, 0) =~= Seq::<NodeView>::empty());
}

/// How many levels below its start a tree shows when the request does not
/// say.
pub const DEFAULT_TREE_DEPTH: i32 = 10;

/// The requested number of levels: the default when none is given, and
/// never negative.
pub open spec fn levels_of(max_depth: Option<i32>) -> int {
    match max_depth {
        Some(d) => if d < 0 {
            0
        } else {
            d as int
        },
        None => DEFAULT_TREE_DEPTH as int,
    }
}

/// The deepest department depth a tree takes in: the requested number of
/// levels below the root's depth, or below the top when there is no root.
pub fn tree_depth_limit(max_depth: Option<i32>, root_depth: Option<i32>) -> (r: i32)
    requires
        root_depth matches Some(d) ==> d + levels_of(max_depth) <= i32::MAX,
    ensures
        r == match root_depth {
            Some(d) => d + levels_of(max_depth),
            None => levels_of(max_depth),
        },
{
    let levels: i32 = match max_depth {
        Some(d) => if d < 0 {
            0
        } else {
            d
        },
        None => DEFAULT_TREE_DEPTH,
    };
    match root_depth {
        Some(d) => d + levels,
        None => levels,
    }
}

} // verus!
