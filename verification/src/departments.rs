//! Department administration decisions: who is made an administrator of a
//! new department, the department tree, and where a department may move.
use vstd::prelude::*;

use crate::ids::{parse_uuid, uuid_parse};
use crate::text::{starts_with, starts_with_seq};
use vstd::string::StringExecFns;

verus! {

/// Strictly increasing.
pub open spec fn strictly_sorted(s: Seq<u128>) -> bool {
    forall|i: int, j: int| 0 <= i < j < s.len() ==> s[i] < s[j]
}

/// Inserts `x` into a strictly increasing vector, unless it is present.
fn insert_sorted(v: &mut Vec<u128>, x: u128)
    requires
        strictly_sorted(old(v)@),
    ensures
        strictly_sorted(final(v)@),
        forall|y: u128| final(v)@.contains(y) <==> (old(v)@.contains(y) || y == x),
{
    let mut i: usize = 0;
    while i < v.len() && v[i] < x
        invariant
            i <= v@.len(),
            v@ == old(v)@,
            strictly_sorted(v@),
            forall|j: int| 0 <= j < i ==> v@[j] < x,
        decreases v@.len() - i,
    {
        i = i + 1;
    }
    if i < v.len() && v[i] == x {
        return;
    }
    v.insert(i, x);
    proof {
        assert forall|a: int, b: int| 0 <= a < b < final(v)@.len() implies final(v)@[a] < final(v)@[b] by {
            if b < i {
            } else if a < i && b == i {
            } else if a < i && b > i {
                assert(final(v)@[b] == old(v)@[b - 1]);
                assert(old(v)@[i as int] > x);
            } else if a == i {
                assert(final(v)@[b] == old(v)@[b - 1]);
                assert(old(v)@[i as int] >= x);
            } else {
                assert(final(v)@[a] == old(v)@[a - 1]);
                assert(final(v)@[b] == old(v)@[b - 1]);
            }
        }
        assert forall|y: u128| final(v)@.contains(y) <==> (old(v)@.contains(y) || y == x) by {
            if final(v)@.contains(y) {
                let k = choose|k: int| 0 <= k < final(v)@.len() && final(v)@[k] == y;
                if k < i {
                    assert(old(v)@[k] == y);
                } else if k > i {
                    assert(old(v)@[k - 1] == y);
                }
            }
            if old(v)@.contains(y) {
                let k = choose|k: int| 0 <= k < old(v)@.len() && old(v)@[k] == y;
                if k < i {
                    assert(final(v)@[k] == y);
                } else {
                    assert(final(v)@[k + 1] == y);
                }
            }
            if y == x {
                assert(final(v)@[i as int] == y);
            }
        }
    }
}

/// The administrators of a new department: the requested ones other than its
/// creator, ascending and each once; and whether the creator is made an
/// administrator as well, which is the case unless the creator is a super
/// administrator.
pub fn department_admin_plan(
    requested_admin_ids: Option<&[u128]>,
    creator_id: u128,
    is_super_admin: bool,
) -> (r: (Vec<u128>, bool))
    ensures
        strictly_sorted(r.0@),
        forall|y: u128|
            r.0@.contains(y) <==> (y != creator_id && match requested_admin_ids {
                Some(ids) => ids@.contains(y),
                None => false,
            }),
        r.1 == !is_super_admin,
{
    let mut out: Vec<u128> = Vec::new();
    if let Some(ids) = requested_admin_ids {
        let mut i: usize = 0;
        while i < ids.len()
            invariant
                i <= ids@.len(),
                strictly_sorted(out@),
                forall|y: u128|
                    out@.contains(y) <==> (y != creator_id && ids@.subrange(0, i as int).contains(y)),
            decreases ids@.len() - i,
        {
            let id = ids[i];
            let ghost before = out@;
            if id != creator_id {
                insert_sorted(&mut out, id);
            }
            proof {
                assert forall|y: u128| out@.contains(y) <==> (y != creator_id && ids@.subrange(0, i + 1).contains(y)) by {
                    let pre = ids@.subrange(0, i + 1);
                    if ids@.subrange(0, i as int).contains(y) {
                        let k = choose|k: int| 0 <= k < i && ids@.subrange(0, i as int)[k] == y;
                        assert(pre[k] == y);
                    }
                    if pre.contains(y) {
                        let k = choose|k: int| 0 <= k < i + 1 && pre[k] == y;
                        if k < i {
                            assert(ids@.subrange(0, i as int)[k] == y);
                        }
                    }
                    assert(pre[i as int] == id);
                }
            }
            i = i + 1;
        }
        assert(ids@.subrange(0, ids@.len() as int) =~= ids@);
    }
    (out, !is_super_admin)
}

// ---------------------------------------------------------------------------
// Where a department may stand in the tree.
/// The deepest level a department may have (the top level is 0).
pub const MAX_DEPARTMENT_DEPTH: i32 = 9;

/// Why a department cannot be placed.
#[derive(Debug, Clone, Copy, PartialEq, Eq, Structural)]
pub enum DepartmentError {
    /// The tree would grow deeper than `MAX_DEPARTMENT_DEPTH`, or a filter
    /// names no valid department id.
    ServiceTemporarilyUnavailable,
    /// A department cannot move under itself or its own descendants.
    DbConflict,
}

/// The depth of a new department: one below its parent, 0 at the top;
/// refused beyond `MAX_DEPARTMENT_DEPTH`.
pub open spec fn new_depth_of(parent_depth: Option<i32>) -> Result<i32, DepartmentError> {
    let d = match parent_depth {
        Some(p) => p + 1,
        None => 0,
    };
    if d > MAX_DEPARTMENT_DEPTH {
        Err(DepartmentError::ServiceTemporarilyUnavailable)
    } else {
        Ok(d as i32)
    }
}

pub fn new_department_depth(parent_depth: Option<i32>) -> (r: Result<i32, DepartmentError>)
    requires
        parent_depth matches Some(p) ==> p < i32::MAX,
    ensures
        r == new_depth_of(parent_depth),
{
    let d = match parent_depth {
        Some(p) => p + 1,
        None => 0,
    };
    if d > MAX_DEPARTMENT_DEPTH {
        Err(DepartmentError::ServiceTemporarilyUnavailable)
    } else {
        Ok(d)
    }
}

/// The path of a department under a parent: the parent's path, a dot, and
/// the department's label.
pub open spec fn child_path(parent_path: Seq<char>, label: Seq<char>) -> Seq<char> {
    parent_path + "."@ + label
}

fn child_path_exec(parent_path: &str, label: &str) -> (r: String)
    ensures
        r@ == child_path(parent_path@, label@),
{
    let mut p = parent_path.to_owned();
    p.append(".");
    p.append(label);
    p
}

/// A department's subtree fits under a new parent: the new top depth plus
/// the subtree's height stays within `MAX_DEPARTMENT_DEPTH`.
pub open spec fn subtree_fits(new_depth: int, depth: int, subtree_max_depth: int) -> bool {
    new_depth + (subtree_max_depth - depth) <= MAX_DEPARTMENT_DEPTH
}

/// Where a moved department lands.
pub struct MovePlan {
    pub new_path: String,
    pub new_depth: i32,
    /// What every depth in the subtree changes by.
    pub depth_delta: i32,
}

pub open spec fn move_fits_i32(
    depth: i32,
    subtree_max_depth: i32,
    new_parent_depth: i32,
) -> bool {
    &&& new_parent_depth + 1 <= i32::MAX
    &&& i32::MIN <= subtree_max_depth - depth <= i32::MAX
    &&& i32::MIN <= (new_parent_depth + 1) + (subtree_max_depth - depth) <= i32::MAX
    &&& i32::MIN <= (new_parent_depth + 1) - depth <= i32::MAX
}

/// Moving a department under a new parent: refused when the subtree would
/// grow too deep; then refused when the new parent is the department itself
/// or lies below it (its path starts with the department's path); else the
/// department takes the parent's path plus its label, one level below it.
pub fn plan_department_move(
    department_id: u128,
    path: &str,
    depth: i32,
    subtree_max_depth: i32,
    new_parent_id: u128,
    new_parent_path: &str,
    new_parent_depth: i32,
    label: &str,
) -> (r: Result<MovePlan, DepartmentError>)
    requires
        move_fits_i32(depth, subtree_max_depth, new_parent_depth),
    ensures
        !subtree_fits(new_parent_depth + 1, depth as int, subtree_max_depth as int) ==> r == Err::<
            MovePlan,
            DepartmentError,
        >(DepartmentError::ServiceTemporarilyUnavailable),
        subtree_fits(new_parent_depth + 1, depth as int, subtree_max_depth as int) && (new_parent_id
            == department_id || starts_with_seq(new_parent_path@, path@)) ==> r == Err::<
            MovePlan,
            DepartmentError,
        >(DepartmentError::DbConflict),
        subtree_fits(new_parent_depth + 1, depth as int, subtree_max_depth as int) && !(new_parent_id
            == department_id || starts_with_seq(new_parent_path@, path@)) ==> (r matches Ok(p) && p.new_path@
            == child_path(new_parent_path@, label@) && p.new_depth == new_parent_depth + 1
            && p.depth_delta == new_parent_depth + 1 - depth),
{
    let new_root_depth = new_parent_depth + 1;
    let subtree_height = subtree_max_depth - depth;
    if new_root_depth + subtree_height > MAX_DEPARTMENT_DEPTH {
        return Err(DepartmentError::ServiceTemporarilyUnavailable);
    }
    if new_parent_id == department_id || starts_with(new_parent_path, path) {
        return Err(DepartmentError::DbConflict);
    }
    let new_path = child_path_exec(new_parent_path, label);
    Ok(MovePlan { new_path, new_depth: new_root_depth, depth_delta: new_root_depth - depth })
}

/// The path and depth of an edited department: unchanged when its parent
/// stays; under a new parent, the parent's path plus its label one level
/// below it; at the top, its label at depth 0. A new place is refused when
/// the subtree would grow too deep.
pub open spec fn placement_of(
    parent_changed: bool,
    new_parent: Option<(Seq<char>, i32)>,
    label: Seq<char>,
    path: Seq<char>,
    depth: i32,
    subtree_max_depth: i32,
) -> Result<(Seq<char>, int), DepartmentError> {
    if !parent_changed {
        Ok((path, depth as int))
    } else {
        let (p, d) = match new_parent {
            Some((pp, pd)) => (child_path(pp, label), pd + 1),
            None => (label, 0),
        };
        if subtree_fits(d, depth as int, subtree_max_depth as int) {
            Ok((p, d))
        } else {
            Err(DepartmentError::ServiceTemporarilyUnavailable)
        }
    }
}

pub fn plan_department_placement(
    parent_changed: bool,
    new_parent: Option<(&str, i32)>,
    label: &str,
    path: &str,
    depth: i32,
    subtree_max_depth: i32,
) -> (r: Result<(String, i32), DepartmentError>)
    requires
        parent_changed ==> i32::MIN <= subtree_max_depth - depth <= i32::MAX,
        parent_changed ==> match new_parent {
            Some((_, pd)) => pd + 1 <= i32::MAX && i32::MIN <= (pd + 1) + (subtree_max_depth - depth)
                <= i32::MAX,
            None => true,
        },
    ensures
        match (r, placement_of(
            parent_changed,
            match new_parent {
                Some((pp, pd)) => Some((pp@, pd)),
                None => None,
            },
            label@,
            path@,
            depth,
            subtree_max_depth,
        )) {
            (Ok((p, d)), Ok((sp, sd))) => p@ == sp && d == sd,
            (Err(e), Err(se)) => e == se,
            _ => false,
        },
{
    if !parent_changed {
        return Ok((path.to_owned(), depth));
    }
    let (p, d) = match new_parent {
        Some((pp, pd)) => (child_path_exec(pp, label), pd + 1),
        None => (label.to_owned(), 0),
    };
    let height = subtree_max_depth - depth;
    if d + height > MAX_DEPARTMENT_DEPTH {
        Err(DepartmentError::ServiceTemporarilyUnavailable)
    } else {
        Ok((p, d))
    }
}

// ---------------------------------------------------------------------------
// What an edit of a department changes.
/// Which allowed models an edited department must check against its parent.
#[derive(Debug, Clone, Copy, PartialEq, Eq, Structural)]
pub enum ModelsCheck {
    /// The models the request gives.
    Requested,
    /// The department's current models, since its parent changes.
    Current,
    /// Nothing to check.
    NoCheck,
}

/// The settled fields of a department edit and the checks it needs.
pub struct DepartmentEdit {
    pub name: String,
    pub parent_id: Option<u128>,
    /// Whether the department moves to another parent.
    pub parent_changed: bool,
    pub retention_days: Option<i32>,
    /// Whether the department's budget must fit in what its parent still
    /// has for children: a parent, and a new parent or budget requested.
    pub check_parent_budget: bool,
    pub models_check: ModelsCheck,
}

/// An edit keeps each field the request leaves out. A parent can be set or
/// changed but not cleared this way; the department moves when the parent
/// it ends up with differs from its current one.
pub fn plan_department_edit(
    current_name: String,
    current_parent: Option<u128>,
    current_retention_days: Option<i32>,
    name: Option<String>,
    parent_id: Option<u128>,
    retention_days: Option<i32>,
    budget_given: bool,
    models_given: bool,
) -> (r: DepartmentEdit)
    ensures
        r.name@ == match name {
            Some(n) => n@,
            None => current_name@,
        },
        r.parent_id == match parent_id {
            Some(p) => Some(p),
            None => current_parent,
        },
        r.parent_changed == (r.parent_id != current_parent),
        r.retention_days == match retention_days {
            Some(d) => Some(d),
            None => current_retention_days,
        },
        r.check_parent_budget == (r.parent_id is Some && (parent_id is Some || budget_given)),
        r.models_check == if models_given {
            ModelsCheck::Requested
        } else if r.parent_changed {
            ModelsCheck::Current
        } else {
            ModelsCheck::NoCheck
        },
{
    let name = match name {
        Some(n) => n,
        None => current_name,
    };
    let requested_parent = parent_id.is_some();
    let parent = match parent_id {
        Some(p) => Some(p),
        None => current_parent,
    };
    let parent_changed = parent != current_parent;
    let retention = match retention_days {
        Some(d) => Some(d),
        None => current_retention_days,
    };
    let check_parent_budget = parent.is_some() && (requested_parent || budget_given);
    let models_check = if models_given {
        ModelsCheck::Requested
    } else if parent_changed {
        ModelsCheck::Current
    } else {
        ModelsCheck::NoCheck
    };
    DepartmentEdit {
        name,
        parent_id: parent,
        parent_changed,
        retention_days: retention,
        check_parent_budget,
        models_check,
    }
}

// ---------------------------------------------------------------------------
// The parent filter of a department listing.
/// A character as `char::to_ascii_lowercase` makes it, as a number.
pub open spec fn ascii_lower(c: char) -> u32 {
    if 'A' <= c <= 'Z' {
        (c as u32 + 32) as u32
    } else {
        c as u32
    }
}

/// Texts equal when ASCII letters are compared without case.
pub open spec fn eq_ignore_ascii_case(a: Seq<char>, b: Seq<char>) -> bool {
    a.len() == b.len() && forall|i: int| 0 <= i < a.len() ==> ascii_lower(#[trigger] a[i]) == ascii_lower(b[i])
}

fn lower_code(c: char) -> (r: u32)
    ensures
        r == ascii_lower(c),
{
    if 'A' <= c && c <= 'Z' {
        c as u32 + 32
    } else {
        c as u32
    }
}

pub(crate) fn eq_ignore_ascii_case_exec(a: &str, b: &str) -> (r: bool)
    ensures
        r == eq_ignore_ascii_case(a@, b@),
{
    let av = crate::text::char_vec(a);
    let bv = crate::text::char_vec(b);
    if av.len() != bv.len() {
        return false;
    }
    let mut i: usize = 0;
    while i < av.len()
        invariant
            i <= av@.len(),
            av@ == a@,
            bv@ == b@,
            av@.len() == bv@.len(),
            forall|j: int| 0 <= j < i ==> ascii_lower(#[trigger] a@[j]) == ascii_lower(b@[j]),
        decreases av@.len() - i,
    {
        if lower_code(av[i]) != lower_code(bv[i]) {
            return false;
        }
        i = i + 1;
    }
    true
}

/// Which departments a listing is filtered to.
#[derive(Debug, Clone, Copy, PartialEq, Eq, Structural)]
pub enum ParentFilter {
    /// No filter.
    All,
    /// Top-level departments (`root`, in any ASCII case).
    Root,
    /// The children (or, with descendants, the subtree) of a department.
    Parent(u128),
    /// A value that is neither `root` nor an id.
    Invalid,
}

pub open spec fn parent_filter_of(parent: Option<Seq<char>>) -> ParentFilter {
    match parent {
        None => ParentFilter::All,
        Some(p) => if eq_ignore_ascii_case(p, "root"@) {
            ParentFilter::Root
        } else {
            match uuid_parse(p) {
                Some(id) => ParentFilter::Parent(id),
                None => ParentFilter::Invalid,
            }
        },
    }
}

/// Reads the `parent_id` of a department listing (see `parent_filter_of`).
pub fn parse_parent_filter(parent: Option<&str>) -> (r: ParentFilter)
    ensures
        r == parent_filter_of(parent.deep_view()),
{
    match parent {
        None => ParentFilter::All,
        Some(p) => {
            proof {
                reveal_strlit("root");
            }
            if eq_ignore_ascii_case_exec(p, "root") {
                ParentFilter::Root
            } else {
                match parse_uuid(p) {
                    Some(id) => ParentFilter::Parent(id),
                    None => ParentFilter::Invalid,
                }
            }
        },
    }
}

/// The department a listing's permission is checked against: the parent
/// it is filtered to, if any.
pub fn permission_scope(filter: ParentFilter) -> (r: Option<u128>)
    ensures
        r == match filter {
            ParentFilter::Parent(id) => Some(id),
            _ => None,
        },
{
    match filter {
        ParentFilter::Parent(id) => Some(id),
        _ => None,
    }
}

} // verus!
