//! Roles: the keys permissions are named by, how requested permission keys
//! are resolved against the permission catalogue, and how a role
//! assignment is scoped.
use vstd::prelude::*;

use crate::text::same_text;
use vstd::string::StringExecFns;

verus! {

/// The key a permission is requested by: its domain, a colon, its action.
pub open spec fn key_of(domain: Seq<char>, action: Seq<char>) -> Seq<char> {
    domain + ":"@ + action
}

pub fn permission_key(domain: &str, action: &str) -> (r: String)
    ensures
        r@ == key_of(domain@, action@),
{
    let mut k = domain.to_owned();
    k.append(":");
    k.append(action);
    k
}

/// A permission of the catalogue.
pub struct PermissionEntry {
    pub id: u128,
    pub domain: String,
    pub action: String,
}

pub open spec fn entry_key(e: PermissionEntry) -> Seq<char> {
    key_of(e.domain@, e.action@)
}

/// The permission a key names: the last catalogue entry with that key.
pub open spec fn catalogue_id(catalogue: Seq<PermissionEntry>, key: Seq<char>) -> Option<u128>
    decreases catalogue.len(),
{
    if catalogue.len() == 0 {
        None
    } else if entry_key(catalogue.last()) == key {
        Some(catalogue.last().id)
    } else {
        catalogue_id(catalogue.drop_last(), key)
    }
}

/// Why a role request is refused.
#[derive(Debug, Clone, Copy, PartialEq, Eq, Structural)]
pub enum RoleError {
    /// A requested permission key names no permission.
    ResourceNotFound,
    /// A department-admin role assigned without a department.
    DbConflict,
    /// A system role cannot be changed or deleted.
    PermissionDenied,
}

fn find_permission(catalogue: &Vec<PermissionEntry>, keys: &Vec<String>, key: &str) -> (r: Option<u128>)
    requires
        keys@.len() == catalogue@.len(),
        forall|i: int| 0 <= i < keys@.len() ==> #[trigger] keys@[i]@ == entry_key(catalogue@[i]),
    ensures
        r == catalogue_id(catalogue@, key@),
{
    let mut i: usize = catalogue.len();
    proof {
        assert(catalogue@.take(i as int) =~= catalogue@);
    }
    while i > 0
        invariant
            i <= catalogue@.len(),
            keys@.len() == catalogue@.len(),
            forall|t: int| 0 <= t < keys@.len() ==> #[trigger] keys@[t]@ == entry_key(catalogue@[t]),
            catalogue_id(catalogue@, key@) == catalogue_id(catalogue@.take(i as int), key@),
        decreases i,
    {
        let ghost before = catalogue@.take(i as int);
        proof {
            assert(before.drop_last() =~= catalogue@.take(i - 1));
            assert(before.last() == catalogue@[i - 1]);
        }
        if same_text(keys[i - 1].as_str(), key) {
            return Some(catalogue[i - 1].id);
        }
        i = i - 1;
    }
    proof {
        assert(catalogue@.take(0) =~= Seq::<PermissionEntry>::empty());
    }
    None
}

/// The permission ids of the requested keys, in request order; refused with
/// `ResourceNotFound` when some key names no permission.
pub fn resolve_permission_ids(catalogue: &Vec<PermissionEntry>, keys: &Vec<String>) -> (r: Result<
    Vec<u128>,
    RoleError,
>)
    ensures
        match r {
            Ok(ids) => ids@.len() == keys@.len() && forall|k: int|
                0 <= k < keys@.len() ==> catalogue_id(catalogue@, #[trigger] keys@[k]@) == Some(ids@[k]),
            Err(e) => e == RoleError::ResourceNotFound && exists|k: int|
                0 <= k < keys@.len() && catalogue_id(catalogue@, #[trigger] keys@[k]@) is None,
        },
{
    let mut entry_keys: Vec<String> = Vec::new();
    let mut c: usize = 0;
    while c < catalogue.len()
        invariant
            c <= catalogue@.len(),
            entry_keys@.len() == c,
            forall|t: int| 0 <= t < c ==> #[trigger] entry_keys@[t]@ == entry_key(catalogue@[t]),
        decreases catalogue@.len() - c,
    {
        entry_keys.push(permission_key(catalogue[c].domain.as_str(), catalogue[c].action.as_str()));
        c = c + 1;
    }
    let mut ids: Vec<u128> = Vec::new();
    let mut k: usize = 0;
    while k < keys.len()
        invariant
            k <= keys@.len(),
            ids@.len() == k,
            entry_keys@.len() == catalogue@.len(),
            forall|t: int| 0 <= t < entry_keys@.len() ==> #[trigger] entry_keys@[t]@ == entry_key(catalogue@[t]),
            forall|t: int| 0 <= t < k ==> catalogue_id(catalogue@, #[trigger] keys@[t]@) == Some(ids@[t]),
        decreases keys@.len() - k,
    {
        match find_permission(catalogue, &entry_keys, keys[k].as_str()) {
            Some(id) => ids.push(id),
            None => {
                return Err(RoleError::ResourceNotFound);
            },
        }
        k = k + 1;
    }
    Ok(ids)
}

/// A role's permission keys as the listing shows them: the keys of its rows,
/// in row order.
pub open spec fn keys_of_role(rows: Seq<(u128, String, String)>, role_id: u128) -> Seq<Seq<char>>
    decreases rows.len(),
{
    if rows.len() == 0 {
        Seq::empty()
    } else {
        let rest = keys_of_role(rows.drop_last(), role_id);
        let last = rows.last();
        if last.0 == role_id {
            rest.push(key_of(last.1@, last.2@))
        } else {
            rest
        }
    }
}

/// The permission keys of one role, from the (role, domain, action) rows of
/// all roles.
pub fn role_permission_keys(rows: &Vec<(u128, String, String)>, role_id: u128) -> (r: Vec<String>)
    ensures
        r@.len() == keys_of_role(rows@, role_id).len(),
        forall|i: int| 0 <= i < r@.len() ==> #[trigger] r@[i]@ == keys_of_role(rows@, role_id)[i],
{
    let mut out: Vec<String> = Vec::new();
    let mut i: usize = 0;
    while i < rows.len()
        invariant
            i <= rows@.len(),
            out@.len() == keys_of_role(rows@.take(i as int), role_id).len(),
            forall|t: int| 0 <= t < out@.len() ==> #[trigger] out@[t]@ == keys_of_role(rows@.take(i as int), role_id)[t],
        decreases rows@.len() - i,
    {
        proof {
            assert(rows@.take(i + 1).drop_last() =~= rows@.take(i as int));
            assert(rows@.take(i + 1).last() == rows@[i as int]);
        }
        let row = &rows[i];
        if row.0 == role_id {
            out.push(permission_key(row.1.as_str(), row.2.as_str()));
        }
        i = i + 1;
    }
    proof {
        assert(rows@.take(rows@.len() as int) =~= rows@);
    }
    out
}

/// A system role cannot be renamed, given other permissions, or deleted.
pub fn ensure_role_editable(is_system: bool) -> (r: Result<(), RoleError>)
    ensures
        r == (if is_system {
            Err(RoleError::PermissionDenied)
        } else {
            Ok::<(), RoleError>(())
        }),
{
    if is_system {
        Err(RoleError::PermissionDenied)
    } else {
        Ok(())
    }
}

/// The permission checks a role assignment needs: the department the
/// assignment is checked against, and whether the department-admin role
/// also needs the assigner to hold the right over the assignment's own
/// department.
#[derive(Debug, Clone, Copy, PartialEq, Eq, Structural)]
pub struct AssignmentChecks {
    pub target_scope: Option<u128>,
    pub check_scope_department: bool,
}

/// Scopes a role assignment: the department-admin role must name the
/// department it is for; the assignment is checked against that department,
/// else against the user's own.
pub fn plan_role_assignment(
    is_department_admin_role: bool,
    scope_department_id: Option<u128>,
    user_department_id: Option<u128>,
) -> (r: Result<AssignmentChecks, RoleError>)
    ensures
        is_department_admin_role && scope_department_id is None ==> r == Err::<AssignmentChecks, RoleError>(
            RoleError::DbConflict,
        ),
        !(is_department_admin_role && scope_department_id is None) ==> r == Ok::<AssignmentChecks, RoleError>(
            AssignmentChecks {
                target_scope: match scope_department_id {
                    Some(d) => Some(d),
                    None => user_department_id,
                },
                check_scope_department: is_department_admin_role,
            },
        ),
{
    if is_department_admin_role && scope_department_id.is_none() {
        return Err(RoleError::DbConflict);
    }
    let target_scope = match scope_department_id {
        Some(d) => Some(d),
        None => user_department_id,
    };
    Ok(AssignmentChecks { target_scope, check_scope_department: is_department_admin_role })
}


/// A permission key names the id of the last catalogue entry with that key,
/// and nothing when no entry has it.
pub proof fn law_key_names_last_entry(catalogue: Seq<PermissionEntry>, key: Seq<char>)
    ensures
        (forall|j: int| 0 <= j < catalogue.len() ==> entry_key(#[trigger] catalogue[j]) != key) ==> catalogue_id(
            catalogue,
            key,
        ) is None,
        forall|j: int|
            0 <= j < catalogue.len() && entry_key(#[trigger] catalogue[j]) == key && (forall|j2: int|
                j < j2 < catalogue.len() ==> entry_key(#[trigger] catalogue[j2]) != key) ==> catalogue_id(
                catalogue,
                key,
            ) == Some(catalogue[j].id),
    decreases catalogue.len(),
{
    if catalogue.len() > 0 {
        let init = catalogue.drop_last();
        law_key_names_last_entry(init, key);
        if forall|j: int| 0 <= j < catalogue.len() ==> entry_key(#[trigger] catalogue[j]) != key {
            assert(entry_key(catalogue[catalogue.len() - 1]) != key);
            assert forall|j: int| 0 <= j < init.len() implies entry_key(#[trigger] init[j]) != key by {
                assert(init[j] == catalogue[j]);
            }
        }
        assert forall|j: int|
            0 <= j < catalogue.len() && entry_key(#[trigger] catalogue[j]) == key && (forall|j2: int|
                j < j2 < catalogue.len() ==> entry_key(#[trigger] catalogue[j2]) != key) implies catalogue_id(
            catalogue,
            key,
        ) == Some(catalogue[j].id) by {
            if j < catalogue.len() - 1 {
                assert(entry_key(catalogue[catalogue.len() - 1]) != key);
                assert(init[j] == catalogue[j]);
                assert forall|j2: int| j < j2 < init.len() implies entry_key(#[trigger] init[j2]) != key by {
                    assert(init[j2] == catalogue[j2]);
                }
            }
        }
    }
}

} // verus!
