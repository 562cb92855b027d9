//! User administration: the domain read from a user's e-mail, and what a
//! change of department means.
use vstd::prelude::*;

use crate::text::{char_vec, contains_seq, str_contains, trim, trim_seq};

verus! {

/// The position of the first `c` in `s` at or after `from`.
pub open spec fn index_from(s: Seq<char>, c: char, from: int) -> Option<int>
    decreases s.len() - from,
{
    if from >= s.len() || from < 0 {
        None
    } else if s[from] == c {
        Some(from)
    } else {
        index_from(s, c, from + 1)
    }
}

fn find_from(v: &Vec<char>, c: char, from: usize) -> (r: Option<usize>)
    requires
        from <= v@.len(),
    ensures
        match r {
            Some(i) => index_from(v@, c, from as int) == Some(i as int) && from <= i < v@.len(),
            None => index_from(v@, c, from as int) is None,
        },
{
    let mut i = from;
    while i < v.len()
        invariant
            from <= i <= v@.len(),
            index_from(v@, c, from as int) == index_from(v@, c, i as int),
        decreases v@.len() - i,
    {
        if v[i] == c {
            return Some(i);
        }
        i = i + 1;
    }
    None
}

/// The domain of a new user's e-mail: what follows the first `@` of the
/// trimmed address (`str::split_once`), if there is one.
pub open spec fn domain_after_first_at(email: Seq<char>) -> Option<Seq<char>> {
    let t = trim_seq(email);
    match index_from(t, '@', 0) {
        Some(i) => Some(t.subrange(i + 1, t.len() as int)),
        None => None,
    }
}

pub fn new_user_domain(email: &str) -> (r: Option<String>)
    ensures
        r.deep_view() == domain_after_first_at(email@),
{
    let t = trim(email);
    let v = char_vec(t.as_str());
    let n = v.len();
    match find_from(&v, '@', 0) {
        Some(i) => Some(t.as_str().substring_char(i + 1, n).to_owned()),
        None => None,
    }
}

/// The domain of an edited e-mail: the part between the first and the
/// second `@` of the trimmed address, or after the first when there is no
/// second (`str::split('@').nth(1)`).
pub open spec fn domain_second_part(email: Seq<char>) -> Option<Seq<char>> {
    let t = trim_seq(email);
    match index_from(t, '@', 0) {
        Some(i) => match index_from(t, '@', i + 1) {
            Some(j) => Some(t.subrange(i + 1, j)),
            None => Some(t.subrange(i + 1, t.len() as int)),
        },
        None => None,
    }
}

pub fn edited_user_domain(email: &str) -> (r: Option<String>)
    ensures
        r.deep_view() == domain_second_part(email@),
{
    let t = trim(email);
    let v = char_vec(t.as_str());
    let n = v.len();
    match find_from(&v, '@', 0) {
        Some(i) => match find_from(&v, '@', i + 1) {
            Some(j) => Some(t.as_str().substring_char(i + 1, j).to_owned()),
            None => Some(t.as_str().substring_char(i + 1, n).to_owned()),
        },
        None => None,
    }
}

/// What an edit does to a user's department.
#[derive(Debug, Clone, Copy, PartialEq, Eq, Structural)]
pub struct DepartmentChange {
    /// The new department (`Some(None)`: none), or `None` when it stays.
    pub new_department: Option<Option<u128>>,
    /// The user's department is a different one afterwards.
    pub changed: bool,
    /// The department the editor must be allowed to manage users in.
    pub required_scope: Option<u128>,
}

/// Unassigning wins over a requested department; unassigning changes the
/// department when there was one; moving to a department changes it when it
/// is a different one, and needs the right to manage users there.
pub open spec fn department_change_of(
    unassign: Option<bool>,
    requested: Option<u128>,
    original: Option<u128>,
) -> DepartmentChange {
    if unassign == Some(true) {
        DepartmentChange {
            new_department: Some(None),
            changed: original is Some,
            required_scope: None,
        }
    } else {
        match requested {
            Some(d) => DepartmentChange {
                new_department: Some(Some(d)),
                changed: Some(d) != original,
                required_scope: Some(d),
            },
            None => DepartmentChange { new_department: None, changed: false, required_scope: None },
        }
    }
}

pub fn plan_department_change(
    unassign: Option<bool>,
    requested: Option<u128>,
    original: Option<u128>,
) -> (r: DepartmentChange)
    ensures
        r == department_change_of(unassign, requested, original),
{
    let un = match unassign {
        Some(b) => b,
        None => false,
    };
    if un {
        DepartmentChange {
            new_department: Some(None),
            changed: original.is_some(),
            required_scope: None,
        }
    } else {
        match requested {
            Some(d) => DepartmentChange {
                new_department: Some(Some(d)),
                changed: Some(d) != original,
                required_scope: Some(d),
            },
            None => DepartmentChange { new_department: None, changed: false, required_scope: None },
        }
    }
}

/// The status of a user account.
#[derive(Debug, Clone, Copy, PartialEq, Eq, Structural)]
pub enum UserStatus {
    Active,
    Deactivated,
    Suspended,
    Deleted,
}

/// Why a status change is refused.
#[derive(Debug, Clone, Copy, PartialEq, Eq, Structural)]
pub enum UserStatusError {
    /// A super admin cannot deactivate, suspend or delete their own account.
    SuperAdminSelfStatusConflict,
    /// A status that cannot be set by a status change.
    InvalidUserStatus,
}

/// Checks a status change: a super admin cannot take their own account out
/// of service, and only active, deactivated and suspended can be set.
pub fn check_status_change(actor_is_super_admin: bool, actor_is_target: bool, status: UserStatus) -> (r: Result<
    (),
    UserStatusError,
>)
    ensures
        actor_is_super_admin && actor_is_target && status != UserStatus::Active ==> r == Err::<(), UserStatusError>(
            UserStatusError::SuperAdminSelfStatusConflict,
        ),
        !(actor_is_super_admin && actor_is_target && status != UserStatus::Active) ==> r == (if status
            == UserStatus::Deleted {
            Err(UserStatusError::InvalidUserStatus)
        } else {
            Ok::<(), UserStatusError>(())
        }),
{
    if actor_is_super_admin && actor_is_target {
        match status {
            UserStatus::Deactivated | UserStatus::Suspended | UserStatus::Deleted => {
                return Err(UserStatusError::SuperAdminSelfStatusConflict);
            },
            UserStatus::Active => {},
        }
    }
    match status {
        UserStatus::Active | UserStatus::Deactivated | UserStatus::Suspended => Ok(()),
        UserStatus::Deleted => Err(UserStatusError::InvalidUserStatus),
    }
}

/// The text a database error carries when a unique constraint is violated.
pub const DUPLICATE_KEY: &'static str = "duplicate key value violates unique constraint";

/// The database code of a unique-constraint violation.
pub const UNIQUE_VIOLATION_CODE: &'static str = "23505";

/// A database error is a duplicate key when its text says so.
pub fn is_duplicate_key(message: &str) -> (r: bool)
    ensures
        r == contains_seq(message@, DUPLICATE_KEY@),
{
    str_contains(message, DUPLICATE_KEY)
}

/// A user update conflicts with another account's e-mail when the database
/// error carries the unique-violation code or says it is a duplicate key.
pub fn is_email_conflict(message: &str) -> (r: bool)
    ensures
        r == (contains_seq(message@, UNIQUE_VIOLATION_CODE@) || contains_seq(message@, DUPLICATE_KEY@)),
{
    str_contains(message, UNIQUE_VIOLATION_CODE) || str_contains(message, DUPLICATE_KEY)
}

} // verus!
