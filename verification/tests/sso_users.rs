use grengin_api::users::{check_status_change, UserStatus, UserStatusError};
use grengin_api::users::{is_duplicate_key, is_email_conflict};
use grengin_api::sso::normalize_allowed_domains;
use grengin_api::users::{edited_user_domain, new_user_domain, plan_department_change, DepartmentChange};

fn strings(v: &[&str]) -> Vec<String> {
    v.iter().map(|s| s.to_string()).collect()
}

#[test]
fn allowed_domains_are_canonical_sorted_and_unique() {
    let d = normalize_allowed_domains(&strings(&[" @Example.COM ", "b.org", "@@b.org", "", "  @ ", "a.io", "example.com"]));
    assert_eq!(d, strings(&["a.io", "b.org", "example.com"]));
    // Non-ASCII letters keep their case; ordering is by code point.
    let d = normalize_allowed_domains(&strings(&["Éx.fr", "z.de", "Zz.de"]));
    assert_eq!(d, strings(&["z.de", "zz.de", "Éx.fr"]));
    assert!(normalize_allowed_domains(&Vec::new()).is_empty());
}

#[test]
fn user_email_domains() {
    assert_eq!(new_user_domain("  ann@corp.com ").as_deref(), Some("corp.com"));
    assert_eq!(new_user_domain("a@b@c").as_deref(), Some("b@c"));
    assert_eq!(new_user_domain("nobody"), None);
    assert_eq!(new_user_domain("tail@").as_deref(), Some(""));
    assert_eq!(edited_user_domain(" ann@corp.com").as_deref(), Some("corp.com"));
    assert_eq!(edited_user_domain("a@b@c").as_deref(), Some("b"));
    assert_eq!(edited_user_domain("nobody"), None);
}

#[test]
fn user_department_changes() {
    assert_eq!(
        plan_department_change(Some(true), Some(4), Some(3)),
        DepartmentChange { new_department: Some(None), changed: true, required_scope: None }
    );
    assert_eq!(
        plan_department_change(Some(true), None, None),
        DepartmentChange { new_department: Some(None), changed: false, required_scope: None }
    );
    assert_eq!(
        plan_department_change(Some(false), Some(4), Some(4)),
        DepartmentChange { new_department: Some(Some(4)), changed: false, required_scope: Some(4) }
    );
    assert_eq!(
        plan_department_change(None, Some(4), None),
        DepartmentChange { new_department: Some(Some(4)), changed: true, required_scope: Some(4) }
    );
    assert_eq!(
        plan_department_change(None, None, Some(1)),
        DepartmentChange { new_department: None, changed: false, required_scope: None }
    );
}

#[test]
fn super_admin_cannot_take_own_account_out_of_service() {
    assert_eq!(check_status_change(true, true, UserStatus::Suspended), Err(UserStatusError::SuperAdminSelfStatusConflict));
    assert_eq!(check_status_change(true, true, UserStatus::Deleted), Err(UserStatusError::SuperAdminSelfStatusConflict));
    assert_eq!(check_status_change(true, true, UserStatus::Active), Ok(()));
    assert_eq!(check_status_change(true, false, UserStatus::Deactivated), Ok(()));
    assert_eq!(check_status_change(false, true, UserStatus::Suspended), Ok(()));
    assert_eq!(check_status_change(false, false, UserStatus::Deleted), Err(UserStatusError::InvalidUserStatus));
}

#[test]
fn database_conflicts_are_recognised_by_their_text() {
    let dup = "error returned from database: duplicate key value violates unique constraint \"users_email_key\"";
    assert!(is_duplicate_key(dup));
    assert!(is_email_conflict(dup));
    assert!(is_email_conflict("SqlState(23505)"));
    assert!(!is_duplicate_key("SqlState(23505)"));
    assert!(!is_email_conflict("connection reset"));
}
