use grengin_api::roles::{
    ensure_role_editable, permission_key, plan_role_assignment, resolve_permission_ids, role_permission_keys,
    AssignmentChecks, PermissionEntry, RoleError,
};

fn entry(id: u128, domain: &str, action: &str) -> PermissionEntry {
    PermissionEntry { id, domain: domain.to_string(), action: action.to_string() }
}

fn keys(list: &[&str]) -> Vec<String> {
    list.iter().map(|s| s.to_string()).collect()
}

#[test]
fn permission_key_joins_domain_and_action() {
    assert_eq!(permission_key("users", "view"), "users:view");
}

#[test]
fn requested_keys_resolve_in_request_order() {
    let catalogue = vec![entry(1, "users", "view"), entry(2, "users", "manage"), entry(3, "roles", "view")];
    assert_eq!(resolve_permission_ids(&catalogue, &keys(&["roles:view", "users:view"])), Ok(vec![3, 1]));
    assert_eq!(resolve_permission_ids(&catalogue, &Vec::new()), Ok(vec![]));
}

#[test]
fn an_unknown_key_is_refused() {
    let catalogue = vec![entry(1, "users", "view")];
    assert_eq!(
        resolve_permission_ids(&catalogue, &keys(&["users:view", "users:delete"])),
        Err(RoleError::ResourceNotFound)
    );
}

#[test]
fn the_last_catalogue_entry_of_a_key_wins() {
    let catalogue = vec![entry(1, "a", "b"), entry(2, "a", "b")];
    assert_eq!(resolve_permission_ids(&catalogue, &keys(&["a:b"])), Ok(vec![2]));
}

#[test]
fn role_keys_are_picked_from_all_rows() {
    let rows = vec![
        (7, "users".to_string(), "view".to_string()),
        (8, "roles".to_string(), "view".to_string()),
        (7, "chats".to_string(), "manage".to_string()),
    ];
    assert_eq!(role_permission_keys(&rows, 7), vec!["users:view".to_string(), "chats:manage".to_string()]);
    assert!(role_permission_keys(&rows, 9).is_empty());
}

#[test]
fn system_roles_are_not_editable() {
    assert_eq!(ensure_role_editable(true), Err(RoleError::PermissionDenied));
    assert_eq!(ensure_role_editable(false), Ok(()));
}

#[test]
fn department_admin_role_needs_a_department() {
    assert_eq!(plan_role_assignment(true, None, Some(4)), Err(RoleError::DbConflict));
    assert_eq!(
        plan_role_assignment(true, Some(5), Some(4)),
        Ok(AssignmentChecks { target_scope: Some(5), check_scope_department: true })
    );
    assert_eq!(
        plan_role_assignment(false, None, Some(4)),
        Ok(AssignmentChecks { target_scope: Some(4), check_scope_department: false })
    );
}
