use grengin_api::departments::{plan_department_edit, ModelsCheck};
use grengin_api::departments::department_admin_plan;
use uuid::Uuid;

#[test]
fn non_super_admin_creator_is_assigned_and_removed_from_explicit_list() {
    let creator = Uuid::new_v4();
    let selected = Uuid::new_v4();
    let ids = [creator.as_u128(), selected.as_u128(), selected.as_u128()];
    let (requested, assign_creator) = department_admin_plan(Some(&ids), creator.as_u128(), false);

    assert_eq!(requested, vec![selected.as_u128()]);
    assert!(assign_creator);
}

#[test]
fn super_admin_creator_is_not_assigned_to_the_department() {
    let creator = Uuid::new_v4();
    let selected = Uuid::new_v4();
    let ids = [creator.as_u128(), selected.as_u128()];
    let (requested, assign_creator) = department_admin_plan(Some(&ids), creator.as_u128(), true);

    assert_eq!(requested, vec![selected.as_u128()]);
    assert!(!assign_creator);
}

#[test]
fn admin_plan_sorts_and_dedups() {
    let (requested, assign_creator) = department_admin_plan(Some(&[9, 3, 7, 3, 1, 9]), 7, false);
    assert_eq!(requested, vec![1, 3, 9]);
    assert!(assign_creator);
    let (none, _) = department_admin_plan(None, 7, true);
    assert!(none.is_empty());
}

#[test]
fn department_edit_keeps_what_the_request_leaves_out() {
    let e = plan_department_edit("Ops".to_string(), Some(1), Some(30), None, None, None, false, false);
    assert_eq!(e.name, "Ops");
    assert_eq!(e.parent_id, Some(1));
    assert!(!e.parent_changed);
    assert_eq!(e.retention_days, Some(30));
    assert!(!e.check_parent_budget);
    assert_eq!(e.models_check, ModelsCheck::NoCheck);
    let e = plan_department_edit("Ops".to_string(), Some(1), None, Some("Eng".to_string()), Some(2), Some(7), false, false);
    assert_eq!(e.name, "Eng");
    assert_eq!(e.parent_id, Some(2));
    assert!(e.parent_changed);
    assert_eq!(e.retention_days, Some(7));
    assert!(e.check_parent_budget);
    assert_eq!(e.models_check, ModelsCheck::Current);
    let e = plan_department_edit("Ops".to_string(), None, None, None, None, None, true, true);
    assert!(!e.check_parent_budget);
    assert_eq!(e.models_check, ModelsCheck::Requested);
    let e = plan_department_edit("Ops".to_string(), Some(1), None, None, Some(1), None, false, false);
    assert!(!e.parent_changed);
    assert!(e.check_parent_budget);
}
