use grengin_api::department_list::{department_sort_order, DepartmentSortRow, DepartmentSortRule};

fn row(name: &str, created: i128, updated: i128, members: i32, children: i32) -> DepartmentSortRow {
    DepartmentSortRow {
        name: name.to_string(),
        created_at: created,
        updated_at: updated,
        member_count: members,
        child_count: children,
    }
}

fn sample() -> Vec<DepartmentSortRow> {
    vec![
        row("Sales", 30, 5, 4, 0),
        row("Engineering", 10, 7, 9, 2),
        row("Admin", 20, 6, 4, 1),
    ]
}

#[test]
fn listing_defaults_to_names_descending() {
    assert_eq!(department_sort_order(&sample(), None, None), vec![0, 1, 2]);
}

#[test]
fn listing_by_name_ascending() {
    let order = department_sort_order(&sample(), Some(DepartmentSortRule::Name), Some(true));
    assert_eq!(order, vec![2, 1, 0]);
}

#[test]
fn listing_by_creation_and_update_time() {
    assert_eq!(department_sort_order(&sample(), Some(DepartmentSortRule::CreatedAt), Some(true)), vec![1, 2, 0]);
    assert_eq!(department_sort_order(&sample(), Some(DepartmentSortRule::UpdatedAt), Some(false)), vec![1, 2, 0]);
}

#[test]
fn listing_keeps_equal_member_counts_in_order() {
    assert_eq!(department_sort_order(&sample(), Some(DepartmentSortRule::Members), Some(true)), vec![0, 2, 1]);
    assert_eq!(department_sort_order(&sample(), Some(DepartmentSortRule::Members), None), vec![1, 0, 2]);
}

#[test]
fn listing_by_sub_departments() {
    assert_eq!(department_sort_order(&sample(), Some(DepartmentSortRule::SubDepartments), Some(false)), vec![1, 2, 0]);
}

#[test]
fn listing_of_nothing_is_empty() {
    assert!(department_sort_order(&Vec::new(), None, Some(true)).is_empty());
}

#[test]
fn name_order_is_by_character_not_case_blind() {
    let rows = vec![row("beta", 0, 0, 0, 0), row("Zulu", 0, 0, 0, 0), row("alpha", 0, 0, 0, 0)];
    assert_eq!(department_sort_order(&rows, None, Some(true)), vec![1, 2, 0]);
}
