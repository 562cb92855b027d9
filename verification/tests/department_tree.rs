use grengin_api::department_tree::tree_depth_limit;
use grengin_api::department_tree::{build_department_tree, TreeNode, TreeRow};
use grengin_api::departments::{
    new_department_depth, parse_parent_filter, permission_scope, plan_department_move,
    plan_department_placement, DepartmentError, ParentFilter,
};

fn row(id: u128, parent: Option<u128>, members: i32) -> TreeRow {
    TreeRow { id, parent_id: parent, member_count: members }
}

fn ids(nodes: &[TreeNode]) -> Vec<u128> {
    nodes.iter().map(|n| n.id).collect()
}

#[test]
fn tree_nests_children_and_adds_up_members() {
    let rows = vec![row(1, None, 2), row(2, Some(1), 3), row(3, Some(1), 1), row(4, Some(2), 5), row(5, None, 0)];
    let tree = build_department_tree(&rows, None);
    assert_eq!(ids(&tree), vec![1, 5]);
    let top = &tree[0];
    assert_eq!(top.member_count, 2);
    assert_eq!(top.total_member_count, 11);
    assert_eq!(top.child_count, 2);
    assert_eq!(ids(&top.children), vec![2, 3]);
    assert_eq!(top.children[0].total_member_count, 8);
    assert_eq!(top.children[0].children[0].id, 4);
    assert_eq!(top.children[0].children[0].row, 3);
    assert_eq!(tree[1].total_member_count, 0);
    assert_eq!(tree[1].child_count, 0);
}

#[test]
fn tree_from_a_root_and_orphans_as_tops() {
    let rows = vec![row(10, Some(99), 1), row(11, Some(10), 2), row(12, None, 4)];
    // The parent 99 is not among the rows: 10 is a top department.
    let tree = build_department_tree(&rows, None);
    assert_eq!(ids(&tree), vec![10, 12]);
    assert_eq!(tree[0].total_member_count, 3);
    let sub = build_department_tree(&rows, Some(11));
    assert_eq!(ids(&sub), vec![11]);
    assert_eq!(sub[0].total_member_count, 2);
    assert!(build_department_tree(&rows, Some(7)).is_empty());
}

#[test]
fn tree_survives_cycles_and_repeated_rows() {
    // 1 and 2 are each other's parent: neither is a top department.
    let rows = vec![row(1, Some(2), 1), row(2, Some(1), 1), row(3, None, 1)];
    let tree = build_department_tree(&rows, None);
    assert_eq!(ids(&tree), vec![3]);
    // From inside the cycle each department is attached once.
    let tree = build_department_tree(&rows, Some(1));
    assert_eq!(tree.len(), 1);
    assert_eq!(ids(&tree[0].children), vec![2]);
    assert!(tree[0].children[0].children.is_empty());
    assert_eq!(tree[0].total_member_count, 2);
    // A later row for the same id replaces the earlier one.
    let rows = vec![row(1, None, 1), row(1, None, 6)];
    let tree = build_department_tree(&rows, None);
    assert_eq!(tree.len(), 1);
    assert_eq!(tree[0].member_count, 6);
    assert_eq!(tree[0].row, 1);
}

#[test]
fn new_department_depth_limit() {
    assert_eq!(new_department_depth(None), Ok(0));
    assert_eq!(new_department_depth(Some(3)), Ok(4));
    assert_eq!(new_department_depth(Some(8)), Ok(9));
    assert_eq!(new_department_depth(Some(9)), Err(DepartmentError::ServiceTemporarilyUnavailable));
}

#[test]
fn moving_a_department() {
    let plan = plan_department_move(5, "a.b", 1, 2, 7, "c", 0, "b").expect("a move");
    assert_eq!(plan.new_path, "c.b");
    assert_eq!(plan.new_depth, 1);
    assert_eq!(plan.depth_delta, 0);
    // Under itself or a descendant.
    assert!(matches!(plan_department_move(5, "a.b", 1, 2, 5, "x", 0, "b"), Err(DepartmentError::DbConflict)));
    assert!(matches!(plan_department_move(5, "a.b", 1, 2, 8, "a.b.c", 2, "b"), Err(DepartmentError::DbConflict)));
    // Too deep is checked first.
    assert!(matches!(
        plan_department_move(5, "a.b", 1, 5, 8, "a.b.c", 5, "b"),
        Err(DepartmentError::ServiceTemporarilyUnavailable)
    ));
    let plan = plan_department_move(5, "a.b", 1, 1, 8, "x.y.z", 7, "b").expect("fits exactly");
    assert_eq!(plan.new_depth, 8);
    assert_eq!(plan.depth_delta, 7);
}

#[test]
fn editing_a_department_place() {
    assert_eq!(plan_department_placement(false, None, "l", "p.l", 1, 9), Ok(("p.l".to_string(), 1)));
    assert_eq!(plan_department_placement(true, Some(("q", 2)), "l", "p.l", 1, 3), Ok(("q.l".to_string(), 3)));
    assert_eq!(plan_department_placement(true, None, "l", "p.l", 1, 3), Ok(("l".to_string(), 0)));
    assert_eq!(
        plan_department_placement(true, Some(("q", 8)), "l", "p.l", 1, 3),
        Err(DepartmentError::ServiceTemporarilyUnavailable)
    );
}

#[test]
fn listing_parent_filter() {
    assert_eq!(parse_parent_filter(None), ParentFilter::All);
    assert_eq!(parse_parent_filter(Some("ROOT")), ParentFilter::Root);
    assert_eq!(parse_parent_filter(Some("Root")), ParentFilter::Root);
    let id = uuid::Uuid::new_v4();
    let text = id.to_string();
    assert_eq!(parse_parent_filter(Some(text.as_str())), ParentFilter::Parent(id.as_u128()));
    assert_eq!(parse_parent_filter(Some("roots")), ParentFilter::Invalid);
    assert_eq!(permission_scope(ParentFilter::Parent(5)), Some(5));
    assert_eq!(permission_scope(ParentFilter::Root), None);
    assert_eq!(permission_scope(ParentFilter::Invalid), None);
}

#[test]
fn tree_depth_limit_defaults_to_ten_levels() {
    assert_eq!(tree_depth_limit(None, None), 10);
    assert_eq!(tree_depth_limit(Some(3), None), 3);
    assert_eq!(tree_depth_limit(Some(-4), None), 0);
    assert_eq!(tree_depth_limit(None, Some(2)), 12);
    assert_eq!(tree_depth_limit(Some(1), Some(5)), 6);
}
