use grengin_api::json::Json;
use grengin_api::tool_sync::{plan_tool_sync, sync_needs_oauth, ExistingTool, ToolSyncStep};

fn stored(name: &str, enabled: bool) -> ExistingTool {
    ExistingTool { original_name: name.to_string(), enabled }
}

fn names(list: &[&str]) -> Vec<String> {
    list.iter().map(|s| s.to_string()).collect()
}

#[test]
fn listed_tools_refresh_stored_ones_and_new_ones_are_added() {
    let existing = vec![stored("search", true), stored("fetch", true), stored("old", true)];
    let plan = plan_tool_sync(&names(&["fetch", "write", "search"]), &existing);
    assert_eq!(plan.steps, vec![ToolSyncStep::Update(1), ToolSyncStep::Insert, ToolSyncStep::Update(0)]);
    assert_eq!(plan.disable, vec![2]);
    assert_eq!(plan.removed, 1);
}

#[test]
fn switched_off_tools_are_not_counted_as_removed_again() {
    let existing = vec![stored("a", false), stored("b", true), stored("c", false)];
    let plan = plan_tool_sync(&Vec::new(), &existing);
    assert!(plan.steps.is_empty());
    assert_eq!(plan.disable, vec![0, 1, 2]);
    assert_eq!(plan.removed, 1);
}

#[test]
fn a_name_listed_twice_is_stored_anew_the_second_time() {
    let existing = vec![stored("x", true)];
    let plan = plan_tool_sync(&names(&["x", "x"]), &existing);
    assert_eq!(plan.steps, vec![ToolSyncStep::Update(0), ToolSyncStep::Insert]);
    assert!(plan.disable.is_empty());
    assert_eq!(plan.removed, 0);
}

#[test]
fn the_last_stored_tool_of_a_name_is_the_one_found() {
    let existing = vec![stored("dup", true), stored("dup", true), stored("gone", false)];
    let plan = plan_tool_sync(&names(&["dup"]), &existing);
    assert_eq!(plan.steps, vec![ToolSyncStep::Update(1)]);
    assert_eq!(plan.disable, vec![2]);
    assert_eq!(plan.removed, 0);
}

#[test]
fn oauth_is_needed_only_over_http_with_oauth_settings() {
    let with_oauth = Json::Object(vec![("oauth".to_string(), Json::Object(Vec::new()))]);
    let without = Json::Object(vec![("url".to_string(), Json::Str("https://x".to_string()))]);
    assert!(sync_needs_oauth(true, &with_oauth));
    assert!(!sync_needs_oauth(false, &with_oauth));
    assert!(!sync_needs_oauth(true, &without));
}
