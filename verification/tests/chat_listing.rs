use grengin_api::chats::{order_by_ids, plan_chat_list, semantic_page_usable, ChatListMode};

#[test]
fn chat_list_defaults_and_caps() {
    let p = plan_chat_list(None, None, None, None, None);
    assert_eq!(p.limit, 20);
    assert_eq!(p.offset, 0);
    assert_eq!(p.mode, ChatListMode::Recent);
    assert!(!p.archived);
    assert!(!p.semantic_results);
    let p = plan_chat_list(Some(500), Some(40), Some("  ".to_string()), Some(true), Some(true));
    assert_eq!(p.limit, 100);
    assert_eq!(p.offset, 40);
    assert_eq!(p.search, None);
    assert_eq!(p.mode, ChatListMode::Recent);
    assert!(!p.semantic_results);
    assert!(p.archived);
}

#[test]
fn chat_list_search_modes() {
    let p = plan_chat_list(Some(5), None, Some("  budget report ".to_string()), None, None);
    assert_eq!(p.search.as_deref(), Some("budget report"));
    assert_eq!(p.mode, ChatListMode::Lexical);
    assert_eq!(p.limit, 5);
    let p = plan_chat_list(None, None, Some("x".to_string()), Some(true), None);
    assert_eq!(p.mode, ChatListMode::Semantic);
    assert!(p.semantic_results);
    assert!(semantic_page_usable(Some(3)));
    assert!(!semantic_page_usable(Some(0)));
    assert!(!semantic_page_usable(None));
}

#[test]
fn search_hits_keep_the_search_order() {
    let rows: Vec<(u128, String)> = vec![(1, "a"), (2, "b"), (3, "c"), (2, "b2")]
        .into_iter()
        .map(|(i, s)| (i, s.to_string()))
        .collect();
    assert_eq!(order_by_ids(&vec![3, 9, 2, 1, 2], rows), vec!["c", "b2", "a"]);
    let empty: Vec<(u128, String)> = Vec::new();
    assert!(order_by_ids(&vec![1], empty).is_empty());
}
