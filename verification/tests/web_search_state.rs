use grengin_api::llm::web_search::{
    update_web_search_action_state, update_web_search_results_state, WebSearchStates,
};
use grengin_api::llm::{parse_web_search_action, StreamWebSearchAction, StreamWebSearchResult};

fn result(title: &str) -> StreamWebSearchResult {
    StreamWebSearchResult {
        title: title.to_string(),
        url: format!("https://{}", title),
        source: None,
        page_age: None,
        snippet: None,
    }
}

fn action(query: Option<&str>, queries: Option<Vec<&str>>) -> StreamWebSearchAction {
    StreamWebSearchAction {
        query: query.map(|s| s.to_string()),
        queries: queries.map(|v| v.into_iter().map(|s| s.to_string()).collect()),
    }
}

#[test]
fn web_search_update_without_any_call_id_changes_nothing() {
    let mut state = WebSearchStates::new();
    let mut last: Option<String> = None;
    assert!(update_web_search_action_state(&mut state, &mut last, None, Some(action(Some("q"), None))).is_none());
    assert!(update_web_search_results_state(&mut state, &mut last, None, vec![result("a")]).is_none());
    assert!(last.is_none());
    assert!(state.get("anything").is_none());
}

#[test]
fn web_search_results_accumulate_and_follow_the_last_call() {
    let mut state = WebSearchStates::new();
    let mut last: Option<String> = None;
    let (id, st) = update_web_search_action_state(
        &mut state,
        &mut last,
        Some("ws_1".to_string()),
        Some(action(Some("rust"), None)),
    )
    .expect("an update");
    assert_eq!(id, "ws_1");
    assert_eq!(st.query.as_deref(), Some("rust"));
    assert!(st.results.is_empty());
    assert_eq!(last.as_deref(), Some("ws_1"));

    // Results without an id go to the last call.
    let (id, st) =
        update_web_search_results_state(&mut state, &mut last, None, vec![result("a")]).expect("an update");
    assert_eq!(id, "ws_1");
    assert_eq!(st.results.len(), 1);
    let (_, st) = update_web_search_results_state(&mut state, &mut last, Some("ws_1".to_string()), vec![result("b"), result("c")])
        .expect("an update");
    assert_eq!(st.results.len(), 3);
    assert_eq!(st.results[0].title, "a");
    assert_eq!(st.results[2].title, "c");
    assert_eq!(st.query.as_deref(), Some("rust"));
    assert_eq!(state.get("ws_1").expect("recorded").results.len(), 3);
}

#[test]
fn web_search_action_replaces_only_what_it_gives() {
    let mut state = WebSearchStates::new();
    let mut last: Option<String> = None;
    let id = Some("w".to_string());
    let _ = update_web_search_results_state(&mut state, &mut last, id.clone(), vec![result("r")]);
    let _ = update_web_search_action_state(&mut state, &mut last, id.clone(), Some(action(Some("one"), Some(vec!["one", "two"]))));
    let (_, st) = update_web_search_action_state(&mut state, &mut last, id.clone(), Some(action(Some("three"), None))).unwrap();
    assert_eq!(st.query.as_deref(), Some("three"));
    assert_eq!(st.queries, Some(vec!["one".to_string(), "two".to_string()]));
    assert_eq!(st.results.len(), 1);
    // No action: the record is reported unchanged.
    let (_, st2) = update_web_search_action_state(&mut state, &mut last, id, None).unwrap();
    assert_eq!(st2.query.as_deref(), Some("three"));
    assert_eq!(st2.results.len(), 1);
}

#[test]
fn web_search_action_and_results_commute_on_values() {
    let run = |action_first: bool| {
        let mut state = WebSearchStates::new();
        let mut last: Option<String> = None;
        let id = Some("x".to_string());
        if action_first {
            let _ = update_web_search_action_state(&mut state, &mut last, id.clone(), Some(action(Some("q"), None)));
            update_web_search_results_state(&mut state, &mut last, id, vec![result("r")]).unwrap().1
        } else {
            let _ = update_web_search_results_state(&mut state, &mut last, id.clone(), vec![result("r")]);
            update_web_search_action_state(&mut state, &mut last, id, Some(action(Some("q"), None))).unwrap().1
        }
    };
    let a = run(true);
    let b = run(false);
    assert_eq!(a.query, b.query);
    assert_eq!(a.queries, b.queries);
    assert_eq!(a.results.len(), b.results.len());
    assert_eq!(a.results[0].title, b.results[0].title);
}

#[test]
fn web_search_action_reading() {
    let v = grengin_api::json::parse_json(r#"{"query":"a"}"#).unwrap();
    let a = parse_web_search_action(&v).expect("an action");
    assert_eq!(a.query.as_deref(), Some("a"));
    assert_eq!(a.queries, Some(vec!["a".to_string()]));

    let v = grengin_api::json::parse_json(r#"{"queries":["b",1,"c"]}"#).unwrap();
    let a = parse_web_search_action(&v).expect("an action");
    assert_eq!(a.query, None);
    assert_eq!(a.queries, Some(vec!["b".to_string(), "c".to_string()]));

    let v = grengin_api::json::parse_json(r#"{"other":1}"#).unwrap();
    assert!(parse_web_search_action(&v).is_none());
}
