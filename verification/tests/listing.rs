use grengin_api::files::file_download_url;
use grengin_api::listing::{
    execution_page_window, file_sort_column, has_super_admin_role, member_order_ascending, page_window,
    user_sort_column, user_subject, FileSortColumn, PageWindow, SortRule, UserSortColumn,
};

#[test]
fn page_window_defaults_to_twenty_rows_from_the_start() {
    assert_eq!(page_window(None, None), PageWindow { limit: 20, offset: 0, page: 0 });
}

#[test]
fn page_window_counts_whole_pages_before_the_offset() {
    assert_eq!(page_window(Some(10), Some(25)), PageWindow { limit: 10, offset: 25, page: 2 });
    assert_eq!(page_window(None, Some(40)), PageWindow { limit: 20, offset: 40, page: 2 });
}

#[test]
fn execution_window_defaults_to_fifty_and_caps_at_a_hundred() {
    assert_eq!(execution_page_window(None, None), PageWindow { limit: 50, offset: 0, page: 0 });
    assert_eq!(execution_page_window(Some(500), Some(250)), PageWindow { limit: 100, offset: 250, page: 2 });
    assert_eq!(execution_page_window(Some(7), Some(14)), PageWindow { limit: 7, offset: 14, page: 2 });
}

#[test]
fn sort_rules_map_to_columns() {
    assert_eq!(user_sort_column(SortRule::Email), UserSortColumn::Email);
    assert_eq!(user_sort_column(SortRule::LastLoginAt), UserSortColumn::LastLoginAt);
    assert_eq!(user_sort_column(SortRule::Size), UserSortColumn::CreatedAt);
    assert_eq!(file_sort_column(SortRule::Size), FileSortColumn::Size);
    assert_eq!(file_sort_column(SortRule::Name), FileSortColumn::Name);
    assert_eq!(file_sort_column(SortRule::Email), FileSortColumn::CreatedAt);
}

#[test]
fn member_order_is_ascending_only_for_asc() {
    assert!(member_order_ascending(Some("asc")));
    assert!(member_order_ascending(Some("ASC")));
    assert!(!member_order_ascending(Some("desc")));
    assert!(!member_order_ascending(Some("ascending")));
    assert!(!member_order_ascending(None));
}

#[test]
fn super_admin_is_found_among_roles() {
    let roles = vec!["Viewer".to_string(), "Super Admin".to_string()];
    assert!(has_super_admin_role(&roles));
    assert!(!has_super_admin_role(&vec!["super admin".to_string()]));
    assert!(!has_super_admin_role(&Vec::new()));
}

#[test]
fn subject_prefers_the_first_provider_id() {
    let email = "a@b.c".to_string();
    assert_eq!(user_subject(Some("g1".into()), Some("az".into()), email.clone()), "g1");
    assert_eq!(user_subject(None, Some("az".into()), email.clone()), "az");
    assert_eq!(user_subject(None, None, email), "a@b.c");
}

#[test]
fn download_url_holds_the_hyphenated_id() {
    assert_eq!(
        file_download_url(0x0123456789abcdef0123456789abcdef),
        "/files/01234567-89ab-cdef-0123-456789abcdef/download"
    );
}

#[test]
fn audit_export_stops_at_the_total_the_cap_or_an_empty_page() {
    assert!(grengin_api::listing::export_reads_another_page(100, 100, 250, 10000));
    assert!(!grengin_api::listing::export_reads_another_page(0, 100, 250, 10000));
    assert!(!grengin_api::listing::export_reads_another_page(150, 250, 250, 10000));
    assert!(!grengin_api::listing::export_reads_another_page(100, 200, 250, 200));
}
