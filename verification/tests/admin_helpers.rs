use grengin_api::mcp_access::{check_authorizable, is_server_name_conflict, secret_to_keep, ConnectError};
use grengin_api::files::{file_contents_as_base64, get_local_file_path, LOCAL_FOLDER};
use grengin_api::mcp_access::{
    build_oauth_callback_response, inherits_departments, rule_belongs_to_server, rule_permission,
    rule_targets, McpAccessType, OAuthCallbackResponse, RuleError, RulePermission, RuleTargets,
};
use grengin_api::reconfigure::{
    binaries_script_args, binaries_update_flags, build_script_availability, nothing_to_update,
};

const ID: u128 = 0x67e5504410b1426f9247bb680e5fe0c8;

#[test]
fn local_file_path_uses_hyphenated_user_id() {
    assert_eq!(
        get_local_file_path(ID, "f-1"),
        "./files/67e55044-10b1-426f-9247-bb680e5fe0c8/f-1"
    );
    assert_eq!(LOCAL_FOLDER, "./files");
    assert_eq!(get_local_file_path(0, "x"), "./files/00000000-0000-0000-0000-000000000000/x");
}

#[test]
fn file_contents_are_base64_encoded() {
    assert_eq!(file_contents_as_base64(Some(b"hi".to_vec())).as_deref(), Some("aGk="));
    assert_eq!(file_contents_as_base64(Some(b"hello!".to_vec())).as_deref(), Some("aGVsbG8h"));
    assert_eq!(file_contents_as_base64(Some(Vec::new())).as_deref(), Some(""));
    assert_eq!(file_contents_as_base64(None), None);
}

#[test]
fn access_rule_targets() {
    assert_eq!(
        rule_targets(McpAccessType::User, Some(5), Some(9), Some(false)),
        Ok(RuleTargets { user_id: Some(5), department_id: None, inherit_departments: true })
    );
    assert_eq!(rule_targets(McpAccessType::User, None, Some(9), None), Err(RuleError::ResourceNotFound));
    assert_eq!(
        rule_targets(McpAccessType::Department, None, Some(9), Some(false)),
        Ok(RuleTargets { user_id: None, department_id: Some(9), inherit_departments: false })
    );
    assert_eq!(
        rule_targets(McpAccessType::Department, None, Some(9), None).map(|t| t.inherit_departments),
        Ok(true)
    );
    assert_eq!(rule_targets(McpAccessType::Department, Some(1), None, None), Err(RuleError::ResourceNotFound));
    assert_eq!(
        rule_targets(McpAccessType::Role, Some(1), Some(2), Some(false)),
        Ok(RuleTargets { user_id: None, department_id: None, inherit_departments: true })
    );
    assert_eq!(rule_permission(McpAccessType::Role), RulePermission::Administer);
    assert_eq!(rule_permission(McpAccessType::User), RulePermission::Delegate);
    assert!(!inherits_departments(McpAccessType::Department, Some(false)));
    assert!(inherits_departments(McpAccessType::User, Some(false)));
    assert!(rule_belongs_to_server(true, Some(3), 3));
    assert!(!rule_belongs_to_server(false, Some(3), 3));
    assert!(!rule_belongs_to_server(true, None, 3));
}

#[test]
fn oauth_callback_redirects_with_the_outcome() {
    match build_oauth_callback_response(Some("https://app/cb"), ID, true) {
        OAuthCallbackResponse::Redirect(url) => assert_eq!(
            url,
            "https://app/cb?mcp_server_id=67e55044-10b1-426f-9247-bb680e5fe0c8&status=success"
        ),
        _ => panic!("expected a redirect"),
    }
    match build_oauth_callback_response(Some("https://app/cb?x=1"), ID, false) {
        OAuthCallbackResponse::Redirect(url) => assert!(url.ends_with("&mcp_server_id=67e55044-10b1-426f-9247-bb680e5fe0c8&status=error")),
        _ => panic!("expected a redirect"),
    }
    match build_oauth_callback_response(None, ID, false) {
        OAuthCallbackResponse::Body(b) => {
            assert_eq!(b.get("status").and_then(|v| v.as_str()).map(|s| s.as_str()), Some("error"));
            assert_eq!(
                b.get("server_id").and_then(|v| v.as_str()).map(|s| s.as_str()),
                Some("67e55044-10b1-426f-9247-bb680e5fe0c8")
            );
            assert!(matches!(b.get("success"), Some(grengin_api::json::Json::Bool(false))));
        }
        _ => panic!("expected a body"),
    }
}

#[test]
fn script_availability() {
    let a = build_script_availability("/opt/x.sh".to_string(), false, true, true, Ok(true));
    assert!(!a.available && !a.effective_use_sudo);
    assert_eq!(a.reason.as_deref(), Some("Script not found at path: /opt/x.sh"));
    let a = build_script_availability("/opt/x.sh".to_string(), true, false, false, Ok(true));
    assert_eq!(a.reason.as_deref(), Some("Script is not executable: /opt/x.sh"));
    let a = build_script_availability("/opt/x.sh".to_string(), true, true, true, Ok(true));
    assert!(a.available && a.effective_use_sudo && a.reason.is_none());
    let a = build_script_availability("/opt/x.sh".to_string(), true, true, true, Err("no sudo".to_string()));
    assert!(!a.available);
    assert_eq!(a.reason.as_deref(), Some("no sudo"));
    assert!(a.requested_use_sudo && a.exists && a.executable);
    assert_eq!(a.script_path, "/opt/x.sh");
}

#[test]
fn binaries_update_arguments() {
    let flags = binaries_update_flags(None, None, None, None);
    assert!(!flags.update_installer && flags.update_api && flags.update_webapp && flags.verify_checksums);
    assert!(!nothing_to_update(flags));
    assert!(nothing_to_update(binaries_update_flags(Some(false), Some(false), Some(false), None)));
    assert_eq!(
        binaries_script_args("https://r", "1.2.3", "auto", flags, None),
        vec!["--release-base-url", "https://r", "--version", "1.2.3", "--skip-installer"]
    );
    let flags = binaries_update_flags(Some(true), Some(false), Some(true), Some(false));
    assert_eq!(
        binaries_script_args("u", "v", "aarch64", flags, Some("  api.service ")),
        vec![
            "--release-base-url", "u", "--version", "v", "--arch", "aarch64", "--skip-api",
            "--skip-checksum", "--api-service-name", "api.service",
        ]
    );
    assert_eq!(binaries_script_args("u", "v", "auto", flags, Some("   ")).len(), 6);
}

#[test]
fn server_name_conflicts_are_recognised() {
    assert!(is_server_name_conflict("duplicate key value violates unique constraint \"x\""));
    assert!(is_server_name_conflict("violates uq-mcp-servers-name"));
    assert!(!is_server_name_conflict("timeout"));
}

#[test]
fn only_enabled_http_servers_can_be_authorized() {
    assert_eq!(check_authorizable(false, true), Err(ConnectError::McpServerNotFound));
    assert_eq!(check_authorizable(true, false), Err(ConnectError::ServiceTemporarilyUnavailable));
    assert_eq!(check_authorizable(true, true), Ok(()));
}

#[test]
fn empty_client_secret_is_not_kept() {
    assert_eq!(secret_to_keep(Some(String::new())), None);
    assert_eq!(secret_to_keep(Some("s3".to_string())), Some("s3".to_string()));
    assert_eq!(secret_to_keep(None), None);
}
