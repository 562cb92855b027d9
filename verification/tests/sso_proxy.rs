use grengin_api::sso::{needs_validation_token, proxy_redirect_url, proxy_tenant, PROXY_CLIENT_ID};

#[test]
fn proxy_callback_uses_the_app_address_without_trailing_slashes() {
    assert_eq!(proxy_redirect_url(Some("https://chat.example.com//"), "google"), "https://chat.example.com/auth/google/callback");
    assert_eq!(proxy_redirect_url(None, "azure"), "http://localhost:8080/auth/azure/callback");
    assert_eq!(proxy_redirect_url(Some("/"), "okta"), "/auth/okta/callback");
}

#[test]
fn azure_gets_a_tenant_others_none() {
    assert_eq!(proxy_tenant("azure", None), Some("common".to_string()));
    assert_eq!(proxy_tenant("azure", Some("contoso".to_string())), Some("contoso".to_string()));
    assert_eq!(proxy_tenant("google", Some("contoso".to_string())), None);
}

#[test]
fn proxy_client_id_is_the_managed_marker() {
    assert_eq!(PROXY_CLIENT_ID, "managed-by-grengin-proxy");
}

#[test]
fn validation_token_is_needed_for_sensitive_changes_or_enabling() {
    assert!(needs_validation_token(true, None, true));
    assert!(needs_validation_token(false, Some(true), false));
    assert!(!needs_validation_token(false, Some(true), true));
    assert!(!needs_validation_token(false, Some(false), false));
    assert!(!needs_validation_token(false, None, false));
}
