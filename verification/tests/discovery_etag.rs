use grengin_api::discovery::{map_discovery_error, DiscoveryError, DiscoveryFailure};
use grengin_api::discovery::{discovery_response, etag_for_digest, etag_matches, PUBLIC_CACHE_CONTROL};

const DIGEST: &str = "9f86d081884c7d659a2feaa0c55ad015a3bf4f1b2b0b822cd15d6c15b0f00a08";

#[test]
fn response_etag_supports_conditional_get() {
    let body = br#"{"distribution_version":"1.0.0","catalog_type":"auth_providers","catalog_version":"1.0.0","providers":[]}"#.to_vec();
    let first = discovery_response(None, body.clone(), DIGEST);
    let etag = first.etag.clone();
    assert_eq!(first.status, 200);
    assert!(!first.body.is_empty());

    let second = discovery_response(Some(etag.as_str()), body, DIGEST);
    assert_eq!(second.status, 304);
    assert!(second.body.is_empty());
}

#[test]
fn etag_has_the_digest_in_quotes() {
    assert_eq!(etag_for_digest("abc"), "\"sha256-abc\"");
    let r = discovery_response(None, b"{}".to_vec(), "abc");
    assert_eq!(r.content_type, "application/json");
    assert_eq!(r.cache_control, PUBLIC_CACHE_CONTROL);
    assert_eq!(r.body, b"{}".to_vec());
}

#[test]
fn etag_matching_reads_lists_and_weak_tags() {
    let tag = "\"sha256-abc\"";
    assert!(etag_matches(Some("\"sha256-abc\""), tag));
    assert!(etag_matches(Some("\"x\", \"sha256-abc\""), tag));
    assert!(etag_matches(Some("W/\"sha256-abc\""), tag));
    assert!(etag_matches(Some("  W/\"sha256-abc\"  ,\"y\""), tag));
    assert!(!etag_matches(Some("w/\"sha256-abc\""), tag));
    assert!(!etag_matches(Some("\"sha256-abd\""), tag));
    assert!(!etag_matches(Some("*"), tag));
    assert!(!etag_matches(Some(""), tag));
    assert!(!etag_matches(None, tag));
    assert!(etag_matches(Some(",,\"sha256-abc\","), tag));
}

#[test]
fn discovery_errors_map_to_answers() {
    assert_eq!(map_discovery_error(&DiscoveryError::InvalidVersion), DiscoveryFailure::InvalidVersionField);
    assert_eq!(map_discovery_error(&DiscoveryError::NotFound), DiscoveryFailure::ResourceNotFound);
    assert_eq!(
        map_discovery_error(&DiscoveryError::Unavailable("down".into())),
        DiscoveryFailure::ServiceTemporarilyUnavailable
    );
    assert_eq!(
        map_discovery_error(&DiscoveryError::InvalidCatalog("bad".into())),
        DiscoveryFailure::ServiceTemporarilyUnavailable
    );
}
