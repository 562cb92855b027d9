use grengin_api::reconfigure::admits_reconfigure;
use grengin_api::reconfigure::{plan_domain_reconfigure, requested_domain};

fn strings(list: &[&str]) -> Vec<String> {
    list.iter().map(|s| s.to_string()).collect()
}

#[test]
fn requested_domain_is_trimmed_and_lower_case() {
    assert_eq!(requested_domain("  Chat.Example.COM \n"), "chat.example.com");
}

#[test]
fn malformed_domain_is_refused_first() {
    let r = plan_domain_reconfigure("bad", false, None, None, None, None, Err("x".to_string()));
    let f = r.err().unwrap();
    assert_eq!(f.message, "Invalid domain format");
    assert_eq!(f.ssl_mode, "letsencrypt");
    let r = plan_domain_reconfigure("bad", false, Some("Weird"), None, None, None, Ok(false));
    assert_eq!(r.err().unwrap().ssl_mode, "Weird");
}

#[test]
fn unknown_ssl_mode_is_refused() {
    let r = plan_domain_reconfigure("a.com", true, Some("tls"), None, None, None, Ok(false));
    let f = r.err().unwrap();
    assert_eq!(f.message, "Invalid ssl_mode. Allowed: letsencrypt, selfsigned, none");
    assert_eq!(f.ssl_mode, "tls");
}

#[test]
fn lets_encrypt_needs_an_email() {
    let r = plan_domain_reconfigure("a.com", true, None, Some("letsencrypt"), Some("   "), None, Ok(false));
    let f = r.err().unwrap();
    assert_eq!(f.message, "Email is required when ssl_mode is letsencrypt");
    assert_eq!(f.ssl_mode, "letsencrypt");
}

#[test]
fn unsettled_sudo_is_reported() {
    let r = plan_domain_reconfigure("a.com", true, None, Some("none"), None, None, Err("sudo missing".to_string()));
    let f = r.err().unwrap();
    assert_eq!(f.message, "sudo missing");
    assert_eq!(f.ssl_mode, "none");
}

#[test]
fn lets_encrypt_plan_passes_the_trimmed_email() {
    let r = plan_domain_reconfigure("a.com", true, Some("LetsEncrypt"), Some("letsencrypt"), Some(" me@a.com "), None, Ok(true));
    let p = r.ok().unwrap();
    assert_eq!(p.args, strings(&["--domain", "a.com", "--ssl-mode", "letsencrypt", "--email", "me@a.com"]));
    assert_eq!(p.redirect_url, "https://a.com");
    assert!(p.use_sudo);
}

#[test]
fn plain_http_plan_with_self_signed_days() {
    let r = plan_domain_reconfigure("b.org", true, None, Some("none"), None, Some(30), Ok(false));
    let p = r.ok().unwrap();
    assert_eq!(p.args, strings(&["--domain", "b.org", "--ssl-mode", "none", "--self-signed-days", "30"]));
    assert_eq!(p.redirect_url, "http://b.org");
    assert!(!p.use_sudo);
}

#[test]
fn reconfigure_needs_super_admin_and_the_configured_token() {
    assert!(admits_reconfigure(true, None, None));
    assert!(admits_reconfigure(true, Some("t0k"), Some("t0k")));
    assert!(!admits_reconfigure(true, Some("t0k"), Some("other")));
    assert!(!admits_reconfigure(true, Some("t0k"), None));
    assert!(!admits_reconfigure(false, None, None));
}
