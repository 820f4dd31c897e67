use runtime_factors::networking::{disallowed_host_report, host_pattern, is_own_app_request};

#[test]
fn pattern_joins_scheme_and_authority() {
    assert_eq!(host_pattern("https", "google.com"), "https://google.com");
    assert_eq!(host_pattern("", ""), "://");
    assert_eq!(host_pattern("redis", "cache:6379"), "redis://cache:6379");
}

#[test]
fn own_app_request_needs_http_scheme_and_self() {
    assert!(is_own_app_request("http", "self"));
    assert!(is_own_app_request("https", "self"));
    assert!(is_own_app_request("httpx", "self"));
    assert!(!is_own_app_request("HTTP", "self"));
    assert!(!is_own_app_request("ftp", "self"));
    assert!(!is_own_app_request("htt", "self"));
    assert!(!is_own_app_request("https", "self.example"));
    assert!(!is_own_app_request("https", "Self"));
    assert!(!is_own_app_request("https", ""));
}

#[test]
fn report_for_own_app_request() {
    let r = disallowed_host_report("https", "self");
    assert_eq!(r.host_pattern, "https://self");
    assert_eq!(r.log_message, "Outbound network destination not allowed: https://self");
    assert_eq!(
        r.warning,
        "A component tried to make an HTTP request to its own app but it does not have permission."
    );
    assert_eq!(
        r.hint,
        "To allow this request, add 'allowed_outbound_hosts = [\"https://self\"]' to the manifest component section."
    );
}

#[test]
fn report_for_other_destination() {
    let r = disallowed_host_report("https", "example.com:8443");
    assert_eq!(r.host_pattern, "https://example.com:8443");
    assert_eq!(
        r.log_message,
        "Outbound network destination not allowed: https://example.com:8443"
    );
    assert_eq!(
        r.warning,
        "A component tried to make an outbound network connection to disallowed destination 'https://example.com:8443'."
    );
    assert_eq!(
        r.hint,
        "To allow this request, add 'allowed_outbound_hosts = [\"https://example.com:8443\"]' to the manifest component section."
    );
}

#[test]
fn report_for_self_over_non_http_scheme() {
    let r = disallowed_host_report("mysql", "self");
    assert_eq!(
        r.warning,
        "A component tried to make an outbound network connection to disallowed destination 'mysql://self'."
    );
}

#[test]
fn report_names_destination_for_unicode_authority() {
    let r = disallowed_host_report("https", "bücher.example");
    assert!(r.log_message.contains("https://bücher.example"));
    assert!(r.hint.contains("https://bücher.example"));
    assert!(r.warning.contains("https://bücher.example"));
}
