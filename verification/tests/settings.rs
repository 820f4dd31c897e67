use runtime_factors::networking::host_pattern;
use runtime_factors::settings::{AppManifest, InstanceSettings};

#[test]
fn http_host_manifest() {
    let m = AppManifest::http_host();
    assert_eq!(m.manifest_version, 2);
    assert_eq!(m.app_name, "test-app");
    assert_eq!(m.trigger_type, "test-trigger");
    assert_eq!(m.component_id, "empty");
    assert_eq!(m.component_source, "does-not-exist.wasm");
    assert_eq!(
        m.allowed_outbound_hosts,
        vec!["http://self".to_string(), "https://self".to_string(), "https://google.com".to_string()]
    );
}

#[test]
fn http_host_manifest_allows_own_app_patterns() {
    let m = AppManifest::http_host();
    assert!(m.allowed_outbound_hosts.contains(&host_pattern("http", "self")));
    assert!(m.allowed_outbound_hosts.contains(&host_pattern("https", "self")));
    assert!(m.allowed_outbound_hosts.contains(&host_pattern("https", "google.com")));
}

#[test]
fn factors_probe_manifest() {
    let m = AppManifest::factors_probe();
    assert_eq!(m.app_name, "test-app");
    assert_eq!(m.component_id, "empty");
    assert!(m.allowed_outbound_hosts.is_empty());
}

#[test]
fn instance_settings() {
    let h = InstanceSettings::http_host();
    assert_eq!(h.max_memory_size, 100_000_000);
    assert_eq!(h.guest_args, vec!["foo".to_string()]);
    assert!(h.pipe_stdio);
    let r = InstanceSettings::factors_probe();
    assert_eq!(r.max_memory_size, 1_000_000);
    assert_eq!(r.guest_args, vec!["foo".to_string()]);
    assert!(!r.pipe_stdio);
}
