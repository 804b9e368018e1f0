use fusen::contract::{HttpVersionSet, ServiceSelector};
use fusen::nacos::{
    NacosConfig, NacosConvention, SnapshotGate, decode_capabilities, decode_http_versions, encode_http_versions,
    matches_selector, service_group, service_name, validate_application_name,
};

fn pairs(entries: &[(&str, &str)]) -> Vec<(String, String)> {
    entries.iter().map(|(k, v)| (k.to_string(), v.to_string())).collect()
}

fn selector() -> ServiceSelector {
    ServiceSelector::new("demo".into(), Some("prod".into()), Some("1".into())).unwrap()
}

#[test]
fn builder_fields_are_private_but_observable_through_getters() {
    let config = NacosConfig::builder()
        .server_addr("nacos.internal:8848".into())
        .namespace("prod".into())
        .credentials("service".into(), "secret".into())
        .build();
    assert_eq!(config.server_addr(), "nacos.internal:8848");
    assert_eq!(config.namespace(), Some("prod"));
    assert_eq!(config.username(), Some("service"));
    assert_eq!(config.password(), Some("secret"));
}

#[test]
fn debug_output_redacts_passwords() {
    let config = NacosConfig::builder()
        .credentials("service".into(), "do-not-log".into())
        .build();
    let debug = config.describe();
    assert!(debug.contains("<redacted>"));
    assert!(!debug.contains("do-not-log"));
}

#[test]
fn credentials_must_be_configured_as_a_pair() {
    let config = NacosConfig::default().with_username(Some("service".into()));
    assert!(config.validate().is_err());
}

#[test]
fn default_config_targets_local_server_and_is_valid() {
    let config = NacosConfig::default();
    assert_eq!(config.server_addr(), "127.0.0.1:8848");
    assert_eq!(config.namespace(), None);
    assert!(config.validate().is_ok());
}

#[test]
fn application_names_are_trimmed_bounded_and_control_free() {
    assert!(validate_application_name("demo").is_ok());
    assert!(validate_application_name("").is_err());
    assert!(validate_application_name(" demo").is_err());
    assert!(validate_application_name("de\nmo").is_err());
    assert!(validate_application_name(&"a".repeat(128)).is_ok());
    assert!(validate_application_name(&"a".repeat(129)).is_err());
}

#[test]
fn service_name_and_group_are_binding_independent() {
    assert_eq!(service_name(&selector()), "demo");
    assert_eq!(service_group(&selector()).as_deref(), Some("prod"));
    let ungrouped = ServiceSelector::new("demo".into(), None, None).unwrap();
    assert_eq!(service_group(&ungrouped).as_deref(), Some("DEFAULT_GROUP"));
}

#[test]
fn capability_metadata_rejects_partial_duplicate_and_unknown_values() {
    let valid = pairs(&[
        ("fusen.http.bindings", "http-json-v1,vendor-v1"),
        ("fusen.http.versions", "2,1.1"),
        ("fusen.invocation-controls", "v1"),
    ]);
    let capabilities = decode_capabilities(&valid, NacosConvention::Canonical).unwrap();
    assert_eq!(capabilities.http_versions(), HttpVersionSet::all());
    assert!(capabilities.invocation_controls());

    for metadata in [
        pairs(&[("fusen.http.bindings", "http-json-v1")]),
        pairs(&[("fusen.http.bindings", "http-json-v1,http-json-v1"), ("fusen.http.versions", "1.1")]),
        pairs(&[("fusen.http.bindings", "HTTP-JSON-V1"), ("fusen.http.versions", "1.1")]),
        pairs(&[("fusen.http.bindings", ""), ("fusen.http.versions", "1.1")]),
        pairs(&[("fusen.http.bindings", "http-json-v1"), ("fusen.http.versions", "1.1,1.1")]),
        pairs(&[("fusen.http.bindings", "http-json-v1"), ("fusen.http.versions", "")]),
        pairs(&[("fusen.http.bindings", "http-json-v1"), ("fusen.http.versions", "3")]),
        pairs(&[
            ("fusen.http.bindings", "http-json-v1"),
            ("fusen.http.versions", "1.1"),
            ("fusen.invocation-controls", "true"),
        ]),
    ] {
        assert!(decode_capabilities(&metadata, NacosConvention::SpringCloud).is_none(), "{metadata:?}");
    }
}

#[test]
fn spring_cloud_instances_without_capabilities_get_the_generic_ones() {
    let none: Vec<(String, String)> = Vec::new();
    assert!(decode_capabilities(&none, NacosConvention::Canonical).is_none());
    let generic = decode_capabilities(&none, NacosConvention::SpringCloud).unwrap();
    assert_eq!(generic.http_versions(), HttpVersionSet::http1_1());
    assert_eq!(generic.bindings().len(), 1);
    assert_eq!(generic.bindings()[0].as_str(), "http-json-v1");
    assert!(!generic.invocation_controls());
}

#[test]
fn http_versions_round_trip_through_metadata() {
    for set in [HttpVersionSet::http1_1(), HttpVersionSet::http2(), HttpVersionSet::all()] {
        assert_eq!(decode_http_versions(encode_http_versions(set)), Some(set));
    }
    assert_eq!(encode_http_versions(HttpVersionSet::all()), "1.1,2");
}

#[test]
fn discovery_filters_versions_and_spring_accepts_external_instances() {
    let external: Vec<(String, String)> = Vec::new();
    let unversioned = ServiceSelector::new("demo".into(), None, None).unwrap();
    assert!(!matches_selector(&external, &unversioned, NacosConvention::Canonical));
    assert!(matches_selector(&external, &unversioned, NacosConvention::SpringCloud));
    assert!(!matches_selector(&external, &selector(), NacosConvention::SpringCloud));
    let canonical = pairs(&[("fusen.service_id", "demo"), ("fusen.version", "1")]);
    assert!(matches_selector(&canonical, &selector(), NacosConvention::Canonical));
    let other = pairs(&[("fusen.service_id", "other"), ("fusen.version", "1")]);
    assert!(!matches_selector(&other, &selector(), NacosConvention::SpringCloud));
}

#[test]
fn initialization_event_wins_over_an_older_fetch() {
    let mut gate = SnapshotGate::new();
    assert!(gate.update(vec!["http://127.0.0.1:9002/"]).is_none());
    let initial = gate.initial_snapshot(vec!["http://127.0.0.1:9001/"]);
    gate.mark_initialized();
    assert_eq!(initial, vec!["http://127.0.0.1:9002/"]);
    assert_eq!(gate.update(vec!["later"]), Some(vec!["later"]));
}

#[test]
fn initial_fetch_is_used_without_an_earlier_event() {
    let mut gate: SnapshotGate<u32> = SnapshotGate::new();
    assert_eq!(gate.initial_snapshot(vec![1, 2]), vec![1, 2]);
}
