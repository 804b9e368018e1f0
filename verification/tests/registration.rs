use fusen::contract::{EndpointCapabilities, HttpBindingId, HttpVersionSet, ServiceSelector};
use fusen::nacos::NacosConvention;
use fusen::registration::{
    build_instance, join_bindings, strip_brackets, to_service_instance, to_service_instances, NacosInstance,
    Registration,
};
use fusen::registry::{RegistryErrorKind, RegistryOperation};

fn pairs(entries: &[(&str, &str)]) -> Vec<(String, String)> {
    entries.iter().map(|(k, v)| (k.to_string(), v.to_string())).collect()
}

fn get<'a>(metadata: &'a [(String, String)], key: &str) -> Option<&'a str> {
    metadata.iter().find(|(k, _)| k == key).map(|(_, v)| v.as_str())
}

fn selector() -> ServiceSelector {
    ServiceSelector::new("demo".into(), Some("prod".into()), Some("1".into())).unwrap()
}

fn capabilities() -> EndpointCapabilities {
    EndpointCapabilities::new(
        HttpVersionSet::all(),
        vec![HttpBindingId::new("vendor-v1").unwrap(), HttpBindingId::json_v1()],
        true,
    )
    .unwrap()
}

fn registration_at(endpoint: &str) -> Registration {
    Registration::new(
        selector(),
        Vec::new(),
        pairs(&[("zone", "east")]),
        "demo-1".into(),
        endpoint.into(),
        capabilities(),
        3.0f64.to_bits(),
    )
    .unwrap()
}

fn nacos(instance_id: Option<&str>, ip: &str, ipv6: bool, port: i32, weight: f64, metadata: &[(&str, &str)]) -> NacosInstance {
    NacosInstance {
        instance_id: instance_id.map(|id| id.to_string()),
        ip: ip.into(),
        ipv6,
        port,
        weight_bits: weight.to_bits(),
        healthy: true,
        enabled: true,
        metadata: pairs(metadata),
    }
}

#[test]
fn registration_metadata_preserves_identity_address_and_weight() {
    let registration = registration_at("http://127.0.0.1:8080/rpc");
    let instance = build_instance(&registration).ok().unwrap();
    assert_eq!(instance.instance_id.as_deref(), Some("demo-1"));
    assert_eq!(f64::from_bits(instance.weight_bits), 3.0);
    assert_eq!(get(&instance.metadata, "fusen.scheme"), Some("http"));
    assert_eq!(get(&instance.metadata, "fusen.base_path"), Some("/rpc"));
    assert_eq!(get(&instance.metadata, "fusen.http.bindings"), Some("http-json-v1,vendor-v1"));
    assert_eq!(get(&instance.metadata, "fusen.http.versions"), Some("1.1,2"));
    assert_eq!(get(&instance.metadata, "zone"), Some("east"));
    assert_eq!(get(&instance.metadata, "fusen.invocation-controls"), Some("v1"));
    assert_eq!(get(&instance.metadata, "fusen.protocol"), None);

    let tls = registration_at("https://service.example:443/rpc");
    let tls = build_instance(&tls).ok().unwrap();
    assert_eq!(tls.ip, "service.example");
    assert_eq!(tls.port, 443);
    assert_eq!(get(&tls.metadata, "fusen.scheme"), Some("https"));
}

#[test]
fn discovery_preserves_http_and_https_and_rejects_unknown_schemes() {
    let plaintext = nacos(Some("provider-1"), "::1", true, 8080, 2.0, &[
        ("fusen.scheme", "http"),
        ("fusen.base_path", "/api%20v1/a%2Fb"),
        ("fusen.service_id", "demo"),
        ("fusen.version", "1"),
        ("fusen.http.bindings", "http-json-v1"),
        ("fusen.http.versions", "1.1,2"),
        ("zone", "east"),
    ]);
    let tls = nacos(Some("provider-tls"), "127.0.0.1", false, 8443, 1.0, &[
        ("fusen.scheme", "https"),
        ("fusen.service_id", "demo"),
        ("fusen.version", "1"),
        ("fusen.http.bindings", "http-json-v1"),
        ("fusen.http.versions", "1.1"),
    ]);
    let unsupported = nacos(None, "127.0.0.1", false, 21, 1.0, &[
        ("fusen.scheme", "ftp"),
        ("fusen.service_id", "demo"),
        ("fusen.version", "1"),
        ("fusen.http.bindings", "http-json-v1"),
        ("fusen.http.versions", "1.1"),
    ]);
    let instances = to_service_instances(&vec![tls, unsupported, plaintext], &selector(), NacosConvention::Canonical);
    assert_eq!(instances.len(), 2);
    assert_eq!(instances[0].instance_id(), "provider-tls");
    assert_eq!(instances[0].endpoint(), "https://127.0.0.1:8443/");
    assert_eq!(instances[0].capabilities().http_versions(), HttpVersionSet::http1_1());
    assert_eq!(instances[1].instance_id(), "provider-1");
    assert_eq!(instances[1].endpoint(), "http://[::1]:8080/api%20v1/a%2Fb");
    assert!(instances
        .iter()
        .all(|instance| instance.metadata().iter().all(|(key, _)| !key.starts_with("fusen."))));
    assert_eq!(get(instances[1].metadata(), "zone"), Some("east"));
}

#[test]
fn registration_without_host_or_port_is_rejected() {
    let registration = registration_at("unix:/tmp/socket");
    let error = build_instance(&registration).err().unwrap();
    assert_eq!(error.operation(), RegistryOperation::PrepareRegistration);
    assert_eq!(error.kind(), RegistryErrorKind::InvalidResource);
    assert_eq!(error.safe_message(), "advertised endpoint has no host");
}

#[test]
fn registration_rejects_text_that_is_not_a_url() {
    let registration = Registration::new(
        selector(),
        Vec::new(),
        Vec::new(),
        "demo-1".into(),
        "not a url".into(),
        capabilities(),
        1.0f64.to_bits(),
    );
    assert!(registration.is_none());
}

#[test]
fn registration_metadata_overrides_selector_metadata_and_reserved_keys_win() {
    let registration = Registration::new(
        selector(),
        pairs(&[("zone", "west"), ("rack", "r1")]),
        pairs(&[("zone", "east"), ("fusen.scheme", "ftp")]),
        "demo-2".into(),
        "http://[::1]:9000/".into(),
        EndpointCapabilities::generic(),
        1.0f64.to_bits(),
    )
    .unwrap();
    let instance = build_instance(&registration).ok().unwrap();
    assert_eq!(instance.ip, "::1");
    assert_eq!(instance.port, 9000);
    assert_eq!(get(&instance.metadata, "zone"), Some("east"));
    assert_eq!(get(&instance.metadata, "rack"), Some("r1"));
    assert_eq!(get(&instance.metadata, "fusen.scheme"), Some("http"));
    assert_eq!(get(&instance.metadata, "fusen.base_path"), None);
    assert_eq!(get(&instance.metadata, "fusen.http.versions"), Some("1.1"));
    assert_eq!(get(&instance.metadata, "fusen.invocation-controls"), None);
    assert_eq!(get(&instance.metadata, "fusen.group"), Some("prod"));
    assert_eq!(get(&instance.metadata, "fusen.version"), Some("1"));
}

#[test]
fn registered_instance_is_discovered_with_its_own_capabilities() {
    let registration = registration_at("http://127.0.0.1:8080/rpc");
    let published = build_instance(&registration).ok().unwrap();
    let read = to_service_instance(
        &NacosInstance {
            instance_id: published.instance_id.clone(),
            ip: published.ip.clone(),
            ipv6: false,
            port: published.port,
            weight_bits: published.weight_bits,
            healthy: true,
            enabled: true,
            metadata: published.metadata.clone(),
        },
        NacosConvention::Canonical,
    )
    .unwrap();
    assert_eq!(read.instance_id(), "demo-1");
    assert_eq!(read.endpoint(), "http://127.0.0.1:8080/rpc");
    assert!(read.capabilities().same_as(&capabilities()));
    assert_eq!(read.metadata(), &pairs(&[("zone", "east")]));
}

#[test]
fn unhealthy_disabled_or_weightless_instances_are_not_discovered() {
    let metadata = [
        ("fusen.service_id", "demo"),
        ("fusen.version", "1"),
        ("fusen.http.bindings", "http-json-v1"),
        ("fusen.http.versions", "1.1"),
    ];
    let mut unhealthy = nacos(None, "127.0.0.1", false, 8080, 1.0, &metadata);
    unhealthy.healthy = false;
    let mut disabled = nacos(None, "127.0.0.1", false, 8080, 1.0, &metadata);
    disabled.enabled = false;
    let weightless = nacos(None, "127.0.0.1", false, 8080, 0.0, &metadata);
    let negative = nacos(None, "127.0.0.1", false, 8080, -1.0, &metadata);
    let not_a_number = nacos(None, "127.0.0.1", false, 8080, f64::NAN, &metadata);
    let port_zero = nacos(None, "127.0.0.1", false, 0, 1.0, &metadata);
    let good = nacos(None, "127.0.0.1", false, 8080, 1.0, &metadata);
    let read = to_service_instances(
        &vec![unhealthy, disabled, weightless, negative, not_a_number, port_zero, good],
        &selector(),
        NacosConvention::Canonical,
    );
    assert_eq!(read.len(), 1);
    assert_eq!(read[0].instance_id(), "nacos:127.0.0.1:8080");
    assert_eq!(read[0].endpoint(), "http://127.0.0.1:8080/");
}

#[test]
fn helpers_join_bindings_and_strip_brackets() {
    let bindings = vec![HttpBindingId::json_v1(), HttpBindingId::new("vendor-v1").unwrap()];
    assert_eq!(join_bindings(&bindings), "http-json-v1,vendor-v1");
    assert_eq!(strip_brackets("[::1]"), "::1");
    assert_eq!(strip_brackets("[::1"), "[::1");
    assert_eq!(strip_brackets("example.com"), "example.com");
}
