use fusen::builder::{plan_connect, ConnectPlan, ConnectRequest, EndpointMode};
use fusen::contract::HttpBindingId;
use fusen::interface::{invalid_argument, stage_side, unknown_argument, ArgumentField, ArgumentSource, FusenApplicationConfig, InterceptionStage, Side};
use fusen::ClientErrorKind;

fn request<'a>(bindings: &'a Vec<HttpBindingId>, binding: &'a HttpBindingId, endpoint: EndpointMode) -> ConnectRequest<'a> {
    ConnectRequest {
        running: true,
        schema_problem: None,
        bindings,
        binding,
        json_problem: None,
        endpoint,
        direct_supports_binding: None,
        has_registry: true,
    }
}

#[test]
fn direct_endpoints_connect_to_their_normalized_url() {
    let bindings = vec![HttpBindingId::json_v1()];
    let json = HttpBindingId::json_v1();
    match plan_connect(request(&bindings, &json, EndpointMode::Direct(Ok("http://127.0.0.1:8080/".into())))) {
        Ok(ConnectPlan::Direct(url)) => assert_eq!(url, "http://127.0.0.1:8080/"),
        _ => panic!("expected a direct plan"),
    }
    assert!(matches!(plan_connect(request(&bindings, &json, EndpointMode::Discovery)), Ok(ConnectPlan::Discover)));
}

#[test]
fn connection_checks_run_in_order() {
    let bindings = vec![HttpBindingId::json_v1()];
    let json = HttpBindingId::json_v1();
    let vendor = HttpBindingId::new("vendor-v1").unwrap();

    let mut closed = request(&bindings, &json, EndpointMode::Discovery);
    closed.running = false;
    closed.schema_problem = Some("bad schema");
    let error = plan_connect(closed).err().unwrap();
    assert_eq!(error.kind(), ClientErrorKind::Closed);
    assert_eq!(error.message(), "client runtime is draining or closed");

    let mut invalid = request(&bindings, &json, EndpointMode::Discovery);
    invalid.schema_problem = Some("bad schema");
    let error = plan_connect(invalid).err().unwrap();
    assert_eq!(error.kind(), ClientErrorKind::Connect);
    assert_eq!(error.message(), "invalid interface schema: bad schema");

    let error = plan_connect(request(&bindings, &vendor, EndpointMode::Discovery)).err().unwrap();
    assert_eq!(error.message(), "HTTP binding vendor-v1 is not registered");

    let mut json_problem = request(&bindings, &json, EndpointMode::Discovery);
    json_problem.json_problem = Some("streaming body");
    let error = plan_connect(json_problem).err().unwrap();
    assert_eq!(error.message(), "invalid http-json-v1 interface: streaming body");

    let mut unsupported = request(&bindings, &json, EndpointMode::Direct(Ok("http://a/".into())));
    unsupported.direct_supports_binding = Some(false);
    let error = plan_connect(unsupported).err().unwrap();
    assert_eq!(error.message(), "direct endpoint does not support HTTP binding http-json-v1");

    let error = plan_connect(request(&bindings, &json, EndpointMode::Direct(Err("bad port".into())))).err().unwrap();
    assert_eq!(error.message(), "invalid direct service endpoint");
    assert_eq!(error.source_ref(), Some("bad port"));

    let mut no_registry = request(&bindings, &json, EndpointMode::Discovery);
    no_registry.has_registry = false;
    let error = plan_connect(no_registry).err().unwrap();
    assert_eq!(error.kind(), ClientErrorKind::Discovery);
    assert_eq!(error.message(), "discover() requires a registry on ClientRuntime");

    let error = plan_connect(request(&bindings, &json, EndpointMode::Unset)).err().unwrap();
    assert_eq!(error.message(), "client must select direct() or discover()");
}

#[test]
fn interception_stages_belong_to_their_side() {
    assert_eq!(stage_side(InterceptionStage::ClientCall), Side::Client);
    assert_eq!(stage_side(InterceptionStage::ClientAttempt), Side::Client);
    assert_eq!(stage_side(InterceptionStage::ServerHead), Side::Server);
    assert_eq!(stage_side(InterceptionStage::ServerCall), Side::Server);
}

#[test]
fn argument_errors_are_invalid_arguments() {
    assert_eq!(invalid_argument().code().as_str(), "invalid_argument");
    assert_eq!(invalid_argument().status(), 400);
    assert_eq!(unknown_argument().code().as_str(), "unknown_argument");
    assert_eq!(unknown_argument().message(), "request contains an unknown invocation argument");
}

#[test]
fn argument_fields_and_application_config_keep_their_values() {
    let field = ArgumentField::new("id", ArgumentSource::Path, false);
    assert_eq!(field.name(), "id");
    assert_eq!(field.source(), ArgumentSource::Path);
    assert!(!field.repeated());
    let config = FusenApplicationConfig::default()
        .with_application_name("demo".into())
        .with_port(Some(8080))
        .with_register(Some("nacos://127.0.0.1:8848".into()));
    assert_eq!(config.application_name(), "demo");
    assert_eq!(config.port(), Some(8080));
    assert_eq!(config.register(), Some("nacos://127.0.0.1:8848"));
}
