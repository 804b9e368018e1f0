use fusen::attempt::BalancerOutcome;
use fusen::contract::{EndpointCapabilities, HttpBindingId, HttpVersionPolicy, HttpVersionSet, ServiceInstance};
use fusen::directory::DirectoryState;
use fusen::selection::{EndpointSelection, RouterAnswer, SelectNext, SelectPhase, SelectionSource};

fn instance(id: &str, endpoint: &str) -> ServiceInstance {
    let caps = EndpointCapabilities::new(HttpVersionSet::http1_1(), vec![HttpBindingId::json_v1()], false).unwrap();
    ServiceInstance::new(id.into(), endpoint.into(), caps, 1.0f64.to_bits(), Vec::new())
}

fn error_code(next: SelectNext) -> String {
    match next {
        SelectNext::Finish(Err(error)) => error.code().as_str().to_owned(),
        _ => panic!("expected the selection to fail"),
    }
}

fn discovery(instances: Vec<ServiceInstance>) -> SelectionSource {
    SelectionSource::Discovery(DirectoryState::Ready, instances)
}

#[test]
fn selection_runs_routers_breakers_and_balancer_in_order() {
    let json = HttpBindingId::json_v1();
    let instances = vec![instance("a", "http://a:1/"), instance("b", "http://b:1/")];
    let (mut selection, next) =
        EndpointSelection::start(discovery(instances), &json, HttpVersionPolicy::Auto, &Vec::new(), 2);
    assert!(matches!(next, SelectNext::Route(0)));
    let first = selection.current().iter().map(|i| i.duplicate()).collect::<Vec<_>>();
    assert!(matches!(selection.routed(RouterAnswer::Routed(first)), SelectNext::Route(1)));
    let reversed = selection.current().iter().rev().map(|i| i.duplicate()).collect::<Vec<_>>();
    assert!(matches!(selection.routed(RouterAnswer::Routed(reversed)), SelectNext::TryBreakers(2)));
    assert!(matches!(selection.breakers(&vec![false, true]), SelectNext::Balance(1)));
    match selection.balanced(BalancerOutcome::Selected(0)) {
        SelectNext::Finish(Ok(chosen)) => assert_eq!(chosen.instance.instance_id(), "a"),
        _ => panic!("expected a selection"),
    }
    assert_eq!(selection.phase(), SelectPhase::Done);
}

#[test]
fn unroutable_or_incompatible_sources_fail_before_routing() {
    let json = HttpBindingId::json_v1();
    let (_, next) = EndpointSelection::start(
        SelectionSource::Discovery(DirectoryState::Unavailable, vec![instance("a", "http://a:1/")]),
        &json,
        HttpVersionPolicy::Auto,
        &Vec::new(),
        1,
    );
    assert_eq!(error_code(next), "no_instances");
    let (_, next) = EndpointSelection::start(discovery(Vec::new()), &json, HttpVersionPolicy::Auto, &Vec::new(), 1);
    assert_eq!(error_code(next), "no_instances");
    let vendor = HttpBindingId::new("vendor-v1").unwrap();
    let (_, next) =
        EndpointSelection::start(discovery(vec![instance("a", "http://a:1/")]), &vendor, HttpVersionPolicy::Auto, &Vec::new(), 1);
    assert_eq!(error_code(next), "no_compatible_endpoint");
}

#[test]
fn router_output_is_validated_and_empty_routing_is_unavailable() {
    let json = HttpBindingId::json_v1();
    let (mut selection, _) = EndpointSelection::start(
        discovery(vec![instance("a", "http://a:1/")]),
        &json,
        HttpVersionPolicy::Auto,
        &Vec::new(),
        1,
    );
    let foreign = vec![instance("z", "http://z:1/")];
    assert_eq!(error_code(selection.routed(RouterAnswer::Routed(foreign))), "invalid_router_output");

    let (mut selection, _) = EndpointSelection::start(
        discovery(vec![instance("a", "http://a:1/")]),
        &json,
        HttpVersionPolicy::Auto,
        &Vec::new(),
        1,
    );
    assert_eq!(error_code(selection.routed(RouterAnswer::Routed(Vec::new()))), "no_instances");

    let (mut selection, _) = EndpointSelection::start(
        discovery(vec![instance("a", "http://a:1/")]),
        &json,
        HttpVersionPolicy::Auto,
        &Vec::new(),
        1,
    );
    assert_eq!(error_code(selection.routed(RouterAnswer::Panicked)), "router_panic");
}

#[test]
fn all_breakers_refusing_is_circuit_open() {
    let json = HttpBindingId::json_v1();
    let (mut selection, next) = EndpointSelection::start(
        SelectionSource::Direct(instance("direct", "http://a:1/")),
        &json,
        HttpVersionPolicy::Auto,
        &Vec::new(),
        0,
    );
    assert!(matches!(next, SelectNext::TryBreakers(1)));
    assert_eq!(error_code(selection.breakers(&vec![false])), "circuit_open");
}
