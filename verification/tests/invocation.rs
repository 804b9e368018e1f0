use fusen::attempt::{
    AdmissionStep, AdmissionTry, AttemptObservation, AttemptsOutcome, BalancerOutcome, PermitAction, PolicyVerdict,
    QueueWait, RetryStep, admission_step, complete_selection, invocation_outcome, queue_outcome, reported_attempts,
    retry_delay, retry_step, settle_failed_attempt, settle_result_failure, settle_returned_attempt,
    settle_service_permit,
};
use fusen::contract::{EndpointCapabilities, HttpBindingId, HttpVersion, HttpVersionPolicy, HttpVersionSet, ServiceInstance};
use fusen::error::ErrorCategory;
use fusen::invocation::{
    FailureClass, attempt_http_version_name, direct_instance, no_instances, select_candidates, select_http_version,
    should_auto_negotiate, status_class, validate_router_output,
};
use fusen::observability::MetricOutcome;
use fusen::Duration;

fn caps(versions: HttpVersionSet) -> EndpointCapabilities {
    EndpointCapabilities::new(versions, vec![HttpBindingId::json_v1()], false).unwrap()
}

fn instance(id: &str, endpoint: &str, versions: HttpVersionSet) -> ServiceInstance {
    ServiceInstance::new(id.into(), endpoint.into(), caps(versions), 1.0f64.to_bits(), Vec::new())
}

#[test]
fn https_auto_negotiates_when_endpoint_supports_both_http_versions() {
    assert!(should_auto_negotiate(HttpVersionPolicy::Auto, true, HttpVersionSet::all()));
    assert!(!should_auto_negotiate(HttpVersionPolicy::Auto, true, HttpVersionSet::http2()));
    assert!(!should_auto_negotiate(HttpVersionPolicy::Auto, false, HttpVersionSet::all()));
    assert!(!should_auto_negotiate(HttpVersionPolicy::Http2, true, HttpVersionSet::all()));
}

#[test]
fn version_policies_pick_the_expected_protocol() {
    assert_eq!(select_http_version(HttpVersionPolicy::Auto, true, HttpVersionSet::all()), Some(HttpVersion::Http2));
    assert_eq!(select_http_version(HttpVersionPolicy::Auto, false, HttpVersionSet::all()), Some(HttpVersion::Http11));
    assert_eq!(select_http_version(HttpVersionPolicy::Auto, false, HttpVersionSet::http2()), None);
    assert_eq!(select_http_version(HttpVersionPolicy::H2c, false, HttpVersionSet::http2()), Some(HttpVersion::Http2));
    assert_eq!(select_http_version(HttpVersionPolicy::H2c, true, HttpVersionSet::http2()), None);
    assert_eq!(select_http_version(HttpVersionPolicy::Http1, true, HttpVersionSet::http2()), None);
}

#[test]
fn status_classes_and_version_labels() {
    assert_eq!(status_class(101), "1xx");
    assert_eq!(status_class(204), "2xx");
    assert_eq!(status_class(302), "3xx");
    assert_eq!(status_class(429), "4xx");
    assert_eq!(status_class(503), "5xx");
    assert_eq!(status_class(99), "5xx");
    assert_eq!(attempt_http_version_name(true, HttpVersion::Http11, None), None);
    assert_eq!(attempt_http_version_name(false, HttpVersion::Http11, None), Some("1.1"));
    assert_eq!(attempt_http_version_name(true, HttpVersion::Http11, Some(HttpVersion::Http2)), Some("2"));
    assert_eq!(FailureClass::RemoteServer.name(), "remote_server");
}

#[test]
fn candidates_prefer_untried_compatible_endpoints() {
    let instances = vec![
        instance("a", "http://a.example/", HttpVersionSet::http1_1()),
        instance("b", "https://b.example/", HttpVersionSet::http2()),
        instance("c", "http://c.example/", HttpVersionSet::http2()),
    ];
    let binding = HttpBindingId::json_v1();
    let all = select_candidates(&instances, &binding, HttpVersionPolicy::Auto, &Vec::new()).unwrap();
    assert_eq!(all.len(), 2);
    let retry = select_candidates(&instances, &binding, HttpVersionPolicy::Auto, &vec!["http://a.example/".to_string()])
        .unwrap();
    assert_eq!(retry.len(), 1);
    assert_eq!(retry[0].instance_id(), "b");
    let exhausted = select_candidates(
        &instances,
        &binding,
        HttpVersionPolicy::Auto,
        &vec!["http://a.example/".to_string(), "https://b.example/".to_string()],
    )
    .unwrap();
    assert_eq!(exhausted.len(), 2);
    let none = select_candidates(&instances, &HttpBindingId::new("vendor-v1").unwrap(), HttpVersionPolicy::Auto, &Vec::new())
        .unwrap_err();
    assert_eq!(none.code().as_str(), "no_compatible_endpoint");
}

#[test]
fn router_cannot_inject_an_instance_before_network_io() {
    let a = instance("a", "http://a.example/", HttpVersionSet::http1_1());
    let b = instance("b", "http://b.example/", HttpVersionSet::http1_1());
    let input = vec![a.clone(), b.clone()];
    assert!(validate_router_output(&input, &vec![b.clone()]).is_ok());
    assert!(validate_router_output(&input, &vec![b.clone(), a.clone()]).is_ok());
    assert!(validate_router_output(&input, &Vec::new()).is_ok());
    let injected = instance("x", "http://x.example/", HttpVersionSet::http1_1());
    let error = validate_router_output(&input, &vec![injected]).unwrap_err();
    assert_eq!(error.code().as_str(), "invalid_router_output");
    assert!(validate_router_output(&input, &vec![a.clone(), a]).is_err());
}

#[test]
fn load_balancer_selection_is_checked() {
    let eligible = vec![instance("a", "https://a.example/", HttpVersionSet::all())];
    let selected = complete_selection(&eligible, BalancerOutcome::Selected(0), HttpVersionPolicy::Auto).unwrap();
    assert_eq!(selected.index, 0);
    assert!(selected.auto_negotiate);
    assert_eq!(selected.http_version, HttpVersion::Http11);
    let out_of_range = complete_selection(&eligible, BalancerOutcome::Selected(1), HttpVersionPolicy::Auto);
    assert_eq!(out_of_range.err().unwrap().code().as_str(), "invalid_load_balancer_selection");
    let panicked = complete_selection(&eligible, BalancerOutcome::Panicked, HttpVersionPolicy::Auto);
    assert_eq!(panicked.err().unwrap().code().as_str(), "load_balancer_panic");
    let failed = complete_selection(&eligible, BalancerOutcome::Failed(no_instances()), HttpVersionPolicy::Auto);
    assert_eq!(failed.err().unwrap().code().as_str(), "no_instances");
}

#[test]
fn attempt_permits_follow_what_was_observed() {
    let quiet = AttemptObservation { failure: None, retry_after: None, transport_succeeded: false, http_version: None };
    let sent = settle_returned_attempt(quiet, 1, 1);
    assert_eq!(sent.endpoint_permit, PermitAction::Hold);
    let short_circuit = settle_returned_attempt(quiet, 0, 1);
    assert_eq!(short_circuit.endpoint_permit, PermitAction::ReleaseUnattempted);
    let replaced = AttemptObservation { failure: Some(FailureClass::Timeout), ..quiet };
    let settled = settle_returned_attempt(replaced, 1, 1);
    assert_eq!(settled.endpoint_permit, PermitAction::Fail(FailureClass::Timeout));
    assert_eq!(settled.record, Some((MetricOutcome::Timeout, FailureClass::Timeout)));

    let failed = settle_failed_attempt(quiet, FailureClass::Application, Some(Duration::from_secs(1)), 1, 1);
    assert_eq!(failed.failure, FailureClass::Application);
    assert_eq!(failed.endpoint_permit, PermitAction::Drop);
    assert_eq!(failed.retry_after, Some(Duration::from_secs(1)));
    let decoded = AttemptObservation { transport_succeeded: true, ..quiet };
    assert_eq!(settle_failed_attempt(decoded, FailureClass::Application, None, 1, 1).endpoint_permit, PermitAction::Succeed);
    assert_eq!(settle_failed_attempt(quiet, FailureClass::LocalRejection, None, 0, 1).endpoint_permit,
        PermitAction::ReleaseUnattempted);
}

#[test]
fn infeasible_retry_after_stops_without_spending_a_retry_token() {
    let remaining = Duration::from_millis(500);
    assert_eq!(retry_delay(Duration::from_millis(100), None, remaining), Some(Duration::from_millis(100)));
    assert_eq!(retry_delay(Duration::from_millis(100), Some(Duration::from_millis(300)), remaining),
        Some(Duration::from_millis(300)));
    assert_eq!(retry_delay(Duration::from_millis(100), Some(Duration::from_secs(1)), remaining), None);
    assert_eq!(retry_delay(Duration::from_millis(500), None, remaining), None);
    assert!(matches!(retry_step(None, PolicyVerdict::Retry, 1), RetryStep::Stop));
    match retry_step(Some(Duration::from_millis(1)), PolicyVerdict::Panicked, 1) {
        RetryStep::Fail(error) => {
            assert_eq!(error.code().as_str(), "retry_policy_panic");
            assert_eq!(error.attempts(), 1);
        }
        _ => panic!("expected a policy failure"),
    }
}

#[test]
fn service_permit_and_result_failures_settle_breakers() {
    assert_eq!(settle_service_permit(AttemptsOutcome::Failed(FailureClass::Connect), 0), PermitAction::ReleaseUnattempted);
    assert_eq!(settle_service_permit(AttemptsOutcome::Failed(FailureClass::Connect), 1), PermitAction::Fail(FailureClass::Connect));
    assert_eq!(
        settle_service_permit(AttemptsOutcome::Returned { endpoint_permit_held: true, service_failure: None }, 1),
        PermitAction::Hold
    );
    let remote = settle_result_failure(true);
    assert_eq!(remote.permits, PermitAction::Fail(FailureClass::Protocol));
    let local = settle_result_failure(false);
    assert_eq!(local.permits, PermitAction::Succeed);
    assert_eq!(local.attempt_failure, None);
}

#[test]
fn admission_refusals_carry_stable_codes() {
    assert!(matches!(admission_step(AdmissionTry::Entered, false, false), AdmissionStep::Admitted));
    match admission_step(AdmissionTry::Overloaded, false, false) {
        AdmissionStep::Refused { error, record_rejection } => {
            assert_eq!(error.code().as_str(), "overloaded");
            assert!(record_rejection);
        }
        _ => panic!("expected a refusal"),
    }
    assert!(matches!(admission_step(AdmissionTry::Overloaded, true, true), AdmissionStep::Queue));
    assert_eq!(queue_outcome(QueueWait::TimedOut { deadline_elapsed: true }).unwrap_err().code().as_str(), "deadline_exceeded");
    assert_eq!(queue_outcome(QueueWait::TimedOut { deadline_elapsed: false }).unwrap_err().code().as_str(),
        "admission_queue_timeout");
    assert_eq!(queue_outcome(QueueWait::Closed).unwrap_err().code().as_str(), "client_closed");
}

#[test]
fn invocation_outcomes_follow_error_categories() {
    assert_eq!(invocation_outcome(None), MetricOutcome::Success);
    assert_eq!(invocation_outcome(Some(ErrorCategory::DeadlineExceeded)), MetricOutcome::Timeout);
    assert_eq!(invocation_outcome(Some(ErrorCategory::Cancelled)), MetricOutcome::Cancelled);
    assert_eq!(invocation_outcome(Some(ErrorCategory::ResourceExhausted)), MetricOutcome::Rejected);
    assert_eq!(invocation_outcome(Some(ErrorCategory::Internal)), MetricOutcome::Error);
    assert_eq!(reported_attempts(1, 3), 3);
    assert_eq!(reported_attempts(2, 0), 2);
}

#[test]
fn direct_endpoints_get_generic_capabilities_by_scheme() {
    let json = HttpBindingId::json_v1();
    let tls = direct_instance("https://service.example/", None, &json);
    assert_eq!(tls.instance_id(), "direct");
    assert_eq!(tls.endpoint(), "https://service.example/");
    assert_eq!(tls.capabilities().http_versions(), HttpVersionSet::all());
    assert!(tls.capabilities().supports_binding(&json));
    assert!(!tls.capabilities().invocation_controls());
    assert_eq!(f64::from_bits(tls.weight_bits()), 1.0);
    assert!(tls.metadata().is_empty());
    let plain = direct_instance("http://service.example/", None, &json);
    assert_eq!(plain.capabilities().http_versions(), HttpVersionSet::http1_1());
    let vendor = HttpBindingId::new("vendor-v1").unwrap();
    let declared = EndpointCapabilities::new(HttpVersionSet::http2(), vec![vendor.clone()], true).unwrap();
    let chosen = direct_instance("http://service.example/", Some(declared), &json);
    assert_eq!(chosen.capabilities().http_versions(), HttpVersionSet::http2());
    assert!(chosen.capabilities().supports_binding(&vendor));
    assert!(!chosen.capabilities().supports_binding(&json));
}
