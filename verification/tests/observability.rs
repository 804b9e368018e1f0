use fusen::observability::{
    AdmissionRejectedEvent, AttemptFinishedEvent, AttributeValue, CircuitState, CircuitStateChangedEvent,
    InvocationFinishedEvent, MetricEvent, MetricOutcome, MetricSide, MetricsRecorder, NoopMetricsRecorder,
    record_plan,
};
use fusen::time::Duration;

fn assert_object_safe(_: &dyn MetricsRecorder) {}

#[test]
fn recorder_is_object_safe() {
    assert_object_safe(&NoopMetricsRecorder);
}

#[test]
fn debug_output_does_not_require_high_cardinality_fields() {
    let event = MetricEvent::AdmissionRejected(AdmissionRejectedEvent::new(MetricSide::Server, "concurrency"));
    assert_eq!(
        format!("{event:?}"),
        "AdmissionRejected(AdmissionRejectedEvent { side: Server, reason: \"concurrency\" })"
    );
}

#[test]
fn attempt_http_version_can_be_unknown_before_protocol_establishment() {
    let unknown = AttemptFinishedEvent::new(
        "http-json-v1",
        None,
        "service",
        "call",
        1,
        MetricOutcome::Error,
        Some("connect"),
        Duration::zero(),
    );
    assert_eq!(unknown.http_version(), None);

    let known = AttemptFinishedEvent::new(
        "http-json-v1",
        Some("2"),
        "service",
        "call",
        1,
        MetricOutcome::Success,
        None,
        Duration::zero(),
    );
    assert_eq!(known.http_version(), Some("2"));
}

#[test]
fn circuit_state_changes_include_the_http_binding() {
    let event = CircuitStateChangedEvent::new("service", "http-json-v1", "service", CircuitState::Open);

    assert_eq!(event.scope(), "service");
    assert_eq!(event.binding(), "http-json-v1");
    assert_eq!(event.service(), "service");
    assert_eq!(event.state(), CircuitState::Open);
}

#[test]
fn finished_invocations_record_outcome_codes_duration_and_attempts() {
    let event = MetricEvent::InvocationFinished(InvocationFinishedEvent::new(
        MetricSide::Client,
        "http-json-v1",
        None,
        "demo",
        "call",
        MetricOutcome::Timeout,
        Some("5xx"),
        Some("deadline_exceeded"),
        Duration::from_millis(7),
        2,
    ));
    let plan = record_plan(&event);
    let keys: Vec<&str> = plan.attributes.iter().map(|a| a.key).collect();
    assert_eq!(
        keys,
        vec!["event", "side", "protocol", "service", "method", "outcome", "status_class", "error_code"]
    );
    assert_eq!(plan.attributes[0].value, AttributeValue::Text("invocation_finished"));
    assert_eq!(plan.attributes[1].value, AttributeValue::Text("client"));
    assert_eq!(plan.attributes[5].value, AttributeValue::Text("timeout"));
    assert_eq!(plan.duration, Some(Duration::from_millis(7)));
    assert_eq!(plan.attempts, Some(2));
}

#[test]
fn attempt_events_record_their_number_and_failure_class() {
    let event = MetricEvent::AttemptFinished(AttemptFinishedEvent::new(
        "http-json-v1",
        Some("1.1"),
        "demo",
        "call",
        3,
        MetricOutcome::Error,
        Some("connect"),
        Duration::zero(),
    ));
    let plan = record_plan(&event);
    let keys: Vec<&str> = plan.attributes.iter().map(|a| a.key).collect();
    assert_eq!(keys, vec!["event", "protocol", "service", "method", "outcome", "attempt", "failure_class"]);
    assert_eq!(plan.attributes[5].value, AttributeValue::Integer(3));
    assert_eq!(plan.attributes[6].value, AttributeValue::Text("connect"));
    assert_eq!(plan.attempts, None);
}

#[test]
fn admission_rejections_record_only_a_count() {
    let event = MetricEvent::AdmissionRejected(AdmissionRejectedEvent::new(MetricSide::Client, "concurrency"));
    let plan = record_plan(&event);
    assert_eq!(plan.attributes.len(), 3);
    assert_eq!(plan.attributes[2].value, AttributeValue::Text("concurrency"));
    assert_eq!(plan.duration, None);
    assert_eq!(plan.attempts, None);
}
