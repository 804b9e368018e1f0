use fusen::attempt::{PermitAction, PolicyVerdict};
use fusen::call::{
    bulkhead_admission, client_finished_event, client_started_event, eligible_endpoints, CallEffect, CallNext, CallPhase, Invocation, Preparation, SelectionResult,
};
use fusen::invocation::{no_instances, FailureClass};
use fusen::observability::{MetricOutcome, MetricSide};
use fusen::Duration;

fn finish_error(next: CallNext) -> fusen::error::Error {
    match next {
        CallNext::Finish(Err(error)) => error,
        _ => panic!("expected the invocation to end with an error"),
    }
}

fn admitted_invocation(max_attempts: u8, effects: &mut Vec<CallEffect>) -> Invocation {
    let (mut call, next) = Invocation::start(true, max_attempts, "req-1".into());
    assert!(matches!(next, CallNext::AcquireAdmission));
    assert!(matches!(call.admitted(Ok(()), effects), CallNext::Prepare));
    assert!(matches!(call.prepared(Preparation::Acquired, effects), CallNext::SelectEndpoint(1)));
    call
}

#[test]
fn closed_runtime_refuses_before_encoding_and_records_nothing() {
    let (call, next) = Invocation::start(false, 3, "req-1".into());
    assert_eq!(call.phase(), CallPhase::Done);
    let error = finish_error(next);
    assert_eq!(error.code().as_str(), "client_closed");
    assert_eq!(error.request_id(), Some("req-1"));
}

#[test]
fn successful_invocation_records_one_started_and_one_finished_event() {
    let mut effects = Vec::new();
    let mut call = admitted_invocation(3, &mut effects);
    assert!(matches!(call.selected(SelectionResult::Selected, &mut effects), CallNext::Send(1)));
    assert!(matches!(call.returned(true, false, None, Ok(200), &mut effects), CallNext::Finish(Ok(()))));
    assert_eq!(
        effects,
        vec![
            CallEffect::RecordStarted,
            CallEffect::SettleServicePermit(PermitAction::Drop),
            CallEffect::RecordFinished {
                outcome: MetricOutcome::Success,
                attempts: 1,
                status_class: "2xx",
                error_code: None,
            },
        ]
    );
    let event = client_finished_event(&effects[2], "http-json-v1", "demo", "call", Duration::from_millis(5)).unwrap();
    assert_eq!(event.side(), MetricSide::Client);
    assert_eq!(event.http_version(), None);
    assert_eq!(event.status_class(), Some("2xx"));
    assert_eq!(event.error_code(), None);
    assert!(client_finished_event(&effects[0], "http-json-v1", "demo", "call", Duration::from_millis(5)).is_none());
    let started = client_started_event("http-json-v1", "demo", "call");
    assert_eq!(started.side(), MetricSide::Client);
    assert_eq!(started.http_version(), None);
}

#[test]
fn retries_stop_at_the_hard_attempt_limit() {
    let mut effects = Vec::new();
    let mut call = admitted_invocation(2, &mut effects);
    call.selected(SelectionResult::Selected, &mut effects);
    let delay = Duration::from_millis(10);
    let next = call.failed(no_instances(), FailureClass::Unavailable, true, Some(delay), &mut effects);
    assert!(matches!(next, CallNext::ConsultPolicy(1)));
    assert!(matches!(call.decided(PolicyVerdict::Retry, &mut effects), CallNext::Sleep(_)));
    assert!(matches!(call.slept(false, &mut effects), CallNext::SelectEndpoint(2)));
    assert!(matches!(call.selected(SelectionResult::Selected, &mut effects), CallNext::Send(2)));
    let next = call.failed(no_instances(), FailureClass::Unavailable, true, Some(delay), &mut effects);
    let error = finish_error(next);
    assert_eq!(error.attempts(), 2);
    assert_eq!(error.request_id(), Some("req-1"));
    assert_eq!(call.attempts_started(), 2);
    assert_eq!(
        effects,
        vec![
            CallEffect::RecordStarted,
            CallEffect::SettleServicePermit(PermitAction::Fail(FailureClass::Unavailable)),
            CallEffect::RecordFinished {
                outcome: MetricOutcome::Error,
                attempts: 2,
                status_class: "5xx",
                error_code: Some("no_instances".into()),
            },
        ]
    );
}

#[test]
fn refused_service_breaker_fails_with_circuit_open() {
    let mut effects = Vec::new();
    let (mut call, _) = Invocation::start(true, 3, "req-2".into());
    call.admitted(Ok(()), &mut effects);
    let error = finish_error(call.prepared(Preparation::Refused, &mut effects));
    assert_eq!(error.code().as_str(), "circuit_open");
    assert_eq!(effects.len(), 2);
    assert_eq!(
        effects[1],
        CallEffect::RecordFinished {
            outcome: MetricOutcome::Error,
            attempts: 0,
            status_class: "5xx",
            error_code: Some("circuit_open".into()),
        }
    );
}

#[test]
fn selection_failure_before_any_request_returns_the_permit_unsampled() {
    let mut effects = Vec::new();
    let mut call = admitted_invocation(3, &mut effects);
    let error = finish_error(call.selected(SelectionResult::Failed(no_instances(), FailureClass::Unavailable), &mut effects));
    assert_eq!(error.code().as_str(), "no_instances");
    assert_eq!(effects[1], CallEffect::SettleServicePermit(PermitAction::ReleaseUnattempted));
}

#[test]
fn cancellation_and_deadlines_end_admitted_invocations() {
    let mut effects = Vec::new();
    let mut call = admitted_invocation(3, &mut effects);
    let error = finish_error(call.interrupted(true, false, &mut effects));
    assert_eq!(error.code().as_str(), "deadline_exceeded");
    assert_eq!(effects[1], CallEffect::SettleServicePermit(PermitAction::Drop));
    assert_eq!(
        effects[2],
        CallEffect::RecordFinished {
            outcome: MetricOutcome::Timeout,
            attempts: 0,
            status_class: "5xx",
            error_code: Some("deadline_exceeded".into()),
        }
    );

    let mut effects = Vec::new();
    let (mut call, _) = Invocation::start(true, 3, "req-3".into());
    let error = finish_error(call.admitted(Err(no_instances()), &mut effects));
    assert_eq!(error.request_id(), Some("req-3"));
    assert!(effects.is_empty());
}

#[test]
fn eligibility_keeps_granted_endpoints_and_fails_when_all_refuse() {
    assert_eq!(eligible_endpoints(&vec![false, true, true]).ok().unwrap(), vec![1, 2]);
    assert_eq!(eligible_endpoints(&vec![false, false]).err().unwrap().code().as_str(), "circuit_open");
    assert!(bulkhead_admission(true).is_ok());
    assert_eq!(bulkhead_admission(false).err().unwrap().code().as_str(), "endpoint_overloaded");
}

#[test]
fn infeasible_retry_delay_stops_without_asking_the_policy() {
    let mut effects = Vec::new();
    let mut call = admitted_invocation(3, &mut effects);
    call.selected(SelectionResult::Selected, &mut effects);
    let error = finish_error(call.failed(no_instances(), FailureClass::Unavailable, true, None, &mut effects));
    assert_eq!(error.attempts(), 1);
    assert_eq!(call.phase(), CallPhase::Done);
}

#[test]
fn panicking_retry_policy_ends_with_an_internal_error() {
    let mut effects = Vec::new();
    let mut call = admitted_invocation(3, &mut effects);
    call.selected(SelectionResult::Selected, &mut effects);
    let next = call.failed(no_instances(), FailureClass::Unavailable, true, Some(Duration::from_millis(1)), &mut effects);
    assert!(matches!(next, CallNext::ConsultPolicy(1)));
    let error = finish_error(call.decided(PolicyVerdict::Panicked, &mut effects));
    assert_eq!(error.code().as_str(), "retry_policy_panic");
    assert_eq!(error.attempts(), 1);
}
