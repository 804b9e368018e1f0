use crate::contract::{HttpVersion, HttpVersionPolicy, ServiceInstance, ServiceInstanceView, is_secure_endpoint};
use crate::error::{Error, ErrorCategory, ErrorView};
use crate::invocation::{
    FailureClass, admission_overloaded, admission_queue_full, admission_queue_timeout, cancelled, closed_invocation,
    deadline_exceeded, instance_views, invalid_load_balancer_selection, load_balancer_panic, retry_policy_panic,
    spec_select_http_version, spec_should_auto_negotiate, select_http_version, should_auto_negotiate,
};
use crate::observability::MetricOutcome;
use crate::time::Duration;
use vstd::prelude::*;

verus! {

/// What becomes of a circuit-breaker permit.
#[derive(Clone, Copy, Debug, PartialEq, Eq, Structural)]
pub enum PermitAction {
    /// Report the attempt as failed with this class.
    Fail(FailureClass),
    /// Report the attempt as successful.
    Succeed,
    /// Return the permit without a sample: no request was sent.
    ReleaseUnattempted,
    /// Drop the permit without a sample.
    Drop,
    /// Keep the permit until the response is consumed.
    Hold,
}

/// The metric outcome of an attempt that failed with `failure`.
pub open spec fn spec_failure_outcome(failure: FailureClass) -> MetricOutcome {
    if failure == FailureClass::Timeout {
        MetricOutcome::Timeout
    } else {
        MetricOutcome::Error
    }
}

/// Returns the metric outcome of an attempt that failed with `failure`.
pub fn failure_outcome(failure: FailureClass) -> (outcome: MetricOutcome)
    ensures
        outcome == spec_failure_outcome(failure),
{
    match failure {
        FailureClass::Timeout => MetricOutcome::Timeout,
        _ => MetricOutcome::Error,
    }
}

/// What an attempt's own terminal observed of it.
#[derive(Clone, Copy)]
pub struct AttemptObservation {
    /// The failure class the terminal established, if any.
    pub failure: Option<FailureClass>,
    /// The retry delay the peer asked for, if any.
    pub retry_after: Option<Duration>,
    /// Whether the exchange completed and the response decoded.
    pub transport_succeeded: bool,
    /// The HTTP version the peer answered with, if it answered.
    pub http_version: Option<HttpVersion>,
}

/// How an attempt whose interceptor chain returned a response settles.
pub struct SucceededAttempt {
    /// What becomes of the endpoint breaker permit.
    pub endpoint_permit: PermitAction,
    /// The failure the service breaker must record, when the terminal saw one.
    pub service_failure: Option<FailureClass>,
    /// The attempt metric to record now, when the terminal saw a failure.
    pub record: Option<(MetricOutcome, FailureClass)>,
}

/// Settles an attempt that returned a response. When its terminal saw a failure (an
/// interceptor replaced the failed response), the failure is charged to both breakers
/// and recorded; otherwise the endpoint permit is held if the request was sent and
/// returned unsampled if it was not.
pub fn settle_returned_attempt(observation: AttemptObservation, attempts_started: u8, attempt: u8) -> (settled: SucceededAttempt)
    ensures
        observation.failure matches Some(f) ==> settled.endpoint_permit == PermitAction::Fail(f)
            && settled.service_failure == Some(f) && settled.record == Some((spec_failure_outcome(f), f)),
        observation.failure is None && attempts_started >= attempt ==> settled.endpoint_permit == PermitAction::Hold
            && settled.service_failure is None && settled.record is None,
        observation.failure is None && attempts_started < attempt ==> settled.endpoint_permit
            == PermitAction::ReleaseUnattempted && settled.service_failure is None && settled.record is None,
{
    match observation.failure {
        Some(failure) => SucceededAttempt {
            endpoint_permit: PermitAction::Fail(failure),
            service_failure: Some(failure),
            record: Some((failure_outcome(failure), failure)),
        },
        None => SucceededAttempt {
            endpoint_permit: if attempts_started >= attempt {
                PermitAction::Hold
            } else {
                PermitAction::ReleaseUnattempted
            },
            service_failure: None,
            record: None,
        },
    }
}

/// How an attempt that failed settles.
pub struct FailedAttempt {
    /// The failure class of the attempt.
    pub failure: FailureClass,
    /// What becomes of the endpoint breaker permit.
    pub endpoint_permit: PermitAction,
    /// Whether the attempt metric is recorded: only for a request that was sent.
    pub record: bool,
    /// The retry delay the failure asks for.
    pub retry_after: Option<Duration>,
}

/// Settles an attempt that failed with an error classified as `classified` and
/// recommending `error_retry_after`. The terminal's own observation wins over the
/// error's classification and retry recommendation; a permit is charged with an
/// observed failure, credited after a completed exchange, and otherwise returned
/// unsampled when no request went out.
pub fn settle_failed_attempt(observation: AttemptObservation, classified: FailureClass,
    error_retry_after: Option<Duration>, attempts_started: u8, attempt: u8) -> (settled: FailedAttempt)
    ensures
        settled.failure == match observation.failure { Some(f) => f, None => classified },
        settled.endpoint_permit == match observation.failure {
            Some(f) => PermitAction::Fail(f),
            None => if observation.transport_succeeded {
                PermitAction::Succeed
            } else if attempts_started < attempt {
                PermitAction::ReleaseUnattempted
            } else {
                PermitAction::Drop
            },
        },
        settled.record == (attempts_started >= attempt),
        settled.retry_after == if observation.failure is Some { observation.retry_after } else { error_retry_after },
{
    let failure = match observation.failure {
        Some(f) => f,
        None => classified,
    };
    let endpoint_permit = match observation.failure {
        Some(f) => PermitAction::Fail(f),
        None => if observation.transport_succeeded {
            PermitAction::Succeed
        } else if attempts_started < attempt {
            PermitAction::ReleaseUnattempted
        } else {
            PermitAction::Drop
        },
    };
    let retry_after = if observation.failure.is_some() {
        observation.retry_after
    } else {
        error_retry_after
    };
    FailedAttempt { failure, endpoint_permit, record: attempts_started >= attempt, retry_after }
}

/// The delay before the next attempt: the backoff, stretched to the peer's retry
/// delay; `None` when it would not end before the deadline.
pub open spec fn spec_retry_delay(backoff: nat, retry_after: Option<nat>, remaining: nat) -> Option<nat> {
    let delay = match retry_after {
        Some(after) => if after > backoff { after } else { backoff },
        None => backoff,
    };
    if delay >= remaining {
        None
    } else {
        Some(delay)
    }
}

/// Returns the delay before the next attempt, or `None` when the invocation must stop.
pub fn retry_delay(backoff: Duration, retry_after: Option<Duration>, remaining: Duration) -> (delay: Option<Duration>)
    ensures
        match delay {
            Some(d) => spec_retry_delay(backoff@, match retry_after { Some(a) => Some(a@), None => None }, remaining@)
                == Some(d@),
            None => spec_retry_delay(backoff@, match retry_after { Some(a) => Some(a@), None => None }, remaining@)
                is None,
        },
{
    let delay = match retry_after {
        Some(after) => backoff.max(after),
        None => backoff,
    };
    if remaining.longer_than(&delay) {
        Some(delay)
    } else {
        None
    }
}

/// What a retry policy decided.
pub enum PolicyVerdict {
    /// Retry after the delay.
    Retry,
    /// Stop with the attempt's error.
    Stop,
    /// The policy panicked.
    Panicked,
}

/// What follows a failed attempt once its delay is known.
pub enum RetryStep {
    /// Sleep for the delay, then run the next attempt.
    Retry(Duration),
    /// Stop with the attempt's own error.
    Stop,
    /// Stop with this error instead.
    Fail(Error),
}

/// Decides whether a failed attempt is retried: only when the delay ends before the
/// deadline and the policy asks for it; a policy that panicked ends the invocation
/// with an internal error carrying the attempts started so far.
pub fn retry_step(delay: Option<Duration>, verdict: PolicyVerdict, attempts_started: u8) -> (step: RetryStep)
    ensures
        delay is None ==> step is Stop,
        delay matches Some(d) ==> match verdict {
            PolicyVerdict::Retry => step == RetryStep::Retry(d),
            PolicyVerdict::Stop => step is Stop,
            PolicyVerdict::Panicked => step matches RetryStep::Fail(e) && e@ == (ErrorView {
                attempts: attempts_started,
                ..retry_policy_panic_view()
            }) && e.wf(),
        },
{
    match delay {
        None => RetryStep::Stop,
        Some(d) => match verdict {
            PolicyVerdict::Retry => RetryStep::Retry(d),
            PolicyVerdict::Stop => RetryStep::Stop,
            PolicyVerdict::Panicked => RetryStep::Fail(retry_policy_panic().with_attempts(attempts_started)),
        },
    }
}

/// The view of the error of a panicking retry policy.
pub open spec fn retry_policy_panic_view() -> ErrorView {
    crate::error::fresh_error(crate::error::ErrorKind::Framework, ErrorCategory::Internal, "retry_policy_panic"@,
        "retry policy failed"@, 500)
}

/// The number of the next attempt, saturating at its maximum.
pub fn next_attempt(attempt: u8) -> (next: u8)
    ensures
        next == if attempt == u8::MAX { attempt } else { (attempt + 1) as u8 },
{
    attempt.saturating_add(1)
}

/// What becomes of the service breaker permit once all attempts are settled.
pub enum AttemptsOutcome {
    /// A response came back; the endpoint permit is held when `endpoint_permit_held`,
    /// and the service breaker must record `service_failure` when present.
    Returned { endpoint_permit_held: bool, service_failure: Option<FailureClass> },
    /// The attempts failed with this class.
    Failed(FailureClass),
}

/// Settles the service breaker permit: a recorded failure is charged; a held endpoint
/// permit keeps the service permit with the response; otherwise the permit is returned
/// unsampled when no request went out, and dropped or charged when one did.
pub fn settle_service_permit(outcome: AttemptsOutcome, attempts_started: u8) -> (action: PermitAction)
    ensures
        match outcome {
            AttemptsOutcome::Returned { endpoint_permit_held, service_failure } => match service_failure {
                Some(f) => action == PermitAction::Fail(f),
                None => action == if endpoint_permit_held {
                    PermitAction::Hold
                } else if attempts_started == 0 {
                    PermitAction::ReleaseUnattempted
                } else {
                    PermitAction::Drop
                },
            },
            AttemptsOutcome::Failed(f) => action == if attempts_started == 0 {
                PermitAction::ReleaseUnattempted
            } else {
                PermitAction::Fail(f)
            },
        },
{
    match outcome {
        AttemptsOutcome::Returned { endpoint_permit_held, service_failure } => match service_failure {
            Some(f) => PermitAction::Fail(f),
            None => if endpoint_permit_held {
                PermitAction::Hold
            } else if attempts_started == 0 {
                PermitAction::ReleaseUnattempted
            } else {
                PermitAction::Drop
            },
        },
        AttemptsOutcome::Failed(f) => if attempts_started == 0 {
            PermitAction::ReleaseUnattempted
        } else {
            PermitAction::Fail(f)
        },
    }
}

/// How a result that does not decode is settled: a result that came over the wire is
/// a protocol failure charged to both breakers and to the attempt; a local result
/// credits both breakers and closes the attempt as successful.
pub struct ResultFailure {
    /// What becomes of the endpoint and service permits.
    pub permits: PermitAction,
    /// The failure the attempt metric closes with.
    pub attempt_failure: Option<FailureClass>,
}

/// Settles the breakers and the attempt of a result that does not decode.
pub fn settle_result_failure(remote_result: bool) -> (settled: ResultFailure)
    ensures
        remote_result ==> settled.permits == PermitAction::Fail(FailureClass::Protocol)
            && settled.attempt_failure == Some(FailureClass::Protocol),
        !remote_result ==> settled.permits == PermitAction::Succeed && settled.attempt_failure is None,
{
    if remote_result {
        ResultFailure { permits: PermitAction::Fail(FailureClass::Protocol), attempt_failure: Some(FailureClass::Protocol) }
    } else {
        ResultFailure { permits: PermitAction::Succeed, attempt_failure: None }
    }
}

/// How a load balancer answered.
pub enum BalancerOutcome {
    /// It chose this index.
    Selected(usize),
    /// It failed with this error.
    Failed(Error),
    /// It panicked.
    Panicked,
}

/// The endpoint an attempt goes to.
pub struct Selection {
    /// The index of the chosen instance among the eligible ones.
    pub index: usize,
    /// The chosen instance.
    pub instance: ServiceInstance,
    /// The HTTP version of the request (HTTP/1.1 while TLS negotiation decides).
    pub http_version: HttpVersion,
    /// Whether the version is left to TLS negotiation.
    pub auto_negotiate: bool,
    /// Whether the endpoint understands invocation controls.
    pub invocation_controls: bool,
}

/// The HTTP version an eligible instance is sent under `policy`.
pub open spec fn spec_selected_version(v: ServiceInstanceView, policy: HttpVersionPolicy) -> HttpVersion {
    if spec_should_auto_negotiate(policy, is_secure_endpoint(v.endpoint), v.capabilities.http1_1, v.capabilities.http2) {
        HttpVersion::Http11
    } else {
        spec_select_http_version(policy, is_secure_endpoint(v.endpoint), v.capabilities.http1_1, v.capabilities.http2)->Some_0
    }
}

/// Completes an endpoint selection from the load balancer's answer: an index outside
/// the eligible instances, a failure or a panic ends the attempt with an error.
pub fn complete_selection(eligible: &Vec<ServiceInstance>, outcome: BalancerOutcome, policy: HttpVersionPolicy)
    -> (result: Result<Selection, Error>)
    requires
        forall|i: int| 0 <= i < eligible@.len() ==> spec_select_http_version(
            policy,
            is_secure_endpoint(#[trigger] eligible@[i]@.endpoint),
            eligible@[i]@.capabilities.http1_1,
            eligible@[i]@.capabilities.http2,
        ) is Some,
    ensures
        match outcome {
            BalancerOutcome::Selected(index) => if index < eligible@.len() {
                result matches Ok(s) && s.index == index && s.instance@ == eligible@[index as int]@
                    && s.auto_negotiate == spec_should_auto_negotiate(policy,
                        is_secure_endpoint(s.instance@.endpoint), s.instance@.capabilities.http1_1,
                        s.instance@.capabilities.http2)
                    && s.http_version == spec_selected_version(s.instance@, policy)
                    && s.invocation_controls == s.instance@.capabilities.invocation_controls
            } else {
                result matches Err(e) && e@ == crate::error::fresh_error(crate::error::ErrorKind::Framework,
                    ErrorCategory::Internal, "invalid_load_balancer_selection"@,
                    "load balancer returned an out-of-range index"@, 500)
            },
            BalancerOutcome::Failed(error) => result == Err::<Selection, Error>(error),
            BalancerOutcome::Panicked => result matches Err(e) && e@ == crate::error::fresh_error(
                crate::error::ErrorKind::Framework, ErrorCategory::Internal, "load_balancer_panic"@,
                "load balancer failed"@, 500),
        },
{
    let index = match outcome {
        BalancerOutcome::Selected(index) => index,
        BalancerOutcome::Failed(error) => {
            return Err(error);
        },
        BalancerOutcome::Panicked => {
            return Err(load_balancer_panic());
        },
    };
    if index >= eligible.len() {
        return Err(invalid_load_balancer_selection());
    }
    let instance = eligible[index].duplicate();
    let secure = instance.is_secure();
    let versions = instance.capabilities().http_versions();
    let auto_negotiate = should_auto_negotiate(policy, secure, versions);
    let http_version = if auto_negotiate {
        HttpVersion::Http11
    } else {
        match select_http_version(policy, secure, versions) {
            Some(version) => version,
            None => {
                assert(false);
                HttpVersion::Http11
            },
        }
    };
    let invocation_controls = instance.capabilities().invocation_controls();
    Ok(Selection { index, instance, http_version, auto_negotiate, invocation_controls })
}

/// How the first, immediate admission attempt went.
#[derive(Clone, Copy, Debug, PartialEq, Eq, Structural)]
pub enum AdmissionTry {
    /// A slot was free.
    Entered,
    /// The runtime is draining.
    Draining,
    /// Every slot is taken.
    Overloaded,
}

/// How waiting in the admission queue ended.
#[derive(Clone, Copy, Debug, PartialEq, Eq, Structural)]
pub enum QueueWait {
    /// A slot became free.
    Entered,
    /// The runtime closed while waiting.
    Closed,
    /// The wait ran out; `deadline_elapsed` tells whether the invocation deadline did.
    TimedOut { deadline_elapsed: bool },
}

/// What follows the immediate admission attempt.
pub enum AdmissionStep {
    /// The invocation is admitted.
    Admitted,
    /// Wait in the queue, bounded by the invocation deadline and the queue wait.
    Queue,
    /// The invocation is refused with this error; `record_rejection` asks for an
    /// admission rejection metric labelled `concurrency`.
    Refused { error: Error, record_rejection: bool },
}

/// Decides the immediate admission step: a draining runtime refuses as closed; a
/// saturated one queues when it has a queue with room, and refuses otherwise.
pub fn admission_step(first: AdmissionTry, has_queue: bool, queue_has_room: bool) -> (step: AdmissionStep)
    ensures
        first == AdmissionTry::Entered ==> step is Admitted,
        first == AdmissionTry::Draining ==> (step matches AdmissionStep::Refused { error, record_rejection }
            && error@ == crate::error::fresh_error(crate::error::ErrorKind::Framework, ErrorCategory::Unavailable,
                "client_closed"@, "client runtime is draining or closed"@, 503) && !record_rejection),
        first == AdmissionTry::Overloaded && !has_queue ==> (step matches AdmissionStep::Refused { error, record_rejection }
            && error@ == crate::error::fresh_error(crate::error::ErrorKind::Framework, ErrorCategory::ResourceExhausted,
                "overloaded"@, "client logical invocation concurrency is exhausted"@, 429) && record_rejection),
        first == AdmissionTry::Overloaded && has_queue && !queue_has_room ==> (step matches AdmissionStep::Refused {
            error, record_rejection } && error@ == crate::error::fresh_error(crate::error::ErrorKind::Framework,
                ErrorCategory::ResourceExhausted, "admission_queue_full"@, "client admission queue is full"@, 429)
            && !record_rejection),
        first == AdmissionTry::Overloaded && has_queue && queue_has_room ==> step is Queue,
{
    match first {
        AdmissionTry::Entered => AdmissionStep::Admitted,
        AdmissionTry::Draining => AdmissionStep::Refused { error: closed_invocation(), record_rejection: false },
        AdmissionTry::Overloaded => {
            if !has_queue {
                AdmissionStep::Refused { error: admission_overloaded(), record_rejection: true }
            } else if !queue_has_room {
                AdmissionStep::Refused { error: admission_queue_full(), record_rejection: false }
            } else {
                AdmissionStep::Queue
            }
        },
    }
}

/// Decides the end of a queued admission: a closed runtime refuses as closed, and a
/// wait that ran out is a deadline failure when the invocation deadline elapsed and a
/// queue timeout otherwise.
pub fn queue_outcome(wait: QueueWait) -> (result: Result<(), Error>)
    ensures
        wait == QueueWait::Entered ==> result is Ok,
        wait == QueueWait::Closed ==> (result matches Err(e) && e@ == crate::error::fresh_error(
            crate::error::ErrorKind::Framework, ErrorCategory::Unavailable, "client_closed"@,
            "client runtime is draining or closed"@, 503)),
        wait == (QueueWait::TimedOut { deadline_elapsed: true }) ==> (result matches Err(e) && e@
            == crate::error::fresh_error(crate::error::ErrorKind::Framework, ErrorCategory::DeadlineExceeded,
            "deadline_exceeded"@, "service invocation deadline elapsed"@, 504)),
        wait == (QueueWait::TimedOut { deadline_elapsed: false }) ==> (result matches Err(e) && e@
            == crate::error::fresh_error(crate::error::ErrorKind::Framework, ErrorCategory::ResourceExhausted,
            "admission_queue_timeout"@, "client admission queue wait elapsed"@, 429)),
{
    match wait {
        QueueWait::Entered => Ok(()),
        QueueWait::Closed => Err(closed_invocation()),
        QueueWait::TimedOut { deadline_elapsed } => if deadline_elapsed {
            Err(deadline_exceeded())
        } else {
            Err(admission_queue_timeout())
        },
    }
}

/// The metric outcome of a finished invocation: success, or by the error's category
/// a timeout, a cancellation, a rejection or an error.
pub open spec fn spec_invocation_outcome(result: Option<ErrorCategory>) -> MetricOutcome {
    match result {
        None => MetricOutcome::Success,
        Some(ErrorCategory::DeadlineExceeded) => MetricOutcome::Timeout,
        Some(ErrorCategory::Cancelled) => MetricOutcome::Cancelled,
        Some(ErrorCategory::ResourceExhausted) => MetricOutcome::Rejected,
        Some(_) => MetricOutcome::Error,
    }
}

/// Returns the metric outcome of a finished invocation, given its error category
/// when it failed.
pub fn invocation_outcome(failure: Option<ErrorCategory>) -> (outcome: MetricOutcome)
    ensures
        outcome == spec_invocation_outcome(failure),
{
    match failure {
        None => MetricOutcome::Success,
        Some(ErrorCategory::DeadlineExceeded) => MetricOutcome::Timeout,
        Some(ErrorCategory::Cancelled) => MetricOutcome::Cancelled,
        Some(ErrorCategory::ResourceExhausted) => MetricOutcome::Rejected,
        Some(_) => MetricOutcome::Error,
    }
}

/// The attempts an invocation reports: the larger of what its response or error says
/// and how many attempts were started.
pub fn reported_attempts(recorded: u8, started: u8) -> (attempts: u8)
    ensures
        attempts == if recorded >= started { recorded } else { started },
{
    if recorded >= started {
        recorded
    } else {
        started
    }
}

/// The error of an invocation that was cancelled between attempts.
pub fn cancelled_between_attempts(attempts_started: u8) -> (error: Error)
    ensures
        error@ == (ErrorView {
            attempts: attempts_started,
            ..crate::error::fresh_error(crate::error::ErrorKind::Framework, ErrorCategory::Cancelled, "cancelled"@,
                "service invocation was cancelled"@, 499)
        }),
        error.wf(),
{
    cancelled().with_attempts(attempts_started)
}

/// Whether a discovery snapshot may be routed: it must be ready or stale and hold at
/// least one instance.
pub fn routable_snapshot(state: crate::directory::DirectoryState, instances: usize) -> (result: Result<(), Error>)
    ensures
        state.spec_is_routable() && instances > 0 ==> result is Ok,
        !(state.spec_is_routable() && instances > 0) ==> (result matches Err(e) && e@ == crate::error::fresh_error(
            crate::error::ErrorKind::Framework, ErrorCategory::Unavailable, "no_instances"@,
            "discovery has no currently routable service instances"@, 503)),
{
    if !state.is_routable() || instances == 0 {
        return Err(crate::invocation::no_instances());
    }
    Ok(())
}

/// A retry delay is the longer of the backoff and the peer's Retry-After, and it is
/// only returned when it ends before the deadline: a returned delay is never shorter
/// than either, is one of them, and is below the remaining time; no delay is returned
/// exactly when the longer of the two reaches the remaining time.
pub proof fn lemma_retry_delay(backoff: nat, retry_after: Option<nat>, remaining: nat)
    ensures
        spec_retry_delay(backoff, retry_after, remaining) matches Some(d) ==> {
            &&& d >= backoff
            &&& (retry_after matches Some(a) ==> d >= a)
            &&& (d == backoff || retry_after == Some(d))
            &&& d < remaining
        },
        spec_retry_delay(backoff, retry_after, remaining) is None <==> (backoff >= remaining
            || (retry_after matches Some(a) && a >= remaining)),
{
}

/// A finished invocation succeeds exactly without a failure; a failure is a timeout,
/// a cancellation or a rejection exactly for its deadline, cancellation and
/// resource-exhaustion categories, and an error otherwise. A failed attempt is a
/// timeout exactly when it timed out.
pub proof fn lemma_outcomes(failure: Option<ErrorCategory>, attempt_failure: FailureClass)
    ensures
        (spec_invocation_outcome(failure) == MetricOutcome::Success) <==> failure is None,
        (spec_invocation_outcome(failure) == MetricOutcome::Timeout) <==> failure == Some(ErrorCategory::DeadlineExceeded),
        (spec_invocation_outcome(failure) == MetricOutcome::Cancelled) <==> failure == Some(ErrorCategory::Cancelled),
        (spec_invocation_outcome(failure) == MetricOutcome::Rejected)
            <==> failure == Some(ErrorCategory::ResourceExhausted),
        (failure matches Some(c) && c != ErrorCategory::DeadlineExceeded && c != ErrorCategory::Cancelled
            && c != ErrorCategory::ResourceExhausted) ==> spec_invocation_outcome(failure) == MetricOutcome::Error,
        (spec_failure_outcome(attempt_failure) == MetricOutcome::Timeout) <==> attempt_failure == FailureClass::Timeout,
        attempt_failure != FailureClass::Timeout ==> spec_failure_outcome(attempt_failure) == MetricOutcome::Error,
{
}

} // verus!
