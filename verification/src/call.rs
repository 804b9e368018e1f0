use crate::attempt::{
    AttemptsOutcome, PermitAction, PolicyVerdict, RetryStep, invocation_outcome, retry_policy_panic_view, retry_step,
    settle_service_permit, spec_invocation_outcome,
};
use crate::error::{Error, ErrorCategory, ErrorKind, ErrorView, fresh_error};
use crate::invocation::{
    FailureClass, cancelled, circuit_open, closed_invocation, deadline_exceeded, endpoint_overloaded, spec_status_class,
    status_class,
};
use crate::observability::{InvocationFinishedEvent, InvocationStartedEvent, MetricOutcome, MetricSide};
use crate::time::Duration;
use vstd::prelude::*;

verus! {

/// Where one logical client invocation stands.
#[derive(Clone, Copy, Debug, PartialEq, Eq, Structural)]
pub enum CallPhase {
    /// Waiting for runtime admission.
    Admitting,
    /// Admitted: encoding the arguments, taking the transport and trying the service breaker.
    Preparing,
    /// Choosing the endpoint of the current attempt.
    Selecting,
    /// Running the current attempt.
    Sending,
    /// Asking the retry policy about a failed attempt whose delay fits the deadline.
    Deciding,
    /// Waiting out the delay before the next attempt.
    Backoff,
    /// Finished.
    Done,
}

/// Where the service breaker permit of an invocation stands.
#[derive(Clone, Copy, Debug, PartialEq, Eq, Structural)]
pub enum ServicePermit {
    /// Not acquired.
    Unacquired,
    /// Held by the invocation.
    Held,
    /// Settled: sampled, returned, dropped or handed to the response.
    Settled,
}

/// Outside work an invocation asks for along the way.
#[derive(Clone, Debug, PartialEq, Eq)]
pub enum CallEffect {
    /// Record the client's invocation-started metric event.
    RecordStarted,
    /// Settle the service breaker permit this way.
    SettleServicePermit(PermitAction),
    /// Record the client's invocation-finished metric event with this outcome, attempt
    /// count, status class and, for a failure, error code.
    RecordFinished { outcome: MetricOutcome, attempts: u8, status_class: &'static str, error_code: Option<String> },
}

/// The abstract content of a [`CallEffect`].
pub enum CallEffectView {
    RecordStarted,
    SettleServicePermit(PermitAction),
    RecordFinished { outcome: MetricOutcome, attempts: u8, status_class: Seq<char>, error_code: Option<Seq<char>> },
}

impl View for CallEffect {
    type V = CallEffectView;

    open spec fn view(&self) -> CallEffectView {
        match self {
            CallEffect::RecordStarted => CallEffectView::RecordStarted,
            CallEffect::SettleServicePermit(action) => CallEffectView::SettleServicePermit(*action),
            CallEffect::RecordFinished { outcome, attempts, status_class, error_code } => CallEffectView::RecordFinished {
                outcome: *outcome,
                attempts: *attempts,
                status_class: status_class@,
                error_code: match error_code {
                    Some(code) => Some(code@),
                    None => None,
                },
            },
        }
    }
}

/// The views of a list of effects.
pub open spec fn effect_views(effects: Seq<CallEffect>) -> Seq<CallEffectView> {
    effects.map_values(|effect: CallEffect| effect@)
}

/// The outside work an invocation waits on next.
pub enum CallNext {
    /// Wait for runtime admission.
    AcquireAdmission,
    /// Encode the arguments, take the transport and try the service breaker.
    Prepare,
    /// Choose an endpoint for this attempt.
    SelectEndpoint(u8),
    /// Run this attempt.
    Send(u8),
    /// Ask the retry policy (and its budget) whether this failed attempt is retried.
    ConsultPolicy(u8),
    /// Sleep this long, unless cancelled, before the next attempt.
    Sleep(Duration),
    /// The invocation ends: with the response (`Ok`) or with this error.
    Finish(Result<(), Error>),
}

/// How preparing an admitted invocation went.
pub enum Preparation {
    /// The service breaker granted a permit.
    Acquired,
    /// The service breaker refused.
    Refused,
    /// Encoding, the transport or an interceptor failed with this error.
    Failed(Error),
}

/// How choosing an endpoint went.
pub enum SelectionResult {
    /// An endpoint was chosen.
    Selected,
    /// Selection failed with this error, classified as this failure.
    Failed(Error, FailureClass),
}

/// The abstract state of an invocation.
pub struct InvocationView {
    pub phase: CallPhase,
    pub attempt: u8,
    pub max_attempts: u8,
    pub attempts_started: u8,
    pub started: bool,
    pub finished: bool,
    pub permit: ServicePermit,
    pub request_id: Seq<char>,
    /// The failed attempt awaiting the policy: its error, class and retry delay.
    pub pending: Option<(ErrorView, FailureClass, nat)>,
}

/// The invocation invariant. Attempts are numbered from 1 and never pass the hard
/// limit; no more attempts have started than have been numbered; the started event is
/// recorded exactly when the invocation was admitted; the service permit is held
/// exactly while attempts are being made; the policy is asked only about a failed
/// attempt below the limit; and a finished invocation has recorded its finished event
/// exactly when it recorded its started event.
pub open spec fn invocation_wf(v: InvocationView) -> bool {
    &&& 1 <= v.max_attempts
    &&& 1 <= v.attempt <= v.max_attempts
    &&& v.attempts_started <= v.attempt
    &&& v.phase == CallPhase::Admitting ==> !v.started && v.permit == ServicePermit::Unacquired && !v.finished
    &&& v.phase == CallPhase::Preparing ==> v.started && v.permit == ServicePermit::Unacquired && !v.finished
    &&& (v.phase == CallPhase::Selecting || v.phase == CallPhase::Sending || v.phase == CallPhase::Deciding
        || v.phase == CallPhase::Backoff) ==> v.started && v.permit == ServicePermit::Held && !v.finished
    &&& v.phase == CallPhase::Deciding <==> v.pending is Some
    &&& v.phase == CallPhase::Deciding ==> v.attempt < v.max_attempts
        && v.pending->Some_0.0.attempts == v.attempts_started
    &&& v.phase == CallPhase::Backoff ==> v.attempt < v.max_attempts
    &&& v.phase == CallPhase::Done ==> v.permit != ServicePermit::Held && v.finished == v.started
}

/// The error an invocation ends with: its attempts are at least the attempts started
/// and it carries the invocation's request identifier.
pub open spec fn stamped(e: ErrorView, v: InvocationView) -> ErrorView {
    ErrorView {
        attempts: if e.attempts >= v.attempts_started { e.attempts } else { v.attempts_started },
        request_id: Some(v.request_id),
        ..e
    }
}

/// A failed attempt's error, counted with the attempts started so far.
pub open spec fn counted(e: ErrorView, v: InvocationView) -> ErrorView {
    ErrorView { attempts: v.attempts_started, ..e }
}

/// The finished event of an invocation that ends as `end`: the response's status on
/// success, the error otherwise.
pub open spec fn finished_event(v: InvocationView, end: Result<u16, ErrorView>) -> CallEffectView {
    match end {
        Ok(status) => CallEffectView::RecordFinished {
            outcome: spec_invocation_outcome(None),
            attempts: v.attempts_started,
            status_class: spec_status_class(status),
            error_code: None,
        },
        Err(e) => CallEffectView::RecordFinished {
            outcome: spec_invocation_outcome(Some(e.category)),
            attempts: stamped(e, v).attempts,
            status_class: spec_status_class(e.status),
            error_code: Some(e.code),
        },
    }
}

/// The effects that finish an invocation: the finished event, when it was started.
pub open spec fn finish_effects(v: InvocationView, end: Result<u16, ErrorView>) -> Seq<CallEffectView> {
    if v.started {
        seq![finished_event(v, end)]
    } else {
        Seq::empty()
    }
}

/// Whether `next` ends the invocation the way `end` says, stamped for `v`.
pub open spec fn ends_with(next: CallNext, v: InvocationView, end: Result<u16, ErrorView>) -> bool {
    match end {
        Ok(_) => next matches CallNext::Finish(r) && r is Ok,
        Err(e) => next matches CallNext::Finish(r) && r matches Err(x) && x@ == stamped(e, v),
    }
}

/// The view of the error of an invocation refused by a closed runtime.
pub open spec fn closed_invocation_view() -> ErrorView {
    fresh_error(ErrorKind::Framework, ErrorCategory::Unavailable, "client_closed"@,
        "client runtime is draining or closed"@, 503)
}

/// The view of the error of an invocation whose breakers all refused.
pub open spec fn circuit_open_view() -> ErrorView {
    fresh_error(ErrorKind::Framework, ErrorCategory::Unavailable, "circuit_open"@,
        "circuit breaker rejected the attempt"@, 503)
}

/// The view of the error of a cancelled invocation.
pub open spec fn cancelled_view() -> ErrorView {
    fresh_error(ErrorKind::Framework, ErrorCategory::Cancelled, "cancelled"@, "service invocation was cancelled"@, 499)
}

/// The view of the error of an invocation that ran out of time.
pub open spec fn deadline_exceeded_view() -> ErrorView {
    fresh_error(ErrorKind::Framework, ErrorCategory::DeadlineExceeded, "deadline_exceeded"@,
        "service invocation deadline elapsed"@, 504)
}

/// The attempts started once the current attempt did (`sent`) or did not send.
pub open spec fn after_send(v: InvocationView, sent: bool) -> InvocationView {
    InvocationView { attempts_started: if sent { v.attempt } else { v.attempts_started }, ..v }
}

/// The settlement of the service permit of a failed invocation.
pub open spec fn failed_settlement(v: InvocationView, class: FailureClass) -> CallEffectView {
    CallEffectView::SettleServicePermit(
        if v.attempts_started == 0 { PermitAction::ReleaseUnattempted } else { PermitAction::Fail(class) },
    )
}

/// One logical client invocation: admission, the service breaker, attempts with
/// retries under a hard attempt limit, and exactly one started and one finished
/// metric event for every admitted invocation.
pub struct Invocation {
    phase: CallPhase,
    attempt: u8,
    max_attempts: u8,
    attempts_started: u8,
    started: bool,
    finished: bool,
    permit: ServicePermit,
    request_id: String,
    pending: Option<(Error, FailureClass, Duration)>,
}

impl View for Invocation {
    type V = InvocationView;

    closed spec fn view(&self) -> InvocationView {
        InvocationView {
            phase: self.phase,
            attempt: self.attempt,
            max_attempts: self.max_attempts,
            attempts_started: self.attempts_started,
            started: self.started,
            finished: self.finished,
            permit: self.permit,
            request_id: self.request_id@,
            pending: match &self.pending {
                Some(p) => Some((p.0@, p.1, p.2@)),
                None => None,
            },
        }
    }
}

impl Invocation {
    /// Starts an invocation under the runtime's attempt limit. A runtime that is not
    /// running refuses it at once, before any encoding and without metric events.
    pub fn start(running: bool, max_attempts: u8, request_id: String) -> (result: (Invocation, CallNext))
        requires
            1 <= max_attempts,
        ensures
            invocation_wf(result.0@),
            result.0@.attempt == 1,
            result.0@.max_attempts == max_attempts,
            result.0@.attempts_started == 0,
            !result.0@.started,
            !result.0@.finished,
            result.0@.permit == ServicePermit::Unacquired,
            result.0@.request_id == request_id@,
            result.0@.pending is None,
            running ==> result.0@.phase == CallPhase::Admitting && result.1 is AcquireAdmission,
            !running ==> result.0@.phase == CallPhase::Done
                && ends_with(result.1, result.0@, Err(closed_invocation_view())),
    {
        let mut invocation = Invocation {
            phase: CallPhase::Admitting,
            attempt: 1,
            max_attempts,
            attempts_started: 0,
            started: false,
            finished: false,
            permit: ServicePermit::Unacquired,
            request_id,
            pending: None,
        };
        if running {
            (invocation, CallNext::AcquireAdmission)
        } else {
            invocation.phase = CallPhase::Done;
            let error = closed_invocation().with_request_id(invocation.request_id.as_str());
            (invocation, CallNext::Finish(Err(error)))
        }
    }

    /// Returns the phase.
    pub fn phase(&self) -> (phase: CallPhase)
        ensures
            phase == self@.phase,
    {
        self.phase
    }

    /// Returns the number of the current attempt.
    pub fn attempt(&self) -> (attempt: u8)
        ensures
            attempt == self@.attempt,
    {
        self.attempt
    }

    /// Returns how many attempts have sent a request.
    pub fn attempts_started(&self) -> (attempts: u8)
        ensures
            attempts == self@.attempts_started,
    {
        self.attempts_started
    }

    fn stamp(&self, error: Error) -> (stamped_error: Error)
        ensures
            stamped_error@ == stamped(error@, self@),
    {
        let attempts = if error.attempts() >= self.attempts_started { error.attempts() } else { self.attempts_started };
        error.with_attempts(attempts).with_request_id(self.request_id.as_str())
    }

    fn settle(&mut self, action: PermitAction, effects: &mut Vec<CallEffect>)
        requires
            old(self)@.permit == ServicePermit::Held,
        ensures
            final(self)@ == (InvocationView { permit: ServicePermit::Settled, ..old(self)@ }),
            effect_views(final(effects)@) == effect_views(old(effects)@).push(CallEffectView::SettleServicePermit(action)),
    {
        self.permit = ServicePermit::Settled;
        effects.push(CallEffect::SettleServicePermit(action));
        assert(effect_views(effects@) =~= effect_views(old(effects)@).push(CallEffectView::SettleServicePermit(action)));
    }

    fn finish(&mut self, end: Result<u16, Error>, effects: &mut Vec<CallEffect>) -> (next: CallNext)
        requires
            old(self)@.permit != ServicePermit::Held,
            !old(self)@.finished,
        ensures
            final(self)@ == (InvocationView { phase: CallPhase::Done, finished: old(self)@.started, pending: None,
                ..old(self)@ }),
            effect_views(final(effects)@) == effect_views(old(effects)@) + finish_effects(old(self)@, match end {
                Ok(status) => Ok(status),
                Err(e) => Err(e@),
            }),
            ends_with(next, old(self)@, match end {
                Ok(status) => Ok(status),
                Err(e) => Err(e@),
            }),
    {
        let ghost outcome: Result<u16, ErrorView> = match &end {
            Ok(status) => Ok(*status),
            Err(e) => Err(e@),
        };
        let next = match end {
            Ok(status) => {
                if self.started {
                    effects.push(CallEffect::RecordFinished {
                        outcome: invocation_outcome(None),
                        attempts: self.attempts_started,
                        status_class: status_class(status),
                        error_code: None,
                    });
                }
                CallNext::Finish(Ok(()))
            },
            Err(error) => {
                let error = self.stamp(error);
                if self.started {
                    let code = error.code().as_str().to_owned();
                    effects.push(CallEffect::RecordFinished {
                        outcome: invocation_outcome(Some(error.category())),
                        attempts: error.attempts(),
                        status_class: status_class(error.status()),
                        error_code: Some(code),
                    });
                }
                CallNext::Finish(Err(error))
            },
        };
        assert(effect_views(effects@) =~= effect_views(old(effects)@) + finish_effects(old(self)@, outcome));
        self.phase = CallPhase::Done;
        self.finished = self.started;
        self.pending = None;
        next
    }

    /// Handles admission: a refusal ends the invocation with that error and no metric
    /// events; once admitted the started event is recorded.
    pub fn admitted(&mut self, result: Result<(), Error>, effects: &mut Vec<CallEffect>) -> (next: CallNext)
        requires
            old(self)@.phase == CallPhase::Admitting,
            invocation_wf(old(self)@),
        ensures
            invocation_wf(final(self)@),
            result is Ok ==> next is Prepare
                && final(self)@ == (InvocationView { phase: CallPhase::Preparing, started: true, ..old(self)@ })
                && effect_views(final(effects)@) == effect_views(old(effects)@).push(CallEffectView::RecordStarted),
            result matches Err(e) ==> ends_with(next, old(self)@, Err(e@))
                && final(self)@ == (InvocationView { phase: CallPhase::Done, ..old(self)@ })
                && effect_views(final(effects)@) == effect_views(old(effects)@),
    {
        match result {
            Ok(()) => {
                self.started = true;
                self.phase = CallPhase::Preparing;
                effects.push(CallEffect::RecordStarted);
                assert(effect_views(effects@) =~= effect_views(old(effects)@).push(CallEffectView::RecordStarted));
                CallNext::Prepare
            },
            Err(error) => {
                let next = self.finish(Err(error), effects);
                assert(effect_views(effects@) =~= effect_views(old(effects)@));
                next
            },
        }
    }

    /// Handles preparation: with a service permit the first attempt selects an
    /// endpoint; a refused breaker ends with `circuit_open`, a failure with its error.
    pub fn prepared(&mut self, outcome: Preparation, effects: &mut Vec<CallEffect>) -> (next: CallNext)
        requires
            old(self)@.phase == CallPhase::Preparing,
            invocation_wf(old(self)@),
        ensures
            invocation_wf(final(self)@),
            outcome is Acquired ==> next == CallNext::SelectEndpoint(old(self)@.attempt)
                && final(self)@ == (InvocationView {
                    phase: CallPhase::Selecting,
                    permit: ServicePermit::Held,
                    ..old(self)@
                }) && effect_views(final(effects)@) == effect_views(old(effects)@),
            outcome is Refused ==> ends_with(next, old(self)@, Err(circuit_open_view()))
                && final(self)@ == (InvocationView { phase: CallPhase::Done, finished: true, ..old(self)@ })
                && effect_views(final(effects)@) == effect_views(old(effects)@)
                    + finish_effects(old(self)@, Err(circuit_open_view())),
            outcome matches Preparation::Failed(e) ==> ends_with(next, old(self)@, Err(e@))
                && final(self)@ == (InvocationView { phase: CallPhase::Done, finished: true, ..old(self)@ })
                && effect_views(final(effects)@) == effect_views(old(effects)@) + finish_effects(old(self)@, Err(e@)),
    {
        match outcome {
            Preparation::Acquired => {
                self.permit = ServicePermit::Held;
                self.phase = CallPhase::Selecting;
                CallNext::SelectEndpoint(self.attempt)
            },
            Preparation::Refused => self.finish(Err(circuit_open()), effects),
            Preparation::Failed(error) => self.finish(Err(error), effects),
        }
    }

    /// Handles endpoint selection: a failure returns or charges the service permit,
    /// as no request or some request went out, and ends with the error.
    pub fn selected(&mut self, outcome: SelectionResult, effects: &mut Vec<CallEffect>) -> (next: CallNext)
        requires
            old(self)@.phase == CallPhase::Selecting,
            invocation_wf(old(self)@),
        ensures
            invocation_wf(final(self)@),
            outcome is Selected ==> next == CallNext::Send(old(self)@.attempt)
                && final(self)@ == (InvocationView { phase: CallPhase::Sending, ..old(self)@ })
                && effect_views(final(effects)@) == effect_views(old(effects)@),
            outcome matches SelectionResult::Failed(e, class) ==> ends_with(next, old(self)@, Err(e@))
                && final(self)@ == (InvocationView {
                    phase: CallPhase::Done,
                    finished: true,
                    permit: ServicePermit::Settled,
                    ..old(self)@
                })
                && effect_views(final(effects)@) == effect_views(old(effects)@).push(failed_settlement(old(self)@, class))
                    + finish_effects(old(self)@, Err(e@)),
    {
        match outcome {
            SelectionResult::Selected => {
                self.phase = CallPhase::Sending;
                CallNext::Send(self.attempt)
            },
            SelectionResult::Failed(error, class) => {
                let action = settle_service_permit(AttemptsOutcome::Failed(class), self.attempts_started);
                self.settle(action, effects);
                self.finish(Err(error), effects)
            },
        }
    }

    /// Handles an attempt that returned a response, settling the service permit.
    /// `sent` tells whether the attempt sent its request; `end` is how the invocation
    /// ends once the response is read: with its status, or with an error.
    pub fn returned(&mut self, sent: bool, endpoint_permit_held: bool, service_failure: Option<FailureClass>,
        end: Result<u16, Error>, effects: &mut Vec<CallEffect>) -> (next: CallNext)
        requires
            old(self)@.phase == CallPhase::Sending,
            invocation_wf(old(self)@),
        ensures
            invocation_wf(final(self)@),
            ({
                let v = after_send(old(self)@, sent);
                let outcome = match end {
                    Ok(status) => Ok(status),
                    Err(e) => Err(e@),
                };
                &&& final(self)@ == (InvocationView {
                    phase: CallPhase::Done,
                    finished: true,
                    permit: ServicePermit::Settled,
                    ..v
                })
                &&& effect_views(final(effects)@) == effect_views(old(effects)@).push(CallEffectView::SettleServicePermit(
                    match service_failure {
                        Some(f) => PermitAction::Fail(f),
                        None => if endpoint_permit_held {
                            PermitAction::Hold
                        } else if v.attempts_started == 0 {
                            PermitAction::ReleaseUnattempted
                        } else {
                            PermitAction::Drop
                        },
                    },
                )) + finish_effects(v, outcome)
                &&& ends_with(next, v, outcome)
            }),
    {
        if sent {
            self.attempts_started = self.attempt;
        }
        let action = settle_service_permit(
            AttemptsOutcome::Returned { endpoint_permit_held, service_failure },
            self.attempts_started,
        );
        self.settle(action, effects);
        self.finish(end, effects)
    }

    /// Handles a failed attempt; its error is counted with the attempts started. At the
    /// hard attempt limit, or when the retry delay does not fit the deadline (`delay` is
    /// `None`), the invocation ends with that error without asking the retry policy, so
    /// no retry token is spent; otherwise the policy is asked next.
    pub fn failed(&mut self, error: Error, class: FailureClass, sent: bool, delay: Option<Duration>,
        effects: &mut Vec<CallEffect>) -> (next: CallNext)
        requires
            old(self)@.phase == CallPhase::Sending,
            invocation_wf(old(self)@),
        ensures
            invocation_wf(final(self)@),
            ({
                let v = after_send(old(self)@, sent);
                if old(self)@.attempt >= old(self)@.max_attempts || delay is None {
                    &&& final(self)@ == (InvocationView {
                        phase: CallPhase::Done,
                        finished: true,
                        permit: ServicePermit::Settled,
                        ..v
                    })
                    &&& effect_views(final(effects)@) == effect_views(old(effects)@).push(failed_settlement(v, class))
                        + finish_effects(v, Err(counted(error@, v)))
                    &&& ends_with(next, v, Err(counted(error@, v)))
                } else {
                    &&& next == CallNext::ConsultPolicy(old(self)@.attempt)
                    &&& final(self)@ == (InvocationView {
                        phase: CallPhase::Deciding,
                        pending: Some((counted(error@, v), class, delay->Some_0@)),
                        ..v
                    })
                    &&& effect_views(final(effects)@) == effect_views(old(effects)@)
                }
            }),
            next matches CallNext::Finish(r) ==> (r matches Err(x) && x@.attempts <= old(self)@.max_attempts),
    {
        if sent {
            self.attempts_started = self.attempt;
        }
        let error = error.with_attempts(self.attempts_started);
        if self.attempt >= self.max_attempts || delay.is_none() {
            let action = settle_service_permit(AttemptsOutcome::Failed(class), self.attempts_started);
            self.settle(action, effects);
            return self.finish(Err(error), effects);
        }
        match delay {
            Some(d) => {
                self.pending = Some((error, class, d));
                self.phase = CallPhase::Deciding;
                CallNext::ConsultPolicy(self.attempt)
            },
            None => {
                assert(false);
                CallNext::ConsultPolicy(self.attempt)
            },
        }
    }

    /// Handles the retry policy's verdict on the pending failed attempt: retry after
    /// its delay, stop with its error, or, when the policy panicked, stop with the
    /// policy's internal error.
    pub fn decided(&mut self, verdict: PolicyVerdict, effects: &mut Vec<CallEffect>) -> (next: CallNext)
        requires
            old(self)@.phase == CallPhase::Deciding,
            invocation_wf(old(self)@),
        ensures
            invocation_wf(final(self)@),
            ({
                let v = old(self)@;
                let (error, class, delay) = v.pending->Some_0;
                let done = InvocationView {
                    phase: CallPhase::Done,
                    finished: true,
                    permit: ServicePermit::Settled,
                    pending: None,
                    ..v
                };
                match verdict {
                    PolicyVerdict::Retry => (next matches CallNext::Sleep(d) && d@ == delay)
                        && final(self)@ == (InvocationView { phase: CallPhase::Backoff, pending: None, ..v })
                        && effect_views(final(effects)@) == effect_views(old(effects)@),
                    PolicyVerdict::Stop => final(self)@ == done
                        && effect_views(final(effects)@) == effect_views(old(effects)@).push(failed_settlement(v, class))
                            + finish_effects(v, Err(error))
                        && ends_with(next, v, Err(error)),
                    PolicyVerdict::Panicked => {
                        let policy_error = ErrorView { attempts: v.attempts_started, ..retry_policy_panic_view() };
                        &&& final(self)@ == done
                        &&& effect_views(final(effects)@) == effect_views(old(effects)@).push(failed_settlement(v, class))
                            + finish_effects(v, Err(policy_error))
                        &&& ends_with(next, v, Err(policy_error))
                    },
                }
            }),
            next matches CallNext::Finish(r) ==> (r matches Err(x) && x@.attempts <= old(self)@.max_attempts),
    {
        let pending = self.pending.take();
        let (error, class, delay) = match pending {
            Some(p) => p,
            None => {
                assert(false);
                return CallNext::Finish(Ok(()));
            },
        };
        let action = settle_service_permit(AttemptsOutcome::Failed(class), self.attempts_started);
        match retry_step(Some(delay), verdict, self.attempts_started) {
            RetryStep::Retry(d) => {
                self.phase = CallPhase::Backoff;
                CallNext::Sleep(d)
            },
            RetryStep::Stop => {
                self.settle(action, effects);
                self.finish(Err(error), effects)
            },
            RetryStep::Fail(policy_error) => {
                self.settle(action, effects);
                self.finish(Err(policy_error), effects)
            },
        }
    }

    /// Handles the end of a retry delay: cancelled, the invocation ends as cancelled;
    /// otherwise the next attempt selects an endpoint.
    pub fn slept(&mut self, was_cancelled: bool, effects: &mut Vec<CallEffect>) -> (next: CallNext)
        requires
            old(self)@.phase == CallPhase::Backoff,
            invocation_wf(old(self)@),
        ensures
            invocation_wf(final(self)@),
            !was_cancelled ==> next == CallNext::SelectEndpoint((old(self)@.attempt + 1) as u8)
                && final(self)@ == (InvocationView {
                    phase: CallPhase::Selecting,
                    attempt: (old(self)@.attempt + 1) as u8,
                    ..old(self)@
                }) && effect_views(final(effects)@) == effect_views(old(effects)@),
            was_cancelled ==> ends_with(next, old(self)@, Err(cancelled_view()))
                && final(self)@ == (InvocationView {
                    phase: CallPhase::Done,
                    finished: true,
                    permit: ServicePermit::Settled,
                    ..old(self)@
                })
                && effect_views(final(effects)@) == effect_views(old(effects)@).push(
                    failed_settlement(old(self)@, FailureClass::Cancelled))
                    + finish_effects(old(self)@, Err(cancelled_view())),
    {
        if was_cancelled {
            let action = settle_service_permit(AttemptsOutcome::Failed(FailureClass::Cancelled), self.attempts_started);
            self.settle(action, effects);
            self.finish(Err(cancelled()), effects)
        } else {
            self.attempt = self.attempt + 1;
            self.phase = CallPhase::Selecting;
            CallNext::SelectEndpoint(self.attempt)
        }
    }

    /// The invocation deadline elapsed (`timed_out`) or the runtime force-cancelled
    /// in-flight work while the admitted invocation was still running: a held service
    /// permit is dropped unsampled and the invocation ends as timed out or cancelled.
    /// `sent` tells whether a running attempt had sent its request.
    pub fn interrupted(&mut self, timed_out: bool, sent: bool, effects: &mut Vec<CallEffect>) -> (next: CallNext)
        requires
            old(self)@.phase == CallPhase::Preparing || old(self)@.phase == CallPhase::Selecting
                || old(self)@.phase == CallPhase::Sending || old(self)@.phase == CallPhase::Deciding
                || old(self)@.phase == CallPhase::Backoff,
            invocation_wf(old(self)@),
        ensures
            invocation_wf(final(self)@),
            ({
                let v = if old(self)@.phase == CallPhase::Sending { after_send(old(self)@, sent) } else { old(self)@ };
                let failure = if timed_out { deadline_exceeded_view() } else { cancelled_view() };
                let settled = if old(self)@.permit == ServicePermit::Held {
                    seq![CallEffectView::SettleServicePermit(PermitAction::Drop)]
                } else {
                    Seq::empty()
                };
                &&& final(self)@ == (InvocationView {
                    phase: CallPhase::Done,
                    finished: true,
                    permit: if old(self)@.permit == ServicePermit::Held { ServicePermit::Settled } else { v.permit },
                    pending: None,
                    ..v
                })
                &&& effect_views(final(effects)@) == effect_views(old(effects)@) + settled + finish_effects(v, Err(failure))
                &&& ends_with(next, v, Err(failure))
            }),
    {
        if self.phase == CallPhase::Sending && sent {
            self.attempts_started = self.attempt;
        }
        let ghost before = effect_views(effects@);
        let held = self.permit == ServicePermit::Held;
        if held {
            self.settle(PermitAction::Drop, effects);
        }
        let ghost middle = effect_views(effects@);
        let error = if timed_out { deadline_exceeded() } else { cancelled() };
        let next = self.finish(Err(error), effects);
        proof {
            if held {
                assert(middle =~= before + seq![CallEffectView::SettleServicePermit(PermitAction::Drop)]);
            } else {
                assert(middle =~= before + Seq::<CallEffectView>::empty());
            }
        }
        next
    }
}

/// The client's invocation-started metric event: client side, no HTTP version.
pub fn client_started_event<'a>(binding: &'a str, service: &'a str, method: &'a str) -> (event: InvocationStartedEvent<'a>)
    ensures
        event.spec_side() == MetricSide::Client,
        event.spec_http_version() is None,
        event.spec_binding() == binding,
        event.spec_service() == service,
        event.spec_method() == method,
{
    InvocationStartedEvent::new(MetricSide::Client, binding, None, service, method)
}

/// The client's invocation-finished metric event of a `RecordFinished` effect: client
/// side, no HTTP version, and the effect's outcome, attempts, status class and error
/// code; `None` for any other effect.
pub fn client_finished_event<'a>(effect: &'a CallEffect, binding: &'a str, service: &'a str, method: &'a str,
    duration: Duration) -> (event: Option<InvocationFinishedEvent<'a>>)
    ensures
        match effect {
            CallEffect::RecordFinished { outcome, attempts, status_class, error_code } => event matches Some(e)
                && e.spec_side() == MetricSide::Client
                && e.spec_http_version() is None
                && e.spec_binding() == binding
                && e.spec_service() == service
                && e.spec_method() == method
                && e.spec_outcome() == *outcome
                && e.spec_attempts() == *attempts
                && e.spec_status_class() == Some(*status_class)
                && (match error_code {
                    Some(code) => e.spec_error_code() matches Some(c) && c@ == code@,
                    None => e.spec_error_code() is None,
                })
                && e.spec_duration() == duration,
            _ => event is None,
        },
{
    match effect {
        CallEffect::RecordFinished { outcome, attempts, status_class, error_code } => {
            let code: Option<&'a str> = match error_code {
                Some(c) => Some(c.as_str()),
                None => None,
            };
            Some(InvocationFinishedEvent::new(
                MetricSide::Client,
                binding,
                None,
                service,
                method,
                *outcome,
                Some(*status_class),
                code,
                duration,
                *attempts,
            ))
        },
        _ => None,
    }
}

/// No attempt is numbered, and no request is sent, past the hard attempt limit.
pub proof fn lemma_attempts_within_limit(v: InvocationView)
    requires
        invocation_wf(v),
    ensures
        v.attempts_started <= v.attempt <= v.max_attempts,
{
}

/// A finished invocation has recorded its finished event exactly when it recorded
/// its started event, and holds no service permit.
pub proof fn lemma_finished_events_paired(v: InvocationView)
    requires
        invocation_wf(v),
        v.phase == CallPhase::Done,
    ensures
        v.finished == v.started,
        v.permit != ServicePermit::Held,
{
}

/// The error an invocation ends with reports no fewer attempts than it carried and
/// than the invocation started, exactly the larger of the two, carries the
/// invocation's request identifier, and keeps its kind, category, code, message and
/// status.
pub proof fn lemma_stamped_error(e: ErrorView, v: InvocationView)
    ensures
        stamped(e, v).attempts >= e.attempts,
        stamped(e, v).attempts >= v.attempts_started,
        stamped(e, v).attempts == e.attempts || stamped(e, v).attempts == v.attempts_started,
        stamped(e, v).request_id == Some(v.request_id),
        stamped(e, v).kind == e.kind,
        stamped(e, v).category == e.category,
        stamped(e, v).code == e.code,
        stamped(e, v).message == e.message,
        stamped(e, v).status == e.status,
{
}

/// An admitted invocation finishes with exactly one finished event and a refused one
/// with none. A response finishes as a success with its status class and no error
/// code, after the attempts started; an error finishes as no success, with its own
/// status class and code and at least the attempts started.
pub proof fn lemma_finish_events(v: InvocationView, end: Result<u16, ErrorView>)
    ensures
        v.started ==> finish_effects(v, end).len() == 1,
        !v.started ==> finish_effects(v, end).len() == 0,
        end matches Ok(status) ==> finished_event(v, end) == (CallEffectView::RecordFinished {
            outcome: MetricOutcome::Success,
            attempts: v.attempts_started,
            status_class: spec_status_class(status),
            error_code: None,
        }),
        end matches Err(e) ==> (finished_event(v, end) matches CallEffectView::RecordFinished {
            outcome, attempts, status_class, error_code }
            && outcome != MetricOutcome::Success
            && outcome == spec_invocation_outcome(Some(e.category))
            && attempts >= v.attempts_started
            && attempts >= e.attempts
            && status_class == spec_status_class(e.status)
            && error_code == Some(e.code)),
        v.started ==> finish_effects(v, end)[0] == finished_event(v, end),
{
}

/// A failed invocation returns its service permit unsampled when no attempt sent a
/// request, and charges it with the failure otherwise.
pub proof fn lemma_failed_settlement(v: InvocationView, class: FailureClass)
    ensures
        v.attempts_started == 0 ==> failed_settlement(v, class) == CallEffectView::SettleServicePermit(
            PermitAction::ReleaseUnattempted),
        v.attempts_started > 0 ==> failed_settlement(v, class) == CallEffectView::SettleServicePermit(
            PermitAction::Fail(class)),
{
}

/// The indices of the endpoints whose breaker granted a permit, in order.
pub open spec fn granted_indices(granted: Seq<bool>) -> Seq<usize>
    decreases granted.len(),
{
    if granted.len() == 0 {
        Seq::empty()
    } else if granted.last() {
        granted_indices(granted.drop_last()).push((granted.len() - 1) as usize)
    } else {
        granted_indices(granted.drop_last())
    }
}

/// Every granted index is a position of `granted`, and the indices ascend.
pub proof fn lemma_granted_indices_bounded(granted: Seq<bool>)
    ensures
        forall|j: int| 0 <= j < granted_indices(granted).len() ==> (#[trigger] granted_indices(granted)[j]) < granted.len(),
    decreases granted.len(),
{
    if granted.len() > 0 {
        lemma_granted_indices_bounded(granted.drop_last());
        let rest = granted_indices(granted.drop_last());
        assert forall|j: int| 0 <= j < granted_indices(granted).len()
            implies (#[trigger] granted_indices(granted)[j]) < granted.len() by {
            if j < rest.len() {
                assert(granted_indices(granted)[j] == rest[j]);
            }
        }
    }
}

/// The granted indices are exactly the positions whose breaker granted a permit, each
/// once and in ascending order; there are none exactly when every breaker refused.
pub proof fn lemma_granted_indices(granted: Seq<bool>)
    requires
        granted.len() <= usize::MAX,
    ensures
        forall|j: int| 0 <= j < granted_indices(granted).len() ==> {
            &&& (#[trigger] granted_indices(granted)[j]) < granted.len()
            &&& granted[granted_indices(granted)[j] as int]
        },
        forall|j: int, k: int| 0 <= j < k < granted_indices(granted).len()
            ==> #[trigger] granted_indices(granted)[j] < #[trigger] granted_indices(granted)[k],
        forall|i: int| 0 <= i < granted.len() && #[trigger] granted[i] ==> granted_indices(granted).contains(i as usize),
        granted_indices(granted).len() == 0 <==> forall|i: int| 0 <= i < granted.len() ==> !#[trigger] granted[i],
    decreases granted.len(),
{
    if granted.len() > 0 {
        let init = granted.drop_last();
        lemma_granted_indices(init);
        let rest = granted_indices(init);
        let all = granted_indices(granted);
        if granted.last() {
            assert(all == rest.push((granted.len() - 1) as usize));
        } else {
            assert(all == rest);
        }
        assert forall|j: int| 0 <= j < rest.len() implies all[j] == rest[j] by {}
        assert forall|j: int| 0 <= j < all.len() implies {
            &&& (#[trigger] all[j]) < granted.len()
            &&& granted[all[j] as int]
        } by {
            if j < rest.len() {
                assert(rest[j] < init.len());
                assert(init[rest[j] as int] == granted[rest[j] as int]);
            } else {
                assert(all[j] == (granted.len() - 1) as usize);
            }
        }
        assert forall|j: int, k: int| 0 <= j < k < all.len() implies #[trigger] all[j] < #[trigger] all[k] by {
            if k < rest.len() {
                assert(rest[j] < rest[k]);
            } else {
                assert(all[k] == (granted.len() - 1) as usize);
                assert(rest[j] < init.len());
            }
        }
        assert forall|i: int| 0 <= i < granted.len() && #[trigger] granted[i] implies all.contains(i as usize) by {
            if i < init.len() {
                assert(init[i] == granted[i]);
                let w = choose|w: int| 0 <= w < rest.len() && rest[w] == i as usize;
                assert(all[w] == i as usize);
            } else {
                assert(all[all.len() - 1] == i as usize);
            }
        }
        if all.len() == 0 {
            assert forall|i: int| 0 <= i < granted.len() implies !#[trigger] granted[i] by {
                if granted[i] {
                    assert(all.contains(i as usize));
                }
            }
        } else {
            assert(granted[all[0] as int]);
        }
    }
}

/// The eligible endpoints of an attempt: those whose endpoint breaker granted a
/// permit, in order; when every breaker refused, the attempt fails with `circuit_open`.
pub fn eligible_endpoints(granted: &Vec<bool>) -> (result: Result<Vec<usize>, Error>)
    ensures
        granted_indices(granted@).len() == 0 ==> (result matches Err(e) && e@ == circuit_open_view() && e.wf()),
        granted_indices(granted@).len() > 0 ==> (result matches Ok(indices) && indices@ == granted_indices(granted@)),
{
    let mut indices: Vec<usize> = Vec::new();
    let mut i: usize = 0;
    while i < granted.len()
        invariant
            i <= granted@.len(),
            indices@ == granted_indices(granted@.take(i as int)),
        decreases granted@.len() - i,
    {
        assert(granted@.take(i + 1).drop_last() =~= granted@.take(i as int));
        if granted[i] {
            indices.push(i);
        }
        i = i + 1;
    }
    assert(granted@.take(granted@.len() as int) =~= granted@);
    if indices.len() == 0 {
        Err(circuit_open())
    } else {
        Ok(indices)
    }
}

/// The view of the error of an attempt whose endpoint has no concurrency left.
pub open spec fn endpoint_overloaded_view() -> ErrorView {
    fresh_error(ErrorKind::Framework, ErrorCategory::ResourceExhausted, "endpoint_overloaded"@,
        "selected endpoint concurrency is exhausted"@, 429)
}

/// Admits an attempt through its endpoint bulkhead: without a free slot the attempt
/// fails with `endpoint_overloaded` before anything is encoded.
pub fn bulkhead_admission(acquired: bool) -> (result: Result<(), Error>)
    ensures
        acquired ==> result is Ok,
        !acquired ==> (result matches Err(e) && e@ == endpoint_overloaded_view() && e.wf()),
{
    if acquired {
        Ok(())
    } else {
        Err(endpoint_overloaded())
    }
}

} // verus!
