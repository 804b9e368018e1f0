use crate::registry::{RegistryError, RegistryErrorKind, RegistryOperation};
use vstd::prelude::*;

verus! {

/// Whether the provider work of a prepared handle has been handed to a worker.
#[derive(Clone, Copy, Debug, PartialEq, Eq, Structural)]
pub enum StartPhase {
    /// Activation and cleanup are prepared and nothing has run.
    Prepared,
    /// A worker owns activation and cleanup.
    Started,
    /// The handle finished without starting a worker.
    Finished,
}

/// What a caller of [`Lifecycle::ensure_started`] must do next.
pub enum StartOutcome {
    /// Nothing more to do; the activation result is or will be published.
    Ready,
    /// The caller must now run the worker that owns activation and cleanup.
    SpawnWorker,
    /// Activation could not start; this error is also the published activation result.
    Failed(RegistryError),
}

/// How the provider's activation future ended inside the worker.
pub enum ActivationOutcome {
    /// The future completed with this result.
    Completed(Result<(), RegistryError>),
    /// The future panicked.
    Panicked,
}

/// How the provider's cleanup ended inside the worker.
pub enum CleanupOutcome {
    /// The cleanup future completed with this result.
    Completed(Result<(), RegistryError>),
    /// The cleanup future panicked.
    Panicked,
    /// Constructing the cleanup future panicked.
    FactoryPanicked,
}

/// The activation result published when a handle closes before activation starts.
pub open spec fn closed_before_activation(operation: RegistryOperation, result: Result<(), RegistryError>) -> bool {
    &&& result is Err
    &&& result->Err_0.spec_operation() == operation
    &&& result->Err_0.spec_kind() == RegistryErrorKind::Cancelled
    &&& result->Err_0.spec_message() == "registry handle closed before activation"@
}

/// Whether `result` is an error with this operation, kind and message.
pub open spec fn is_error(
    result: Result<(), RegistryError>,
    operation: RegistryOperation,
    kind: RegistryErrorKind,
    message: Seq<char>,
) -> bool {
    &&& result is Err
    &&& result->Err_0.spec_operation() == operation
    &&& result->Err_0.spec_kind() == kind
    &&& result->Err_0.spec_message() == message
}

fn copy_result(result: &Option<Result<(), RegistryError>>) -> (copy: Option<Result<(), RegistryError>>)
    ensures
        copy == *result,
{
    match result {
        None => None,
        Some(inner) => match inner {
            Ok(unit) => Some(Ok(*unit)),
            Err(error) => Some(Err(error.duplicate())),
        },
    }
}

/// The shared lifecycle of one prepared registration or subscription handle.
///
/// Activation and cleanup each publish exactly one terminal result that every
/// clone of the handle observes; a published result never changes, the worker is
/// started at most once, and closing before activation cancels activation without
/// running any provider work.
pub struct Lifecycle {
    activation_operation: RegistryOperation,
    close_operation: RegistryOperation,
    phase: StartPhase,
    close_requested: bool,
    waiters: usize,
    activation_observed: bool,
    activation: Option<Result<(), RegistryError>>,
    close: Option<Result<(), RegistryError>>,
}

impl Lifecycle {
    /// The operation reported for activation failures.
    pub closed spec fn spec_activation_operation(&self) -> RegistryOperation {
        self.activation_operation
    }

    /// The operation reported for cleanup failures.
    pub closed spec fn spec_close_operation(&self) -> RegistryOperation {
        self.close_operation
    }

    /// Whether provider work has been handed to a worker.
    pub closed spec fn spec_phase(&self) -> StartPhase {
        self.phase
    }

    /// Whether cleanup has been requested.
    pub closed spec fn spec_close_requested(&self) -> bool {
        self.close_requested
    }

    /// The number of pending activation waiters.
    pub closed spec fn spec_waiters(&self) -> usize {
        self.waiters
    }

    /// Whether some waiter has observed the activation result.
    pub closed spec fn spec_activation_observed(&self) -> bool {
        self.activation_observed
    }

    /// The published activation result.
    pub closed spec fn spec_activation(&self) -> Option<Result<(), RegistryError>> {
        self.activation
    }

    /// The published cleanup result.
    pub closed spec fn spec_close(&self) -> Option<Result<(), RegistryError>> {
        self.close
    }

    /// The lifecycle invariant: nothing is published while prepared, cleanup is
    /// published only after activation, and a finished handle has published both.
    pub closed spec fn wf(&self) -> bool {
        &&& self.phase == StartPhase::Prepared ==> self.activation is None && self.close is None
        &&& self.close is Some ==> self.activation is Some
        &&& self.phase == StartPhase::Finished ==> self.activation is Some && self.close is Some
    }

    /// Published results never change from `self` to `next`.
    pub open spec fn keeps_results(&self, next: &Lifecycle) -> bool {
        &&& self.spec_activation() is Some ==> next.spec_activation() == self.spec_activation()
        &&& self.spec_close() is Some ==> next.spec_close() == self.spec_close()
        &&& self.spec_activation_operation() == next.spec_activation_operation()
        &&& self.spec_close_operation() == next.spec_close_operation()
    }

    /// The start phase only moves forward from `self` to `next`.
    pub open spec fn advances_phase(&self, next: &Lifecycle) -> bool {
        &&& self.spec_phase() == StartPhase::Started ==> next.spec_phase() == StartPhase::Started
        &&& self.spec_phase() == StartPhase::Finished ==> next.spec_phase() == StartPhase::Finished
        &&& self.spec_close_requested() ==> next.spec_close_requested()
    }

    /// Prepares a lifecycle whose failures are reported under the given operations.
    pub fn new(activation_operation: RegistryOperation, close_operation: RegistryOperation) -> (lifecycle: Self)
        ensures
            lifecycle.wf(),
            lifecycle.spec_activation_operation() == activation_operation,
            lifecycle.spec_close_operation() == close_operation,
            lifecycle.spec_phase() == StartPhase::Prepared,
            !lifecycle.spec_close_requested(),
            lifecycle.spec_waiters() == 0,
            !lifecycle.spec_activation_observed(),
    {
        Lifecycle {
            activation_operation,
            close_operation,
            phase: StartPhase::Prepared,
            close_requested: false,
            waiters: 0,
            activation_observed: false,
            activation: None,
            close: None,
        }
    }

    /// Returns whether provider work has been handed to a worker.
    pub fn phase(&self) -> (phase: StartPhase)
        ensures
            phase == self.spec_phase(),
    {
        self.phase
    }

    /// Returns whether cleanup has been requested.
    pub fn close_requested(&self) -> (requested: bool)
        ensures
            requested == self.spec_close_requested(),
    {
        self.close_requested
    }

    /// Returns the number of pending activation waiters.
    pub fn waiters(&self) -> (waiters: usize)
        ensures
            waiters == self.spec_waiters(),
    {
        self.waiters
    }

    /// Returns a copy of the published activation result.
    pub fn activation_result(&self) -> (result: Option<Result<(), RegistryError>>)
        ensures
            result == self.spec_activation(),
    {
        copy_result(&self.activation)
    }

    /// Returns a copy of the published cleanup result.
    pub fn close_result(&self) -> (result: Option<Result<(), RegistryError>>)
        ensures
            result == self.spec_close(),
    {
        copy_result(&self.close)
    }

    fn publish_pre_activation_close(&mut self)
        requires
            old(self).phase == StartPhase::Prepared,
            old(self).activation is None,
            old(self).close is None,
        ensures
            final(self).phase == StartPhase::Finished,
            closed_before_activation(old(self).activation_operation, final(self).activation->Some_0),
            final(self).activation is Some,
            final(self).close == Some(Ok::<(), RegistryError>(())),
            final(self).activation_operation == old(self).activation_operation,
            final(self).close_operation == old(self).close_operation,
            final(self).close_requested == old(self).close_requested,
            final(self).waiters == old(self).waiters,
            final(self).activation_observed == old(self).activation_observed,
    {
        self.phase = StartPhase::Finished;
        self.activation = Some(Err(RegistryError::message(
            self.activation_operation,
            RegistryErrorKind::Cancelled,
            "registry handle closed before activation",
        )));
        self.close = Some(Ok(()));
    }

    /// Starts activation once. `runtime_error` is `None` when a runtime is available
    /// to run the worker, or else the text of the reason none is.
    ///
    /// With a published activation result nothing happens. Without a runtime the
    /// handle finishes with an internal activation failure. A handle already started
    /// or finished is left alone; a prepared handle whose close was requested finishes
    /// as cancelled; otherwise the handle is started and the caller must run the worker.
    pub fn ensure_started(&mut self, runtime_error: Option<&str>) -> (outcome: StartOutcome)
        requires
            old(self).wf(),
        ensures
            final(self).wf(),
            old(self).keeps_results(&*final(self)),
            old(self).advances_phase(&*final(self)),
            final(self).spec_waiters() == old(self).spec_waiters(),
            final(self).spec_close_requested() == old(self).spec_close_requested(),
            final(self).spec_activation_observed() == old(self).spec_activation_observed(),
            outcome is SpawnWorker <==> (old(self).spec_activation() is None
                && runtime_error is None && old(self).spec_phase() == StartPhase::Prepared
                && !old(self).spec_close_requested()),
            outcome is SpawnWorker ==> final(self).spec_phase() == StartPhase::Started,
            !(outcome is SpawnWorker) && old(self).spec_phase() != StartPhase::Started ==> final(self).spec_activation() is Some
                && final(self).spec_close() is Some,
            outcome is Failed <==> (old(self).spec_activation() is None && runtime_error is Some),
            outcome matches StartOutcome::Failed(error) ==> {
                &&& error.spec_operation() == old(self).spec_activation_operation()
                &&& error.spec_kind() == RegistryErrorKind::Internal
                &&& error.spec_source() == runtime_error->Some_0@
                &&& old(self).spec_phase() == StartPhase::Prepared ==> {
                    &&& final(self).spec_phase() == StartPhase::Finished
                    &&& final(self).spec_activation() == Some(Err::<(), RegistryError>(error))
                    &&& final(self).spec_close() == Some(Ok::<(), RegistryError>(()))
                }
            },
            old(self).spec_activation() is None && runtime_error is None
                && old(self).spec_phase() == StartPhase::Prepared && old(self).spec_close_requested() ==> {
                &&& final(self).spec_phase() == StartPhase::Finished
                &&& final(self).spec_activation() is Some
                &&& closed_before_activation(old(self).spec_activation_operation(), final(self).spec_activation()->Some_0)
                &&& final(self).spec_close() == Some(Ok::<(), RegistryError>(()))
            },
    {
        if self.activation.is_some() {
            return StartOutcome::Ready;
        }
        if let Some(reason) = runtime_error {
            let error = RegistryError::new(self.activation_operation, RegistryErrorKind::Internal, reason);
            self.finish_before_start(Err(error.duplicate()));
            return StartOutcome::Failed(error);
        }
        match self.phase {
            StartPhase::Started | StartPhase::Finished => {
                return StartOutcome::Ready;
            },
            StartPhase::Prepared => {},
        }
        if self.close_requested {
            self.publish_pre_activation_close();
            return StartOutcome::Ready;
        }
        self.phase = StartPhase::Started;
        StartOutcome::SpawnWorker
    }

    /// Finishes a prepared handle with `activation` and a successful cleanup, without
    /// running provider work; a started or finished handle is left alone.
    pub fn finish_before_start(&mut self, activation: Result<(), RegistryError>)
        requires
            old(self).wf(),
        ensures
            final(self).wf(),
            old(self).keeps_results(&*final(self)),
            old(self).advances_phase(&*final(self)),
            final(self).spec_waiters() == old(self).spec_waiters(),
            final(self).spec_close_requested() == old(self).spec_close_requested(),
            final(self).spec_activation_observed() == old(self).spec_activation_observed(),
            old(self).spec_phase() == StartPhase::Prepared ==> {
                &&& final(self).spec_phase() == StartPhase::Finished
                &&& final(self).spec_activation() == Some(activation)
                &&& final(self).spec_close() == Some(Ok::<(), RegistryError>(()))
            },
            old(self).spec_phase() != StartPhase::Prepared ==> *final(self) == *old(self),
    {
        match self.phase {
            StartPhase::Prepared => {},
            _ => {
                return;
            },
        }
        self.phase = StartPhase::Finished;
        self.activation = Some(activation);
        self.close = Some(Ok(()));
    }

    /// Requests cleanup. Returns whether this is the first request, in which case the
    /// caller must signal the worker. A prepared handle finishes at once as cancelled.
    pub fn request_close(&mut self) -> (first: bool)
        requires
            old(self).wf(),
        ensures
            final(self).wf(),
            old(self).keeps_results(&*final(self)),
            old(self).advances_phase(&*final(self)),
            first == !old(self).spec_close_requested(),
            final(self).spec_close_requested(),
            final(self).spec_waiters() == old(self).spec_waiters(),
            final(self).spec_activation_observed() == old(self).spec_activation_observed(),
            old(self).spec_phase() == StartPhase::Prepared ==> {
                &&& final(self).spec_phase() == StartPhase::Finished
                &&& final(self).spec_activation() is Some
                &&& closed_before_activation(old(self).spec_activation_operation(), final(self).spec_activation()->Some_0)
                &&& final(self).spec_close() == Some(Ok::<(), RegistryError>(()))
            },
            old(self).spec_phase() != StartPhase::Prepared ==> {
                &&& final(self).spec_phase() == old(self).spec_phase()
                &&& final(self).spec_activation() == old(self).spec_activation()
                &&& final(self).spec_close() == old(self).spec_close()
            },
    {
        let first = !self.close_requested;
        self.close_requested = true;
        match self.phase {
            StartPhase::Prepared => {
                self.publish_pre_activation_close();
            },
            _ => {},
        }
        first
    }

    /// Registers one pending activation waiter.
    pub fn register_waiter(&mut self)
        requires
            old(self).wf(),
            old(self).spec_waiters() < usize::MAX,
        ensures
            final(self).wf(),
            old(self).keeps_results(&*final(self)),
            old(self).advances_phase(&*final(self)),
            final(self).spec_waiters() == old(self).spec_waiters() + 1,
            final(self).spec_phase() == old(self).spec_phase(),
            final(self).spec_close_requested() == old(self).spec_close_requested(),
            final(self).spec_activation_observed() == old(self).spec_activation_observed(),
    {
        self.waiters = self.waiters + 1;
    }

    /// Releases one pending activation waiter. `completed` tells whether this waiter
    /// observed the activation result; if it did not, it was the last waiter and no
    /// waiter ever observed the result, cleanup is requested so that a late provider
    /// success is compensated. Returns whether cleanup was requested for the first time.
    pub fn release_waiter(&mut self, completed: bool) -> (first_close: bool)
        requires
            old(self).wf(),
            old(self).spec_waiters() > 0,
        ensures
            final(self).wf(),
            old(self).keeps_results(&*final(self)),
            old(self).advances_phase(&*final(self)),
            final(self).spec_waiters() == old(self).spec_waiters() - 1,
            final(self).spec_activation_observed() == (old(self).spec_activation_observed() || completed),
            final(self).spec_close_requested() == (old(self).spec_close_requested()
                || (old(self).spec_waiters() == 1 && !completed && !old(self).spec_activation_observed())),
            first_close == (!old(self).spec_close_requested() && old(self).spec_waiters() == 1
                && !completed && !old(self).spec_activation_observed()),
    {
        if completed {
            self.activation_observed = true;
        }
        let previous = self.waiters;
        self.waiters = self.waiters - 1;
        if previous == 1 && !completed && !self.activation_observed {
            self.request_close()
        } else {
            false
        }
    }

    /// Publishes the worker's activation result. A panic becomes an internal failure,
    /// and a success while cleanup was already requested becomes a cancellation.
    pub fn finish_activation(&mut self, outcome: ActivationOutcome)
        requires
            old(self).wf(),
            old(self).spec_phase() == StartPhase::Started,
            old(self).spec_activation() is None,
        ensures
            final(self).wf(),
            old(self).keeps_results(&*final(self)),
            old(self).advances_phase(&*final(self)),
            final(self).spec_phase() == StartPhase::Started,
            final(self).spec_close() is None,
            final(self).spec_waiters() == old(self).spec_waiters(),
            final(self).spec_close_requested() == old(self).spec_close_requested(),
            final(self).spec_activation_observed() == old(self).spec_activation_observed(),
            final(self).spec_activation() is Some,
            ({
                let published = final(self).spec_activation()->Some_0;
                let operation = old(self).spec_activation_operation();
                match outcome {
                    ActivationOutcome::Panicked => is_error(published, operation,
                        RegistryErrorKind::Internal, "registry provider activation panicked"@),
                    ActivationOutcome::Completed(result) => if result is Ok && old(self).spec_close_requested() {
                        is_error(published, operation, RegistryErrorKind::Cancelled,
                            "registry handle closed while activation was pending"@)
                    } else {
                        published == result
                    },
                }
            }),
    {
        let published = match outcome {
            ActivationOutcome::Panicked => Err(RegistryError::message(
                self.activation_operation,
                RegistryErrorKind::Internal,
                "registry provider activation panicked",
            )),
            ActivationOutcome::Completed(result) => {
                if result.is_ok() && self.close_requested {
                    Err(RegistryError::message(
                        self.activation_operation,
                        RegistryErrorKind::Cancelled,
                        "registry handle closed while activation was pending",
                    ))
                } else {
                    result
                }
            },
        };
        self.activation = Some(published);
    }

    /// Publishes the worker's cleanup result once cleanup was requested. A panic while
    /// building or running cleanup becomes an internal failure.
    pub fn finish_cleanup(&mut self, outcome: CleanupOutcome)
        requires
            old(self).wf(),
            old(self).spec_phase() == StartPhase::Started,
            old(self).spec_activation() is Some,
            old(self).spec_close() is None,
            old(self).spec_close_requested(),
        ensures
            final(self).wf(),
            old(self).keeps_results(&*final(self)),
            old(self).advances_phase(&*final(self)),
            final(self).spec_phase() == StartPhase::Started,
            final(self).spec_waiters() == old(self).spec_waiters(),
            final(self).spec_close_requested(),
            final(self).spec_activation_observed() == old(self).spec_activation_observed(),
            final(self).spec_close() is Some,
            ({
                let published = final(self).spec_close()->Some_0;
                let operation = old(self).spec_close_operation();
                match outcome {
                    CleanupOutcome::Completed(result) => published == result,
                    CleanupOutcome::Panicked => is_error(published, operation,
                        RegistryErrorKind::Internal, "registry provider cleanup panicked"@),
                    CleanupOutcome::FactoryPanicked => is_error(published, operation,
                        RegistryErrorKind::Internal, "registry provider cleanup factory panicked"@),
                }
            }),
    {
        let published = match outcome {
            CleanupOutcome::Completed(result) => result,
            CleanupOutcome::Panicked => Err(RegistryError::message(
                self.close_operation,
                RegistryErrorKind::Internal,
                "registry provider cleanup panicked",
            )),
            CleanupOutcome::FactoryPanicked => Err(RegistryError::message(
                self.close_operation,
                RegistryErrorKind::Internal,
                "registry provider cleanup factory panicked",
            )),
        };
        self.close = Some(published);
    }

    /// Publishes terminal failures for whatever an aborted worker had not published.
    pub fn abort_worker(&mut self)
        requires
            old(self).wf(),
            old(self).spec_phase() == StartPhase::Started,
        ensures
            final(self).wf(),
            old(self).keeps_results(&*final(self)),
            old(self).advances_phase(&*final(self)),
            final(self).spec_phase() == StartPhase::Started,
            final(self).spec_waiters() == old(self).spec_waiters(),
            final(self).spec_close_requested() == old(self).spec_close_requested(),
            final(self).spec_activation_observed() == old(self).spec_activation_observed(),
            final(self).spec_activation() is Some,
            final(self).spec_close() is Some,
            old(self).spec_activation() is None ==> is_error(final(self).spec_activation()->Some_0,
                old(self).spec_activation_operation(), RegistryErrorKind::Internal,
                "registry activation worker was aborted"@),
            old(self).spec_close() is None ==> is_error(final(self).spec_close()->Some_0,
                old(self).spec_close_operation(), RegistryErrorKind::CleanupAborted,
                "registry cleanup worker was aborted"@),
    {
        if self.activation.is_none() {
            self.activation = Some(Err(RegistryError::message(
                self.activation_operation,
                RegistryErrorKind::Internal,
                "registry activation worker was aborted",
            )));
        }
        if self.close.is_none() {
            self.close = Some(Err(RegistryError::message(
                self.close_operation,
                RegistryErrorKind::CleanupAborted,
                "registry cleanup worker was aborted",
            )));
        }
    }
}

/// Published results never change over any run of lifecycle steps: every clone of a
/// handle that reads a result after it is published reads the same one.
pub proof fn lemma_keeps_results_transitive(a: Lifecycle, b: Lifecycle, c: Lifecycle)
    requires
        a.keeps_results(&b),
        b.keeps_results(&c),
    ensures
        a.keeps_results(&c),
{
}

/// The start phase only moves forward over any run of lifecycle steps, so a started or
/// finished handle never asks for a worker again: the provider's activation and its
/// cleanup run at most once.
pub proof fn lemma_advances_phase_transitive(a: Lifecycle, b: Lifecycle, c: Lifecycle)
    requires
        a.advances_phase(&b),
        b.advances_phase(&c),
    ensures
        a.advances_phase(&c),
        a.spec_phase() != StartPhase::Prepared ==> c.spec_phase() != StartPhase::Prepared,
{
}

/// What the lifecycle invariant tells callers: nothing is published while a handle
/// is prepared, a cleanup result only follows an activation result, and a finished
/// handle has published both.
pub proof fn lemma_publication(lifecycle: &Lifecycle)
    requires
        lifecycle.wf(),
    ensures
        lifecycle.spec_phase() == StartPhase::Prepared ==> lifecycle.spec_activation() is None
            && lifecycle.spec_close() is None,
        lifecycle.spec_close() is Some ==> lifecycle.spec_activation() is Some,
        lifecycle.spec_phase() == StartPhase::Finished ==> lifecycle.spec_activation() is Some
            && lifecycle.spec_close() is Some,
{
}

} // verus!
