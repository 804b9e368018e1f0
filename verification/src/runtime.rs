use crate::contract::{HttpBindingId, http_json_v1};
use crate::lifecycle::{ClientError, ClientErrorKind};
use crate::observability::{CircuitState, MetricOutcome};
use crate::registry::RegistryError;
use crate::subscription::render_registry_error;
use crate::text::str_eq;
use crate::validation::ConfigValidationError;
use vstd::prelude::*;
use vstd::string::*;

verus! {

/// Observable client runtime lifecycle state.
#[derive(Clone, Copy, Debug, PartialEq, Eq, Hash, Structural)]
#[non_exhaustive]
pub enum ClientState {
    /// New logical invocations are admitted.
    Running,
    /// Admission is closed and existing work is draining.
    Draining,
    /// Shutdown reached its shared terminal result.
    Closed,
}

/// The stored code of [`ClientState::Running`].
pub const CLIENT_RUNNING: u8 = 0;
/// The stored code of [`ClientState::Draining`].
pub const CLIENT_DRAINING: u8 = 1;
/// The stored code of [`ClientState::Closed`].
pub const CLIENT_CLOSED: u8 = 2;

/// The lifecycle state a stored code stands for; unknown codes read as closed.
pub open spec fn spec_state_from_code(code: u8) -> ClientState {
    if code == CLIENT_RUNNING {
        ClientState::Running
    } else if code == CLIENT_DRAINING {
        ClientState::Draining
    } else {
        ClientState::Closed
    }
}

/// Returns the lifecycle state a stored code stands for.
pub fn state_from_code(code: u8) -> (state: ClientState)
    ensures
        state == spec_state_from_code(code),
{
    if code == CLIENT_RUNNING {
        ClientState::Running
    } else if code == CLIENT_DRAINING {
        ClientState::Draining
    } else {
        ClientState::Closed
    }
}

/// Returns the stored code of a lifecycle state.
pub fn state_code(state: ClientState) -> (code: u8)
    ensures
        spec_state_from_code(code) == state,
{
    match state {
        ClientState::Running => CLIENT_RUNNING,
        ClientState::Draining => CLIENT_DRAINING,
        ClientState::Closed => CLIENT_CLOSED,
    }
}

/// Each lifecycle state has its own stored code, which reads back as that state; a
/// code that names no state reads as closed.
pub proof fn lemma_state_codes(code: u8)
    ensures
        spec_state_from_code(CLIENT_RUNNING) == ClientState::Running,
        spec_state_from_code(CLIENT_DRAINING) == ClientState::Draining,
        spec_state_from_code(CLIENT_CLOSED) == ClientState::Closed,
        CLIENT_RUNNING != CLIENT_DRAINING && CLIENT_DRAINING != CLIENT_CLOSED && CLIENT_RUNNING != CLIENT_CLOSED,
        code != CLIENT_RUNNING && code != CLIENT_DRAINING ==> spec_state_from_code(code) == ClientState::Closed,
{
}

/// The phase of a circuit breaker.
#[derive(Clone, Copy, Debug, PartialEq, Eq, Hash, Structural)]
pub enum BreakerPhase {
    /// Requests flow and outcomes are sampled.
    Closed,
    /// Requests are rejected until the open period ends.
    Open,
    /// A bounded number of probes decide whether to close again.
    HalfOpen,
}

/// Returns the metric state of a breaker phase.
pub fn metric_circuit_state(phase: BreakerPhase) -> (state: CircuitState)
    ensures
        phase == BreakerPhase::Closed ==> state == CircuitState::Closed,
        phase == BreakerPhase::Open ==> state == CircuitState::Open,
        phase == BreakerPhase::HalfOpen ==> state == CircuitState::HalfOpen,
{
    match phase {
        BreakerPhase::Closed => CircuitState::Closed,
        BreakerPhase::Open => CircuitState::Open,
        BreakerPhase::HalfOpen => CircuitState::HalfOpen,
    }
}

/// The key of per-service state: the service identity, a NUL character and the
/// binding identifier.
pub open spec fn spec_binding_key(identity: Seq<char>, binding: Seq<char>) -> Seq<char> {
    identity + seq!['\0'] + binding
}

/// Returns the key of per-service state for a service identity and a binding.
pub fn binding_key(identity: &str, binding: &HttpBindingId) -> (key: String)
    ensures
        key@ == spec_binding_key(identity@, binding@),
{
    let mut key = String::from_str(identity);
    key.append("\0");
    proof {
        reveal_strlit("\0");
    }
    key.append(binding.as_str());
    key
}

/// Whether admitting a new endpoint bulkhead must first evict one: the table is full
/// and holds no bulkhead for the endpoint.
pub fn bulkhead_needs_eviction(entries: usize, max_entries: usize, present: bool) -> (evict: bool)
    ensures
        evict == (entries >= max_entries && !present),
{
    entries >= max_entries && !present
}

/// Whether an admission queue exists: only for a positive capacity.
pub fn queue_enabled(capacity: usize) -> (enabled: bool)
    ensures
        enabled == (capacity > 0),
{
    capacity > 0
}

/// The error of a runtime built from invalid configuration; the validation failure
/// is kept as the source.
pub fn invalid_configuration(error: &ConfigValidationError) -> (client_error: ClientError)
    ensures
        client_error.spec_kind() == ClientErrorKind::Build,
        client_error.spec_message() == "invalid client configuration at "@ + error.spec_field_path(),
        client_error.spec_source() == Some("invalid configuration at "@ + error.spec_field_path() + " ("@
            + error.spec_kind().spec_name() + "): "@ + error.spec_reason()),
{
    let mut message = String::from_str("invalid client configuration at ");
    message.append(error.field_path());
    let source = error.render();
    ClientError::with_source(ClientErrorKind::Build, message.as_str(), source.as_str())
}

/// The bindings a runtime serves: the reserved JSON binding first, then the
/// registered ones, in order.
pub open spec fn binding_table(registered: Seq<Seq<char>>) -> Seq<Seq<char>> {
    seq![http_json_v1()] + registered
}

/// Whether no binding occurs twice.
pub open spec fn no_repeats(ids: Seq<Seq<char>>) -> bool {
    forall|i: int, j: int| 0 <= i < j < ids.len() ==> ids[i] != ids[j]
}

/// The identifiers of a list of bindings.
pub open spec fn binding_ids(bindings: Seq<HttpBindingId>) -> Seq<Seq<char>> {
    bindings.map_values(|b: HttpBindingId| b@)
}

/// Builds the binding table of a runtime: the reserved JSON binding, then every
/// registered binding. The first registered binding that repeats the reserved one or
/// an earlier one is refused as a build error naming it.
pub fn register_bindings(registered: &Vec<HttpBindingId>) -> (result: Result<Vec<HttpBindingId>, ClientError>)
    ensures
        result is Ok <==> no_repeats(binding_table(binding_ids(registered@))),
        result matches Ok(table) ==> binding_ids(table@) == binding_table(
            binding_ids(registered@)),
        result matches Err(e) ==> e.spec_kind() == ClientErrorKind::Build && e.spec_source() is None && exists|k: int|
            0 <= k < registered@.len() && e.spec_message() == "duplicate or reserved HTTP binding "@ + registered@[k]@
                && no_repeats(binding_table(binding_ids(registered@)).take(k + 1))
                && !no_repeats(binding_table(binding_ids(registered@)).take(k + 2)),
{
    let ghost ids = binding_ids(registered@);
    let ghost all = binding_table(ids);
    let mut table: Vec<HttpBindingId> = Vec::new();
    table.push(HttpBindingId::json_v1());
    let mut i: usize = 0;
    while i < registered.len()
        invariant
            ids == binding_ids(registered@),
            all == binding_table(ids),
            i <= ids.len(),
            binding_ids(table@) == all.take(i + 1),
            no_repeats(all.take(i + 1)),
        decreases ids.len() - i,
    {
        let ghost views = binding_ids(table@);
        let mut j: usize = 0;
        while j < table.len()
            invariant
                views == binding_ids(table@),
                views == all.take(i + 1),
                ids == binding_ids(registered@),
                all == binding_table(ids),
                i < ids.len(),
                no_repeats(all.take(i + 1)),
                j <= views.len(),
                forall|a: int| 0 <= a < j ==> views[a] != ids[i as int],
            decreases views.len() - j,
        {
            if str_eq(table[j].as_str(), registered[i].as_str()) {
                proof {
                    assert(all[j as int] == views[j as int]);
                    assert(all[i + 1] == ids[i as int]);
                    assert(all.take(i + 2)[j as int] == all.take(i + 2)[i + 1]);
                }
                let mut message = String::from_str("duplicate or reserved HTTP binding ");
                message.append(registered[i].as_str());
                proof {
                    let next = all.take(i + 2);
                    assert(next[j as int] == next[i + 1]);
                    assert(!no_repeats(next));
                    assert(message@ == "duplicate or reserved HTTP binding "@ + registered@[i as int]@);
                    let k = i as int;
                    assert(0 <= k < registered@.len() && message@ == "duplicate or reserved HTTP binding "@
                        + registered@[k]@ && no_repeats(binding_table(binding_ids(registered@)).take(k + 1))
                        && !no_repeats(binding_table(binding_ids(registered@)).take(k + 2)));
                }
                return Err(ClientError::from_message(ClientErrorKind::Build, message.as_str()));
            }
            j = j + 1;
        }
        table.push(registered[i].duplicate());
        proof {
            let next = all.take(i + 2);
            let prev = all.take(i + 1);
            assert(binding_ids(table@) =~= next);
            assert forall|a: int, b: int| 0 <= a < b < next.len() implies #[trigger] next[a] != #[trigger] next[b] by {
                assert(next[a] == prev[a] || a == i + 1);
                if b == i + 1 {
                    assert(next[a] == views[a]);
                } else {
                    assert(next[b] == prev[b]);
                }
            }
        }
        i = i + 1;
    }
    assert(all.take(ids.len() as int + 1) =~= all);
    Ok(table)
}

/// What a successful build starts a runtime with.
pub struct RuntimeStart {
    /// The served bindings: the reserved JSON binding, then the registered ones.
    pub bindings: Vec<HttpBindingId>,
    /// The lifecycle state the runtime starts in.
    pub state: ClientState,
    /// Whether invocations may queue for admission.
    pub queue_enabled: bool,
}

/// Plans a runtime build. The checks run in order: the configuration, then a running
/// async runtime (`runtime_error` is the reason there is none), then the bindings, then
/// the connection pool (`transport_failure` is how creating it failed). A build that
/// passes them all starts `Running` with the binding table.
pub fn plan_build(config: &crate::config::ClientConfig, runtime_error: Option<&str>,
    registered: &Vec<HttpBindingId>, transport_failure: Option<ClientError>) -> (result: Result<RuntimeStart, ClientError>)
    ensures
        crate::config::client_violation(config@) matches Some(v) ==> (result matches Err(e)
            && e.spec_kind() == ClientErrorKind::Build
            && e.spec_message() == "invalid client configuration at "@ + v.1
            && e.spec_source() == Some("invalid configuration at "@ + v.1 + " ("@ + v.0.spec_name() + "): "@ + v.2)),
        crate::config::client_violation(config@) is None && runtime_error is Some ==> (result matches Err(e)
            && e.spec_kind() == ClientErrorKind::Build
            && e.spec_message() == "ClientRuntime must be built inside a running Tokio runtime"@
            && e.spec_source() == Some(runtime_error->Some_0@)),
        crate::config::client_violation(config@) is None && runtime_error is None
            && !no_repeats(binding_table(binding_ids(registered@))) ==> (result matches Err(e)
            && e.spec_kind() == ClientErrorKind::Build && e.spec_source() is None && exists|k: int|
                0 <= k < registered@.len() && e.spec_message() == "duplicate or reserved HTTP binding "@ + registered@[k]@
                && no_repeats(binding_table(binding_ids(registered@)).take(k + 1))
                && !no_repeats(binding_table(binding_ids(registered@)).take(k + 2))),
        crate::config::client_violation(config@) is None && runtime_error is None
            && no_repeats(binding_table(binding_ids(registered@))) && transport_failure is Some
            ==> result == Err::<RuntimeStart, ClientError>(transport_failure->Some_0),
        result is Ok <==> (crate::config::client_violation(config@) is None && runtime_error is None
            && no_repeats(binding_table(binding_ids(registered@))) && transport_failure is None),
        result matches Ok(start) ==> start.state == ClientState::Running
            && binding_ids(start.bindings@) == binding_table(binding_ids(registered@))
            && start.queue_enabled == (config@.admission.queue.capacity > 0),
{
    match config.validate() {
        Err(error) => {
            return Err(invalid_configuration(&error));
        },
        Ok(()) => {},
    }
    match runtime_error {
        Some(reason) => {
            return Err(ClientError::with_source(
                ClientErrorKind::Build,
                "ClientRuntime must be built inside a running Tokio runtime",
                reason,
            ));
        },
        None => {},
    }
    let bindings = match register_bindings(registered) {
        Ok(table) => table,
        Err(error) => {
            return Err(error);
        },
    };
    match transport_failure {
        Some(error) => {
            return Err(error);
        },
        None => {},
    }
    let queue_enabled = queue_enabled(config.admission().queue().capacity());
    Ok(RuntimeStart { bindings, state: ClientState::Running, queue_enabled })
}

/// The error of a runtime whose connection pool was already closed.
pub fn transport_closed() -> (error: ClientError)
    ensures
        error.spec_kind() == ClientErrorKind::Closed,
        error.spec_message() == "client connection pool is closed"@,
        error.spec_source() is None,
{
    ClientError::from_message(ClientErrorKind::Closed, "client connection pool is closed")
}

/// The error of a shutdown whose coordinator ended without a result.
pub fn shutdown_coordinator_lost(source: &str) -> (error: ClientError)
    ensures
        error.spec_kind() == ClientErrorKind::Shutdown,
        error.spec_message() == "client shutdown coordinator ended without a result"@,
        error.spec_source() == Some(source@),
{
    ClientError::with_source(ClientErrorKind::Shutdown, "client shutdown coordinator ended without a result", source)
}

/// One piece of outside work of the shutdown coordinator, in the order it is due.
pub enum ShutdownEffect {
    /// Store this lifecycle state.
    SetState(ClientState),
    /// Stop admitting invocations and let admitted ones drain.
    BeginDraining,
    /// Close the subscription table to new subscriptions and cancel its supervisors.
    BeginSubscriptionShutdown,
    /// Cancel all in-flight work.
    ForceCancel,
    /// Drop the connection pool.
    CloseTransport,
    /// Release the subscriptions' memberships and retained publishers.
    FinishSubscriptionShutdown,
    /// Close the admission gate for good.
    CloseAdmission,
    /// Record the shutdown outcome.
    Record(MetricOutcome),
    /// Publish the shared shutdown result.
    Complete(Result<(), ClientError>),
}

/// How the graceful part of shutdown ended.
pub enum ShutdownWork {
    /// Invocations drained and subscriptions closed, with the first subscription close
    /// failure if there was one.
    Completed(Option<RegistryError>),
    /// The shutdown deadline elapsed first.
    TimedOut,
}

/// The effects that start a shutdown.
pub fn begin_shutdown(has_subscriptions: bool) -> (effects: Vec<ShutdownEffect>)
    ensures
        effects@ == seq![ShutdownEffect::SetState(ClientState::Draining), ShutdownEffect::BeginDraining] + if has_subscriptions {
            seq![ShutdownEffect::BeginSubscriptionShutdown]
        } else {
            Seq::empty()
        },
{
    let mut effects = Vec::new();
    effects.push(ShutdownEffect::SetState(ClientState::Draining));
    effects.push(ShutdownEffect::BeginDraining);
    if has_subscriptions {
        effects.push(ShutdownEffect::BeginSubscriptionShutdown);
    }
    assert(effects@ =~= seq![ShutdownEffect::SetState(ClientState::Draining), ShutdownEffect::BeginDraining] + if has_subscriptions {
        seq![ShutdownEffect::BeginSubscriptionShutdown]
    } else {
        Seq::empty()
    });
    effects
}

/// The metric outcome of a shutdown result.
pub open spec fn spec_shutdown_outcome(result: Result<(), ClientError>) -> MetricOutcome {
    match result {
        Ok(()) => MetricOutcome::Success,
        Err(e) => if e.spec_kind() == ClientErrorKind::Timeout { MetricOutcome::Timeout } else { MetricOutcome::Error },
    }
}

/// The shared result of a shutdown whose graceful part ended as `work`.
pub open spec fn spec_shutdown_result(work: ShutdownWork) -> Option<(ClientErrorKind, Seq<char>, Option<Seq<char>>)> {
    match work {
        ShutdownWork::Completed(None) => None,
        ShutdownWork::Completed(Some(error)) => Some((
            ClientErrorKind::Shutdown,
            "failed to close discovery subscription"@,
            Some(render_registry_error(error)),
        )),
        ShutdownWork::TimedOut => Some((ClientErrorKind::Timeout, "client graceful shutdown deadline elapsed"@, None)),
    }
}

/// The effects that end a shutdown: a timed-out one first cancels in-flight work and
/// drops the pool (a graceful one dropped it when invocations drained); then
/// subscriptions are released, admission closes, the runtime is closed, the outcome
/// recorded and the shared result published.
pub fn conclude_shutdown(work: ShutdownWork, has_subscriptions: bool) -> (effects: Vec<ShutdownEffect>)
    ensures
        effects@.len() == (if work is TimedOut { 2int } else { 0int }) + (if has_subscriptions { 1int } else { 0int }) + 4,
        work is TimedOut ==> effects@[0] == ShutdownEffect::ForceCancel && effects@[1] == ShutdownEffect::CloseTransport,
        forall|i: int| #![trigger effects@[i]] (if work is TimedOut { 2int } else { 0int }) <= i < effects@.len()
            ==> effects@[i] != ShutdownEffect::CloseTransport && effects@[i] != ShutdownEffect::ForceCancel,
        has_subscriptions ==> effects@[effects@.len() - 5] == ShutdownEffect::FinishSubscriptionShutdown,
        effects@[effects@.len() - 4] == ShutdownEffect::CloseAdmission,
        effects@[effects@.len() - 3] == ShutdownEffect::SetState(ClientState::Closed),
        effects@.last() matches ShutdownEffect::Complete(result) && (match spec_shutdown_result(work) {
            None => result is Ok,
            Some(parts) => (result matches Err(e) && (e.spec_kind(), e.spec_message(), e.spec_source()) == parts),
        }) && effects@[effects@.len() - 2] == ShutdownEffect::Record(spec_shutdown_outcome(result)),
{
    let mut effects = Vec::new();
    let timed_out = match &work {
        ShutdownWork::TimedOut => true,
        _ => false,
    };
    if timed_out {
        effects.push(ShutdownEffect::ForceCancel);
        effects.push(ShutdownEffect::CloseTransport);
    }
    let result: Result<(), ClientError> = match work {
        ShutdownWork::Completed(None) => Ok(()),
        ShutdownWork::Completed(Some(error)) => {
            let source = error.render();
            Err(ClientError::with_source(ClientErrorKind::Shutdown, "failed to close discovery subscription", source.as_str()))
        },
        ShutdownWork::TimedOut => Err(ClientError::from_message(
            ClientErrorKind::Timeout,
            "client graceful shutdown deadline elapsed",
        )),
    };
    if has_subscriptions {
        effects.push(ShutdownEffect::FinishSubscriptionShutdown);
    }
    effects.push(ShutdownEffect::CloseAdmission);
    effects.push(ShutdownEffect::SetState(ClientState::Closed));
    let outcome = match &result {
        Ok(()) => MetricOutcome::Success,
        Err(error) => match error.kind() {
            ClientErrorKind::Timeout => MetricOutcome::Timeout,
            _ => MetricOutcome::Error,
        },
    };
    effects.push(ShutdownEffect::Record(outcome));
    effects.push(ShutdownEffect::Complete(result));
    effects
}

/// The abstract state of a shutdown in progress.
pub struct ShutdownView {
    pub has_subscriptions: bool,
    pub invocations_drained: bool,
    pub subscriptions_closed: Option<Option<RegistryError>>,
    pub concluded: bool,
}

/// Coordinates one client shutdown: the pool is dropped as soon as admitted invocations
/// have drained, while subscriptions may still be closing; the shutdown concludes once
/// both are done, or when its deadline elapses first.
pub struct ShutdownCoordinator {
    has_subscriptions: bool,
    invocations_drained: bool,
    subscriptions_closed: Option<Option<RegistryError>>,
    concluded: bool,
}

impl View for ShutdownCoordinator {
    type V = ShutdownView;

    closed spec fn view(&self) -> ShutdownView {
        ShutdownView {
            has_subscriptions: self.has_subscriptions,
            invocations_drained: self.invocations_drained,
            subscriptions_closed: self.subscriptions_closed,
            concluded: self.concluded,
        }
    }
}

impl ShutdownCoordinator {
    /// Starts a shutdown: the effects of `begin_shutdown`; without subscriptions there
    /// is nothing to wait for on their side.
    pub fn start(has_subscriptions: bool) -> (result: (ShutdownCoordinator, Vec<ShutdownEffect>))
        ensures
            result.0@ == (ShutdownView {
                has_subscriptions,
                invocations_drained: false,
                subscriptions_closed: if has_subscriptions { None } else { Some(None) },
                concluded: false,
            }),
            result.1@ == seq![ShutdownEffect::SetState(ClientState::Draining), ShutdownEffect::BeginDraining]
                + if has_subscriptions { seq![ShutdownEffect::BeginSubscriptionShutdown] } else { Seq::empty() },
    {
        let effects = begin_shutdown(has_subscriptions);
        let coordinator = ShutdownCoordinator {
            has_subscriptions,
            invocations_drained: false,
            subscriptions_closed: if has_subscriptions { None } else { Some(None) },
            concluded: false,
        };
        (coordinator, effects)
    }

    /// Returns whether the shutdown has concluded.
    pub fn concluded(&self) -> (concluded: bool)
        ensures
            concluded == self@.concluded,
    {
        self.concluded
    }

    /// Admitted invocations have drained: the pool is dropped at once, and the shutdown
    /// concludes gracefully when subscriptions have already closed.
    pub fn invocations_drained(&mut self) -> (effects: Vec<ShutdownEffect>)
        requires
            !old(self)@.concluded,
            !old(self)@.invocations_drained,
        ensures
            effects@.len() >= 1,
            effects@[0] == ShutdownEffect::CloseTransport,
            final(self)@ == (ShutdownView {
                invocations_drained: true,
                concluded: old(self)@.subscriptions_closed is Some,
                ..old(self)@
            }),
            old(self)@.subscriptions_closed is None ==> effects@.len() == 1,
            old(self)@.subscriptions_closed matches Some(failure) ==> (effects@.last() matches ShutdownEffect::Complete(result)
                && effects@.len() == (if old(self)@.has_subscriptions { 1int } else { 0int }) + 5
                && (match failure {
                    None => result is Ok,
                    Some(error) => result matches Err(e) && e.spec_kind() == ClientErrorKind::Shutdown,
                })),
    {
        self.invocations_drained = true;
        let mut effects: Vec<ShutdownEffect> = Vec::new();
        effects.push(ShutdownEffect::CloseTransport);
        let closed: Option<Option<RegistryError>> = match &self.subscriptions_closed {
            None => None,
            Some(None) => Some(None),
            Some(Some(error)) => Some(Some(error.duplicate())),
        };
        match closed {
            None => effects,
            Some(failure) => {
                self.concluded = true;
                let mut rest = conclude_shutdown(ShutdownWork::Completed(failure), self.has_subscriptions);
                effects.append(&mut rest);
                effects
            },
        }
    }

    /// Subscriptions have closed, with the first close failure if any: the shutdown
    /// concludes gracefully when invocations have already drained.
    pub fn subscriptions_closed(&mut self, failure: Option<RegistryError>) -> (effects: Vec<ShutdownEffect>)
        requires
            !old(self)@.concluded,
            old(self)@.subscriptions_closed is None,
        ensures
            final(self)@ == (ShutdownView {
                subscriptions_closed: Some(failure),
                concluded: old(self)@.invocations_drained,
                ..old(self)@
            }),
            !old(self)@.invocations_drained ==> effects@.len() == 0,
            old(self)@.invocations_drained ==> (effects@.last() matches ShutdownEffect::Complete(result)
                && effects@.len() == (if old(self)@.has_subscriptions { 1int } else { 0int }) + 4
                && (forall|i: int| 0 <= i < effects@.len() ==> effects@[i] != ShutdownEffect::CloseTransport)
                && (match failure {
                    None => result is Ok,
                    Some(error) => result matches Err(e) && e.spec_kind() == ClientErrorKind::Shutdown,
                })),
    {
        let copy = match &failure {
            None => None,
            Some(error) => Some(error.duplicate()),
        };
        self.subscriptions_closed = Some(copy);
        if self.invocations_drained {
            self.concluded = true;
            conclude_shutdown(ShutdownWork::Completed(failure), self.has_subscriptions)
        } else {
            Vec::new()
        }
    }

    /// The shutdown deadline elapsed first: in-flight work is cancelled, the pool
    /// dropped, and the shutdown concludes as timed out.
    pub fn deadline_elapsed(&mut self) -> (effects: Vec<ShutdownEffect>)
        requires
            !old(self)@.concluded,
        ensures
            final(self)@ == (ShutdownView { concluded: true, ..old(self)@ }),
            effects@.len() == (if old(self)@.has_subscriptions { 1int } else { 0int }) + 6,
            effects@[0] == ShutdownEffect::ForceCancel,
            effects@[1] == ShutdownEffect::CloseTransport,
            effects@.last() matches ShutdownEffect::Complete(result)
                && result matches Err(e) && e.spec_kind() == ClientErrorKind::Timeout,
    {
        self.concluded = true;
        conclude_shutdown(ShutdownWork::TimedOut, self.has_subscriptions)
    }
}

/// A shutdown is recorded as a success exactly when it ends well, as a timeout
/// exactly when it ends with a timeout error, and as an error otherwise; it ends well
/// exactly when it completed without a subscription close failure, and a timed-out
/// one ends with a timeout error.
pub proof fn lemma_shutdown_outcome(result: Result<(), ClientError>, work: ShutdownWork)
    ensures
        (spec_shutdown_outcome(result) == MetricOutcome::Success) <==> result is Ok,
        (spec_shutdown_outcome(result) == MetricOutcome::Timeout) <==> (result matches Err(e)
            && e.spec_kind() == ClientErrorKind::Timeout),
        spec_shutdown_result(work) is None <==> work == ShutdownWork::Completed(None),
        work is TimedOut ==> (spec_shutdown_result(work) matches Some(parts) && parts.0 == ClientErrorKind::Timeout),
        work matches ShutdownWork::Completed(Some(_)) ==> (spec_shutdown_result(work) matches Some(parts)
            && parts.0 == ClientErrorKind::Shutdown),
{
}

/// A runtime serves the reserved JSON binding first and every registered binding after
/// it, in order; the table is accepted exactly when no registered binding is the
/// reserved one and none repeats.
pub proof fn lemma_binding_table(registered: Seq<Seq<char>>)
    ensures
        binding_table(registered).len() == registered.len() + 1,
        binding_table(registered)[0] == http_json_v1(),
        forall|i: int| 0 <= i < registered.len() ==> binding_table(registered)[i + 1] == #[trigger] registered[i],
        no_repeats(binding_table(registered)) <==> (!registered.contains(http_json_v1()) && no_repeats(registered)),
{
    let t = binding_table(registered);
    assert forall|i: int| 0 <= i < registered.len() implies t[i + 1] == #[trigger] registered[i] by {}
    if no_repeats(t) {
        assert forall|i: int, j: int| 0 <= i < j < registered.len() implies registered[i] != registered[j] by {
            assert(t[i + 1] != t[j + 1]);
        }
        if registered.contains(http_json_v1()) {
            let k = choose|k: int| 0 <= k < registered.len() && registered[k] == http_json_v1();
            assert(t[0] != t[k + 1]);
        }
    }
    if !registered.contains(http_json_v1()) && no_repeats(registered) {
        assert forall|i: int, j: int| 0 <= i < j < t.len() implies t[i] != t[j] by {
            if i == 0 {
                assert(t[j] == registered[j - 1]);
            } else {
                assert(t[i] == registered[i - 1]);
                assert(t[j] == registered[j - 1]);
            }
        }
    }
}

} // verus!
