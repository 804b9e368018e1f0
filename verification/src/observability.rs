use crate::time::Duration;
use vstd::prelude::*;

verus! {

/// The side of an observed service invocation.
#[derive(Clone, Copy, Debug, PartialEq, Eq, Structural)]
#[non_exhaustive]
pub enum MetricSide {
    /// An outbound client invocation.
    Client,
    /// An inbound server invocation.
    Server,
}

impl MetricSide {
    /// The low-cardinality label of the side.
    pub open spec fn spec_name(self) -> Seq<char> {
        match self {
            MetricSide::Client => "client"@,
            MetricSide::Server => "server"@,
        }
    }

    /// Returns the low-cardinality label of the side.
    pub fn name(self) -> (name: &'static str)
        ensures
            name@ == self.spec_name(),
    {
        match self {
            MetricSide::Client => "client",
            MetricSide::Server => "server",
        }
    }
}

/// A terminal low-cardinality outcome.
#[derive(Clone, Copy, Debug, PartialEq, Eq, Structural)]
#[non_exhaustive]
pub enum MetricOutcome {
    /// Work completed successfully.
    Success,
    /// Work completed with an error.
    Error,
    /// A deadline elapsed.
    Timeout,
    /// The caller cancelled the work.
    Cancelled,
    /// Admission or a resource budget rejected the work.
    Rejected,
}

impl MetricOutcome {
    /// The low-cardinality label of the outcome.
    pub open spec fn spec_name(self) -> Seq<char> {
        match self {
            MetricOutcome::Success => "success"@,
            MetricOutcome::Error => "error"@,
            MetricOutcome::Timeout => "timeout"@,
            MetricOutcome::Cancelled => "cancelled"@,
            MetricOutcome::Rejected => "rejected"@,
        }
    }

    /// Returns the low-cardinality label of the outcome.
    pub fn name(self) -> (name: &'static str)
        ensures
            name@ == self.spec_name(),
    {
        match self {
            MetricOutcome::Success => "success",
            MetricOutcome::Error => "error",
            MetricOutcome::Timeout => "timeout",
            MetricOutcome::Cancelled => "cancelled",
            MetricOutcome::Rejected => "rejected",
        }
    }
}

/// The state of a circuit breaker.
#[derive(Clone, Copy, Debug, PartialEq, Eq, Structural)]
#[non_exhaustive]
pub enum CircuitState {
    /// Requests are admitted normally.
    Closed,
    /// Requests fail fast until the open interval expires.
    Open,
    /// A bounded number of recovery probes are admitted.
    HalfOpen,
}

impl CircuitState {
    /// The low-cardinality label of the circuit state.
    pub open spec fn spec_name(self) -> Seq<char> {
        match self {
            CircuitState::Closed => "closed"@,
            CircuitState::Open => "open"@,
            CircuitState::HalfOpen => "half_open"@,
        }
    }

    /// Returns the low-cardinality label of the circuit state.
    pub fn name(self) -> (name: &'static str)
        ensures
            name@ == self.spec_name(),
    {
        match self {
            CircuitState::Closed => "closed",
            CircuitState::Open => "open",
            CircuitState::HalfOpen => "half_open",
        }
    }
}

/// The state of a discovery directory.
#[derive(Clone, Copy, Debug, PartialEq, Eq, Structural)]
#[non_exhaustive]
pub enum DirectoryMetricState {
    /// Initial discovery has not completed.
    Initializing,
    /// The directory has a current provider snapshot.
    Ready,
    /// The provider stream is unavailable but the last snapshot remains within its grace period.
    Stale,
    /// No snapshot is eligible for routing.
    Unavailable,
    /// The directory has terminated.
    Closed,
}

impl DirectoryMetricState {
    /// The low-cardinality label of the directory state.
    pub open spec fn spec_name(self) -> Seq<char> {
        match self {
            DirectoryMetricState::Initializing => "initializing"@,
            DirectoryMetricState::Ready => "ready"@,
            DirectoryMetricState::Stale => "stale"@,
            DirectoryMetricState::Unavailable => "unavailable"@,
            DirectoryMetricState::Closed => "closed"@,
        }
    }

    /// Returns the low-cardinality label of the directory state.
    pub fn name(self) -> (name: &'static str)
        ensures
            name@ == self.spec_name(),
    {
        match self {
            DirectoryMetricState::Initializing => "initializing",
            DirectoryMetricState::Ready => "ready",
            DirectoryMetricState::Stale => "stale",
            DirectoryMetricState::Unavailable => "unavailable",
            DirectoryMetricState::Closed => "closed",
        }
    }
}

/// A logical invocation entering admission.
#[derive(Clone, Copy, Debug)]
#[non_exhaustive]
pub struct InvocationStartedEvent<'a> {
    side: MetricSide,
    binding: &'a str,
    http_version: Option<&'a str>,
    service: &'a str,
    method: &'a str,
}

impl<'a> InvocationStartedEvent<'a> {
    /// The client/server side.
    pub closed spec fn spec_side(&self) -> MetricSide {
        self.side
    }

    /// The stable HTTP binding identifier.
    pub closed spec fn spec_binding(&self) -> &'a str {
        self.binding
    }

    /// The actual HTTP version when this event represents physical server work.
    pub closed spec fn spec_http_version(&self) -> Option<&'a str> {
        self.http_version
    }

    /// The interface identifier.
    pub closed spec fn spec_service(&self) -> &'a str {
        self.service
    }

    /// The method name.
    pub closed spec fn spec_method(&self) -> &'a str {
        self.method
    }

    /// Creates an invocation-started event.
    pub fn new(
        side: MetricSide,
        binding: &'a str,
        http_version: Option<&'a str>,
        service: &'a str,
        method: &'a str,
    ) -> (event: Self)
        ensures
            event.spec_side() == side,
            event.spec_binding() == binding,
            event.spec_http_version() == http_version,
            event.spec_service() == service,
            event.spec_method() == method,
    {
        InvocationStartedEvent { side, binding, http_version, service, method }
    }

    /// Returns the client/server side.
    pub fn side(&self) -> (value: MetricSide)
        ensures
            value == self.spec_side(),
    {
        self.side
    }

    /// Returns the stable HTTP binding identifier.
    pub fn binding(&self) -> (value: &'a str)
        ensures
            value == self.spec_binding(),
    {
        self.binding
    }

    /// Returns the actual HTTP version when this event represents physical server work.
    pub fn http_version(&self) -> (value: Option<&'a str>)
        ensures
            value == self.spec_http_version(),
    {
        self.http_version
    }

    /// Returns the interface identifier.
    pub fn service(&self) -> (value: &'a str)
        ensures
            value == self.spec_service(),
    {
        self.service
    }

    /// Returns the method name.
    pub fn method(&self) -> (value: &'a str)
        ensures
            value == self.spec_method(),
    {
        self.method
    }
}

/// A logical invocation's terminal outcome.
#[derive(Clone, Copy, Debug)]
#[non_exhaustive]
pub struct InvocationFinishedEvent<'a> {
    side: MetricSide,
    binding: &'a str,
    http_version: Option<&'a str>,
    service: &'a str,
    method: &'a str,
    outcome: MetricOutcome,
    status_class: Option<&'a str>,
    error_code: Option<&'a str>,
    duration: Duration,
    attempts: u8,
}

impl<'a> InvocationFinishedEvent<'a> {
    /// The client/server side.
    pub closed spec fn spec_side(&self) -> MetricSide {
        self.side
    }

    /// The stable HTTP binding identifier.
    pub closed spec fn spec_binding(&self) -> &'a str {
        self.binding
    }

    /// The actual HTTP version when this event represents physical server work.
    pub closed spec fn spec_http_version(&self) -> Option<&'a str> {
        self.http_version
    }

    /// The interface identifier.
    pub closed spec fn spec_service(&self) -> &'a str {
        self.service
    }

    /// The method name.
    pub closed spec fn spec_method(&self) -> &'a str {
        self.method
    }

    /// The terminal outcome.
    pub closed spec fn spec_outcome(&self) -> MetricOutcome {
        self.outcome
    }

    /// The HTTP status class.
    pub closed spec fn spec_status_class(&self) -> Option<&'a str> {
        self.status_class
    }

    /// The stable error code.
    pub closed spec fn spec_error_code(&self) -> Option<&'a str> {
        self.error_code
    }

    /// The end-to-end duration.
    pub closed spec fn spec_duration(&self) -> Duration {
        self.duration
    }

    /// The number of attempts.
    pub closed spec fn spec_attempts(&self) -> u8 {
        self.attempts
    }

    /// Creates an invocation-finished event.
    pub fn new(
        side: MetricSide,
        binding: &'a str,
        http_version: Option<&'a str>,
        service: &'a str,
        method: &'a str,
        outcome: MetricOutcome,
        status_class: Option<&'a str>,
        error_code: Option<&'a str>,
        duration: Duration,
        attempts: u8,
    ) -> (event: Self)
        ensures
            event.spec_side() == side,
            event.spec_binding() == binding,
            event.spec_http_version() == http_version,
            event.spec_service() == service,
            event.spec_method() == method,
            event.spec_outcome() == outcome,
            event.spec_status_class() == status_class,
            event.spec_error_code() == error_code,
            event.spec_duration() == duration,
            event.spec_attempts() == attempts,
    {
        InvocationFinishedEvent { side, binding, http_version, service, method, outcome, status_class, error_code, duration, attempts }
    }

    /// Returns the client/server side.
    pub fn side(&self) -> (value: MetricSide)
        ensures
            value == self.spec_side(),
    {
        self.side
    }

    /// Returns the stable HTTP binding identifier.
    pub fn binding(&self) -> (value: &'a str)
        ensures
            value == self.spec_binding(),
    {
        self.binding
    }

    /// Returns the actual HTTP version when this event represents physical server work.
    pub fn http_version(&self) -> (value: Option<&'a str>)
        ensures
            value == self.spec_http_version(),
    {
        self.http_version
    }

    /// Returns the interface identifier.
    pub fn service(&self) -> (value: &'a str)
        ensures
            value == self.spec_service(),
    {
        self.service
    }

    /// Returns the method name.
    pub fn method(&self) -> (value: &'a str)
        ensures
            value == self.spec_method(),
    {
        self.method
    }

    /// Returns the terminal outcome.
    pub fn outcome(&self) -> (value: MetricOutcome)
        ensures
            value == self.spec_outcome(),
    {
        self.outcome
    }

    /// Returns the HTTP status class.
    pub fn status_class(&self) -> (value: Option<&'a str>)
        ensures
            value == self.spec_status_class(),
    {
        self.status_class
    }

    /// Returns the stable error code.
    pub fn error_code(&self) -> (value: Option<&'a str>)
        ensures
            value == self.spec_error_code(),
    {
        self.error_code
    }

    /// Returns the end-to-end duration.
    pub fn duration(&self) -> (value: Duration)
        ensures
            value == self.spec_duration(),
    {
        self.duration
    }

    /// Returns the number of attempts.
    pub fn attempts(&self) -> (value: u8)
        ensures
            value == self.spec_attempts(),
    {
        self.attempts
    }
}

/// A physical transport attempt's terminal outcome.
#[derive(Clone, Copy, Debug)]
#[non_exhaustive]
pub struct AttemptFinishedEvent<'a> {
    binding: &'a str,
    http_version: Option<&'a str>,
    service: &'a str,
    method: &'a str,
    attempt: u8,
    outcome: MetricOutcome,
    failure_class: Option<&'a str>,
    duration: Duration,
}

impl<'a> AttemptFinishedEvent<'a> {
    /// The stable HTTP binding identifier.
    pub closed spec fn spec_binding(&self) -> &'a str {
        self.binding
    }

    /// The actual HTTP version, or `None` when the attempt failed before one was known.
    pub closed spec fn spec_http_version(&self) -> Option<&'a str> {
        self.http_version
    }

    /// The interface identifier.
    pub closed spec fn spec_service(&self) -> &'a str {
        self.service
    }

    /// The method name.
    pub closed spec fn spec_method(&self) -> &'a str {
        self.method
    }

    /// The attempt number.
    pub closed spec fn spec_attempt(&self) -> u8 {
        self.attempt
    }

    /// The terminal outcome.
    pub closed spec fn spec_outcome(&self) -> MetricOutcome {
        self.outcome
    }

    /// The failure class.
    pub closed spec fn spec_failure_class(&self) -> Option<&'a str> {
        self.failure_class
    }

    /// The attempt duration.
    pub closed spec fn spec_duration(&self) -> Duration {
        self.duration
    }

    /// Creates an attempt-finished event.
    pub fn new(
        binding: &'a str,
        http_version: Option<&'a str>,
        service: &'a str,
        method: &'a str,
        attempt: u8,
        outcome: MetricOutcome,
        failure_class: Option<&'a str>,
        duration: Duration,
    ) -> (event: Self)
        ensures
            event.spec_binding() == binding,
            event.spec_http_version() == http_version,
            event.spec_service() == service,
            event.spec_method() == method,
            event.spec_attempt() == attempt,
            event.spec_outcome() == outcome,
            event.spec_failure_class() == failure_class,
            event.spec_duration() == duration,
    {
        AttemptFinishedEvent { binding, http_version, service, method, attempt, outcome, failure_class, duration }
    }

    /// Returns the stable HTTP binding identifier.
    pub fn binding(&self) -> (value: &'a str)
        ensures
            value == self.spec_binding(),
    {
        self.binding
    }

    /// Returns the actual HTTP version, or `None` when the attempt failed before one was known.
    pub fn http_version(&self) -> (value: Option<&'a str>)
        ensures
            value == self.spec_http_version(),
    {
        self.http_version
    }

    /// Returns the interface identifier.
    pub fn service(&self) -> (value: &'a str)
        ensures
            value == self.spec_service(),
    {
        self.service
    }

    /// Returns the method name.
    pub fn method(&self) -> (value: &'a str)
        ensures
            value == self.spec_method(),
    {
        self.method
    }

    /// Returns the attempt number.
    pub fn attempt(&self) -> (value: u8)
        ensures
            value == self.spec_attempt(),
    {
        self.attempt
    }

    /// Returns the terminal outcome.
    pub fn outcome(&self) -> (value: MetricOutcome)
        ensures
            value == self.spec_outcome(),
    {
        self.outcome
    }

    /// Returns the failure class.
    pub fn failure_class(&self) -> (value: Option<&'a str>)
        ensures
            value == self.spec_failure_class(),
    {
        self.failure_class
    }

    /// Returns the attempt duration.
    pub fn duration(&self) -> (value: Duration)
        ensures
            value == self.spec_duration(),
    {
        self.duration
    }
}

/// An admission or bounded-resource rejection.
#[derive(Clone, Copy, Debug)]
#[non_exhaustive]
pub struct AdmissionRejectedEvent<'a> {
    side: MetricSide,
    reason: &'a str,
}

impl<'a> AdmissionRejectedEvent<'a> {
    /// The client/server side.
    pub closed spec fn spec_side(&self) -> MetricSide {
        self.side
    }

    /// The static rejection reason.
    pub closed spec fn spec_reason(&self) -> &'a str {
        self.reason
    }

    /// Creates an admission-rejected event.
    pub fn new(
        side: MetricSide,
        reason: &'a str,
    ) -> (event: Self)
        ensures
            event.spec_side() == side,
            event.spec_reason() == reason,
    {
        AdmissionRejectedEvent { side, reason }
    }

    /// Returns the client/server side.
    pub fn side(&self) -> (value: MetricSide)
        ensures
            value == self.spec_side(),
    {
        self.side
    }

    /// Returns the static rejection reason.
    pub fn reason(&self) -> (value: &'a str)
        ensures
            value == self.spec_reason(),
    {
        self.reason
    }
}

/// A registry lifecycle operation's terminal outcome.
#[derive(Clone, Copy, Debug)]
#[non_exhaustive]
pub struct RegistryOperationEvent<'a> {
    registry: &'a str,
    operation: &'a str,
    outcome: MetricOutcome,
    duration: Duration,
}

impl<'a> RegistryOperationEvent<'a> {
    /// The registry name.
    pub closed spec fn spec_registry(&self) -> &'a str {
        self.registry
    }

    /// The operation name.
    pub closed spec fn spec_operation(&self) -> &'a str {
        self.operation
    }

    /// The terminal outcome.
    pub closed spec fn spec_outcome(&self) -> MetricOutcome {
        self.outcome
    }

    /// The operation duration.
    pub closed spec fn spec_duration(&self) -> Duration {
        self.duration
    }

    /// Creates a registry-operation event.
    pub fn new(
        registry: &'a str,
        operation: &'a str,
        outcome: MetricOutcome,
        duration: Duration,
    ) -> (event: Self)
        ensures
            event.spec_registry() == registry,
            event.spec_operation() == operation,
            event.spec_outcome() == outcome,
            event.spec_duration() == duration,
    {
        RegistryOperationEvent { registry, operation, outcome, duration }
    }

    /// Returns the registry name.
    pub fn registry(&self) -> (value: &'a str)
        ensures
            value == self.spec_registry(),
    {
        self.registry
    }

    /// Returns the operation name.
    pub fn operation(&self) -> (value: &'a str)
        ensures
            value == self.spec_operation(),
    {
        self.operation
    }

    /// Returns the terminal outcome.
    pub fn outcome(&self) -> (value: MetricOutcome)
        ensures
            value == self.spec_outcome(),
    {
        self.outcome
    }

    /// Returns the operation duration.
    pub fn duration(&self) -> (value: Duration)
        ensures
            value == self.spec_duration(),
    {
        self.duration
    }
}

/// A discovery directory state transition.
#[derive(Clone, Copy, Debug)]
#[non_exhaustive]
pub struct DirectoryStateChangedEvent<'a> {
    service: &'a str,
    state: DirectoryMetricState,
}

impl<'a> DirectoryStateChangedEvent<'a> {
    /// The interface identifier.
    pub closed spec fn spec_service(&self) -> &'a str {
        self.service
    }

    /// The new directory state.
    pub closed spec fn spec_state(&self) -> DirectoryMetricState {
        self.state
    }

    /// Creates a directory-state event.
    pub fn new(
        service: &'a str,
        state: DirectoryMetricState,
    ) -> (event: Self)
        ensures
            event.spec_service() == service,
            event.spec_state() == state,
    {
        DirectoryStateChangedEvent { service, state }
    }

    /// Returns the interface identifier.
    pub fn service(&self) -> (value: &'a str)
        ensures
            value == self.spec_service(),
    {
        self.service
    }

    /// Returns the new directory state.
    pub fn state(&self) -> (value: DirectoryMetricState)
        ensures
            value == self.spec_state(),
    {
        self.state
    }
}

/// A circuit-breaker state transition.
#[derive(Clone, Copy, Debug)]
#[non_exhaustive]
pub struct CircuitStateChangedEvent<'a> {
    scope: &'a str,
    binding: &'a str,
    service: &'a str,
    state: CircuitState,
}

impl<'a> CircuitStateChangedEvent<'a> {
    /// `service` or `endpoint`.
    pub closed spec fn spec_scope(&self) -> &'a str {
        self.scope
    }

    /// The HTTP binding identifier.
    pub closed spec fn spec_binding(&self) -> &'a str {
        self.binding
    }

    /// The interface identifier.
    pub closed spec fn spec_service(&self) -> &'a str {
        self.service
    }

    /// The new circuit state.
    pub closed spec fn spec_state(&self) -> CircuitState {
        self.state
    }

    /// Creates a circuit-state event.
    pub fn new(
        scope: &'a str,
        binding: &'a str,
        service: &'a str,
        state: CircuitState,
    ) -> (event: Self)
        ensures
            event.spec_scope() == scope,
            event.spec_binding() == binding,
            event.spec_service() == service,
            event.spec_state() == state,
    {
        CircuitStateChangedEvent { scope, binding, service, state }
    }

    /// Returns `service` or `endpoint`.
    pub fn scope(&self) -> (value: &'a str)
        ensures
            value == self.spec_scope(),
    {
        self.scope
    }

    /// Returns the HTTP binding identifier.
    pub fn binding(&self) -> (value: &'a str)
        ensures
            value == self.spec_binding(),
    {
        self.binding
    }

    /// Returns the interface identifier.
    pub fn service(&self) -> (value: &'a str)
        ensures
            value == self.spec_service(),
    {
        self.service
    }

    /// Returns the new circuit state.
    pub fn state(&self) -> (value: CircuitState)
        ensures
            value == self.spec_state(),
    {
        self.state
    }
}

/// A client or server shutdown's terminal outcome.
#[derive(Clone, Copy, Debug)]
#[non_exhaustive]
pub struct ShutdownFinishedEvent<'a> {
    runtime: &'a str,
    outcome: MetricOutcome,
    duration: Duration,
}

impl<'a> ShutdownFinishedEvent<'a> {
    /// `client` or `server`.
    pub closed spec fn spec_runtime(&self) -> &'a str {
        self.runtime
    }

    /// The terminal outcome.
    pub closed spec fn spec_outcome(&self) -> MetricOutcome {
        self.outcome
    }

    /// The shutdown duration.
    pub closed spec fn spec_duration(&self) -> Duration {
        self.duration
    }

    /// Creates a shutdown-finished event.
    pub fn new(
        runtime: &'a str,
        outcome: MetricOutcome,
        duration: Duration,
    ) -> (event: Self)
        ensures
            event.spec_runtime() == runtime,
            event.spec_outcome() == outcome,
            event.spec_duration() == duration,
    {
        ShutdownFinishedEvent { runtime, outcome, duration }
    }

    /// Returns `client` or `server`.
    pub fn runtime(&self) -> (value: &'a str)
        ensures
            value == self.spec_runtime(),
    {
        self.runtime
    }

    /// Returns the terminal outcome.
    pub fn outcome(&self) -> (value: MetricOutcome)
        ensures
            value == self.spec_outcome(),
    {
        self.outcome
    }

    /// Returns the shutdown duration.
    pub fn duration(&self) -> (value: Duration)
        ensures
            value == self.spec_duration(),
    {
        self.duration
    }
}

/// One low-cardinality runtime measurement.
#[derive(Clone, Copy, Debug)]
#[non_exhaustive]
pub enum MetricEvent<'a> {
    /// A logical invocation entered admission.
    InvocationStarted(InvocationStartedEvent<'a>),
    /// A logical invocation reached its terminal outcome.
    InvocationFinished(InvocationFinishedEvent<'a>),
    /// One physical transport attempt completed.
    AttemptFinished(AttemptFinishedEvent<'a>),
    /// Admission or a bounded resource rejected work.
    AdmissionRejected(AdmissionRejectedEvent<'a>),
    /// One registry lifecycle operation completed.
    RegistryOperation(RegistryOperationEvent<'a>),
    /// A discovery directory changed state.
    DirectoryStateChanged(DirectoryStateChangedEvent<'a>),
    /// A service or endpoint circuit changed state.
    CircuitStateChanged(CircuitStateChangedEvent<'a>),
    /// A client or server shutdown completed.
    ShutdownFinished(ShutdownFinishedEvent<'a>),
}

/// Synchronous sink for low-cardinality runtime metrics.
///
/// Implementations must not block. Events never contain request IDs, endpoint addresses,
/// bodies, credentials, full headers, provider error text, or other unbounded
/// user-controlled labels.
pub trait MetricsRecorder {
    /// Records one measurement.
    fn record(&self, event: &MetricEvent<'_>);
}

/// A recorder that intentionally discards every event.
#[derive(Clone, Copy, Debug, Default)]
pub struct NoopMetricsRecorder;

impl MetricsRecorder for NoopMetricsRecorder {
    fn record(&self, _event: &MetricEvent<'_>) {
    }
}

/// The value of one metric attribute.
#[derive(Clone, Copy, Debug, PartialEq, Eq)]
pub enum AttributeValue<'a> {
    /// A low-cardinality text label.
    Text(&'a str),
    /// A small integer label.
    Integer(i64),
}

/// The abstract value of one metric attribute.
pub enum AttributeView {
    /// A text label.
    Text(Seq<char>),
    /// An integer label.
    Integer(int),
}

/// One metric attribute: a static key and its value.
#[derive(Clone, Copy, Debug, PartialEq, Eq)]
pub struct Attribute<'a> {
    /// The attribute key.
    pub key: &'static str,
    /// The attribute value.
    pub value: AttributeValue<'a>,
}

impl<'a> Attribute<'a> {
    /// The key and value as abstract values.
    pub open spec fn view_pair(self) -> (Seq<char>, AttributeView) {
        (self.key@, match self.value {
            AttributeValue::Text(text) => AttributeView::Text(text@),
            AttributeValue::Integer(value) => AttributeView::Integer(value as int),
        })
    }
}

/// A text attribute.
pub open spec fn text(key: Seq<char>, value: Seq<char>) -> (Seq<char>, AttributeView) {
    (key, AttributeView::Text(value))
}

/// How one event is recorded: one count with `attributes`, a duration sample when
/// `duration` is present and an attempt-count sample when `attempts` is present, all
/// with the same attributes.
pub struct RecordPlan<'a> {
    /// The attributes of every measurement of the event.
    pub attributes: Vec<Attribute<'a>>,
    /// The duration to sample, if the event carries one.
    pub duration: Option<Duration>,
    /// The attempt count to sample, if the event carries one.
    pub attempts: Option<u8>,
}

impl<'a> RecordPlan<'a> {
    /// The attributes as abstract key and value pairs.
    pub open spec fn spec_attributes(&self) -> Seq<(Seq<char>, AttributeView)> {
        self.attributes@.map_values(|attribute: Attribute<'a>| attribute.view_pair())
    }
}

/// The attributes shared by invocation events.
pub open spec fn invocation_attributes(event: Seq<char>, side: MetricSide, binding: Seq<char>,
    service: Seq<char>, method: Seq<char>) -> Seq<(Seq<char>, AttributeView)> {
    seq![
        text("event"@, event),
        text("side"@, side.spec_name()),
        text("protocol"@, binding),
        text("service"@, service),
        text("method"@, method),
    ]
}

/// The text attribute `key` when `value` is present, else nothing.
pub open spec fn optional_text(key: Seq<char>, value: Option<&str>) -> Seq<(Seq<char>, AttributeView)> {
    match value {
        Some(v) => seq![text(key, v@)],
        None => Seq::empty(),
    }
}

/// The attributes with which `event` is recorded.
pub open spec fn event_attributes(event: MetricEvent) -> Seq<(Seq<char>, AttributeView)> {
    match event {
        MetricEvent::InvocationStarted(e) => invocation_attributes("invocation_started"@,
            e.spec_side(), e.spec_binding()@, e.spec_service()@, e.spec_method()@),
        MetricEvent::InvocationFinished(e) => invocation_attributes("invocation_finished"@,
            e.spec_side(), e.spec_binding()@, e.spec_service()@, e.spec_method()@)
            + seq![text("outcome"@, e.spec_outcome().spec_name())]
            + optional_text("status_class"@, e.spec_status_class())
            + optional_text("error_code"@, e.spec_error_code()),
        MetricEvent::AttemptFinished(e) => seq![
            text("event"@, "attempt_finished"@),
            text("protocol"@, e.spec_binding()@),
            text("service"@, e.spec_service()@),
            text("method"@, e.spec_method()@),
            text("outcome"@, e.spec_outcome().spec_name()),
            ("attempt"@, AttributeView::Integer(e.spec_attempt() as int)),
        ] + optional_text("failure_class"@, e.spec_failure_class()),
        MetricEvent::AdmissionRejected(e) => seq![
            text("event"@, "admission_rejected"@),
            text("side"@, e.spec_side().spec_name()),
            text("reason"@, e.spec_reason()@),
        ],
        MetricEvent::RegistryOperation(e) => seq![
            text("event"@, "registry_operation"@),
            text("registry"@, e.spec_registry()@),
            text("operation"@, e.spec_operation()@),
            text("outcome"@, e.spec_outcome().spec_name()),
        ],
        MetricEvent::DirectoryStateChanged(e) => seq![
            text("event"@, "directory_state_changed"@),
            text("service"@, e.spec_service()@),
            text("state"@, e.spec_state().spec_name()),
        ],
        MetricEvent::CircuitStateChanged(e) => seq![
            text("event"@, "circuit_state_changed"@),
            text("scope"@, e.spec_scope()@),
            text("service"@, e.spec_service()@),
            text("state"@, e.spec_state().spec_name()),
        ],
        MetricEvent::ShutdownFinished(e) => seq![
            text("event"@, "shutdown_finished"@),
            text("runtime"@, e.spec_runtime()@),
            text("outcome"@, e.spec_outcome().spec_name()),
        ],
    }
}

/// The duration sampled for `event`, if any.
pub open spec fn event_duration(event: MetricEvent) -> Option<Duration> {
    match event {
        MetricEvent::InvocationFinished(e) => Some(e.spec_duration()),
        MetricEvent::AttemptFinished(e) => Some(e.spec_duration()),
        MetricEvent::RegistryOperation(e) => Some(e.spec_duration()),
        MetricEvent::ShutdownFinished(e) => Some(e.spec_duration()),
        _ => None,
    }
}

/// The attempt count sampled for `event`, if any.
pub open spec fn event_attempts(event: MetricEvent) -> Option<u8> {
    match event {
        MetricEvent::InvocationFinished(e) => Some(e.spec_attempts()),
        _ => None,
    }
}

/// The low-cardinality labels metrics are recorded with.
pub open spec fn metric_labels() -> Seq<Seq<char>> {
    seq!["event"@, "side"@, "protocol"@, "service"@, "method"@, "outcome"@, "status_class"@, "error_code"@,
        "attempt"@, "failure_class"@, "reason"@, "registry"@, "operation"@, "state"@, "scope"@, "runtime"@]
}

/// Whether `key` is one of the low-cardinality labels metrics are recorded with.
pub open spec fn is_metric_label(key: Seq<char>) -> bool {
    metric_labels().contains(key)
}

proof fn lemma_metric_labels_distinct()
    ensures
        forall|p: int, q: int| 0 <= p < q < metric_labels().len() ==> #[trigger] metric_labels()[p]
            != #[trigger] metric_labels()[q],
{
    reveal_strlit("event");
    reveal_strlit("side");
    reveal_strlit("protocol");
    reveal_strlit("service");
    reveal_strlit("method");
    reveal_strlit("outcome");
    reveal_strlit("status_class");
    reveal_strlit("error_code");
    reveal_strlit("attempt");
    reveal_strlit("failure_class");
    reveal_strlit("reason");
    reveal_strlit("registry");
    reveal_strlit("operation");
    reveal_strlit("state");
    reveal_strlit("scope");
    reveal_strlit("runtime");
    let ks = metric_labels();
    assert forall|p: int, q: int| 0 <= p < q < ks.len() implies #[trigger] ks[p] != #[trigger] ks[q] by {
        if ks[p].len() == ks[q].len() {
            assert(ks[p][0] != ks[q][0] || ks[p][1] != ks[q][1]);
        }
    }
}

/// Whether every attribute key is the label at its position in `m`, no two of them the same.
spec fn labelled_by(a: Seq<(Seq<char>, AttributeView)>, m: Seq<int>) -> bool {
    &&& m.len() == a.len()
    &&& forall|i: int| 0 <= i < a.len() ==> 0 <= #[trigger] m[i] < metric_labels().len() && a[i].0 == metric_labels()[m[i]]
    &&& forall|i: int, j: int| 0 <= i < j < m.len() ==> #[trigger] m[i] != #[trigger] m[j]
}

proof fn lemma_labelled_distinct(a: Seq<(Seq<char>, AttributeView)>, m: Seq<int>)
    requires
        labelled_by(a, m),
    ensures
        forall|i: int| 0 <= i < a.len() ==> is_metric_label((#[trigger] a[i]).0),
        forall|i: int, j: int| 0 <= i < j < a.len() ==> (#[trigger] a[i]).0 != (#[trigger] a[j]).0,
{
    lemma_metric_labels_distinct();
    assert forall|i: int| 0 <= i < a.len() implies is_metric_label((#[trigger] a[i]).0) by {
        assert(metric_labels()[m[i]] == a[i].0);
    }
    assert forall|i: int, j: int| 0 <= i < j < a.len() implies (#[trigger] a[i]).0 != (#[trigger] a[j]).0 by {
        assert(m[i] != m[j]);
        if m[i] < m[j] {
            assert(metric_labels()[m[i]] != metric_labels()[m[j]]);
        } else {
            assert(metric_labels()[m[j]] != metric_labels()[m[i]]);
        }
    }
}

/// Every event is recorded with its kind as the first attribute and only with
/// low-cardinality labels, none of them twice; a duration is sampled exactly for
/// finished invocations, finished attempts, registry operations and finished
/// shutdowns, and an attempt count exactly for finished invocations, each the event's
/// own.
pub proof fn lemma_record_plan(event: MetricEvent)
    ensures
        event_attributes(event).len() > 0,
        event is InvocationStarted ==> event_attributes(event)[0] == text("event"@, "invocation_started"@),
        event is InvocationFinished ==> event_attributes(event)[0] == text("event"@, "invocation_finished"@),
        event is AttemptFinished ==> event_attributes(event)[0] == text("event"@, "attempt_finished"@),
        event is AdmissionRejected ==> event_attributes(event)[0] == text("event"@, "admission_rejected"@),
        event is RegistryOperation ==> event_attributes(event)[0] == text("event"@, "registry_operation"@),
        event is DirectoryStateChanged ==> event_attributes(event)[0] == text("event"@, "directory_state_changed"@),
        event is CircuitStateChanged ==> event_attributes(event)[0] == text("event"@, "circuit_state_changed"@),
        event is ShutdownFinished ==> event_attributes(event)[0] == text("event"@, "shutdown_finished"@),
        forall|i: int| 0 <= i < event_attributes(event).len() ==> is_metric_label(
            (#[trigger] event_attributes(event)[i]).0),
        forall|i: int, j: int| 0 <= i < j < event_attributes(event).len() ==> (#[trigger] event_attributes(event)[i]).0
            != (#[trigger] event_attributes(event)[j]).0,
        event_duration(event) is Some <==> (event is InvocationFinished || event is AttemptFinished
            || event is RegistryOperation || event is ShutdownFinished),
        event_attempts(event) is Some <==> event is InvocationFinished,
        event matches MetricEvent::InvocationFinished(e) ==> event_duration(event) == Some(e.spec_duration())
            && event_attempts(event) == Some(e.spec_attempts()),
        event matches MetricEvent::AttemptFinished(e) ==> event_duration(event) == Some(e.spec_duration()),
        event matches MetricEvent::RegistryOperation(e) ==> event_duration(event) == Some(e.spec_duration()),
        event matches MetricEvent::ShutdownFinished(e) ==> event_duration(event) == Some(e.spec_duration()),
{
    let a = event_attributes(event);
    let m: Seq<int> = match event {
        MetricEvent::InvocationStarted(_) => seq![0, 1, 2, 3, 4],
        MetricEvent::InvocationFinished(e) => seq![0, 1, 2, 3, 4, 5] + (if e.spec_status_class() is Some {
            seq![6int]
        } else {
            Seq::empty()
        }) + (if e.spec_error_code() is Some {
            seq![7int]
        } else {
            Seq::empty()
        }),
        MetricEvent::AttemptFinished(e) => seq![0, 2, 3, 4, 5, 8] + (if e.spec_failure_class() is Some {
            seq![9int]
        } else {
            Seq::empty()
        }),
        MetricEvent::AdmissionRejected(_) => seq![0, 1, 10],
        MetricEvent::RegistryOperation(_) => seq![0, 11, 12, 5],
        MetricEvent::DirectoryStateChanged(_) => seq![0, 3, 13],
        MetricEvent::CircuitStateChanged(_) => seq![0, 14, 3, 13],
        MetricEvent::ShutdownFinished(_) => seq![0, 15, 5],
    };
    assert(labelled_by(a, m));
    lemma_labelled_distinct(a, m);
}

fn push_text<'a>(attributes: &mut Vec<Attribute<'a>>, key: &'static str, value: &'a str)
    ensures
        final(attributes)@.map_values(|a: Attribute<'a>| a.view_pair())
            == old(attributes)@.map_values(|a: Attribute<'a>| a.view_pair()).push(text(key@, value@)),
{
    attributes.push(Attribute { key, value: AttributeValue::Text(value) });
    assert(final(attributes)@.map_values(|a: Attribute<'a>| a.view_pair())
        =~= old(attributes)@.map_values(|a: Attribute<'a>| a.view_pair()).push(text(key@, value@)));
}

fn push_optional_text<'a>(attributes: &mut Vec<Attribute<'a>>, key: &'static str, value: Option<&'a str>)
    ensures
        final(attributes)@.map_values(|a: Attribute<'a>| a.view_pair())
            == old(attributes)@.map_values(|a: Attribute<'a>| a.view_pair()) + optional_text(key@, value),
{
    match value {
        Some(v) => push_text(attributes, key, v),
        None => {
            assert(old(attributes)@.map_values(|a: Attribute<'a>| a.view_pair()) + optional_text(key@, value)
                =~= old(attributes)@.map_values(|a: Attribute<'a>| a.view_pair()));
        },
    }
}

fn push_invocation<'a>(attributes: &mut Vec<Attribute<'a>>, event: &'static str, side: MetricSide,
    binding: &'a str, service: &'a str, method: &'a str)
    requires
        old(attributes)@.len() == 0,
    ensures
        final(attributes)@.map_values(|a: Attribute<'a>| a.view_pair())
            == invocation_attributes(event@, side, binding@, service@, method@),
{
    assert(old(attributes)@.map_values(|a: Attribute<'a>| a.view_pair()) =~= Seq::empty());
    push_text(attributes, "event", event);
    push_text(attributes, "side", side.name());
    push_text(attributes, "protocol", binding);
    push_text(attributes, "service", service);
    push_text(attributes, "method", method);
    assert(final(attributes)@.map_values(|a: Attribute<'a>| a.view_pair())
        =~= invocation_attributes(event@, side, binding@, service@, method@));
}

/// Plans how `event` is recorded by a metrics backend with one event counter, one
/// duration histogram and one attempt histogram.
pub fn record_plan<'a>(event: &MetricEvent<'a>) -> (plan: RecordPlan<'a>)
    ensures
        plan.spec_attributes() == event_attributes(*event),
        plan.duration == event_duration(*event),
        plan.attempts == event_attempts(*event),
{
    let mut attributes: Vec<Attribute<'a>> = Vec::new();
    let ghost empty = attributes@.map_values(|a: Attribute<'a>| a.view_pair());
    assert(empty =~= Seq::empty());
    match event {
        MetricEvent::InvocationStarted(e) => {
            push_invocation(&mut attributes, "invocation_started", e.side(), e.binding(), e.service(), e.method());
            RecordPlan { attributes, duration: None, attempts: None }
        },
        MetricEvent::InvocationFinished(e) => {
            push_invocation(&mut attributes, "invocation_finished", e.side(), e.binding(), e.service(), e.method());
            push_text(&mut attributes, "outcome", e.outcome().name());
            push_optional_text(&mut attributes, "status_class", e.status_class());
            push_optional_text(&mut attributes, "error_code", e.error_code());
            RecordPlan { attributes, duration: Some(e.duration()), attempts: Some(e.attempts()) }
        },
        MetricEvent::AttemptFinished(e) => {
            push_text(&mut attributes, "event", "attempt_finished");
            push_text(&mut attributes, "protocol", e.binding());
            push_text(&mut attributes, "service", e.service());
            push_text(&mut attributes, "method", e.method());
            push_text(&mut attributes, "outcome", e.outcome().name());
            let ghost before = attributes@.map_values(|a: Attribute<'a>| a.view_pair());
            attributes.push(Attribute { key: "attempt", value: AttributeValue::Integer(e.attempt() as i64) });
            assert(attributes@.map_values(|a: Attribute<'a>| a.view_pair())
                =~= before.push(("attempt"@, AttributeView::Integer(e.spec_attempt() as int))));
            push_optional_text(&mut attributes, "failure_class", e.failure_class());
            RecordPlan { attributes, duration: Some(e.duration()), attempts: None }
        },
        MetricEvent::AdmissionRejected(e) => {
            push_text(&mut attributes, "event", "admission_rejected");
            push_text(&mut attributes, "side", e.side().name());
            push_text(&mut attributes, "reason", e.reason());
            RecordPlan { attributes, duration: None, attempts: None }
        },
        MetricEvent::RegistryOperation(e) => {
            push_text(&mut attributes, "event", "registry_operation");
            push_text(&mut attributes, "registry", e.registry());
            push_text(&mut attributes, "operation", e.operation());
            push_text(&mut attributes, "outcome", e.outcome().name());
            RecordPlan { attributes, duration: Some(e.duration()), attempts: None }
        },
        MetricEvent::DirectoryStateChanged(e) => {
            push_text(&mut attributes, "event", "directory_state_changed");
            push_text(&mut attributes, "service", e.service());
            push_text(&mut attributes, "state", e.state().name());
            RecordPlan { attributes, duration: None, attempts: None }
        },
        MetricEvent::CircuitStateChanged(e) => {
            push_text(&mut attributes, "event", "circuit_state_changed");
            push_text(&mut attributes, "scope", e.scope());
            push_text(&mut attributes, "service", e.service());
            push_text(&mut attributes, "state", e.state().name());
            RecordPlan { attributes, duration: None, attempts: None }
        },
        MetricEvent::ShutdownFinished(e) => {
            push_text(&mut attributes, "event", "shutdown_finished");
            push_text(&mut attributes, "runtime", e.runtime());
            push_text(&mut attributes, "outcome", e.outcome().name());
            RecordPlan { attributes, duration: Some(e.duration()), attempts: None }
        },
    }
}

} // verus!
