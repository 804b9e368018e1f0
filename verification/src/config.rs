use crate::time::Duration;
use crate::validation::{
    inconsistent, inconsistent_at, must_be_positive, out_of_range, out_of_range_at, reports,
    ConfigValidationError, ConfigValidationErrorKind, Violation,
};
use vstd::prelude::*;

verus! {

/// One mebibyte.
pub const MIB: usize = 1_048_576;

/// The interval after which an unused endpoint breaker is evicted by default.
pub const DEFAULT_ENDPOINT_IDLE_EVICTION_SECS: u64 = 600;

// ---------------------------------------------------------------------------
// Shared checks
// ---------------------------------------------------------------------------

/// A span that must be positive, reported at `field_path`.
pub open spec fn positive_span(value: nat, field_path: Seq<char>) -> Option<Violation> {
    if value == 0 {
        out_of_range_at(field_path, must_be_positive())
    } else {
        None
    }
}

/// A count that must be positive, reported at `field_path`.
pub open spec fn positive_count(value: int, field_path: Seq<char>) -> Option<Violation> {
    if value == 0 {
        out_of_range_at(field_path, must_be_positive())
    } else {
        None
    }
}

fn positive_duration(value: Duration, field_path: &'static str) -> (result: Result<(), ConfigValidationError>)
    ensures
        reports(result, positive_span(value@, field_path@)),
{
    if value.is_zero() {
        Err(out_of_range(field_path, "must be greater than zero"))
    } else {
        Ok(())
    }
}

fn positive_usize(value: usize, field_path: &'static str) -> (result: Result<(), ConfigValidationError>)
    ensures
        reports(result, positive_count(value as int, field_path@)),
{
    if value == 0 {
        Err(out_of_range(field_path, "must be greater than zero"))
    } else {
        Ok(())
    }
}

fn positive_u32(value: u32, field_path: &'static str) -> (result: Result<(), ConfigValidationError>)
    ensures
        reports(result, positive_count(value as int, field_path@)),
{
    if value == 0 {
        Err(out_of_range(field_path, "must be greater than zero"))
    } else {
        Ok(())
    }
}

// ---------------------------------------------------------------------------
// Queue
// ---------------------------------------------------------------------------

/// The abstract content of a [`QueueConfig`].
pub struct QueueConfigView {
    pub capacity: usize,
    pub max_wait: nat,
}

/// Optional bounded admission queue settings.
#[derive(Clone, Copy, Debug, PartialEq, Eq)]
pub struct QueueConfig {
    capacity: usize,
    max_wait: Duration,
}

impl View for QueueConfig {
    type V = QueueConfigView;

    closed spec fn view(&self) -> QueueConfigView {
        QueueConfigView { capacity: self.capacity, max_wait: self.max_wait@ }
    }
}

/// The production queue defaults: queueing disabled, 50 ms maximum wait.
pub open spec fn default_queue() -> QueueConfigView {
    QueueConfigView { capacity: 0, max_wait: 50_000_000 }
}

/// The first queue setting that violates its constraint, if any.
pub open spec fn queue_violation(config: QueueConfigView) -> Option<Violation> {
    if config.capacity > 0 && config.max_wait == 0 {
        inconsistent_at(
            "client.admission.queue.max_wait"@,
            "must be positive when queue capacity is non-zero"@,
        )
    } else {
        None
    }
}

impl Default for QueueConfig {
    /// Returns the production defaults.
    fn default() -> (config: QueueConfig)
        ensures
            config@ == default_queue(),
    {
        QueueConfig { capacity: 0, max_wait: Duration::from_millis(50) }
    }
}

impl QueueConfig {

    /// Starts a builder with fail-fast queueing disabled.
    pub fn builder() -> (builder: QueueConfigBuilder)
        ensures
            builder@ == default_queue(),
    {
        QueueConfigBuilder(QueueConfig::default())
    }

    /// Returns the maximum queued invocations. Zero means disabled.
    pub fn capacity(&self) -> (capacity: usize)
        ensures
            capacity == self@.capacity,
    {
        self.capacity
    }

    /// Returns the maximum queue wait, bounded by the invocation deadline.
    pub fn max_wait(&self) -> (max_wait: Duration)
        ensures
            max_wait@ == self@.max_wait,
    {
        self.max_wait
    }
}

/// Builder for [`QueueConfig`].
#[derive(Clone, Debug)]
pub struct QueueConfigBuilder(QueueConfig);

impl View for QueueConfigBuilder {
    type V = QueueConfigView;

    closed spec fn view(&self) -> QueueConfigView {
        self.0@
    }
}

impl QueueConfigBuilder {
    /// Sets the maximum queued invocations. Zero disables queueing.
    pub fn capacity(self, capacity: usize) -> (builder: Self)
        ensures
            builder@ == (QueueConfigView { capacity, ..self@ }),
    {
        let mut config = self.0;
        config.capacity = capacity;
        QueueConfigBuilder(config)
    }

    /// Sets the maximum queue wait.
    pub fn max_wait(self, max_wait: Duration) -> (builder: Self)
        ensures
            builder@ == (QueueConfigView { max_wait: max_wait@, ..self@ }),
    {
        let mut config = self.0;
        config.max_wait = max_wait;
        QueueConfigBuilder(config)
    }

    /// Validates and builds the queue configuration.
    pub fn build(self) -> (result: Result<QueueConfig, ConfigValidationError>)
        ensures
            reports(result, queue_violation(self@)),
            result matches Ok(config) ==> config@ == self@,
    {
        match validate_queue(&self.0) {
            Ok(()) => Ok(self.0),
            Err(error) => Err(error),
        }
    }
}

fn validate_queue(config: &QueueConfig) -> (result: Result<(), ConfigValidationError>)
    ensures
        reports(result, queue_violation(config@)),
{
    if config.capacity > 0 && config.max_wait.is_zero() {
        return Err(inconsistent(
            "client.admission.queue.max_wait",
            "must be positive when queue capacity is non-zero",
        ));
    }
    Ok(())
}

// ---------------------------------------------------------------------------
// Admission
// ---------------------------------------------------------------------------

/// The abstract content of a [`ClientAdmissionConfig`].
pub struct ClientAdmissionConfigView {
    pub max_in_flight: usize,
    pub max_in_flight_per_endpoint: usize,
    pub max_request_body_bytes: usize,
    pub max_response_body_bytes: usize,
    pub max_inflight_request_body_bytes: usize,
    pub max_inflight_response_body_bytes: usize,
    pub queue: QueueConfigView,
}

/// Client concurrency and buffering limits.
#[derive(Clone, Copy, Debug)]
pub struct ClientAdmissionConfig {
    max_in_flight: usize,
    max_in_flight_per_endpoint: usize,
    max_request_body_bytes: usize,
    max_response_body_bytes: usize,
    max_inflight_request_body_bytes: usize,
    max_inflight_response_body_bytes: usize,
    queue: QueueConfig,
}

impl View for ClientAdmissionConfig {
    type V = ClientAdmissionConfigView;

    closed spec fn view(&self) -> ClientAdmissionConfigView {
        ClientAdmissionConfigView {
            max_in_flight: self.max_in_flight,
            max_in_flight_per_endpoint: self.max_in_flight_per_endpoint,
            max_request_body_bytes: self.max_request_body_bytes,
            max_response_body_bytes: self.max_response_body_bytes,
            max_inflight_request_body_bytes: self.max_inflight_request_body_bytes,
            max_inflight_response_body_bytes: self.max_inflight_response_body_bytes,
            queue: self.queue@,
        }
    }
}

/// The bounded production admission defaults.
pub open spec fn default_admission() -> ClientAdmissionConfigView {
    ClientAdmissionConfigView {
        max_in_flight: 1024,
        max_in_flight_per_endpoint: 128,
        max_request_body_bytes: 2_097_152,
        max_response_body_bytes: 2_097_152,
        max_inflight_request_body_bytes: 67_108_864,
        max_inflight_response_body_bytes: 67_108_864,
        queue: default_queue(),
    }
}

/// The first admission setting that violates its constraint, if any.
pub open spec fn admission_violation(c: ClientAdmissionConfigView) -> Option<Violation> {
    if c.max_in_flight == 0 {
        positive_count(0, "client.admission.max_in_flight"@)
    } else if c.max_in_flight_per_endpoint == 0 {
        positive_count(0, "client.admission.max_in_flight_per_endpoint"@)
    } else if c.max_request_body_bytes == 0 {
        positive_count(0, "client.admission.max_request_body_bytes"@)
    } else if c.max_response_body_bytes == 0 {
        positive_count(0, "client.admission.max_response_body_bytes"@)
    } else if c.max_inflight_request_body_bytes < c.max_request_body_bytes {
        inconsistent_at(
            "client.admission.max_inflight_request_body_bytes"@,
            "must be at least max_request_body_bytes"@,
        )
    } else if c.max_inflight_response_body_bytes < c.max_response_body_bytes {
        inconsistent_at(
            "client.admission.max_inflight_response_body_bytes"@,
            "must be at least max_response_body_bytes"@,
        )
    } else {
        queue_violation(c.queue)
    }
}

impl Default for ClientAdmissionConfig {
    /// Returns the bounded production defaults.
    fn default() -> (config: ClientAdmissionConfig)
        ensures
            config@ == default_admission(),
    {
        ClientAdmissionConfig {
            max_in_flight: 1024,
            max_in_flight_per_endpoint: 128,
            max_request_body_bytes: 2 * MIB,
            max_response_body_bytes: 2 * MIB,
            max_inflight_request_body_bytes: 64 * MIB,
            max_inflight_response_body_bytes: 64 * MIB,
            queue: QueueConfig::default(),
        }
    }
}

impl ClientAdmissionConfig {
    /// Starts a builder with bounded production defaults.
    pub fn builder() -> (builder: ClientAdmissionConfigBuilder)
        ensures
            builder@ == default_admission(),
    {
        ClientAdmissionConfigBuilder(ClientAdmissionConfig::default())
    }

    /// Returns the runtime-wide logical invocation limit.
    pub fn max_in_flight(&self) -> (value: usize)
        ensures
            value == self@.max_in_flight,
    {
        self.max_in_flight
    }

    /// Returns the per-endpoint physical attempt limit.
    pub fn max_in_flight_per_endpoint(&self) -> (value: usize)
        ensures
            value == self@.max_in_flight_per_endpoint,
    {
        self.max_in_flight_per_endpoint
    }

    /// Returns the maximum encoded request body size.
    pub fn max_request_body_bytes(&self) -> (value: usize)
        ensures
            value == self@.max_request_body_bytes,
    {
        self.max_request_body_bytes
    }

    /// Returns the maximum decoded response body size.
    pub fn max_response_body_bytes(&self) -> (value: usize)
        ensures
            value == self@.max_response_body_bytes,
    {
        self.max_response_body_bytes
    }

    /// Returns the runtime-wide encoded request byte budget.
    pub fn max_inflight_request_body_bytes(&self) -> (value: usize)
        ensures
            value == self@.max_inflight_request_body_bytes,
    {
        self.max_inflight_request_body_bytes
    }

    /// Returns the runtime-wide buffered response byte budget.
    pub fn max_inflight_response_body_bytes(&self) -> (value: usize)
        ensures
            value == self@.max_inflight_response_body_bytes,
    {
        self.max_inflight_response_body_bytes
    }

    /// Returns optional queue behavior.
    pub fn queue(&self) -> (queue: &QueueConfig)
        ensures
            queue@ == self@.queue,
    {
        &self.queue
    }
}

/// Builder for [`ClientAdmissionConfig`].
#[derive(Clone, Debug)]
pub struct ClientAdmissionConfigBuilder(ClientAdmissionConfig);

impl View for ClientAdmissionConfigBuilder {
    type V = ClientAdmissionConfigView;

    closed spec fn view(&self) -> ClientAdmissionConfigView {
        self.0@
    }
}

impl ClientAdmissionConfigBuilder {
    /// Sets the runtime-wide logical invocation limit.
    pub fn max_in_flight(self, value: usize) -> (builder: Self)
        ensures
            builder@ == (ClientAdmissionConfigView { max_in_flight: value, ..self@ }),
    {
        let mut config = self.0;
        config.max_in_flight = value;
        ClientAdmissionConfigBuilder(config)
    }

    /// Sets the per-endpoint physical attempt limit.
    pub fn max_in_flight_per_endpoint(self, value: usize) -> (builder: Self)
        ensures
            builder@ == (ClientAdmissionConfigView { max_in_flight_per_endpoint: value, ..self@ }),
    {
        let mut config = self.0;
        config.max_in_flight_per_endpoint = value;
        ClientAdmissionConfigBuilder(config)
    }

    /// Sets the maximum encoded request body size.
    pub fn max_request_body_bytes(self, value: usize) -> (builder: Self)
        ensures
            builder@ == (ClientAdmissionConfigView { max_request_body_bytes: value, ..self@ }),
    {
        let mut config = self.0;
        config.max_request_body_bytes = value;
        ClientAdmissionConfigBuilder(config)
    }

    /// Sets the maximum decoded response body size.
    pub fn max_response_body_bytes(self, value: usize) -> (builder: Self)
        ensures
            builder@ == (ClientAdmissionConfigView { max_response_body_bytes: value, ..self@ }),
    {
        let mut config = self.0;
        config.max_response_body_bytes = value;
        ClientAdmissionConfigBuilder(config)
    }

    /// Sets the runtime-wide encoded request byte budget.
    pub fn max_inflight_request_body_bytes(self, value: usize) -> (builder: Self)
        ensures
            builder@ == (ClientAdmissionConfigView { max_inflight_request_body_bytes: value, ..self@ }),
    {
        let mut config = self.0;
        config.max_inflight_request_body_bytes = value;
        ClientAdmissionConfigBuilder(config)
    }

    /// Sets the runtime-wide buffered response byte budget.
    pub fn max_inflight_response_body_bytes(self, value: usize) -> (builder: Self)
        ensures
            builder@ == (ClientAdmissionConfigView { max_inflight_response_body_bytes: value, ..self@ }),
    {
        let mut config = self.0;
        config.max_inflight_response_body_bytes = value;
        ClientAdmissionConfigBuilder(config)
    }

    /// Replaces optional queue behavior.
    pub fn queue(self, value: QueueConfig) -> (builder: Self)
        ensures
            builder@ == (ClientAdmissionConfigView { queue: value@, ..self@ }),
    {
        let mut config = self.0;
        config.queue = value;
        ClientAdmissionConfigBuilder(config)
    }

    /// Validates and builds admission limits.
    pub fn build(self) -> (result: Result<ClientAdmissionConfig, ConfigValidationError>)
        ensures
            reports(result, admission_violation(self@)),
            result matches Ok(config) ==> config@ == self@,
    {
        match validate_admission(&self.0) {
            Ok(()) => Ok(self.0),
            Err(error) => Err(error),
        }
    }
}

fn validate_admission(config: &ClientAdmissionConfig) -> (result: Result<(), ConfigValidationError>)
    ensures
        reports(result, admission_violation(config@)),
{
    if let Err(e) = positive_usize(config.max_in_flight, "client.admission.max_in_flight") {
        return Err(e);
    }
    if let Err(e) = positive_usize(
        config.max_in_flight_per_endpoint,
        "client.admission.max_in_flight_per_endpoint",
    ) {
        return Err(e);
    }
    if let Err(e) = positive_usize(
        config.max_request_body_bytes,
        "client.admission.max_request_body_bytes",
    ) {
        return Err(e);
    }
    if let Err(e) = positive_usize(
        config.max_response_body_bytes,
        "client.admission.max_response_body_bytes",
    ) {
        return Err(e);
    }
    if config.max_inflight_request_body_bytes < config.max_request_body_bytes {
        return Err(inconsistent(
            "client.admission.max_inflight_request_body_bytes",
            "must be at least max_request_body_bytes",
        ));
    }
    if config.max_inflight_response_body_bytes < config.max_response_body_bytes {
        return Err(inconsistent(
            "client.admission.max_inflight_response_body_bytes",
            "must be at least max_response_body_bytes",
        ));
    }
    validate_queue(&config.queue)
}


/// The optional span, in nanoseconds.
pub open spec fn opt_span(value: Option<Duration>) -> Option<nat> {
    match value {
        Some(d) => Some(d@),
        None => None,
    }
}

// ---------------------------------------------------------------------------
// Discovery
// ---------------------------------------------------------------------------

/// The abstract content of a [`DiscoveryConfig`].
pub struct DiscoveryConfigView {
    pub initial_timeout: nat,
    pub operation_timeout: nat,
    pub close_timeout: nat,
    pub max_staleness: nat,
    pub reconnect_base: nat,
    pub reconnect_cap: nat,
    pub max_subscriptions: usize,
}

/// Registry-backed discovery deadlines and staleness behavior.
#[derive(Clone, Copy, Debug)]
pub struct DiscoveryConfig {
    initial_timeout: Duration,
    operation_timeout: Duration,
    close_timeout: Duration,
    max_staleness: Duration,
    reconnect_base: Duration,
    reconnect_cap: Duration,
    max_subscriptions: usize,
}

impl View for DiscoveryConfig {
    type V = DiscoveryConfigView;

    closed spec fn view(&self) -> DiscoveryConfigView {
        DiscoveryConfigView {
            initial_timeout: self.initial_timeout@,
            operation_timeout: self.operation_timeout@,
            close_timeout: self.close_timeout@,
            max_staleness: self.max_staleness@,
            reconnect_base: self.reconnect_base@,
            reconnect_cap: self.reconnect_cap@,
            max_subscriptions: self.max_subscriptions,
        }
    }
}

/// The bounded production discovery defaults.
pub open spec fn default_discovery() -> DiscoveryConfigView {
    DiscoveryConfigView {
        initial_timeout: 5_000_000_000,
        operation_timeout: 5_000_000_000,
        close_timeout: 5_000_000_000,
        max_staleness: 30_000_000_000,
        reconnect_base: 100_000_000,
        reconnect_cap: 30_000_000_000,
        max_subscriptions: 1024,
    }
}

/// The first discovery setting that violates its constraint, if any.
pub open spec fn discovery_violation(c: DiscoveryConfigView) -> Option<Violation> {
    if c.initial_timeout == 0 {
        positive_span(0, "client.discovery.initial_timeout"@)
    } else if c.operation_timeout == 0 {
        positive_span(0, "client.discovery.operation_timeout"@)
    } else if c.close_timeout == 0 {
        positive_span(0, "client.discovery.close_timeout"@)
    } else if c.reconnect_base == 0 {
        positive_span(0, "client.discovery.reconnect_base"@)
    } else if c.reconnect_cap == 0 {
        positive_span(0, "client.discovery.reconnect_cap"@)
    } else if c.reconnect_base > c.reconnect_cap {
        inconsistent_at("client.discovery.reconnect_base"@, "must not exceed reconnect_cap"@)
    } else {
        positive_count(c.max_subscriptions as int, "client.discovery.max_subscriptions"@)
    }
}

impl Default for DiscoveryConfig {
    /// Returns the bounded production defaults.
    fn default() -> (config: DiscoveryConfig)
        ensures
            config@ == default_discovery(),
    {
        DiscoveryConfig {
            initial_timeout: Duration::from_secs(5),
            operation_timeout: Duration::from_secs(5),
            close_timeout: Duration::from_secs(5),
            max_staleness: Duration::from_secs(30),
            reconnect_base: Duration::from_millis(100),
            reconnect_cap: Duration::from_secs(30),
            max_subscriptions: 1024,
        }
    }
}

impl DiscoveryConfig {
    /// Starts a builder with bounded production defaults.
    pub fn builder() -> (builder: DiscoveryConfigBuilder)
        ensures
            builder@ == default_discovery(),
    {
        DiscoveryConfigBuilder(DiscoveryConfig::default())
    }

    /// Returns the initial directory-ready deadline.
    pub fn initial_timeout(&self) -> (value: Duration)
        ensures
            value@ == self@.initial_timeout,
    {
        self.initial_timeout
    }

    /// Returns one provider operation timeout.
    pub fn operation_timeout(&self) -> (value: Duration)
        ensures
            value@ == self@.operation_timeout,
    {
        self.operation_timeout
    }

    /// Returns one subscription close timeout.
    pub fn close_timeout(&self) -> (value: Duration)
        ensures
            value@ == self@.close_timeout,
    {
        self.close_timeout
    }

    /// Returns how long the last ready snapshot remains routable.
    pub fn max_staleness(&self) -> (value: Duration)
        ensures
            value@ == self@.max_staleness,
    {
        self.max_staleness
    }

    /// Returns the reconnect backoff base.
    pub fn reconnect_base(&self) -> (value: Duration)
        ensures
            value@ == self@.reconnect_base,
    {
        self.reconnect_base
    }

    /// Returns the reconnect backoff cap.
    pub fn reconnect_cap(&self) -> (value: Duration)
        ensures
            value@ == self@.reconnect_cap,
    {
        self.reconnect_cap
    }

    /// Returns the shared subscription limit.
    pub fn max_subscriptions(&self) -> (value: usize)
        ensures
            value == self@.max_subscriptions,
    {
        self.max_subscriptions
    }
}

/// Builder for [`DiscoveryConfig`].
#[derive(Clone, Debug)]
pub struct DiscoveryConfigBuilder(DiscoveryConfig);

impl View for DiscoveryConfigBuilder {
    type V = DiscoveryConfigView;

    closed spec fn view(&self) -> DiscoveryConfigView {
        self.0@
    }
}

impl DiscoveryConfigBuilder {
    /// Sets the initial directory-ready deadline.
    pub fn initial_timeout(self, value: Duration) -> (builder: Self)
        ensures
            builder@ == (DiscoveryConfigView { initial_timeout: value@, ..self@ }),
    {
        let mut config = self.0;
        config.initial_timeout = value;
        DiscoveryConfigBuilder(config)
    }

    /// Sets one provider operation timeout.
    pub fn operation_timeout(self, value: Duration) -> (builder: Self)
        ensures
            builder@ == (DiscoveryConfigView { operation_timeout: value@, ..self@ }),
    {
        let mut config = self.0;
        config.operation_timeout = value;
        DiscoveryConfigBuilder(config)
    }

    /// Sets one subscription close timeout.
    pub fn close_timeout(self, value: Duration) -> (builder: Self)
        ensures
            builder@ == (DiscoveryConfigView { close_timeout: value@, ..self@ }),
    {
        let mut config = self.0;
        config.close_timeout = value;
        DiscoveryConfigBuilder(config)
    }

    /// Sets how long the last ready snapshot remains routable.
    pub fn max_staleness(self, value: Duration) -> (builder: Self)
        ensures
            builder@ == (DiscoveryConfigView { max_staleness: value@, ..self@ }),
    {
        let mut config = self.0;
        config.max_staleness = value;
        DiscoveryConfigBuilder(config)
    }

    /// Sets the reconnect backoff base.
    pub fn reconnect_base(self, value: Duration) -> (builder: Self)
        ensures
            builder@ == (DiscoveryConfigView { reconnect_base: value@, ..self@ }),
    {
        let mut config = self.0;
        config.reconnect_base = value;
        DiscoveryConfigBuilder(config)
    }

    /// Sets the reconnect backoff cap.
    pub fn reconnect_cap(self, value: Duration) -> (builder: Self)
        ensures
            builder@ == (DiscoveryConfigView { reconnect_cap: value@, ..self@ }),
    {
        let mut config = self.0;
        config.reconnect_cap = value;
        DiscoveryConfigBuilder(config)
    }

    /// Sets the shared subscription limit.
    pub fn max_subscriptions(self, value: usize) -> (builder: Self)
        ensures
            builder@ == (DiscoveryConfigView { max_subscriptions: value, ..self@ }),
    {
        let mut config = self.0;
        config.max_subscriptions = value;
        DiscoveryConfigBuilder(config)
    }

    /// Validates and builds discovery settings.
    pub fn build(self) -> (result: Result<DiscoveryConfig, ConfigValidationError>)
        ensures
            reports(result, discovery_violation(self@)),
            result matches Ok(config) ==> config@ == self@,
    {
        match validate_discovery(&self.0) {
            Ok(()) => Ok(self.0),
            Err(error) => Err(error),
        }
    }
}

fn validate_discovery(config: &DiscoveryConfig) -> (result: Result<(), ConfigValidationError>)
    ensures
        reports(result, discovery_violation(config@)),
{
    if let Err(e) = positive_duration(config.initial_timeout, "client.discovery.initial_timeout") {
        return Err(e);
    }
    if let Err(e) = positive_duration(config.operation_timeout, "client.discovery.operation_timeout") {
        return Err(e);
    }
    if let Err(e) = positive_duration(config.close_timeout, "client.discovery.close_timeout") {
        return Err(e);
    }
    if let Err(e) = positive_duration(config.reconnect_base, "client.discovery.reconnect_base") {
        return Err(e);
    }
    if let Err(e) = positive_duration(config.reconnect_cap, "client.discovery.reconnect_cap") {
        return Err(e);
    }
    if config.reconnect_base.longer_than(&config.reconnect_cap) {
        return Err(inconsistent("client.discovery.reconnect_base", "must not exceed reconnect_cap"));
    }
    positive_usize(config.max_subscriptions, "client.discovery.max_subscriptions")
}

// ---------------------------------------------------------------------------
// Retry
// ---------------------------------------------------------------------------

/// The abstract content of a [`RetryConfig`].
pub struct RetryConfigView {
    pub max_attempts: u8,
    pub backoff_base: nat,
    pub backoff_cap: nat,
    pub budget_capacity: u32,
    pub budget_refill_per_second: u32,
}

/// Built-in bounded retry settings.
#[derive(Clone, Copy, Debug)]
pub struct RetryConfig {
    max_attempts: u8,
    backoff_base: Duration,
    backoff_cap: Duration,
    budget_capacity: u32,
    budget_refill_per_second: u32,
}

impl View for RetryConfig {
    type V = RetryConfigView;

    closed spec fn view(&self) -> RetryConfigView {
        RetryConfigView {
            max_attempts: self.max_attempts,
            backoff_base: self.backoff_base@,
            backoff_cap: self.backoff_cap@,
            budget_capacity: self.budget_capacity,
            budget_refill_per_second: self.budget_refill_per_second,
        }
    }
}

/// The conservative production retry defaults.
pub open spec fn default_retry() -> RetryConfigView {
    RetryConfigView {
        max_attempts: 3,
        backoff_base: 10_000_000,
        backoff_cap: 200_000_000,
        budget_capacity: 100,
        budget_refill_per_second: 10,
    }
}

/// The first retry setting that violates its constraint, if any.
pub open spec fn retry_violation(c: RetryConfigView) -> Option<Violation> {
    if !(1 <= c.max_attempts <= 3) {
        out_of_range_at("client.retry.max_attempts"@, "must be between 1 and 3 inclusive"@)
    } else if c.backoff_base == 0 {
        positive_span(0, "client.retry.backoff_base"@)
    } else if c.backoff_cap == 0 {
        positive_span(0, "client.retry.backoff_cap"@)
    } else if c.backoff_base > c.backoff_cap {
        inconsistent_at("client.retry.backoff_base"@, "must not exceed backoff_cap"@)
    } else if c.budget_capacity == 0 {
        positive_count(0, "client.retry.budget_capacity"@)
    } else {
        positive_count(c.budget_refill_per_second as int, "client.retry.budget_refill_per_second"@)
    }
}

impl Default for RetryConfig {
    /// Returns the conservative production defaults.
    fn default() -> (config: RetryConfig)
        ensures
            config@ == default_retry(),
    {
        RetryConfig {
            max_attempts: 3,
            backoff_base: Duration::from_millis(10),
            backoff_cap: Duration::from_millis(200),
            budget_capacity: 100,
            budget_refill_per_second: 10,
        }
    }
}

impl RetryConfig {
    /// Starts a builder with conservative production defaults.
    pub fn builder() -> (builder: RetryConfigBuilder)
        ensures
            builder@ == default_retry(),
    {
        RetryConfigBuilder(RetryConfig::default())
    }

    /// Returns the hard attempt limit, including the first attempt.
    pub fn max_attempts(&self) -> (value: u8)
        ensures
            value == self@.max_attempts,
    {
        self.max_attempts
    }

    /// Returns the full-jitter backoff base.
    pub fn backoff_base(&self) -> (value: Duration)
        ensures
            value@ == self@.backoff_base,
    {
        self.backoff_base
    }

    /// Returns the full-jitter backoff cap.
    pub fn backoff_cap(&self) -> (value: Duration)
        ensures
            value@ == self@.backoff_cap,
    {
        self.backoff_cap
    }

    /// Returns the per-interface retry token capacity.
    pub fn budget_capacity(&self) -> (value: u32)
        ensures
            value == self@.budget_capacity,
    {
        self.budget_capacity
    }

    /// Returns the retry tokens refilled per second.
    pub fn budget_refill_per_second(&self) -> (value: u32)
        ensures
            value == self@.budget_refill_per_second,
    {
        self.budget_refill_per_second
    }
}

/// Builder for [`RetryConfig`].
#[derive(Clone, Debug)]
pub struct RetryConfigBuilder(RetryConfig);

impl View for RetryConfigBuilder {
    type V = RetryConfigView;

    closed spec fn view(&self) -> RetryConfigView {
        self.0@
    }
}

impl RetryConfigBuilder {
    /// Sets the hard attempt limit, including the first attempt.
    pub fn max_attempts(self, value: u8) -> (builder: Self)
        ensures
            builder@ == (RetryConfigView { max_attempts: value, ..self@ }),
    {
        let mut config = self.0;
        config.max_attempts = value;
        RetryConfigBuilder(config)
    }

    /// Sets the full-jitter backoff base.
    pub fn backoff_base(self, value: Duration) -> (builder: Self)
        ensures
            builder@ == (RetryConfigView { backoff_base: value@, ..self@ }),
    {
        let mut config = self.0;
        config.backoff_base = value;
        RetryConfigBuilder(config)
    }

    /// Sets the full-jitter backoff cap.
    pub fn backoff_cap(self, value: Duration) -> (builder: Self)
        ensures
            builder@ == (RetryConfigView { backoff_cap: value@, ..self@ }),
    {
        let mut config = self.0;
        config.backoff_cap = value;
        RetryConfigBuilder(config)
    }

    /// Sets the per-interface retry token capacity.
    pub fn budget_capacity(self, value: u32) -> (builder: Self)
        ensures
            builder@ == (RetryConfigView { budget_capacity: value, ..self@ }),
    {
        let mut config = self.0;
        config.budget_capacity = value;
        RetryConfigBuilder(config)
    }

    /// Sets the retry tokens refilled per second.
    pub fn budget_refill_per_second(self, value: u32) -> (builder: Self)
        ensures
            builder@ == (RetryConfigView { budget_refill_per_second: value, ..self@ }),
    {
        let mut config = self.0;
        config.budget_refill_per_second = value;
        RetryConfigBuilder(config)
    }

    /// Validates and builds retry settings.
    pub fn build(self) -> (result: Result<RetryConfig, ConfigValidationError>)
        ensures
            reports(result, retry_violation(self@)),
            result matches Ok(config) ==> config@ == self@,
    {
        match validate_retry(&self.0) {
            Ok(()) => Ok(self.0),
            Err(error) => Err(error),
        }
    }
}

fn validate_retry(config: &RetryConfig) -> (result: Result<(), ConfigValidationError>)
    ensures
        reports(result, retry_violation(config@)),
{
    if !(1 <= config.max_attempts && config.max_attempts <= 3) {
        return Err(out_of_range("client.retry.max_attempts", "must be between 1 and 3 inclusive"));
    }
    if let Err(e) = positive_duration(config.backoff_base, "client.retry.backoff_base") {
        return Err(e);
    }
    if let Err(e) = positive_duration(config.backoff_cap, "client.retry.backoff_cap") {
        return Err(e);
    }
    if config.backoff_base.longer_than(&config.backoff_cap) {
        return Err(inconsistent("client.retry.backoff_base", "must not exceed backoff_cap"));
    }
    if let Err(e) = positive_u32(config.budget_capacity, "client.retry.budget_capacity") {
        return Err(e);
    }
    positive_u32(config.budget_refill_per_second, "client.retry.budget_refill_per_second")
}


// ---------------------------------------------------------------------------
// Circuit-breaker thresholds
// ---------------------------------------------------------------------------

/// The bit pattern of the binary64 value 1.0.
pub const ONE_BITS: u64 = 0x3FF0_0000_0000_0000;

/// The bit pattern of the binary64 value -0.0.
pub const NEGATIVE_ZERO_BITS: u64 = 0x8000_0000_0000_0000;

/// Whether the binary64 value with these bits is finite and lies in `[0, 1]`.
///
/// Non-negative binary64 values are ordered like their bit patterns, so the finite values
/// in `[+0, 1]` are exactly the patterns up to that of 1.0; the only other finite value
/// that compares at least zero is -0.0.
pub open spec fn unit_interval_bits(bits: u64) -> bool {
    bits <= ONE_BITS || bits == NEGATIVE_ZERO_BITS
}

/// Whether the binary64 value with these bits is finite and lies in `[0, 1]`.
pub fn is_unit_interval_bits(bits: u64) -> (valid: bool)
    ensures
        valid == unit_interval_bits(bits),
{
    bits <= ONE_BITS || bits == NEGATIVE_ZERO_BITS
}

/// The abstract content of a [`BreakerThreshold`].
pub struct BreakerThresholdView {
    pub window: nat,
    pub buckets: u8,
    pub minimum_samples: u32,
    pub failure_ratio_bits: u64,
    pub open_duration: nat,
    pub half_open_probes: u32,
    pub close_successes: u32,
}

/// One rolling circuit-breaker threshold set.
#[derive(Clone, Copy, Debug)]
pub struct BreakerThreshold {
    window: Duration,
    buckets: u8,
    minimum_samples: u32,
    failure_ratio_bits: u64,
    open_duration: Duration,
    half_open_probes: u32,
    close_successes: u32,
}

impl View for BreakerThreshold {
    type V = BreakerThresholdView;

    closed spec fn view(&self) -> BreakerThresholdView {
        BreakerThresholdView {
            window: self.window@,
            buckets: self.buckets,
            minimum_samples: self.minimum_samples,
            failure_ratio_bits: self.failure_ratio_bits,
            open_duration: self.open_duration@,
            half_open_probes: self.half_open_probes,
            close_successes: self.close_successes,
        }
    }
}

/// The endpoint-breaker defaults: 10 s window, 10 buckets, 20 samples, ratio 0.5,
/// 10 s open, one probe, two successes to close.
pub open spec fn default_endpoint_threshold() -> BreakerThresholdView {
    BreakerThresholdView {
        window: 10_000_000_000,
        buckets: 10,
        minimum_samples: 20,
        failure_ratio_bits: 0x3FE0_0000_0000_0000,
        open_duration: 10_000_000_000,
        half_open_probes: 1,
        close_successes: 2,
    }
}

/// The interface-breaker defaults: 30 s window, 10 buckets, 50 samples, ratio 0.6,
/// 15 s open, two probes, three successes to close.
pub open spec fn default_service_threshold() -> BreakerThresholdView {
    BreakerThresholdView {
        window: 30_000_000_000,
        buckets: 10,
        minimum_samples: 50,
        failure_ratio_bits: 0x3FE3_3333_3333_3333,
        open_duration: 15_000_000_000,
        half_open_probes: 2,
        close_successes: 3,
    }
}

/// Which configuration tree a threshold set is reported under.
#[derive(Clone, Copy, Debug, PartialEq, Eq)]
pub enum ThresholdScope {
    /// `client.circuit_breaker.endpoint`.
    Endpoint,
    /// `client.circuit_breaker.service`.
    Service,
    /// A threshold built on its own.
    Standalone,
}

/// The public path of field `index` (window, buckets, minimum samples, failure ratio,
/// open duration, half-open probes, close successes) of a threshold set in `scope`.
pub open spec fn threshold_path(scope: ThresholdScope, index: usize) -> Seq<char> {
    match (scope, index) {
        (ThresholdScope::Endpoint, 0) => "client.circuit_breaker.endpoint.window"@,
        (ThresholdScope::Endpoint, 1) => "client.circuit_breaker.endpoint.buckets"@,
        (ThresholdScope::Endpoint, 2) => "client.circuit_breaker.endpoint.minimum_samples"@,
        (ThresholdScope::Endpoint, 3) => "client.circuit_breaker.endpoint.failure_ratio"@,
        (ThresholdScope::Endpoint, 4) => "client.circuit_breaker.endpoint.open_duration"@,
        (ThresholdScope::Endpoint, 5) => "client.circuit_breaker.endpoint.half_open_probes"@,
        (ThresholdScope::Endpoint, 6) => "client.circuit_breaker.endpoint.close_successes"@,
        (ThresholdScope::Service, 0) => "client.circuit_breaker.service.window"@,
        (ThresholdScope::Service, 1) => "client.circuit_breaker.service.buckets"@,
        (ThresholdScope::Service, 2) => "client.circuit_breaker.service.minimum_samples"@,
        (ThresholdScope::Service, 3) => "client.circuit_breaker.service.failure_ratio"@,
        (ThresholdScope::Service, 4) => "client.circuit_breaker.service.open_duration"@,
        (ThresholdScope::Service, 5) => "client.circuit_breaker.service.half_open_probes"@,
        (ThresholdScope::Service, 6) => "client.circuit_breaker.service.close_successes"@,
        (ThresholdScope::Standalone, 0) => "breaker_threshold.window"@,
        (ThresholdScope::Standalone, 1) => "breaker_threshold.buckets"@,
        (ThresholdScope::Standalone, 2) => "breaker_threshold.minimum_samples"@,
        (ThresholdScope::Standalone, 3) => "breaker_threshold.failure_ratio"@,
        (ThresholdScope::Standalone, 4) => "breaker_threshold.open_duration"@,
        (ThresholdScope::Standalone, 5) => "breaker_threshold.half_open_probes"@,
        (ThresholdScope::Standalone, 6) => "breaker_threshold.close_successes"@,
        _ => Seq::empty(),
    }
}

fn threshold_field_path(scope: ThresholdScope, index: usize) -> (path: &'static str)
    requires
        index < 7,
    ensures
        path@ == threshold_path(scope, index),
{
    match (scope, index) {
        (ThresholdScope::Endpoint, 0) => "client.circuit_breaker.endpoint.window",
        (ThresholdScope::Endpoint, 1) => "client.circuit_breaker.endpoint.buckets",
        (ThresholdScope::Endpoint, 2) => "client.circuit_breaker.endpoint.minimum_samples",
        (ThresholdScope::Endpoint, 3) => "client.circuit_breaker.endpoint.failure_ratio",
        (ThresholdScope::Endpoint, 4) => "client.circuit_breaker.endpoint.open_duration",
        (ThresholdScope::Endpoint, 5) => "client.circuit_breaker.endpoint.half_open_probes",
        (ThresholdScope::Endpoint, 6) => "client.circuit_breaker.endpoint.close_successes",
        (ThresholdScope::Service, 0) => "client.circuit_breaker.service.window",
        (ThresholdScope::Service, 1) => "client.circuit_breaker.service.buckets",
        (ThresholdScope::Service, 2) => "client.circuit_breaker.service.minimum_samples",
        (ThresholdScope::Service, 3) => "client.circuit_breaker.service.failure_ratio",
        (ThresholdScope::Service, 4) => "client.circuit_breaker.service.open_duration",
        (ThresholdScope::Service, 5) => "client.circuit_breaker.service.half_open_probes",
        (ThresholdScope::Service, 6) => "client.circuit_breaker.service.close_successes",
        (ThresholdScope::Standalone, 0) => "breaker_threshold.window",
        (ThresholdScope::Standalone, 1) => "breaker_threshold.buckets",
        (ThresholdScope::Standalone, 2) => "breaker_threshold.minimum_samples",
        (ThresholdScope::Standalone, 3) => "breaker_threshold.failure_ratio",
        (ThresholdScope::Standalone, 4) => "breaker_threshold.open_duration",
        (ThresholdScope::Standalone, 5) => "breaker_threshold.half_open_probes",
        (ThresholdScope::Standalone, 6) => "breaker_threshold.close_successes",
        _ => "",
    }
}

/// The first threshold setting that violates its constraint, if any.
pub open spec fn threshold_violation(c: BreakerThresholdView, scope: ThresholdScope) -> Option<Violation> {
    if c.window == 0 {
        positive_span(0, threshold_path(scope, 0))
    } else if c.buckets == 0 {
        positive_count(0, threshold_path(scope, 1))
    } else if c.minimum_samples == 0 {
        positive_count(0, threshold_path(scope, 2))
    } else if !unit_interval_bits(c.failure_ratio_bits) {
        out_of_range_at(threshold_path(scope, 3), "must be finite and between 0 and 1"@)
    } else if c.open_duration == 0 {
        positive_span(0, threshold_path(scope, 4))
    } else if c.half_open_probes == 0 {
        positive_count(0, threshold_path(scope, 5))
    } else {
        positive_count(c.close_successes as int, threshold_path(scope, 6))
    }
}

fn validate_threshold(config: &BreakerThreshold, scope: ThresholdScope) -> (result: Result<(), ConfigValidationError>)
    ensures
        reports(result, threshold_violation(config@, scope)),
{
    if let Err(e) = positive_duration(config.window, threshold_field_path(scope, 0)) {
        return Err(e);
    }
    if config.buckets == 0 {
        return Err(out_of_range(threshold_field_path(scope, 1), "must be greater than zero"));
    }
    if let Err(e) = positive_u32(config.minimum_samples, threshold_field_path(scope, 2)) {
        return Err(e);
    }
    if !is_unit_interval_bits(config.failure_ratio_bits) {
        return Err(out_of_range(threshold_field_path(scope, 3), "must be finite and between 0 and 1"));
    }
    if let Err(e) = positive_duration(config.open_duration, threshold_field_path(scope, 4)) {
        return Err(e);
    }
    if let Err(e) = positive_u32(config.half_open_probes, threshold_field_path(scope, 5)) {
        return Err(e);
    }
    positive_u32(config.close_successes, threshold_field_path(scope, 6))
}

impl BreakerThreshold {
    fn endpoint_default() -> (threshold: BreakerThreshold)
        ensures
            threshold@ == default_endpoint_threshold(),
    {
        BreakerThreshold {
            window: Duration::from_secs(10),
            buckets: 10,
            minimum_samples: 20,
            failure_ratio_bits: 0x3FE0_0000_0000_0000,
            open_duration: Duration::from_secs(10),
            half_open_probes: 1,
            close_successes: 2,
        }
    }

    fn service_default() -> (threshold: BreakerThreshold)
        ensures
            threshold@ == default_service_threshold(),
    {
        BreakerThreshold {
            window: Duration::from_secs(30),
            buckets: 10,
            minimum_samples: 50,
            failure_ratio_bits: 0x3FE3_3333_3333_3333,
            open_duration: Duration::from_secs(15),
            half_open_probes: 2,
            close_successes: 3,
        }
    }

    /// Starts a builder from endpoint-breaker defaults.
    pub fn endpoint_builder() -> (builder: BreakerThresholdBuilder)
        ensures
            builder@ == default_endpoint_threshold(),
    {
        BreakerThresholdBuilder(BreakerThreshold::endpoint_default())
    }

    /// Starts a builder from interface-breaker defaults.
    pub fn service_builder() -> (builder: BreakerThresholdBuilder)
        ensures
            builder@ == default_service_threshold(),
    {
        BreakerThresholdBuilder(BreakerThreshold::service_default())
    }

    /// Returns the rolling window.
    pub fn window(&self) -> (value: Duration)
        ensures
            value@ == self@.window,
    {
        self.window
    }

    /// Returns the rolling bucket count.
    pub fn buckets(&self) -> (value: u8)
        ensures
            value == self@.buckets,
    {
        self.buckets
    }

    /// Returns the minimum sample count.
    pub fn minimum_samples(&self) -> (value: u32)
        ensures
            value == self@.minimum_samples,
    {
        self.minimum_samples
    }

    /// Returns the failure ratio threshold as an IEEE-754 binary64 bit pattern.
    pub fn failure_ratio_bits(&self) -> (value: u64)
        ensures
            value == self@.failure_ratio_bits,
    {
        self.failure_ratio_bits
    }

    /// Returns the initial open duration.
    pub fn open_duration(&self) -> (value: Duration)
        ensures
            value@ == self@.open_duration,
    {
        self.open_duration
    }

    /// Returns the half-open concurrency.
    pub fn half_open_probes(&self) -> (value: u32)
        ensures
            value == self@.half_open_probes,
    {
        self.half_open_probes
    }

    /// Returns the consecutive successes required to close.
    pub fn close_successes(&self) -> (value: u32)
        ensures
            value == self@.close_successes,
    {
        self.close_successes
    }
}

/// Builder for [`BreakerThreshold`].
#[derive(Clone, Debug)]
pub struct BreakerThresholdBuilder(BreakerThreshold);

impl View for BreakerThresholdBuilder {
    type V = BreakerThresholdView;

    closed spec fn view(&self) -> BreakerThresholdView {
        self.0@
    }
}

impl BreakerThresholdBuilder {
    /// Sets the rolling window.
    pub fn window(self, value: Duration) -> (builder: Self)
        ensures
            builder@ == (BreakerThresholdView { window: value@, ..self@ }),
    {
        let mut config = self.0;
        config.window = value;
        BreakerThresholdBuilder(config)
    }

    /// Sets the rolling bucket count.
    pub fn buckets(self, value: u8) -> (builder: Self)
        ensures
            builder@ == (BreakerThresholdView { buckets: value, ..self@ }),
    {
        let mut config = self.0;
        config.buckets = value;
        BreakerThresholdBuilder(config)
    }

    /// Sets the minimum sample count.
    pub fn minimum_samples(self, value: u32) -> (builder: Self)
        ensures
            builder@ == (BreakerThresholdView { minimum_samples: value, ..self@ }),
    {
        let mut config = self.0;
        config.minimum_samples = value;
        BreakerThresholdBuilder(config)
    }

    /// Sets the failure ratio threshold as an IEEE-754 binary64 bit pattern.
    pub fn failure_ratio_bits(self, value: u64) -> (builder: Self)
        ensures
            builder@ == (BreakerThresholdView { failure_ratio_bits: value, ..self@ }),
    {
        let mut config = self.0;
        config.failure_ratio_bits = value;
        BreakerThresholdBuilder(config)
    }

    /// Sets the initial open duration.
    pub fn open_duration(self, value: Duration) -> (builder: Self)
        ensures
            builder@ == (BreakerThresholdView { open_duration: value@, ..self@ }),
    {
        let mut config = self.0;
        config.open_duration = value;
        BreakerThresholdBuilder(config)
    }

    /// Sets the half-open concurrency.
    pub fn half_open_probes(self, value: u32) -> (builder: Self)
        ensures
            builder@ == (BreakerThresholdView { half_open_probes: value, ..self@ }),
    {
        let mut config = self.0;
        config.half_open_probes = value;
        BreakerThresholdBuilder(config)
    }

    /// Sets the consecutive successes required to close.
    pub fn close_successes(self, value: u32) -> (builder: Self)
        ensures
            builder@ == (BreakerThresholdView { close_successes: value, ..self@ }),
    {
        let mut config = self.0;
        config.close_successes = value;
        BreakerThresholdBuilder(config)
    }

    /// Validates and builds breaker thresholds, reported under `breaker_threshold`.
    pub fn build(self) -> (result: Result<BreakerThreshold, ConfigValidationError>)
        ensures
            reports(result, threshold_violation(self@, ThresholdScope::Standalone)),
            result matches Ok(threshold) ==> threshold@ == self@,
    {
        match validate_threshold(&self.0, ThresholdScope::Standalone) {
            Ok(()) => Ok(self.0),
            Err(error) => Err(error),
        }
    }
}

// ---------------------------------------------------------------------------
// Circuit breakers
// ---------------------------------------------------------------------------

/// The abstract content of a [`CircuitBreakerConfig`].
pub struct CircuitBreakerConfigView {
    pub endpoint: BreakerThresholdView,
    pub service: BreakerThresholdView,
    pub max_open_duration: nat,
    pub max_endpoint_entries: usize,
    pub idle_eviction: nat,
}

/// Interface and endpoint circuit-breaker settings.
#[derive(Clone, Copy, Debug)]
pub struct CircuitBreakerConfig {
    endpoint: BreakerThreshold,
    service: BreakerThreshold,
    max_open_duration: Duration,
    max_endpoint_entries: usize,
    idle_eviction: Duration,
}

impl View for CircuitBreakerConfig {
    type V = CircuitBreakerConfigView;

    closed spec fn view(&self) -> CircuitBreakerConfigView {
        CircuitBreakerConfigView {
            endpoint: self.endpoint@,
            service: self.service@,
            max_open_duration: self.max_open_duration@,
            max_endpoint_entries: self.max_endpoint_entries,
            idle_eviction: self.idle_eviction@,
        }
    }
}

/// The bounded production circuit-breaker defaults.
pub open spec fn default_circuit_breaker() -> CircuitBreakerConfigView {
    CircuitBreakerConfigView {
        endpoint: default_endpoint_threshold(),
        service: default_service_threshold(),
        max_open_duration: 120_000_000_000,
        max_endpoint_entries: 10_000,
        idle_eviction: 600_000_000_000,
    }
}

/// The first circuit-breaker setting that violates its constraint, if any.
pub open spec fn circuit_breaker_violation(c: CircuitBreakerConfigView) -> Option<Violation> {
    if threshold_violation(c.endpoint, ThresholdScope::Endpoint) is Some {
        threshold_violation(c.endpoint, ThresholdScope::Endpoint)
    } else if threshold_violation(c.service, ThresholdScope::Service) is Some {
        threshold_violation(c.service, ThresholdScope::Service)
    } else if c.max_open_duration == 0 {
        positive_span(0, "client.circuit_breaker.max_open_duration"@)
    } else if c.max_endpoint_entries == 0 {
        positive_count(0, "client.circuit_breaker.max_endpoint_entries"@)
    } else {
        positive_span(c.idle_eviction, "client.circuit_breaker.idle_eviction"@)
    }
}

impl Default for CircuitBreakerConfig {
    /// Returns the bounded production defaults.
    fn default() -> (config: CircuitBreakerConfig)
        ensures
            config@ == default_circuit_breaker(),
    {
        CircuitBreakerConfig {
            endpoint: BreakerThreshold::endpoint_default(),
            service: BreakerThreshold::service_default(),
            max_open_duration: Duration::from_secs(120),
            max_endpoint_entries: 10_000,
            idle_eviction: Duration::from_secs(DEFAULT_ENDPOINT_IDLE_EVICTION_SECS),
        }
    }
}

impl CircuitBreakerConfig {
    /// Starts a builder with bounded production defaults.
    pub fn builder() -> (builder: CircuitBreakerConfigBuilder)
        ensures
            builder@ == default_circuit_breaker(),
    {
        CircuitBreakerConfigBuilder(CircuitBreakerConfig::default())
    }

    /// Returns the endpoint thresholds.
    pub fn endpoint(&self) -> (value: &BreakerThreshold)
        ensures
            value@ == self@.endpoint,
    {
        &self.endpoint
    }

    /// Returns the interface-wide thresholds.
    pub fn service(&self) -> (value: &BreakerThreshold)
        ensures
            value@ == self@.service,
    {
        &self.service
    }

    /// Returns the maximum repeated-open interval.
    pub fn max_open_duration(&self) -> (value: Duration)
        ensures
            value@ == self@.max_open_duration,
    {
        self.max_open_duration
    }

    /// Returns the endpoint breaker entry limit.
    pub fn max_endpoint_entries(&self) -> (value: usize)
        ensures
            value == self@.max_endpoint_entries,
    {
        self.max_endpoint_entries
    }

    /// Returns the endpoint idle eviction interval.
    pub fn idle_eviction(&self) -> (value: Duration)
        ensures
            value@ == self@.idle_eviction,
    {
        self.idle_eviction
    }
}

/// Builder for [`CircuitBreakerConfig`].
#[derive(Clone, Debug)]
pub struct CircuitBreakerConfigBuilder(CircuitBreakerConfig);

impl View for CircuitBreakerConfigBuilder {
    type V = CircuitBreakerConfigView;

    closed spec fn view(&self) -> CircuitBreakerConfigView {
        self.0@
    }
}

impl CircuitBreakerConfigBuilder {
    /// Sets the endpoint thresholds.
    pub fn endpoint(self, value: BreakerThreshold) -> (builder: Self)
        ensures
            builder@ == (CircuitBreakerConfigView { endpoint: value@, ..self@ }),
    {
        let mut config = self.0;
        config.endpoint = value;
        CircuitBreakerConfigBuilder(config)
    }

    /// Sets the interface-wide thresholds.
    pub fn service(self, value: BreakerThreshold) -> (builder: Self)
        ensures
            builder@ == (CircuitBreakerConfigView { service: value@, ..self@ }),
    {
        let mut config = self.0;
        config.service = value;
        CircuitBreakerConfigBuilder(config)
    }

    /// Sets the maximum repeated-open interval.
    pub fn max_open_duration(self, value: Duration) -> (builder: Self)
        ensures
            builder@ == (CircuitBreakerConfigView { max_open_duration: value@, ..self@ }),
    {
        let mut config = self.0;
        config.max_open_duration = value;
        CircuitBreakerConfigBuilder(config)
    }

    /// Sets the endpoint breaker entry limit.
    pub fn max_endpoint_entries(self, value: usize) -> (builder: Self)
        ensures
            builder@ == (CircuitBreakerConfigView { max_endpoint_entries: value, ..self@ }),
    {
        let mut config = self.0;
        config.max_endpoint_entries = value;
        CircuitBreakerConfigBuilder(config)
    }

    /// Sets the endpoint idle eviction interval.
    pub fn idle_eviction(self, value: Duration) -> (builder: Self)
        ensures
            builder@ == (CircuitBreakerConfigView { idle_eviction: value@, ..self@ }),
    {
        let mut config = self.0;
        config.idle_eviction = value;
        CircuitBreakerConfigBuilder(config)
    }

    /// Validates and builds circuit-breaker settings.
    pub fn build(self) -> (result: Result<CircuitBreakerConfig, ConfigValidationError>)
        ensures
            reports(result, circuit_breaker_violation(self@)),
            result matches Ok(config) ==> config@ == self@,
    {
        match validate_circuit_breaker(&self.0) {
            Ok(()) => Ok(self.0),
            Err(error) => Err(error),
        }
    }
}

fn validate_circuit_breaker(config: &CircuitBreakerConfig) -> (result: Result<(), ConfigValidationError>)
    ensures
        reports(result, circuit_breaker_violation(config@)),
{
    if let Err(e) = validate_threshold(&config.endpoint, ThresholdScope::Endpoint) {
        return Err(e);
    }
    if let Err(e) = validate_threshold(&config.service, ThresholdScope::Service) {
        return Err(e);
    }
    if let Err(e) = positive_duration(config.max_open_duration, "client.circuit_breaker.max_open_duration") {
        return Err(e);
    }
    if let Err(e) = positive_usize(config.max_endpoint_entries, "client.circuit_breaker.max_endpoint_entries") {
        return Err(e);
    }
    positive_duration(config.idle_eviction, "client.circuit_breaker.idle_eviction")
}


// ---------------------------------------------------------------------------
// HTTP pools
// ---------------------------------------------------------------------------

/// The abstract content of a [`ClientHttpConfig`].
pub struct ClientHttpConfigView {
    pub http1_max_idle_per_host: usize,
    pub pool_idle_timeout: Option<nat>,
    pub http2_connections_per_host: usize,
    pub http2_keep_alive_interval: Option<nat>,
    pub http2_keep_alive_timeout: nat,
}

/// HTTP and HTTPS connection-pool behavior.
#[derive(Clone, Copy, Debug)]
pub struct ClientHttpConfig {
    http1_max_idle_per_host: usize,
    pool_idle_timeout: Option<Duration>,
    http2_connections_per_host: usize,
    http2_keep_alive_interval: Option<Duration>,
    http2_keep_alive_timeout: Duration,
}

impl View for ClientHttpConfig {
    type V = ClientHttpConfigView;

    closed spec fn view(&self) -> ClientHttpConfigView {
        ClientHttpConfigView {
            http1_max_idle_per_host: self.http1_max_idle_per_host,
            pool_idle_timeout: opt_span(self.pool_idle_timeout),
            http2_connections_per_host: self.http2_connections_per_host,
            http2_keep_alive_interval: opt_span(self.http2_keep_alive_interval),
            http2_keep_alive_timeout: self.http2_keep_alive_timeout@,
        }
    }
}

/// The bounded production pool defaults.
pub open spec fn default_http() -> ClientHttpConfigView {
    ClientHttpConfigView {
        http1_max_idle_per_host: 128,
        pool_idle_timeout: Some(90_000_000_000),
        http2_connections_per_host: 1,
        http2_keep_alive_interval: None,
        http2_keep_alive_timeout: 20_000_000_000,
    }
}

/// The first pool setting that violates its constraint, if any.
pub open spec fn http_violation(c: ClientHttpConfigView) -> Option<Violation> {
    if c.pool_idle_timeout == Some(0nat) {
        out_of_range_at("client.http.pool_idle_timeout"@, "must be positive when configured"@)
    } else if c.http2_connections_per_host == 0 {
        positive_count(0, "client.http.http2_connections_per_host"@)
    } else if c.http2_keep_alive_interval == Some(0nat) {
        out_of_range_at("client.http.http2_keep_alive_interval"@, "must be positive when configured"@)
    } else {
        positive_span(c.http2_keep_alive_timeout, "client.http.http2_keep_alive_timeout"@)
    }
}

impl Default for ClientHttpConfig {
    /// Returns the bounded production defaults.
    fn default() -> (config: ClientHttpConfig)
        ensures
            config@ == default_http(),
    {
        ClientHttpConfig {
            http1_max_idle_per_host: 128,
            pool_idle_timeout: Some(Duration::from_secs(90)),
            http2_connections_per_host: 1,
            http2_keep_alive_interval: None,
            http2_keep_alive_timeout: Duration::from_secs(20),
        }
    }
}

impl ClientHttpConfig {
    /// Starts a builder with bounded production defaults.
    pub fn builder() -> (builder: ClientHttpConfigBuilder)
        ensures
            builder@ == default_http(),
    {
        ClientHttpConfigBuilder(ClientHttpConfig::default())
    }

    /// Returns the HTTP/1 idle connection limit per host.
    pub fn http1_max_idle_per_host(&self) -> (value: usize)
        ensures
            value == self@.http1_max_idle_per_host,
    {
        self.http1_max_idle_per_host
    }

    /// Returns the shared connection-pool idle timeout.
    pub fn pool_idle_timeout(&self) -> (value: Option<Duration>)
        ensures
            opt_span(value) == self@.pool_idle_timeout,
    {
        self.pool_idle_timeout
    }

    /// Returns the HTTP/2 connection shards per endpoint.
    pub fn http2_connections_per_host(&self) -> (value: usize)
        ensures
            value == self@.http2_connections_per_host,
    {
        self.http2_connections_per_host
    }

    /// Returns the HTTP/2 keep-alive interval.
    pub fn http2_keep_alive_interval(&self) -> (value: Option<Duration>)
        ensures
            opt_span(value) == self@.http2_keep_alive_interval,
    {
        self.http2_keep_alive_interval
    }

    /// Returns the HTTP/2 keep-alive acknowledgement timeout.
    pub fn http2_keep_alive_timeout(&self) -> (value: Duration)
        ensures
            value@ == self@.http2_keep_alive_timeout,
    {
        self.http2_keep_alive_timeout
    }
}

/// Builder for [`ClientHttpConfig`].
#[derive(Clone, Debug)]
pub struct ClientHttpConfigBuilder(ClientHttpConfig);

impl View for ClientHttpConfigBuilder {
    type V = ClientHttpConfigView;

    closed spec fn view(&self) -> ClientHttpConfigView {
        self.0@
    }
}

impl ClientHttpConfigBuilder {
    /// Sets the HTTP/1 idle connection limit per host.
    pub fn http1_max_idle_per_host(self, value: usize) -> (builder: Self)
        ensures
            builder@ == (ClientHttpConfigView { http1_max_idle_per_host: value, ..self@ }),
    {
        let mut config = self.0;
        config.http1_max_idle_per_host = value;
        ClientHttpConfigBuilder(config)
    }

    /// Sets the shared connection-pool idle timeout.
    pub fn pool_idle_timeout(self, value: Option<Duration>) -> (builder: Self)
        ensures
            builder@ == (ClientHttpConfigView { pool_idle_timeout: opt_span(value), ..self@ }),
    {
        let mut config = self.0;
        config.pool_idle_timeout = value;
        ClientHttpConfigBuilder(config)
    }

    /// Sets the HTTP/2 connection shards per endpoint.
    pub fn http2_connections_per_host(self, value: usize) -> (builder: Self)
        ensures
            builder@ == (ClientHttpConfigView { http2_connections_per_host: value, ..self@ }),
    {
        let mut config = self.0;
        config.http2_connections_per_host = value;
        ClientHttpConfigBuilder(config)
    }

    /// Sets the HTTP/2 keep-alive interval.
    pub fn http2_keep_alive_interval(self, value: Option<Duration>) -> (builder: Self)
        ensures
            builder@ == (ClientHttpConfigView { http2_keep_alive_interval: opt_span(value), ..self@ }),
    {
        let mut config = self.0;
        config.http2_keep_alive_interval = value;
        ClientHttpConfigBuilder(config)
    }

    /// Sets the HTTP/2 keep-alive acknowledgement timeout.
    pub fn http2_keep_alive_timeout(self, value: Duration) -> (builder: Self)
        ensures
            builder@ == (ClientHttpConfigView { http2_keep_alive_timeout: value@, ..self@ }),
    {
        let mut config = self.0;
        config.http2_keep_alive_timeout = value;
        ClientHttpConfigBuilder(config)
    }

    /// Validates and builds HTTP pool settings.
    pub fn build(self) -> (result: Result<ClientHttpConfig, ConfigValidationError>)
        ensures
            reports(result, http_violation(self@)),
            result matches Ok(config) ==> config@ == self@,
    {
        match validate_http(&self.0) {
            Ok(()) => Ok(self.0),
            Err(error) => Err(error),
        }
    }
}

fn validate_http(config: &ClientHttpConfig) -> (result: Result<(), ConfigValidationError>)
    ensures
        reports(result, http_violation(config@)),
{
    if let Some(timeout) = config.pool_idle_timeout {
        if timeout.is_zero() {
            return Err(out_of_range("client.http.pool_idle_timeout", "must be positive when configured"));
        }
    }
    if let Err(e) = positive_usize(config.http2_connections_per_host, "client.http.http2_connections_per_host") {
        return Err(e);
    }
    if let Some(interval) = config.http2_keep_alive_interval {
        if interval.is_zero() {
            return Err(out_of_range("client.http.http2_keep_alive_interval", "must be positive when configured"));
        }
    }
    positive_duration(config.http2_keep_alive_timeout, "client.http.http2_keep_alive_timeout")
}

// ---------------------------------------------------------------------------
// Client runtime
// ---------------------------------------------------------------------------

/// The abstract content of a [`ClientConfig`].
pub struct ClientConfigView {
    pub request_timeout: nat,
    pub connect_timeout: nat,
    pub shutdown_timeout: nat,
    pub admission: ClientAdmissionConfigView,
    pub discovery: DiscoveryConfigView,
    pub retry: RetryConfigView,
    pub circuit_breaker: CircuitBreakerConfigView,
    pub http: ClientHttpConfigView,
}

/// Immutable client runtime configuration.
#[derive(Clone, Copy, Debug)]
pub struct ClientConfig {
    request_timeout: Duration,
    connect_timeout: Duration,
    shutdown_timeout: Duration,
    admission: ClientAdmissionConfig,
    discovery: DiscoveryConfig,
    retry: RetryConfig,
    circuit_breaker: CircuitBreakerConfig,
    http: ClientHttpConfig,
}

impl View for ClientConfig {
    type V = ClientConfigView;

    closed spec fn view(&self) -> ClientConfigView {
        ClientConfigView {
            request_timeout: self.request_timeout@,
            connect_timeout: self.connect_timeout@,
            shutdown_timeout: self.shutdown_timeout@,
            admission: self.admission@,
            discovery: self.discovery@,
            retry: self.retry@,
            circuit_breaker: self.circuit_breaker@,
            http: self.http@,
        }
    }
}

/// The production client defaults: 10 s requests, 3 s connects, 30 s shutdown.
pub open spec fn default_client() -> ClientConfigView {
    ClientConfigView {
        request_timeout: 10_000_000_000,
        connect_timeout: 3_000_000_000,
        shutdown_timeout: 30_000_000_000,
        admission: default_admission(),
        discovery: default_discovery(),
        retry: default_retry(),
        circuit_breaker: default_circuit_breaker(),
        http: default_http(),
    }
}

/// The first client setting that violates its constraint, in the order timeouts,
/// admission, discovery, retry, circuit breakers, HTTP pools.
pub open spec fn client_violation(c: ClientConfigView) -> Option<Violation> {
    if c.request_timeout == 0 {
        positive_span(0, "client.request_timeout"@)
    } else if c.connect_timeout == 0 {
        positive_span(0, "client.connect_timeout"@)
    } else if c.shutdown_timeout == 0 {
        positive_span(0, "client.shutdown_timeout"@)
    } else if admission_violation(c.admission) is Some {
        admission_violation(c.admission)
    } else if discovery_violation(c.discovery) is Some {
        discovery_violation(c.discovery)
    } else if retry_violation(c.retry) is Some {
        retry_violation(c.retry)
    } else if circuit_breaker_violation(c.circuit_breaker) is Some {
        circuit_breaker_violation(c.circuit_breaker)
    } else {
        http_violation(c.http)
    }
}

impl Default for ClientConfig {
    /// Returns the production defaults.
    fn default() -> (config: ClientConfig)
        ensures
            config@ == default_client(),
    {
        ClientConfig {
            request_timeout: Duration::from_secs(10),
            connect_timeout: Duration::from_secs(3),
            shutdown_timeout: Duration::from_secs(30),
            admission: ClientAdmissionConfig::default(),
            discovery: DiscoveryConfig::default(),
            retry: RetryConfig::default(),
            circuit_breaker: CircuitBreakerConfig::default(),
            http: ClientHttpConfig::default(),
        }
    }
}

impl ClientConfig {
    /// Starts a validated configuration builder from production defaults.
    pub fn builder() -> (builder: ClientConfigBuilder)
        ensures
            builder@ == default_client(),
    {
        ClientConfigBuilder(ClientConfig::default())
    }

    /// Returns the end-to-end logical invocation timeout.
    pub fn request_timeout(&self) -> (value: Duration)
        ensures
            value@ == self@.request_timeout,
    {
        self.request_timeout
    }

    /// Returns the per-attempt TCP connection timeout.
    pub fn connect_timeout(&self) -> (value: Duration)
        ensures
            value@ == self@.connect_timeout,
    {
        self.connect_timeout
    }

    /// Returns the total shutdown budget.
    pub fn shutdown_timeout(&self) -> (value: Duration)
        ensures
            value@ == self@.shutdown_timeout,
    {
        self.shutdown_timeout
    }

    /// Returns the admission and body limits.
    pub fn admission(&self) -> (value: &ClientAdmissionConfig)
        ensures
            value@ == self@.admission,
    {
        &self.admission
    }

    /// Returns the discovery settings.
    pub fn discovery(&self) -> (value: &DiscoveryConfig)
        ensures
            value@ == self@.discovery,
    {
        &self.discovery
    }

    /// Returns the retry settings.
    pub fn retry(&self) -> (value: &RetryConfig)
        ensures
            value@ == self@.retry,
    {
        &self.retry
    }

    /// Returns the circuit-breaker settings.
    pub fn circuit_breaker(&self) -> (value: &CircuitBreakerConfig)
        ensures
            value@ == self@.circuit_breaker,
    {
        &self.circuit_breaker
    }

    /// Returns the HTTP and HTTPS pool settings.
    pub fn http(&self) -> (value: &ClientHttpConfig)
        ensures
            value@ == self@.http,
    {
        &self.http
    }

    /// Checks every setting, reporting the first violation.
    pub fn validate(&self) -> (result: Result<(), ConfigValidationError>)
        ensures
            reports(result, client_violation(self@)),
    {
        if let Err(e) = positive_duration(self.request_timeout, "client.request_timeout") {
            return Err(e);
        }
        if let Err(e) = positive_duration(self.connect_timeout, "client.connect_timeout") {
            return Err(e);
        }
        if let Err(e) = positive_duration(self.shutdown_timeout, "client.shutdown_timeout") {
            return Err(e);
        }
        if let Err(e) = validate_admission(&self.admission) {
            return Err(e);
        }
        if let Err(e) = validate_discovery(&self.discovery) {
            return Err(e);
        }
        if let Err(e) = validate_retry(&self.retry) {
            return Err(e);
        }
        if let Err(e) = validate_circuit_breaker(&self.circuit_breaker) {
            return Err(e);
        }
        validate_http(&self.http)
    }
}

/// Builder for [`ClientConfig`].
#[derive(Clone, Debug)]
pub struct ClientConfigBuilder(ClientConfig);

impl View for ClientConfigBuilder {
    type V = ClientConfigView;

    closed spec fn view(&self) -> ClientConfigView {
        self.0@
    }
}

impl ClientConfigBuilder {
    /// Sets the end-to-end logical invocation timeout.
    pub fn request_timeout(self, value: Duration) -> (builder: Self)
        ensures
            builder@ == (ClientConfigView { request_timeout: value@, ..self@ }),
    {
        let mut config = self.0;
        config.request_timeout = value;
        ClientConfigBuilder(config)
    }

    /// Sets the per-attempt TCP connection timeout.
    pub fn connect_timeout(self, value: Duration) -> (builder: Self)
        ensures
            builder@ == (ClientConfigView { connect_timeout: value@, ..self@ }),
    {
        let mut config = self.0;
        config.connect_timeout = value;
        ClientConfigBuilder(config)
    }

    /// Sets the total shutdown budget.
    pub fn shutdown_timeout(self, value: Duration) -> (builder: Self)
        ensures
            builder@ == (ClientConfigView { shutdown_timeout: value@, ..self@ }),
    {
        let mut config = self.0;
        config.shutdown_timeout = value;
        ClientConfigBuilder(config)
    }

    /// Sets the admission and body limits.
    pub fn admission(self, value: ClientAdmissionConfig) -> (builder: Self)
        ensures
            builder@ == (ClientConfigView { admission: value@, ..self@ }),
    {
        let mut config = self.0;
        config.admission = value;
        ClientConfigBuilder(config)
    }

    /// Sets the discovery settings.
    pub fn discovery(self, value: DiscoveryConfig) -> (builder: Self)
        ensures
            builder@ == (ClientConfigView { discovery: value@, ..self@ }),
    {
        let mut config = self.0;
        config.discovery = value;
        ClientConfigBuilder(config)
    }

    /// Sets the retry settings.
    pub fn retry(self, value: RetryConfig) -> (builder: Self)
        ensures
            builder@ == (ClientConfigView { retry: value@, ..self@ }),
    {
        let mut config = self.0;
        config.retry = value;
        ClientConfigBuilder(config)
    }

    /// Sets the circuit-breaker settings.
    pub fn circuit_breaker(self, value: CircuitBreakerConfig) -> (builder: Self)
        ensures
            builder@ == (ClientConfigView { circuit_breaker: value@, ..self@ }),
    {
        let mut config = self.0;
        config.circuit_breaker = value;
        ClientConfigBuilder(config)
    }

    /// Sets the HTTP and HTTPS pool settings.
    pub fn http(self, value: ClientHttpConfig) -> (builder: Self)
        ensures
            builder@ == (ClientConfigView { http: value@, ..self@ }),
    {
        let mut config = self.0;
        config.http = value;
        ClientConfigBuilder(config)
    }

    /// Validates and builds the immutable configuration.
    pub fn build(self) -> (result: Result<ClientConfig, ConfigValidationError>)
        ensures
            reports(result, client_violation(self@)),
            result matches Ok(config) ==> config@ == self@,
    {
        match self.0.validate() {
            Ok(()) => Ok(self.0),
            Err(error) => Err(error),
        }
    }
}

/// A retry configuration is accepted exactly when it allows one to three attempts,
/// has positive backoffs with the base not above the cap, and a positive retry budget
/// and refill rate; a rejection names a field that breaks its constraint.
pub proof fn lemma_retry_validation(c: RetryConfigView)
    ensures
        retry_violation(c) is None <==> (1 <= c.max_attempts <= 3 && c.backoff_base > 0 && c.backoff_cap > 0
            && c.backoff_base <= c.backoff_cap && c.budget_capacity > 0 && c.budget_refill_per_second > 0),
        c.budget_capacity == 0 ==> retry_violation(c) is Some,
        c.budget_capacity == 0 && 1 <= c.max_attempts <= 3 && 0 < c.backoff_base <= c.backoff_cap
            ==> retry_violation(c) == Some((ConfigValidationErrorKind::OutOfRange, "client.retry.budget_capacity"@,
            must_be_positive())),
        retry_violation(c) matches Some(v) ==> {
            ||| v == (ConfigValidationErrorKind::OutOfRange, "client.retry.max_attempts"@,
                "must be between 1 and 3 inclusive"@) && !(1 <= c.max_attempts <= 3)
            ||| v == (ConfigValidationErrorKind::OutOfRange, "client.retry.backoff_base"@, must_be_positive())
                && c.backoff_base == 0
            ||| v == (ConfigValidationErrorKind::Inconsistent, "client.retry.backoff_base"@,
                "must not exceed backoff_cap"@) && c.backoff_base > c.backoff_cap
            ||| v == (ConfigValidationErrorKind::OutOfRange, "client.retry.backoff_cap"@, must_be_positive())
                && c.backoff_cap == 0
            ||| v == (ConfigValidationErrorKind::OutOfRange, "client.retry.budget_capacity"@, must_be_positive())
                && c.budget_capacity == 0
            ||| v == (ConfigValidationErrorKind::OutOfRange, "client.retry.budget_refill_per_second"@,
                must_be_positive()) && c.budget_refill_per_second == 0
        },
{
}

/// An admission configuration is accepted exactly when its limits are positive, the
/// in-flight byte budgets cover one body each, and a queue with room has a positive
/// wait; a rejection names a field that breaks its constraint.
pub proof fn lemma_admission_validation(c: ClientAdmissionConfigView)
    ensures
        admission_violation(c) is None <==> (c.max_in_flight > 0 && c.max_in_flight_per_endpoint > 0
            && c.max_request_body_bytes > 0 && c.max_response_body_bytes > 0
            && c.max_inflight_request_body_bytes >= c.max_request_body_bytes
            && c.max_inflight_response_body_bytes >= c.max_response_body_bytes
            && (c.queue.capacity > 0 ==> c.queue.max_wait > 0)),
        admission_violation(c) matches Some(v) ==> {
            ||| v.1 == "client.admission.max_in_flight"@ && c.max_in_flight == 0
            ||| v.1 == "client.admission.max_in_flight_per_endpoint"@ && c.max_in_flight_per_endpoint == 0
            ||| v.1 == "client.admission.max_request_body_bytes"@ && c.max_request_body_bytes == 0
            ||| v.1 == "client.admission.max_response_body_bytes"@ && c.max_response_body_bytes == 0
            ||| v.1 == "client.admission.max_inflight_request_body_bytes"@
                && c.max_inflight_request_body_bytes < c.max_request_body_bytes
            ||| v.1 == "client.admission.max_inflight_response_body_bytes"@
                && c.max_inflight_response_body_bytes < c.max_response_body_bytes
            ||| v.1 == "client.admission.queue.max_wait"@ && c.queue.capacity > 0 && c.queue.max_wait == 0
        },
{
}

/// A discovery configuration is accepted exactly when its timeouts and reconnect
/// delays are positive with the base not above the cap, and it allows at least one
/// subscription; a rejection names a field that breaks its constraint.
pub proof fn lemma_discovery_validation(c: DiscoveryConfigView)
    ensures
        discovery_violation(c) is None <==> (c.initial_timeout > 0 && c.operation_timeout > 0 && c.close_timeout > 0
            && c.reconnect_base > 0 && c.reconnect_cap > 0 && c.reconnect_base <= c.reconnect_cap
            && c.max_subscriptions > 0),
        discovery_violation(c) matches Some(v) ==> {
            ||| v.1 == "client.discovery.initial_timeout"@ && c.initial_timeout == 0
            ||| v.1 == "client.discovery.operation_timeout"@ && c.operation_timeout == 0
            ||| v.1 == "client.discovery.close_timeout"@ && c.close_timeout == 0
            ||| v.1 == "client.discovery.reconnect_base"@ && (c.reconnect_base == 0 || c.reconnect_base > c.reconnect_cap)
            ||| v.1 == "client.discovery.reconnect_cap"@ && c.reconnect_cap == 0
            ||| v.1 == "client.discovery.max_subscriptions"@ && c.max_subscriptions == 0
        },
{
}

/// A threshold set is accepted exactly when its window, bucket count, sample
/// minimum, open duration, probe and success counts are positive and its failure
/// ratio lies in the unit interval; a rejection names a field that breaks its
/// constraint.
pub proof fn lemma_threshold_validation(c: BreakerThresholdView, scope: ThresholdScope)
    ensures
        threshold_violation(c, scope) is None <==> (c.window > 0 && c.buckets > 0 && c.minimum_samples > 0
            && unit_interval_bits(c.failure_ratio_bits) && c.open_duration > 0 && c.half_open_probes > 0
            && c.close_successes > 0),
        threshold_violation(c, scope) matches Some(v) ==> {
            ||| v.1 == threshold_path(scope, 0) && c.window == 0
            ||| v.1 == threshold_path(scope, 1) && c.buckets == 0
            ||| v.1 == threshold_path(scope, 2) && c.minimum_samples == 0
            ||| v.1 == threshold_path(scope, 3) && !unit_interval_bits(c.failure_ratio_bits)
            ||| v.1 == threshold_path(scope, 4) && c.open_duration == 0
            ||| v.1 == threshold_path(scope, 5) && c.half_open_probes == 0
            ||| v.1 == threshold_path(scope, 6) && c.close_successes == 0
        },
{
}

/// A circuit-breaker configuration is accepted exactly when both threshold sets are,
/// and its open-duration ceiling, entry limit and idle eviction are positive.
pub proof fn lemma_circuit_breaker_validation(c: CircuitBreakerConfigView)
    ensures
        circuit_breaker_violation(c) is None <==> (threshold_violation(c.endpoint, ThresholdScope::Endpoint) is None
            && threshold_violation(c.service, ThresholdScope::Service) is None && c.max_open_duration > 0
            && c.max_endpoint_entries > 0 && c.idle_eviction > 0),
        circuit_breaker_violation(c) matches Some(v) ==> {
            ||| threshold_violation(c.endpoint, ThresholdScope::Endpoint) == Some(v)
            ||| threshold_violation(c.service, ThresholdScope::Service) == Some(v)
            ||| v.1 == "client.circuit_breaker.max_open_duration"@ && c.max_open_duration == 0
            ||| v.1 == "client.circuit_breaker.max_endpoint_entries"@ && c.max_endpoint_entries == 0
            ||| v.1 == "client.circuit_breaker.idle_eviction"@ && c.idle_eviction == 0
        },
{
}

/// A pool configuration is accepted exactly when configured idle timeouts and
/// keep-alive intervals are positive, it opens at least one HTTP/2 connection per
/// host, and its keep-alive timeout is positive.
pub proof fn lemma_http_validation(c: ClientHttpConfigView)
    ensures
        http_violation(c) is None <==> (c.pool_idle_timeout != Some(0nat) && c.http2_connections_per_host > 0
            && c.http2_keep_alive_interval != Some(0nat) && c.http2_keep_alive_timeout > 0),
        http_violation(c) matches Some(v) ==> {
            ||| v.1 == "client.http.pool_idle_timeout"@ && c.pool_idle_timeout == Some(0nat)
            ||| v.1 == "client.http.http2_connections_per_host"@ && c.http2_connections_per_host == 0
            ||| v.1 == "client.http.http2_keep_alive_interval"@ && c.http2_keep_alive_interval == Some(0nat)
            ||| v.1 == "client.http.http2_keep_alive_timeout"@ && c.http2_keep_alive_timeout == 0
        },
{
}

/// A client configuration is accepted exactly when its timeouts are positive and
/// every section is accepted.
pub proof fn lemma_client_validation(c: ClientConfigView)
    ensures
        client_violation(c) is None <==> (c.request_timeout > 0 && c.connect_timeout > 0 && c.shutdown_timeout > 0
            && admission_violation(c.admission) is None && discovery_violation(c.discovery) is None
            && retry_violation(c.retry) is None && circuit_breaker_violation(c.circuit_breaker) is None
            && http_violation(c.http) is None),
{
}

} // verus!
