use fusen::config::{ClientAdmissionConfig, ClientConfig, QueueConfig, RetryConfig};
use fusen::{ConfigValidationErrorKind, Duration};

#[test]
fn default_getters_match_the_runtime_contract() {
    let config = ClientConfig::default();
    assert_eq!(config.request_timeout(), Duration::from_secs(10));
    assert_eq!(config.admission().max_in_flight(), 1024);
    assert_eq!(config.admission().queue().capacity(), 0);
    assert_eq!(config.discovery().reconnect_base(), Duration::from_millis(100));
    assert_eq!(config.retry().max_attempts(), 3);
    assert_eq!(config.retry().budget_capacity(), 100);
    assert_eq!(config.circuit_breaker().endpoint().minimum_samples(), 20);
    assert_eq!(config.circuit_breaker().service().minimum_samples(), 50);
    assert_eq!(config.http().http2_connections_per_host(), 1);
}

#[test]
fn validation_reports_stable_kind_path_and_reason() {
    let retry = RetryConfig::builder().max_attempts(4).build().unwrap_err();
    assert_eq!(retry.kind(), ConfigValidationErrorKind::OutOfRange);
    assert_eq!(retry.field_path(), "client.retry.max_attempts");
    assert_eq!(retry.reason(), "must be between 1 and 3 inclusive");

    let admission = ClientAdmissionConfig::builder()
        .max_request_body_bytes(1025)
        .max_inflight_request_body_bytes(1024)
        .build()
        .unwrap_err();
    assert_eq!(admission.kind(), ConfigValidationErrorKind::Inconsistent);
    assert_eq!(admission.field_path(), "client.admission.max_inflight_request_body_bytes");
}

#[test]
fn independent_builders_accept_cross_field_boundaries() {
    let retry = RetryConfig::builder()
        .backoff_base(Duration::from_millis(10))
        .backoff_cap(Duration::from_millis(10))
        .build()
        .unwrap();
    let queue = QueueConfig::builder().capacity(0).max_wait(Duration::zero()).build().unwrap();
    let admission = ClientAdmissionConfig::builder().queue(queue).build().unwrap();
    ClientConfig::builder().retry(retry).admission(admission).build().unwrap();
}

#[test]
fn default_configuration_validates() {
    assert!(ClientConfig::default().validate().is_ok());
}

#[test]
fn validation_errors_render_path_kind_and_reason() {
    let retry = RetryConfig::builder().max_attempts(0).build().unwrap_err();
    assert_eq!(
        retry.render(),
        "invalid configuration at client.retry.max_attempts (out of range): must be between 1 and 3 inclusive"
    );
}

#[test]
fn backoff_cap_below_base_is_inconsistent() {
    let error = RetryConfig::builder()
        .backoff_base(Duration::from_millis(20))
        .backoff_cap(Duration::from_millis(10))
        .build()
        .unwrap_err();
    assert_eq!(error.kind(), ConfigValidationErrorKind::Inconsistent);
}
