use fusen::error::{
    Error, ErrorCategory, ErrorCode, ErrorConstructionError, ErrorKind, ErrorOrigin, RetryHint, category_from_status,
};
use fusen::{ClientError, ClientErrorKind, ServerError, ServerErrorKind};

#[test]
fn error_codes_are_strict_snake_case() {
    for value in ["", "Bad", "bad-code", "_bad", "bad_", "bad__code", "2_bad", "bad code"] {
        assert!(ErrorCode::new(value.to_string()).is_err(), "{value:?}");
    }
    assert_eq!(ErrorCode::new("already_exists_2".to_string()).unwrap().as_str(), "already_exists_2");
    assert!(ErrorCode::new("a".repeat(64)).is_ok());
    assert!(ErrorCode::new("a".repeat(65)).is_err());
}

#[test]
fn application_constructors_keep_kind_category_and_status_orthogonal() {
    let canonical = Error::application(ErrorCategory::Conflict, "duplicate".into(), "already exists".into()).unwrap();
    assert_eq!(canonical.kind(), ErrorKind::Application);
    assert_eq!(canonical.origin(), ErrorOrigin::Local);
    assert_eq!(canonical.status(), 409);
    assert_eq!(canonical.attempts(), 0);

    let custom = Error::application_status(422, "invalid_entity".into(), "invalid entity".into()).unwrap();
    assert_eq!(custom.category(), ErrorCategory::Unknown);
    assert_eq!(custom.status(), 422);
    assert!(matches!(
        Error::application(ErrorCategory::Unknown, "unknown".into(), "unknown".into()),
        Err(ErrorConstructionError::NonCanonicalCategory(ErrorCategory::Unknown))
    ));
}

#[test]
fn application_errors_cannot_be_retryable() {
    let error = Error::application(ErrorCategory::Conflict, "duplicate".into(), "already exists".into())
        .unwrap()
        .with_retry_hint(RetryHint::Retryable);
    assert_eq!(error.retry_hint(), RetryHint::Never);
}

#[test]
fn framework_errors_may_recommend_retries() {
    let error = Error::framework(ErrorCategory::Unavailable, "circuit_open", "circuit breaker rejected the attempt")
        .with_retry_hint(RetryHint::Retryable);
    assert_eq!(error.retry_hint(), RetryHint::Retryable);
    assert_eq!(error.kind(), ErrorKind::Framework);
    assert_eq!(error.status(), 503);
}

#[test]
fn canonical_statuses_round_trip_to_their_categories() {
    for category in [
        ErrorCategory::InvalidArgument,
        ErrorCategory::NotFound,
        ErrorCategory::Conflict,
        ErrorCategory::ResourceExhausted,
        ErrorCategory::Unavailable,
        ErrorCategory::DeadlineExceeded,
        ErrorCategory::Internal,
        ErrorCategory::DataLoss,
    ] {
        let status = category.canonical_status().unwrap();
        assert_eq!(category_from_status(status), category);
    }
    assert_eq!(ErrorCategory::Unknown.canonical_status(), None);
}

#[test]
fn debug_does_not_expose_sources() {
    let client = ClientError::with_source(ClientErrorKind::Connect, "connection failed", "client secret");
    let server = ServerError::with_source(ServerErrorKind::Bind, "bind failed", "server secret");

    assert!(!client.describe().contains("client secret"));
    assert!(!server.describe().contains("server secret"));
    assert!(!client.render().contains("client secret"));
    assert!(!server.render().contains("server secret"));
    assert!(client.source_ref().is_some());
    assert!(server.source_ref().is_some());
}

#[test]
fn client_errors_render_their_kind_and_message() {
    let error = ClientError::from_message(ClientErrorKind::Closed, "client runtime is draining or closed");
    assert_eq!(error.render(), "client closed failed: client runtime is draining or closed");
    assert!(error.source_ref().is_none());
}
