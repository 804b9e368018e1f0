use fusen::activation::{ActivationOutcome, CleanupOutcome, Lifecycle, StartOutcome};
use fusen::registry::{RegistryError, RegistryErrorKind, RegistryOperation};

fn registration() -> Lifecycle {
    Lifecycle::new(RegistryOperation::ActivateRegistration, RegistryOperation::CloseRegistration)
}

fn error_of(result: Option<Result<(), RegistryError>>) -> RegistryError {
    result.unwrap().err().unwrap()
}

#[test]
fn close_before_activation_is_ready_without_a_runtime() {
    let mut lifecycle = registration();
    assert!(lifecycle.request_close());
    assert!(matches!(lifecycle.close_result(), Some(Ok(()))));
    let activation = error_of(lifecycle.activation_result());
    assert_eq!(activation.kind(), RegistryErrorKind::Cancelled);
    assert_eq!(activation.operation(), RegistryOperation::ActivateRegistration);
    assert_eq!(activation.safe_message(), "registry handle closed before activation");
    assert!(matches!(lifecycle.ensure_started(None), StartOutcome::Ready));
}

#[test]
fn activation_starts_the_worker_once() {
    let mut lifecycle = registration();
    assert!(lifecycle.activation_result().is_none());
    assert!(matches!(lifecycle.ensure_started(None), StartOutcome::SpawnWorker));
    assert!(matches!(lifecycle.ensure_started(None), StartOutcome::Ready));
    lifecycle.finish_activation(ActivationOutcome::Completed(Ok(())));
    assert!(matches!(lifecycle.activation_result(), Some(Ok(()))));
    assert!(lifecycle.request_close());
    assert!(!lifecycle.request_close());
    lifecycle.finish_cleanup(CleanupOutcome::Completed(Ok(())));
    assert!(matches!(lifecycle.close_result(), Some(Ok(()))));
}

#[test]
fn missing_runtime_fails_activation_with_an_internal_error() {
    let mut lifecycle = registration();
    match lifecycle.ensure_started(Some("no runtime")) {
        StartOutcome::Failed(error) => {
            assert_eq!(error.kind(), RegistryErrorKind::Internal);
            assert_eq!(error.source_ref(), "no runtime");
        },
        _ => panic!("expected a failure"),
    }
    assert_eq!(error_of(lifecycle.activation_result()).kind(), RegistryErrorKind::Internal);
    assert!(matches!(lifecycle.close_result(), Some(Ok(()))));
}

#[test]
fn activation_panic_is_isolated_and_cleanup_still_runs_once() {
    let mut lifecycle = registration();
    assert!(matches!(lifecycle.ensure_started(None), StartOutcome::SpawnWorker));
    lifecycle.finish_activation(ActivationOutcome::Panicked);
    let error = error_of(lifecycle.activation_result());
    assert_eq!(error.kind(), RegistryErrorKind::Internal);
    assert_eq!(error.safe_message(), "registry provider activation panicked");
    assert!(lifecycle.request_close());
    lifecycle.finish_cleanup(CleanupOutcome::Panicked);
    let error = error_of(lifecycle.close_result());
    assert_eq!(error.operation(), RegistryOperation::CloseRegistration);
    assert_eq!(error.safe_message(), "registry provider cleanup panicked");
}

#[test]
fn late_success_after_close_becomes_a_cancellation() {
    let mut lifecycle = registration();
    assert!(matches!(lifecycle.ensure_started(None), StartOutcome::SpawnWorker));
    assert!(lifecycle.request_close());
    lifecycle.finish_activation(ActivationOutcome::Completed(Ok(())));
    let error = error_of(lifecycle.activation_result());
    assert_eq!(error.kind(), RegistryErrorKind::Cancelled);
    assert_eq!(error.safe_message(), "registry handle closed while activation was pending");
}

#[test]
fn cancelling_the_last_waiter_requests_cleanup_once() {
    let mut lifecycle = registration();
    assert!(matches!(lifecycle.ensure_started(None), StartOutcome::SpawnWorker));
    lifecycle.register_waiter();
    lifecycle.register_waiter();
    assert!(!lifecycle.release_waiter(false));
    assert!(!lifecycle.close_requested());
    assert!(lifecycle.release_waiter(false));
    assert!(lifecycle.close_requested());
    assert_eq!(lifecycle.waiters(), 0);
}

#[test]
fn an_observed_activation_keeps_the_handle_open() {
    let mut lifecycle = registration();
    assert!(matches!(lifecycle.ensure_started(None), StartOutcome::SpawnWorker));
    lifecycle.register_waiter();
    lifecycle.register_waiter();
    assert!(!lifecycle.release_waiter(true));
    assert!(!lifecycle.release_waiter(false));
    assert!(!lifecycle.close_requested());
}

#[test]
fn aborted_worker_publishes_terminal_failures() {
    let mut lifecycle = registration();
    assert!(matches!(lifecycle.ensure_started(None), StartOutcome::SpawnWorker));
    lifecycle.abort_worker();
    assert_eq!(error_of(lifecycle.activation_result()).safe_message(), "registry activation worker was aborted");
    assert_eq!(error_of(lifecycle.close_result()).kind(), RegistryErrorKind::CleanupAborted);
}
