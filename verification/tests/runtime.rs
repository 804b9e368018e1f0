use fusen::config::RetryConfig;
use fusen::contract::HttpBindingId;
use fusen::observability::MetricOutcome;
use fusen::runtime::{
    ClientState, ShutdownEffect, ShutdownWork, begin_shutdown, binding_key, conclude_shutdown, invalid_configuration,
    register_bindings, state_code, state_from_code, plan_build, ShutdownCoordinator,
};
use fusen::{ClientErrorKind, RegistryError, RegistryErrorKind, RegistryOperation};

#[test]
fn state_codes_round_trip() {
    for state in [ClientState::Running, ClientState::Draining, ClientState::Closed] {
        assert_eq!(state_from_code(state_code(state)), state);
    }
    assert_eq!(state_from_code(200), ClientState::Closed);
}

#[test]
fn bindings_reject_duplicates_and_the_reserved_json_binding() {
    let vendor = HttpBindingId::new("vendor-v1").unwrap();
    let table = register_bindings(&vec![vendor.clone()]).ok().unwrap();
    assert_eq!(table.len(), 2);
    assert_eq!(table[0].as_str(), "http-json-v1");
    let reserved = register_bindings(&vec![HttpBindingId::json_v1()]).unwrap_err();
    assert_eq!(reserved.kind(), ClientErrorKind::Build);
    assert_eq!(reserved.message(), "duplicate or reserved HTTP binding http-json-v1");
    let twice = register_bindings(&vec![vendor.clone(), vendor]).unwrap_err();
    assert_eq!(twice.message(), "duplicate or reserved HTTP binding vendor-v1");
}

#[test]
fn binding_keys_separate_service_and_binding() {
    assert_eq!(binding_key("demo", &HttpBindingId::json_v1()), "demo\0http-json-v1");
}

#[test]
fn invalid_configuration_names_the_field() {
    let error = RetryConfig::builder().max_attempts(9).build().unwrap_err();
    let client = invalid_configuration(&error);
    assert_eq!(client.kind(), ClientErrorKind::Build);
    assert_eq!(client.message(), "invalid client configuration at client.retry.max_attempts");
    assert!(client.source_ref().unwrap().contains("must be between 1 and 3 inclusive"));
}

#[test]
fn shutdown_drains_then_closes_with_a_shared_result() {
    let begin = begin_shutdown(true);
    assert_eq!(begin.len(), 3);
    assert!(matches!(begin[0], ShutdownEffect::SetState(ClientState::Draining)));
    let end = conclude_shutdown(ShutdownWork::Completed(None), true);
    assert_eq!(end.len(), 5);
    assert!(matches!(end[0], ShutdownEffect::FinishSubscriptionShutdown));
    assert!(matches!(end[end.len() - 3], ShutdownEffect::SetState(ClientState::Closed)));
    assert!(matches!(end[end.len() - 2], ShutdownEffect::Record(MetricOutcome::Success)));
    assert!(matches!(end.last(), Some(ShutdownEffect::Complete(Ok(())))));
}

#[test]
fn provider_close_error_is_preserved_as_shutdown_failure() {
    let error = RegistryError::message(RegistryOperation::CloseSubscription, RegistryErrorKind::Internal, "close failed");
    let end = conclude_shutdown(ShutdownWork::Completed(Some(error)), true);
    match end.last() {
        Some(ShutdownEffect::Complete(Err(error))) => {
            assert_eq!(error.kind(), ClientErrorKind::Shutdown);
            assert_eq!(error.message(), "failed to close discovery subscription");
            assert!(error.source_ref().unwrap().contains("close failed"));
        }
        _ => panic!("expected a shutdown failure"),
    }
    assert!(matches!(end[end.len() - 2], ShutdownEffect::Record(MetricOutcome::Error)));
}

#[test]
fn shutdown_deadline_forces_cancellation() {
    let end = conclude_shutdown(ShutdownWork::TimedOut, false);
    assert!(matches!(end[0], ShutdownEffect::ForceCancel));
    assert!(matches!(end[1], ShutdownEffect::CloseTransport));
    assert!(matches!(end[end.len() - 2], ShutdownEffect::Record(MetricOutcome::Timeout)));
}

#[test]
fn admitted_work_keeps_pool_access_until_it_has_drained() {
    let (mut shutdown, begin) = ShutdownCoordinator::start(true);
    assert!(begin.iter().all(|effect| !matches!(effect, ShutdownEffect::CloseTransport)));
    assert!(shutdown.subscriptions_closed(None).is_empty());
    let end = shutdown.invocations_drained();
    assert!(matches!(end[0], ShutdownEffect::CloseTransport));
    assert!(matches!(end.last(), Some(ShutdownEffect::Complete(Ok(())))));
    assert!(shutdown.concluded());
}

#[test]
fn pool_closes_when_invocations_drain_while_subscriptions_still_close() {
    let (mut shutdown, _) = ShutdownCoordinator::start(true);
    let drained = shutdown.invocations_drained();
    assert_eq!(drained.len(), 1);
    assert!(matches!(drained[0], ShutdownEffect::CloseTransport));
    assert!(!shutdown.concluded());
    let end = shutdown.subscriptions_closed(None);
    assert!(end.iter().all(|effect| !matches!(effect, ShutdownEffect::CloseTransport)));
    assert!(matches!(end.last(), Some(ShutdownEffect::Complete(Ok(())))));
}

#[test]
fn shutdown_deadline_cancels_and_times_out() {
    let (mut shutdown, _) = ShutdownCoordinator::start(false);
    let end = shutdown.deadline_elapsed();
    assert!(matches!(end[0], ShutdownEffect::ForceCancel));
    assert!(matches!(end[1], ShutdownEffect::CloseTransport));
    match end.last() {
        Some(ShutdownEffect::Complete(Err(error))) => assert_eq!(error.kind(), ClientErrorKind::Timeout),
        _ => panic!("expected a timeout"),
    }
}

#[test]
fn a_successful_build_starts_running() {
    let config = fusen::config::ClientConfig::default();
    let vendor = fusen::contract::HttpBindingId::new("vendor-v1").unwrap();
    let start = plan_build(&config, None, &vec![vendor.clone()], None).ok().unwrap();
    assert_eq!(start.state, ClientState::Running);
    assert_eq!(start.bindings.len(), 2);
    let error = plan_build(&config, None, &vec![vendor.clone(), vendor.clone()], None).err().unwrap();
    assert_eq!(error.kind(), ClientErrorKind::Build);
    assert_eq!(error.message(), "duplicate or reserved HTTP binding vendor-v1");
    let error = plan_build(&config, Some("no reactor"), &vec![vendor], None).err().unwrap();
    assert_eq!(error.message(), "ClientRuntime must be built inside a running Tokio runtime");
    assert_eq!(error.source_ref(), Some("no reactor"));
}
