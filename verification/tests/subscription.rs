use fusen::contract::ServiceSelector;
use fusen::observability::DirectoryMetricState;
use fusen::subscription::{
    Acquired, Activation, Effect, Next, Phase, Prepared, SlotState, SubscriptionTable, Supervisor,
    combine_close_results, completion_result, readiness,
};
use fusen::{ClientErrorKind, DirectoryState, RegistryError, RegistryErrorKind, RegistryOperation};

fn slot_of(effects: &[Effect]) -> Vec<&'static str> {
    effects
        .iter()
        .filter_map(|e| match e {
            Effect::SetSlot(SlotState::Initializing) => Some("initializing"),
            Effect::SetSlot(SlotState::Ready) => Some("ready"),
            Effect::SetSlot(SlotState::Stale) => Some("stale"),
            Effect::SetSlot(SlotState::Unavailable) => Some("unavailable"),
            Effect::SetSlot(SlotState::Failed(_)) => Some("failed"),
            Effect::SetSlot(SlotState::Quarantined) => Some("quarantined"),
            Effect::SetSlot(SlotState::Closed) => Some("closed"),
            _ => None,
        })
        .collect()
}

fn active_supervisor(effects: &mut Vec<Effect>) -> Supervisor {
    let mut supervisor = Supervisor::new(effects);
    assert_eq!(supervisor.begin(false), Next::Prepare);
    assert_eq!(supervisor.prepared(Prepared::Handle, effects), Next::Activate);
    assert_eq!(supervisor.activated(Activation::Activated, effects), Next::Watch);
    supervisor
}

#[test]
fn ready_snapshot_is_published_and_shown() {
    let mut effects = Vec::new();
    let mut supervisor = active_supervisor(&mut effects);
    effects.clear();
    supervisor.snapshot(DirectoryState::Ready, &mut effects);
    assert!(matches!(effects[0], Effect::ReplaceDiscovery));
    assert!(matches!(effects[1], Effect::PublishSnapshot { state: DirectoryState::Ready, revision: 1 }));
    assert!(matches!(effects[2], Effect::ClearDeadline));
    assert_eq!(slot_of(&effects), vec!["ready"]);
    assert!(matches!(effects[4], Effect::Record(DirectoryMetricState::Ready)));
    assert_eq!(supervisor.forwarder().directory_state(), DirectoryState::Ready);
}

#[test]
fn provider_disconnect_uses_last_good_until_one_deadline() {
    let mut effects = Vec::new();
    let mut supervisor = active_supervisor(&mut effects);
    supervisor.snapshot(DirectoryState::Ready, &mut effects);
    effects.clear();
    assert_eq!(supervisor.watch_ended(true, &mut effects), Next::CloseGeneration);
    assert!(matches!(effects[0], Effect::PublishState { state: DirectoryState::Stale, revision: 2 }));
    assert!(matches!(effects[1], Effect::ArmDeadline));
    assert!(supervisor.forwarder().is_armed());
    effects.clear();
    supervisor.deadline(&mut effects);
    assert!(matches!(effects[0], Effect::PublishState { state: DirectoryState::Unavailable, revision: 3 }));
    assert_eq!(slot_of(&effects), vec!["unavailable"]);
    assert!(!supervisor.forwarder().is_armed());
}

#[test]
fn stale_snapshot_before_ready_is_unavailable() {
    let mut effects = Vec::new();
    let mut supervisor = active_supervisor(&mut effects);
    effects.clear();
    supervisor.snapshot(DirectoryState::Stale, &mut effects);
    assert!(matches!(effects[1], Effect::PublishSnapshot { state: DirectoryState::Unavailable, .. }));
    assert_eq!(slot_of(&effects), vec!["unavailable"]);
}

#[test]
fn activation_timeout_quarantines_and_retries() {
    let mut effects = Vec::new();
    let mut supervisor = Supervisor::new(&mut effects);
    supervisor.begin(false);
    supervisor.prepared(Prepared::Handle, &mut effects);
    effects.clear();
    assert_eq!(supervisor.activated(Activation::TimedOut, &mut effects), Next::CloseGeneration);
    assert_eq!(slot_of(&effects), vec!["unavailable", "quarantined"]);
    assert_eq!(supervisor.closed(Ok(()), false, &mut effects), Next::Backoff(1));
    assert_eq!(supervisor.backoff_done(true, &mut effects), Next::Restart);
    assert_eq!(supervisor.phase(), Phase::Start);
}

#[test]
fn provider_close_error_is_preserved_as_the_terminal_state() {
    let mut effects = Vec::new();
    let mut supervisor = active_supervisor(&mut effects);
    supervisor.watch_ended(false, &mut effects);
    let error = RegistryError::message(RegistryOperation::CloseSubscription, RegistryErrorKind::Internal, "close failed");
    assert_eq!(supervisor.closed(Err(error), true, &mut effects), Next::Finish);
    effects.clear();
    supervisor.finish(true, &mut effects);
    assert_eq!(slot_of(&effects), vec!["failed"]);
    assert!(matches!(effects.last(), Some(Effect::Record(DirectoryMetricState::Closed))));
    assert!(completion_result(supervisor.forwarder().slot()).is_err());
}

#[test]
fn reconnect_attempts_saturate_and_reset_after_activation() {
    let mut effects = Vec::new();
    let mut supervisor = Supervisor::new(&mut effects);
    for expected in 1..=255u32 {
        supervisor.begin(false);
        let error = RegistryError::message(RegistryOperation::PrepareSubscription, RegistryErrorKind::Unavailable, "down");
        assert_eq!(supervisor.prepared(Prepared::Failed(error), &mut effects), Next::Backoff(expected as u8));
        supervisor.backoff_done(true, &mut effects);
    }
    supervisor.begin(false);
    let error = RegistryError::message(RegistryOperation::PrepareSubscription, RegistryErrorKind::Unavailable, "down");
    assert_eq!(supervisor.prepared(Prepared::Failed(error), &mut effects), Next::Backoff(255));
    supervisor.backoff_done(true, &mut effects);
    supervisor.begin(false);
    supervisor.prepared(Prepared::Handle, &mut effects);
    supervisor.activated(Activation::Activated, &mut effects);
    assert_eq!(supervisor.attempt(), 0);
}

#[test]
fn prepare_panic_quarantines_and_ends() {
    let mut effects = Vec::new();
    let mut supervisor = Supervisor::new(&mut effects);
    supervisor.begin(false);
    assert_eq!(supervisor.prepared(Prepared::Panicked, &mut effects), Next::Finish);
    effects.clear();
    supervisor.finish(false, &mut effects);
    assert_eq!(slot_of(&effects), vec!["quarantined"]);
    assert!(matches!(effects[1], Effect::Release));
}

#[test]
fn readiness_follows_the_slot_state() {
    assert!(readiness(&SlotState::Initializing).is_none());
    assert!(matches!(readiness(&SlotState::Ready), Some(Ok(()))));
    assert!(matches!(readiness(&SlotState::Stale), Some(Ok(()))));
    let unavailable = readiness(&SlotState::Unavailable).unwrap().unwrap_err();
    assert_eq!(unavailable.kind(), ClientErrorKind::Discovery);
    assert_eq!(unavailable.message(), "service directory is unavailable");
    let closed = readiness(&SlotState::Closed).unwrap().unwrap_err();
    assert_eq!(closed.kind(), ClientErrorKind::Closed);
    let error = RegistryError::message(RegistryOperation::ActivateSubscription, RegistryErrorKind::Unavailable, "down");
    let failed = readiness(&SlotState::Failed(error)).unwrap().unwrap_err();
    assert_eq!(failed.message(), "registry subscription failed");
    assert!(failed.source_ref().unwrap().contains("down"));
}

#[test]
fn shutdown_waits_for_every_slot_before_returning_first_error() {
    let first = RegistryError::message(RegistryOperation::CloseSubscription, RegistryErrorKind::Internal, "first");
    let second = RegistryError::message(RegistryOperation::CloseSubscription, RegistryErrorKind::Internal, "second");
    let combined = combine_close_results(vec![Ok(()), Err(first), Err(second)]);
    assert_eq!(combined.unwrap_err().safe_message(), "first");
    assert!(combine_close_results(vec![Ok(()), Ok(())]).is_ok());
}

#[test]
fn subscriptions_are_shared_per_selector_and_bounded() {
    let mut table = SubscriptionTable::new();
    let a = || ServiceSelector::new("a".into(), None, None).unwrap();
    let b = || ServiceSelector::new("b".into(), None, None).unwrap();
    assert_eq!(table.acquire(a(), 1).ok(), Some(Acquired::Created(0)));
    assert_eq!(table.acquire(a(), 1).ok(), Some(Acquired::Existing(0)));
    let limit = table.acquire(b(), 1).unwrap_err();
    assert_eq!(limit.message(), "runtime subscription limit reached");
    assert!(table.begin_shutdown());
    assert!(!table.begin_shutdown());
    assert_eq!(table.acquire(a(), 1).unwrap_err().kind(), ClientErrorKind::Closed);
}
