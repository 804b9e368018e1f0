use fusen::directory::{DirectoryState, PublisherCore};
use fusen::{RegistryError, RegistryErrorKind, RegistryOperation};

#[test]
fn errors_preserve_operation_kind_and_source() {
    let error = RegistryError::new(
        RegistryOperation::ActivateSubscription,
        RegistryErrorKind::Unavailable,
        "provider offline",
    );

    assert_eq!(error.operation(), RegistryOperation::ActivateSubscription);
    assert_eq!(error.kind(), RegistryErrorKind::Unavailable);
    assert!(error.is_retryable());
    assert_eq!(error.safe_message(), "registry provider is unavailable");
    assert!(error.source_ref().contains("provider offline"));
}

#[test]
fn formatting_shows_safe_message_without_exposing_provider_source() {
    let error = RegistryError::new(
        RegistryOperation::ActivateSubscription,
        RegistryErrorKind::Unavailable,
        "provider-token=secret",
    );

    let debug = error.describe();
    let display = error.render();
    assert!(debug.contains("ActivateSubscription"));
    assert!(debug.contains("Unavailable"));
    assert!(debug.contains("registry provider is unavailable"));
    assert!(display.contains("registry provider is unavailable"));
    assert!(!debug.contains("provider-token=secret"));
    assert!(!display.contains("provider-token=secret"));
}

#[test]
fn explicit_public_message_is_preserved() {
    let error = RegistryError::message(
        RegistryOperation::Directory,
        RegistryErrorKind::InvalidResource,
        "directory snapshot is invalid",
    );

    assert_eq!(error.safe_message(), "directory snapshot is invalid");
    assert!(error.describe().contains("directory snapshot is invalid"));
    assert!(error.render().contains("directory snapshot is invalid"));
    assert_eq!(error.source_ref().to_string(), "directory snapshot is invalid");
}

#[test]
fn lifecycle_managed_states_cannot_be_published_directly() {
    let mut publisher = PublisherCore::new();
    for state in [DirectoryState::Initializing, DirectoryState::Closed] {
        let error = publisher.publish(state).unwrap_err();
        assert_eq!(error.kind(), RegistryErrorKind::InvalidResource);
    }
    assert_eq!(publisher.revision(), 0);
    assert_eq!(publisher.state(), DirectoryState::Initializing);
}

#[test]
fn publications_advance_the_revision_by_one() {
    let mut publisher = PublisherCore::new();
    assert_eq!(publisher.publish(DirectoryState::Ready).ok(), Some(1));
    assert_eq!(publisher.publish(DirectoryState::Stale).ok(), Some(2));
    assert_eq!(publisher.state(), DirectoryState::Stale);
    assert_eq!(publisher.close(), Some(3));
    assert_eq!(publisher.state(), DirectoryState::Closed);
}

#[test]
fn only_ready_and_stale_directories_route() {
    assert!(DirectoryState::Ready.is_routable());
    assert!(DirectoryState::Stale.is_routable());
    assert!(!DirectoryState::Unavailable.is_routable());
    assert!(!DirectoryState::Initializing.is_routable());
}

#[test]
fn retryable_kinds_are_exactly_the_transient_ones() {
    assert!(RegistryErrorKind::Unavailable.is_retryable());
    assert!(!RegistryErrorKind::InvalidResource.is_retryable());
}
