use crate::registry::{RegistryError, RegistryErrorKind, RegistryOperation};
use vstd::prelude::*;

verus! {

/// Provider health associated with one immutable service snapshot.
#[derive(Clone, Copy, Debug, PartialEq, Eq, Hash, Structural)]
#[non_exhaustive]
pub enum DirectoryState {
    /// The provider has not published its initial snapshot.
    Initializing,
    /// The snapshot is current and may be routed.
    Ready,
    /// The provider is reconnecting and the retained snapshot may be stale.
    Stale,
    /// The provider cannot currently supply a routable snapshot.
    Unavailable,
    /// The subscription publisher has terminated.
    Closed,
}

impl DirectoryState {
    /// Whether the state is managed by the directory lifecycle itself and cannot be
    /// published by a provider.
    pub open spec fn spec_is_lifecycle_managed(self) -> bool {
        self == DirectoryState::Initializing || self == DirectoryState::Closed
    }

    /// Returns whether the state is managed by the directory lifecycle itself.
    pub fn is_lifecycle_managed(self) -> (managed: bool)
        ensures
            managed == self.spec_is_lifecycle_managed(),
    {
        match self {
            DirectoryState::Initializing | DirectoryState::Closed => true,
            _ => false,
        }
    }

    /// Whether a snapshot in this state may be routed.
    pub open spec fn spec_is_routable(self) -> bool {
        self == DirectoryState::Ready || self == DirectoryState::Stale
    }

    /// Returns whether a snapshot in this state may be routed.
    pub fn is_routable(self) -> (routable: bool)
        ensures
            routable == self.spec_is_routable(),
    {
        match self {
            DirectoryState::Ready | DirectoryState::Stale => true,
            _ => false,
        }
    }
}

/// The revision and provider state of the latest snapshot a directory publisher
/// has made visible.
///
/// Revisions start at zero in `Initializing`, grow by exactly one with every
/// accepted publication and never repeat.
pub struct PublisherCore {
    revision: u64,
    state: DirectoryState,
}

impl PublisherCore {
    /// The revision of the latest snapshot.
    pub closed spec fn spec_revision(&self) -> u64 {
        self.revision
    }

    /// The provider state of the latest snapshot.
    pub closed spec fn spec_state(&self) -> DirectoryState {
        self.state
    }

    /// Creates the publisher of an initializing directory at revision zero.
    pub fn new() -> (core: Self)
        ensures
            core.spec_revision() == 0,
            core.spec_state() == DirectoryState::Initializing,
    {
        PublisherCore { revision: 0, state: DirectoryState::Initializing }
    }

    /// Returns the revision of the latest snapshot.
    pub fn revision(&self) -> (revision: u64)
        ensures
            revision == self.spec_revision(),
    {
        self.revision
    }

    /// Returns the provider state of the latest snapshot.
    pub fn state(&self) -> (state: DirectoryState)
        ensures
            state == self.spec_state(),
    {
        self.state
    }

    /// Accepts one provider publication in `state` and returns the new revision.
    ///
    /// `Initializing` and `Closed` are refused as invalid resources, and a publication
    /// that would overflow the revision is refused as an internal failure; a refused
    /// publication changes nothing.
    pub fn publish(&mut self, state: DirectoryState) -> (result: Result<u64, RegistryError>)
        ensures
            state.spec_is_lifecycle_managed() ==> {
                &&& result is Err
                &&& result->Err_0.spec_operation() == RegistryOperation::Directory
                &&& result->Err_0.spec_kind() == RegistryErrorKind::InvalidResource
                &&& result->Err_0.spec_message()
                    == "Initializing and Closed are lifecycle-managed directory states"@
            },
            !state.spec_is_lifecycle_managed() && old(self).spec_revision() == u64::MAX ==> {
                &&& result is Err
                &&& result->Err_0.spec_operation() == RegistryOperation::Directory
                &&& result->Err_0.spec_kind() == RegistryErrorKind::Internal
                &&& result->Err_0.spec_message() == "directory revision overflowed"@
            },
            !state.spec_is_lifecycle_managed() && old(self).spec_revision() < u64::MAX ==> {
                &&& result == Ok::<u64, RegistryError>((old(self).spec_revision() + 1) as u64)
                &&& final(self).spec_revision() == old(self).spec_revision() + 1
                &&& final(self).spec_state() == state
            },
            result is Err ==> *final(self) == *old(self),
    {
        if state.is_lifecycle_managed() {
            return Err(RegistryError::message(
                RegistryOperation::Directory,
                RegistryErrorKind::InvalidResource,
                "Initializing and Closed are lifecycle-managed directory states",
            ));
        }
        if self.revision == u64::MAX {
            return Err(RegistryError::message(
                RegistryOperation::Directory,
                RegistryErrorKind::Internal,
                "directory revision overflowed",
            ));
        }
        self.revision = self.revision + 1;
        self.state = state;
        Ok(self.revision)
    }

    /// Publishes the terminal `Closed` snapshot when the last publisher is dropped,
    /// returning its revision; nothing is published if the revision would overflow.
    pub fn close(&mut self) -> (revision: Option<u64>)
        ensures
            old(self).spec_revision() < u64::MAX ==> {
                &&& revision == Some((old(self).spec_revision() + 1) as u64)
                &&& final(self).spec_revision() == old(self).spec_revision() + 1
                &&& final(self).spec_state() == DirectoryState::Closed
            },
            old(self).spec_revision() == u64::MAX ==> revision is None && *final(self) == *old(self),
    {
        if self.revision == u64::MAX {
            return None;
        }
        self.revision = self.revision + 1;
        self.state = DirectoryState::Closed;
        Some(self.revision)
    }
}

} // verus!
