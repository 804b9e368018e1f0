use vstd::prelude::*;
use vstd::string::*;

verus! {

/// Registry operation that produced an error.
#[derive(Clone, Copy, Debug, PartialEq, Eq, Hash, Structural)]
#[non_exhaustive]
pub enum RegistryOperation {
    /// A provider rejected a registration before activation.
    PrepareRegistration,
    /// Publishing a prepared registration failed.
    ActivateRegistration,
    /// Removing a prepared registration failed.
    CloseRegistration,
    /// A provider rejected a subscription before activation.
    PrepareSubscription,
    /// Starting a prepared subscription failed.
    ActivateSubscription,
    /// Stopping a prepared subscription failed.
    CloseSubscription,
    /// Reading or publishing a directory snapshot failed.
    Directory,
}

impl RegistryOperation {
    /// The phrase used in rendered messages.
    pub open spec fn spec_name(self) -> Seq<char> {
        match self {
            RegistryOperation::PrepareRegistration => "prepare registration"@,
            RegistryOperation::ActivateRegistration => "activate registration"@,
            RegistryOperation::CloseRegistration => "close registration"@,
            RegistryOperation::PrepareSubscription => "prepare subscription"@,
            RegistryOperation::ActivateSubscription => "activate subscription"@,
            RegistryOperation::CloseSubscription => "close subscription"@,
            RegistryOperation::Directory => "access directory"@,
        }
    }

    /// Returns the phrase used in rendered messages.
    pub fn name(self) -> (name: &'static str)
        ensures
            name@ == self.spec_name(),
    {
        match self {
            RegistryOperation::PrepareRegistration => "prepare registration",
            RegistryOperation::ActivateRegistration => "activate registration",
            RegistryOperation::CloseRegistration => "close registration",
            RegistryOperation::PrepareSubscription => "prepare subscription",
            RegistryOperation::ActivateSubscription => "activate subscription",
            RegistryOperation::CloseSubscription => "close subscription",
            RegistryOperation::Directory => "access directory",
        }
    }

    /// The variant name used in diagnostic descriptions.
    pub open spec fn spec_variant_name(self) -> Seq<char> {
        match self {
            RegistryOperation::PrepareRegistration => "PrepareRegistration"@,
            RegistryOperation::ActivateRegistration => "ActivateRegistration"@,
            RegistryOperation::CloseRegistration => "CloseRegistration"@,
            RegistryOperation::PrepareSubscription => "PrepareSubscription"@,
            RegistryOperation::ActivateSubscription => "ActivateSubscription"@,
            RegistryOperation::CloseSubscription => "CloseSubscription"@,
            RegistryOperation::Directory => "Directory"@,
        }
    }

    /// Returns the variant name used in diagnostic descriptions.
    pub fn variant_name(self) -> (name: &'static str)
        ensures
            name@ == self.spec_variant_name(),
    {
        match self {
            RegistryOperation::PrepareRegistration => "PrepareRegistration",
            RegistryOperation::ActivateRegistration => "ActivateRegistration",
            RegistryOperation::CloseRegistration => "CloseRegistration",
            RegistryOperation::PrepareSubscription => "PrepareSubscription",
            RegistryOperation::ActivateSubscription => "ActivateSubscription",
            RegistryOperation::CloseSubscription => "CloseSubscription",
            RegistryOperation::Directory => "Directory",
        }
    }
}

/// Stable classification for registry failures.
#[derive(Clone, Copy, Debug, PartialEq, Eq, Hash, Structural)]
#[non_exhaustive]
pub enum RegistryErrorKind {
    /// The provider or its backing service is unavailable.
    Unavailable,
    /// A configured operation deadline elapsed.
    Timeout,
    /// The provider rejected the supplied credentials or identity.
    Unauthorized,
    /// A registration, selector, capability declaration, or endpoint is invalid.
    InvalidResource,
    /// The requested resource conflicts with existing provider state.
    Conflict,
    /// The operation was closed before activation completed.
    Cancelled,
    /// Provider cleanup ended without publishing a terminal result.
    CleanupAborted,
    /// An invariant, task, or provider implementation failed internally.
    Internal,
}

impl RegistryErrorKind {
    /// Whether a fresh provider operation may succeed without changing its input.
    pub open spec fn spec_is_retryable(self) -> bool {
        self == RegistryErrorKind::Unavailable || self == RegistryErrorKind::Timeout
    }

    /// Returns whether a fresh provider operation may succeed without changing its input.
    pub fn is_retryable(self) -> (retryable: bool)
        ensures
            retryable == self.spec_is_retryable(),
    {
        match self {
            RegistryErrorKind::Unavailable | RegistryErrorKind::Timeout => true,
            _ => false,
        }
    }

    /// The phrase used in rendered messages.
    pub open spec fn spec_name(self) -> Seq<char> {
        match self {
            RegistryErrorKind::Unavailable => "unavailable"@,
            RegistryErrorKind::Timeout => "timeout"@,
            RegistryErrorKind::Unauthorized => "unauthorized"@,
            RegistryErrorKind::InvalidResource => "invalid resource"@,
            RegistryErrorKind::Conflict => "conflict"@,
            RegistryErrorKind::Cancelled => "cancelled"@,
            RegistryErrorKind::CleanupAborted => "cleanup aborted"@,
            RegistryErrorKind::Internal => "internal"@,
        }
    }

    /// Returns the phrase used in rendered messages.
    pub fn name(self) -> (name: &'static str)
        ensures
            name@ == self.spec_name(),
    {
        match self {
            RegistryErrorKind::Unavailable => "unavailable",
            RegistryErrorKind::Timeout => "timeout",
            RegistryErrorKind::Unauthorized => "unauthorized",
            RegistryErrorKind::InvalidResource => "invalid resource",
            RegistryErrorKind::Conflict => "conflict",
            RegistryErrorKind::Cancelled => "cancelled",
            RegistryErrorKind::CleanupAborted => "cleanup aborted",
            RegistryErrorKind::Internal => "internal",
        }
    }

    /// The variant name used in diagnostic descriptions.
    pub open spec fn spec_variant_name(self) -> Seq<char> {
        match self {
            RegistryErrorKind::Unavailable => "Unavailable"@,
            RegistryErrorKind::Timeout => "Timeout"@,
            RegistryErrorKind::Unauthorized => "Unauthorized"@,
            RegistryErrorKind::InvalidResource => "InvalidResource"@,
            RegistryErrorKind::Conflict => "Conflict"@,
            RegistryErrorKind::Cancelled => "Cancelled"@,
            RegistryErrorKind::CleanupAborted => "CleanupAborted"@,
            RegistryErrorKind::Internal => "Internal"@,
        }
    }

    /// Returns the variant name used in diagnostic descriptions.
    pub fn variant_name(self) -> (name: &'static str)
        ensures
            name@ == self.spec_variant_name(),
    {
        match self {
            RegistryErrorKind::Unavailable => "Unavailable",
            RegistryErrorKind::Timeout => "Timeout",
            RegistryErrorKind::Unauthorized => "Unauthorized",
            RegistryErrorKind::InvalidResource => "InvalidResource",
            RegistryErrorKind::Conflict => "Conflict",
            RegistryErrorKind::Cancelled => "Cancelled",
            RegistryErrorKind::CleanupAborted => "CleanupAborted",
            RegistryErrorKind::Internal => "Internal",
        }
    }

    /// The safe public message used when a provider error carries no public text.
    pub open spec fn spec_default_message(self) -> Seq<char> {
        match self {
            RegistryErrorKind::Unavailable => "registry provider is unavailable"@,
            RegistryErrorKind::Timeout => "registry operation timed out"@,
            RegistryErrorKind::Unauthorized => "registry provider rejected the operation"@,
            RegistryErrorKind::InvalidResource => "registry resource is invalid"@,
            RegistryErrorKind::Conflict => "registry resource conflicts with existing state"@,
            RegistryErrorKind::Cancelled => "registry operation was cancelled"@,
            RegistryErrorKind::CleanupAborted => "registry cleanup did not complete"@,
            RegistryErrorKind::Internal => "registry operation failed internally"@,
        }
    }

    /// Returns the safe public message used when a provider error carries no public text.
    pub fn default_message(self) -> (name: &'static str)
        ensures
            name@ == self.spec_default_message(),
    {
        match self {
            RegistryErrorKind::Unavailable => "registry provider is unavailable",
            RegistryErrorKind::Timeout => "registry operation timed out",
            RegistryErrorKind::Unauthorized => "registry provider rejected the operation",
            RegistryErrorKind::InvalidResource => "registry resource is invalid",
            RegistryErrorKind::Conflict => "registry resource conflicts with existing state",
            RegistryErrorKind::Cancelled => "registry operation was cancelled",
            RegistryErrorKind::CleanupAborted => "registry cleanup did not complete",
            RegistryErrorKind::Internal => "registry operation failed internally",
        }
    }
}

/// Cloneable registry failure with stable operation and kind metadata.
///
/// The provider source is retained as text; it is never included in
/// [`RegistryError::render`] or [`RegistryError::describe`].
#[derive(Clone)]
#[non_exhaustive]
pub struct RegistryError {
    operation: RegistryOperation,
    kind: RegistryErrorKind,
    message: String,
    source: String,
}

impl RegistryError {
    /// The operation that failed.
    pub closed spec fn spec_operation(&self) -> RegistryOperation {
        self.operation
    }

    /// The stable failure classification.
    pub closed spec fn spec_kind(&self) -> RegistryErrorKind {
        self.kind
    }

    /// The safe public diagnostic message.
    pub closed spec fn spec_message(&self) -> Seq<char> {
        self.message@
    }

    /// The text of the retained provider or framework source.
    pub closed spec fn spec_source(&self) -> Seq<char> {
        self.source@
    }

    /// Creates a classified registry error that retains the text of its provider
    /// source; the public message is the kind's default message.
    pub fn new(operation: RegistryOperation, kind: RegistryErrorKind, source: &str) -> (error: Self)
        ensures
            error.spec_operation() == operation,
            error.spec_kind() == kind,
            error.spec_message() == kind.spec_default_message(),
            error.spec_source() == source@,
    {
        RegistryError {
            operation,
            kind,
            message: String::from_str(kind.default_message()),
            source: source.to_owned(),
        }
    }

    /// Creates a classified registry error from a safe public diagnostic message,
    /// which is also its source.
    pub fn message(operation: RegistryOperation, kind: RegistryErrorKind, message: &str) -> (error: Self)
        ensures
            error.spec_operation() == operation,
            error.spec_kind() == kind,
            error.spec_message() == message@,
            error.spec_source() == message@,
    {
        RegistryError { operation, kind, message: message.to_owned(), source: message.to_owned() }
    }

    /// Returns an equal copy of this error.
    pub fn duplicate(&self) -> (copy: Self)
        ensures
            copy == *self,
    {
        RegistryError {
            operation: self.operation,
            kind: self.kind,
            message: self.message.clone(),
            source: self.source.clone(),
        }
    }

    /// Returns the operation that failed.
    pub fn operation(&self) -> (operation: RegistryOperation)
        ensures
            operation == self.spec_operation(),
    {
        self.operation
    }

    /// Returns the stable failure classification.
    pub fn kind(&self) -> (kind: RegistryErrorKind)
        ensures
            kind == self.spec_kind(),
    {
        self.kind
    }

    /// Returns the safe public diagnostic message.
    pub fn safe_message(&self) -> (message: &str)
        ensures
            message@ == self.spec_message(),
    {
        self.message.as_str()
    }

    /// Returns whether a fresh provider operation may succeed without changing its input.
    pub fn is_retryable(&self) -> (retryable: bool)
        ensures
            retryable == self.spec_kind().spec_is_retryable(),
    {
        self.kind.is_retryable()
    }

    /// Returns the text of the retained provider or framework source.
    pub fn source_ref(&self) -> (source: &str)
        ensures
            source@ == self.spec_source(),
    {
        self.source.as_str()
    }

    /// Renders `registry {operation} failed ({kind}): {message}`; the source is never
    /// included.
    pub fn render(&self) -> (text: String)
        ensures
            text@ == "registry "@ + self.spec_operation().spec_name() + " failed ("@
                + self.spec_kind().spec_name() + "): "@ + self.spec_message(),
    {
        let mut text = String::from_str("registry ");
        text.append(self.operation.name());
        text.append(" failed (");
        text.append(self.kind.name());
        text.append("): ");
        text.append(self.message.as_str());
        text
    }

    /// Describes the error for diagnostics by operation, kind and safe message; the
    /// source is never included.
    pub fn describe(&self) -> (text: String)
        ensures
            text@ == "RegistryError { operation: "@ + self.spec_operation().spec_variant_name()
                + ", kind: "@ + self.spec_kind().spec_variant_name() + ", message: \""@
                + self.spec_message() + "\", .. }"@,
    {
        let mut text = String::from_str("RegistryError { operation: ");
        text.append(self.operation.variant_name());
        text.append(", kind: ");
        text.append(self.kind.variant_name());
        text.append(", message: \"");
        text.append(self.message.as_str());
        text.append("\", .. }");
        text
    }
}

/// Only unavailability and timeouts may succeed on a fresh try.
pub proof fn lemma_retryable(kind: RegistryErrorKind)
    ensures
        kind.spec_is_retryable() <==> (kind == RegistryErrorKind::Unavailable || kind == RegistryErrorKind::Timeout),
{
}

} // verus!
