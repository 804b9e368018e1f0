use vstd::prelude::*;
use vstd::string::*;

verus! {

/// Stable classification for configuration validation failures.
#[derive(Clone, Copy, Debug, PartialEq, Eq, Hash, Structural)]
#[non_exhaustive]
pub enum ConfigValidationErrorKind {
    /// One value is outside its supported range.
    OutOfRange,
    /// Two or more individually valid values are inconsistent.
    Inconsistent,
}

impl ConfigValidationErrorKind {
    /// Returns the human-readable name of the classification.
    pub fn name(&self) -> (name: &'static str)
        ensures
            name@ == self.spec_name(),
    {
        match self {
            ConfigValidationErrorKind::OutOfRange => "out of range",
            ConfigValidationErrorKind::Inconsistent => "inconsistent",
        }
    }

    /// The human-readable name of the classification.
    pub open spec fn spec_name(&self) -> Seq<char> {
        match self {
            ConfigValidationErrorKind::OutOfRange => "out of range"@,
            ConfigValidationErrorKind::Inconsistent => "inconsistent"@,
        }
    }
}

/// The classification, field path and reason of one validation failure.
pub type Violation = (ConfigValidationErrorKind, Seq<char>, Seq<char>);

/// A value outside its supported range at `field_path`.
pub open spec fn out_of_range_at(field_path: Seq<char>, reason: Seq<char>) -> Option<Violation> {
    Some((ConfigValidationErrorKind::OutOfRange, field_path, reason))
}

/// Individually valid values that are inconsistent, reported at `field_path`.
pub open spec fn inconsistent_at(field_path: Seq<char>, reason: Seq<char>) -> Option<Violation> {
    Some((ConfigValidationErrorKind::Inconsistent, field_path, reason))
}

/// The reason reported for a value that must be positive.
pub open spec fn must_be_positive() -> Seq<char> {
    "must be greater than zero"@
}

/// `result` succeeds exactly when `expected` names no violation, and fails with
/// exactly the expected violation otherwise.
pub open spec fn reports<T>(result: Result<T, ConfigValidationError>, expected: Option<Violation>) -> bool {
    match result {
        Ok(_) => expected is None,
        Err(error) => expected == Some(error.spec_violation()),
    }
}

/// A safe, field-addressable configuration validation failure.
#[derive(Clone, Debug, PartialEq, Eq)]
#[non_exhaustive]
pub struct ConfigValidationError {
    kind: ConfigValidationErrorKind,
    field_path: &'static str,
    reason: &'static str,
}

impl ConfigValidationError {
    /// Creates a validation failure for one public configuration field.
    pub fn new(kind: ConfigValidationErrorKind, field_path: &'static str, reason: &'static str) -> (error: Self)
        ensures
            error.spec_kind() == kind,
            error.spec_field_path() == field_path@,
            error.spec_reason() == reason@,
    {
        ConfigValidationError { kind, field_path, reason }
    }

    /// The stable validation classification.
    pub closed spec fn spec_kind(&self) -> ConfigValidationErrorKind {
        self.kind
    }

    /// The exact public configuration field path.
    pub closed spec fn spec_field_path(&self) -> Seq<char> {
        self.field_path@
    }

    /// The public explanation.
    pub closed spec fn spec_reason(&self) -> Seq<char> {
        self.reason@
    }

    /// The classification, field path and reason together.
    pub open spec fn spec_violation(&self) -> Violation {
        (self.spec_kind(), self.spec_field_path(), self.spec_reason())
    }

    /// Returns the stable validation classification.
    pub fn kind(&self) -> (kind: ConfigValidationErrorKind)
        ensures
            kind == self.spec_kind(),
    {
        self.kind
    }

    /// Returns the exact public configuration field path.
    pub fn field_path(&self) -> (path: &'static str)
        ensures
            path@ == self.spec_field_path(),
    {
        self.field_path
    }

    /// Returns a public, credential-free explanation.
    pub fn reason(&self) -> (reason: &'static str)
        ensures
            reason@ == self.spec_reason(),
    {
        self.reason
    }

    /// Renders `invalid configuration at {field_path} ({kind}): {reason}`.
    pub fn render(&self) -> (text: String)
        ensures
            text@ == "invalid configuration at "@ + self.spec_field_path() + " ("@ + self.spec_kind().spec_name()
                + "): "@ + self.spec_reason(),
    {
        let mut text = String::from_str("invalid configuration at ");
        text.append(self.field_path);
        text.append(" (");
        text.append(self.kind.name());
        text.append("): ");
        text.append(self.reason);
        text
    }
}

/// Builds an out-of-range failure.
pub fn out_of_range(field_path: &'static str, reason: &'static str) -> (error: ConfigValidationError)
    ensures
        Some(error.spec_violation()) == out_of_range_at(field_path@, reason@),
{
    ConfigValidationError::new(ConfigValidationErrorKind::OutOfRange, field_path, reason)
}

/// Builds an inconsistency failure.
pub fn inconsistent(field_path: &'static str, reason: &'static str) -> (error: ConfigValidationError)
    ensures
        Some(error.spec_violation()) == inconsistent_at(field_path@, reason@),
{
    ConfigValidationError::new(ConfigValidationErrorKind::Inconsistent, field_path, reason)
}

} // verus!
