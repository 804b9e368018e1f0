use vstd::prelude::*;
use vstd::string::*;
use crate::time::Duration;

verus! {

// ---------------------------------------------------------------------------
// Error codes
// ---------------------------------------------------------------------------

/// Whether `c` is an ASCII lower-case letter.
pub open spec fn is_lower(c: char) -> bool {
    'a' <= c <= 'z'
}

/// Whether `c` is an ASCII digit.
pub open spec fn is_digit(c: char) -> bool {
    '0' <= c <= '9'
}

/// Whether `code` is a strict lower-case snake-case code of at most 64 characters:
/// it starts with a letter, holds only letters, digits and single underscores, and
/// does not end with an underscore.
///
/// Every accepted character is ASCII, so the same condition holds of its UTF-8 bytes.
pub open spec fn is_snake_case_code(code: Seq<char>) -> bool {
    &&& 0 < code.len() <= 64
    &&& is_lower(code[0])
    &&& code.last() != '_'
    &&& forall|i: int| 0 <= i < code.len() ==> {
        ||| is_lower(#[trigger] code[i])
        ||| is_digit(code[i])
        ||| (code[i] == '_' && i > 0 && code[i - 1] != '_')
    }
}

/// A validated, stable machine-readable error code.
#[derive(Clone, Debug, PartialEq, Eq, Hash)]
pub struct ErrorCode(String);

impl View for ErrorCode {
    type V = Seq<char>;

    closed spec fn view(&self) -> Seq<char> {
        self.0@
    }
}

/// An invalid machine-readable error code.
#[derive(Clone, Debug, PartialEq, Eq)]
#[non_exhaustive]
pub struct InvalidErrorCode(String);

impl View for InvalidErrorCode {
    type V = Seq<char>;

    closed spec fn view(&self) -> Seq<char> {
        self.0@
    }
}

impl InvalidErrorCode {
    /// Returns the rejected value.
    pub fn value(&self) -> (value: &str)
        ensures
            value@ == self@,
    {
        self.0.as_str()
    }
}

fn check_snake_case(value: &str) -> (valid: bool)
    ensures
        valid == is_snake_case_code(value@),
{
    let len = value.unicode_len();
    if len == 0 || len > 64 {
        return false;
    }
    let first = value.get_char(0);
    if !('a' <= first && first <= 'z') {
        return false;
    }
    if value.get_char(len - 1) == '_' {
        return false;
    }
    let mut i: usize = 0;
    while i < len
        invariant
            len == value@.len(),
            0 < len <= 64,
            i <= len,
            forall|j: int| 0 <= j < i ==> {
                ||| is_lower(#[trigger] value@[j])
                ||| is_digit(value@[j])
                ||| (value@[j] == '_' && j > 0 && value@[j - 1] != '_')
            },
        decreases len - i,
    {
        let c = value.get_char(i);
        let ok = if 'a' <= c && c <= 'z' {
            true
        } else if '0' <= c && c <= '9' {
            true
        } else if c == '_' {
            i > 0 && value.get_char(i - 1) != '_'
        } else {
            false
        };
        if !ok {
            assert(!({
                ||| is_lower(value@[i as int])
                ||| is_digit(value@[i as int])
                ||| (value@[i as int] == '_' && i > 0 && value@[i - 1] != '_')
            }));
            return false;
        }
        i = i + 1;
    }
    true
}

impl ErrorCode {
    /// Validates a lower-case snake-case error code.
    pub fn new(value: String) -> (result: Result<ErrorCode, InvalidErrorCode>)
        ensures
            result is Ok <==> is_snake_case_code(value@),
            result matches Ok(code) ==> code@ == value@,
            result matches Err(invalid) ==> invalid@ == value@,
    {
        if check_snake_case(value.as_str()) {
            Ok(ErrorCode(value))
        } else {
            Err(InvalidErrorCode(value))
        }
    }

    /// Builds a code the framework knows to be valid.
    pub fn framework(value: &str) -> (code: ErrorCode)
        requires
            is_snake_case_code(value@),
        ensures
            code@ == value@,
    {
        ErrorCode(value.to_owned())
    }

    /// Returns the wire representation.
    pub fn as_str(&self) -> (text: &str)
        ensures
            text@ == self@,
    {
        self.0.as_str()
    }

    /// Returns an equal copy of this code.
    pub fn duplicate(&self) -> (copy: Self)
        ensures
            copy == *self,
    {
        ErrorCode(self.0.clone())
    }
}

// ---------------------------------------------------------------------------
// Classification
// ---------------------------------------------------------------------------

/// Whether a service invocation failure was produced by application or framework code.
#[derive(Clone, Copy, Debug, PartialEq, Eq, Hash, Structural)]
#[non_exhaustive]
pub enum ErrorKind {
    /// Application code intentionally returned a public failure.
    Application,
    /// The runtime, an extension, transport, or peer framework failed.
    Framework,
}

/// Stable semantic category used for HTTP mapping and policy decisions.
#[derive(Clone, Copy, Debug, PartialEq, Eq, Hash, Structural)]
#[non_exhaustive]
pub enum ErrorCategory {
    /// Request syntax or values are invalid.
    InvalidArgument,
    /// The requested route or resource does not exist.
    NotFound,
    /// Existing state conflicts with the request.
    Conflict,
    /// Authentication is required or invalid.
    Unauthenticated,
    /// The caller is authenticated but not authorized.
    PermissionDenied,
    /// A request or response body exceeds its configured limit.
    PayloadTooLarge,
    /// Admission or another bounded resource is exhausted.
    ResourceExhausted,
    /// No healthy service or transport is currently available.
    Unavailable,
    /// The end-to-end invocation deadline elapsed.
    DeadlineExceeded,
    /// The caller cancelled the invocation.
    Cancelled,
    /// The requested capability is not implemented or enabled.
    Unimplemented,
    /// A private framework or application failure occurred.
    Internal,
    /// A peer produced corrupt or malformed data.
    DataLoss,
    /// The peer returned a valid status without a known semantic mapping.
    Unknown,
}

impl ErrorCategory {
    /// The category's canonical HTTP status, when one exists.
    pub open spec fn spec_canonical_status(self) -> Option<u16> {
        match self {
            ErrorCategory::InvalidArgument => Some(400u16),
            ErrorCategory::NotFound => Some(404u16),
            ErrorCategory::Conflict => Some(409u16),
            ErrorCategory::Unauthenticated => Some(401u16),
            ErrorCategory::PermissionDenied => Some(403u16),
            ErrorCategory::PayloadTooLarge => Some(413u16),
            ErrorCategory::ResourceExhausted => Some(429u16),
            ErrorCategory::Unavailable => Some(503u16),
            ErrorCategory::DeadlineExceeded => Some(504u16),
            ErrorCategory::Cancelled => Some(499u16),
            ErrorCategory::Unimplemented => Some(501u16),
            ErrorCategory::Internal => Some(500u16),
            ErrorCategory::DataLoss => Some(502u16),
            ErrorCategory::Unknown => None,
        }
    }

    /// Returns this category's canonical HTTP status, when one exists.
    pub fn canonical_status(self) -> (status: Option<u16>)
        ensures
            status == self.spec_canonical_status(),
    {
        match self {
            ErrorCategory::InvalidArgument => Some(400u16),
            ErrorCategory::NotFound => Some(404u16),
            ErrorCategory::Conflict => Some(409u16),
            ErrorCategory::Unauthenticated => Some(401u16),
            ErrorCategory::PermissionDenied => Some(403u16),
            ErrorCategory::PayloadTooLarge => Some(413u16),
            ErrorCategory::ResourceExhausted => Some(429u16),
            ErrorCategory::Unavailable => Some(503u16),
            ErrorCategory::DeadlineExceeded => Some(504u16),
            ErrorCategory::Cancelled => Some(499u16),
            ErrorCategory::Unimplemented => Some(501u16),
            ErrorCategory::Internal => Some(500u16),
            ErrorCategory::DataLoss => Some(502u16),
            ErrorCategory::Unknown => None,
        }
    }
}

/// The category a peer's HTTP status maps to.
pub open spec fn spec_category_from_status(status: u16) -> ErrorCategory {
    if status == 400 || status == 405 {
        ErrorCategory::InvalidArgument
    } else if status == 401 {
        ErrorCategory::Unauthenticated
    } else if status == 403 {
        ErrorCategory::PermissionDenied
    } else if status == 404 {
        ErrorCategory::NotFound
    } else if status == 409 {
        ErrorCategory::Conflict
    } else if status == 413 {
        ErrorCategory::PayloadTooLarge
    } else if status == 429 {
        ErrorCategory::ResourceExhausted
    } else if status == 503 {
        ErrorCategory::Unavailable
    } else if status == 504 || status == 408 {
        ErrorCategory::DeadlineExceeded
    } else if status == 501 {
        ErrorCategory::Unimplemented
    } else if status == 502 {
        ErrorCategory::DataLoss
    } else if status == 500 {
        ErrorCategory::Internal
    } else if status == 499 {
        ErrorCategory::Cancelled
    } else {
        ErrorCategory::Unknown
    }
}

/// Returns the category a peer's HTTP status maps to.
pub fn category_from_status(status: u16) -> (category: ErrorCategory)
    ensures
        category == spec_category_from_status(status),
{
    if status == 400 || status == 405 {
        ErrorCategory::InvalidArgument
    } else if status == 401 {
        ErrorCategory::Unauthenticated
    } else if status == 403 {
        ErrorCategory::PermissionDenied
    } else if status == 404 {
        ErrorCategory::NotFound
    } else if status == 409 {
        ErrorCategory::Conflict
    } else if status == 413 {
        ErrorCategory::PayloadTooLarge
    } else if status == 429 {
        ErrorCategory::ResourceExhausted
    } else if status == 503 {
        ErrorCategory::Unavailable
    } else if status == 504 || status == 408 {
        ErrorCategory::DeadlineExceeded
    } else if status == 501 {
        ErrorCategory::Unimplemented
    } else if status == 502 {
        ErrorCategory::DataLoss
    } else if status == 500 {
        ErrorCategory::Internal
    } else if status == 499 {
        ErrorCategory::Cancelled
    } else {
        ErrorCategory::Unknown
    }
}

/// Every category with a canonical status maps back to itself from that status.
pub proof fn lemma_canonical_status_round_trip(category: ErrorCategory)
    requires
        category.spec_canonical_status() is Some,
    ensures
        spec_category_from_status(category.spec_canonical_status()->Some_0) == category,
{
}

/// A peer's status maps to the category whose canonical status it is, with two
/// aliases: 405 reads as an invalid argument and 408 as an elapsed deadline; any
/// other status reads as unknown. No two categories share a canonical status.
pub proof fn lemma_status_categories(status: u16, category: ErrorCategory, other: ErrorCategory)
    ensures
        status == 405 ==> spec_category_from_status(status) == ErrorCategory::InvalidArgument,
        status == 408 ==> spec_category_from_status(status) == ErrorCategory::DeadlineExceeded,
        spec_category_from_status(status) == ErrorCategory::Unknown || status == 405 || status == 408
            || spec_category_from_status(status).spec_canonical_status() == Some(status),
        category.spec_canonical_status() == Some(status) ==> spec_category_from_status(status) == category,
        (category.spec_canonical_status() is Some && category.spec_canonical_status() == other.spec_canonical_status())
            ==> category == other,
{
}

/// Where a service invocation error originated.
#[derive(Clone, Copy, Debug, PartialEq, Eq, Hash, Structural)]
#[non_exhaustive]
pub enum ErrorOrigin {
    /// The local runtime, extension, or application produced the error.
    Local,
    /// A remote peer returned or caused the error.
    Remote,
}

/// A framework retry recommendation attached to a service invocation error.
#[derive(Clone, Copy, Debug, PartialEq, Eq, Hash)]
#[non_exhaustive]
pub enum RetryHint {
    /// The runtime must not retry based on this error.
    Never,
    /// A replayable invocation may be retried according to its retry policy.
    Retryable,
    /// A replayable invocation may be retried after at least this duration.
    After(Duration),
}

impl Default for RetryHint {
    /// Returns [`RetryHint::Never`].
    fn default() -> (hint: RetryHint)
        ensures
            hint == RetryHint::Never,
    {
        RetryHint::Never
    }
}

impl RetryHint {
    /// Returns whether this hint permits retrying a replayable invocation.
    pub fn is_retryable(self) -> (retryable: bool)
        ensures
            retryable == !(self is Never),
    {
        match self {
            RetryHint::Never => false,
            _ => true,
        }
    }

    /// Returns the minimum retry delay when one was supplied.
    pub fn retry_after(self) -> (delay: Option<Duration>)
        ensures
            delay == match self {
                RetryHint::After(d) => Some(d),
                _ => None::<Duration>,
            },
    {
        match self {
            RetryHint::After(duration) => Some(duration),
            RetryHint::Never | RetryHint::Retryable => None,
        }
    }
}

// ---------------------------------------------------------------------------
// Invocation errors
// ---------------------------------------------------------------------------

/// Why an [`Error`] value could not be constructed.
#[derive(Clone, Debug, PartialEq, Eq)]
#[non_exhaustive]
pub enum ErrorConstructionError {
    /// The machine-readable error code is invalid.
    InvalidCode(InvalidErrorCode),
    /// The selected category has no canonical HTTP status.
    NonCanonicalCategory(ErrorCategory),
    /// An application error used a status outside the 4xx/5xx ranges.
    InvalidApplicationStatus(u16),
}

/// Whether an HTTP status is a client (4xx) or server (5xx) error.
pub open spec fn is_error_status(status: u16) -> bool {
    400 <= status <= 599
}

/// The abstract content of an [`Error`].
pub struct ErrorView {
    pub kind: ErrorKind,
    pub category: ErrorCategory,
    pub code: Seq<char>,
    pub message: Seq<char>,
    pub status: u16,
    pub origin: ErrorOrigin,
    pub request_id: Option<Seq<char>>,
    pub attempts: u8,
    pub headers: Seq<(Seq<char>, Seq<char>)>,
    pub retry_hint: RetryHint,
    pub source: Option<Seq<char>>,
}

/// A fresh local error of `kind`, with no request identifier, attempts, headers,
/// retry recommendation or source.
pub open spec fn fresh_error(kind: ErrorKind, category: ErrorCategory, code: Seq<char>,
    message: Seq<char>, status: u16) -> ErrorView {
    ErrorView {
        kind,
        category,
        code,
        message,
        status,
        origin: ErrorOrigin::Local,
        request_id: None,
        attempts: 0,
        headers: Seq::empty(),
        retry_hint: RetryHint::Never,
        source: None,
    }
}

/// A stable service invocation failure returned by generated clients and service
/// implementations.
///
/// Application errors never carry a retryable hint.
#[derive(Clone, Debug)]
#[non_exhaustive]
pub struct Error {
    kind: ErrorKind,
    category: ErrorCategory,
    code: ErrorCode,
    message: String,
    status: u16,
    origin: ErrorOrigin,
    request_id: Option<String>,
    attempts: u8,
    headers: Vec<(String, String)>,
    retry_hint: RetryHint,
    source: Option<String>,
}

impl View for Error {
    type V = ErrorView;

    closed spec fn view(&self) -> ErrorView {
        ErrorView {
            kind: self.kind,
            category: self.category,
            code: self.code@,
            message: self.message@,
            status: self.status,
            origin: self.origin,
            request_id: match &self.request_id {
                Some(id) => Some(id@),
                None => None,
            },
            attempts: self.attempts,
            headers: self.headers@.map_values(|h: (String, String)| (h.0@, h.1@)),
            retry_hint: self.retry_hint,
            source: match &self.source {
                Some(s) => Some(s@),
                None => None,
            },
        }
    }
}

impl Error {
    /// The error invariant: an application error never recommends a retry.
    pub open spec fn wf(&self) -> bool {
        self@.kind == ErrorKind::Application ==> self@.retry_hint == RetryHint::Never
    }

    fn fresh(kind: ErrorKind, category: ErrorCategory, code: ErrorCode, message: String, status: u16) -> (error: Error)
        ensures
            error@ == fresh_error(kind, category, code@, message@, status),
            error.wf(),
    {
        let error = Error {
            kind,
            category,
            code,
            message,
            status,
            origin: ErrorOrigin::Local,
            request_id: None,
            attempts: 0,
            headers: Vec::new(),
            retry_hint: RetryHint::Never,
            source: None,
        };
        assert(error@.headers =~= Seq::empty());
        error
    }

    /// Creates a public application error with the category's canonical HTTP status.
    ///
    /// Fails when the category has no canonical status, then when the code is invalid.
    pub fn application(category: ErrorCategory, code: String, message: String) -> (result: Result<Error, ErrorConstructionError>)
        ensures
            category.spec_canonical_status() is None ==> result
                == Err::<Error, ErrorConstructionError>(ErrorConstructionError::NonCanonicalCategory(category)),
            category.spec_canonical_status() is Some && !is_snake_case_code(code@) ==> (result matches
                Err(ErrorConstructionError::InvalidCode(invalid)) && invalid@ == code@),
            category.spec_canonical_status() is Some && is_snake_case_code(code@) ==> (result matches Ok(error)
                && error@ == fresh_error(ErrorKind::Application, category, code@, message@,
                    category.spec_canonical_status()->Some_0) && error.wf()),
    {
        let status = match category.canonical_status() {
            Some(status) => status,
            None => {
                return Err(ErrorConstructionError::NonCanonicalCategory(category));
            },
        };
        match ErrorCode::new(code) {
            Ok(code) => Ok(Error::fresh(ErrorKind::Application, category, code, message, status)),
            Err(invalid) => Err(ErrorConstructionError::InvalidCode(invalid)),
        }
    }

    /// Creates a public application error with an explicit 4xx or 5xx HTTP status; its
    /// category is the one that status maps to.
    ///
    /// Fails when the status is not a 4xx or 5xx status, then when the code is invalid.
    pub fn application_status(status: u16, code: String, message: String) -> (result: Result<Error, ErrorConstructionError>)
        ensures
            !is_error_status(status) ==> result
                == Err::<Error, ErrorConstructionError>(ErrorConstructionError::InvalidApplicationStatus(status)),
            is_error_status(status) && !is_snake_case_code(code@) ==> (result matches
                Err(ErrorConstructionError::InvalidCode(invalid)) && invalid@ == code@),
            is_error_status(status) && is_snake_case_code(code@) ==> (result matches Ok(error)
                && error@ == fresh_error(ErrorKind::Application, spec_category_from_status(status), code@,
                    message@, status) && error.wf()),
    {
        if !(400 <= status && status <= 599) {
            return Err(ErrorConstructionError::InvalidApplicationStatus(status));
        }
        let category = category_from_status(status);
        match ErrorCode::new(code) {
            Ok(code) => Ok(Error::fresh(ErrorKind::Application, category, code, message, status)),
            Err(invalid) => Err(ErrorConstructionError::InvalidCode(invalid)),
        }
    }

    /// Creates a typed, non-retryable local framework error.
    ///
    /// Fails when the category has no canonical status, then when the code is invalid.
    pub fn local(category: ErrorCategory, code: String, message: String) -> (result: Result<Error, ErrorConstructionError>)
        ensures
            category.spec_canonical_status() is None ==> result
                == Err::<Error, ErrorConstructionError>(ErrorConstructionError::NonCanonicalCategory(category)),
            category.spec_canonical_status() is Some && !is_snake_case_code(code@) ==> (result matches
                Err(ErrorConstructionError::InvalidCode(invalid)) && invalid@ == code@),
            category.spec_canonical_status() is Some && is_snake_case_code(code@) ==> (result matches Ok(error)
                && error@ == fresh_error(ErrorKind::Framework, category, code@, message@,
                    category.spec_canonical_status()->Some_0) && error.wf()),
    {
        let status = match category.canonical_status() {
            Some(status) => status,
            None => {
                return Err(ErrorConstructionError::NonCanonicalCategory(category));
            },
        };
        match ErrorCode::new(code) {
            Ok(code) => Ok(Error::fresh(ErrorKind::Framework, category, code, message, status)),
            Err(invalid) => Err(ErrorConstructionError::InvalidCode(invalid)),
        }
    }

    /// Creates a framework error with a code and category the framework knows to be valid.
    pub fn framework(category: ErrorCategory, code: &str, message: &str) -> (error: Error)
        requires
            category.spec_canonical_status() is Some,
            is_snake_case_code(code@),
        ensures
            error@ == fresh_error(ErrorKind::Framework, category, code@, message@,
                category.spec_canonical_status()->Some_0),
            error.wf(),
    {
        let status = match category.canonical_status() {
            Some(status) => status,
            None => 500,
        };
        Error::fresh(ErrorKind::Framework, category, ErrorCode::framework(code), message.to_owned(), status)
    }

    /// Sets the number of physical attempts.
    pub fn with_attempts(self, attempts: u8) -> (error: Error)
        ensures
            error@ == (ErrorView { attempts, ..self@ }),
            self.wf() ==> error.wf(),
    {
        let mut error = self;
        error.attempts = attempts;
        error
    }

    /// Sets the logical invocation identifier.
    pub fn with_request_id(self, request_id: &str) -> (error: Error)
        ensures
            error@ == (ErrorView { request_id: Some(request_id@), ..self@ }),
            self.wf() ==> error.wf(),
    {
        let mut error = self;
        error.request_id = Some(request_id.to_owned());
        error
    }

    /// Marks the error as produced by a remote peer.
    pub fn with_remote_origin(self) -> (error: Error)
        ensures
            error@ == (ErrorView { origin: ErrorOrigin::Remote, ..self@ }),
            self.wf() ==> error.wf(),
    {
        let mut error = self;
        error.origin = ErrorOrigin::Remote;
        error
    }

    /// Marks the error as produced locally.
    pub fn with_local_origin(self) -> (error: Error)
        ensures
            error@ == (ErrorView { origin: ErrorOrigin::Local, ..self@ }),
            self.wf() ==> error.wf(),
    {
        let mut error = self;
        error.origin = ErrorOrigin::Local;
        error
    }

    /// Replaces the response headers associated with the error.
    pub fn with_headers(self, headers: Vec<(String, String)>) -> (error: Error)
        ensures
            error@ == (ErrorView {
                headers: headers@.map_values(|h: (String, String)| (h.0@, h.1@)),
                ..self@
            }),
            self.wf() ==> error.wf(),
    {
        let mut error = self;
        error.headers = headers;
        error
    }

    /// Sets the retry recommendation; application errors stay non-retryable.
    pub fn with_retry_hint(self, retry_hint: RetryHint) -> (error: Error)
        ensures
            self@.kind == ErrorKind::Application ==> error@ == self@,
            self@.kind != ErrorKind::Application ==> error@ == (ErrorView { retry_hint, ..self@ }),
            self.wf() ==> error.wf(),
    {
        let mut error = self;
        match error.kind {
            ErrorKind::Application => {},
            ErrorKind::Framework => {
                error.retry_hint = retry_hint;
            },
        }
        error
    }

    /// Attaches the text of a diagnostic source that is never sent on the wire.
    pub fn with_source(self, source: &str) -> (error: Error)
        ensures
            error@ == (ErrorView { source: Some(source@), ..self@ }),
            self.wf() ==> error.wf(),
    {
        let mut error = self;
        error.source = Some(source.to_owned());
        error
    }

    /// Returns whether application or framework code produced the error.
    pub fn kind(&self) -> (kind: ErrorKind)
        ensures
            kind == self@.kind,
    {
        self.kind
    }

    /// Returns the semantic category.
    pub fn category(&self) -> (category: ErrorCategory)
        ensures
            category == self@.category,
    {
        self.category
    }

    /// Returns the stable machine-readable code.
    pub fn code(&self) -> (code: &ErrorCode)
        ensures
            code@ == self@.code,
    {
        &self.code
    }

    /// Returns the safe human-readable message.
    pub fn message(&self) -> (message: &str)
        ensures
            message@ == self@.message,
    {
        self.message.as_str()
    }

    /// Returns the mapped HTTP status.
    pub fn status(&self) -> (status: u16)
        ensures
            status == self@.status,
    {
        self.status
    }

    /// Returns where the error originated.
    pub fn origin(&self) -> (origin: ErrorOrigin)
        ensures
            origin == self@.origin,
    {
        self.origin
    }

    /// Returns the logical invocation identifier, when assigned by the runtime.
    pub fn request_id(&self) -> (id: Option<&str>)
        ensures
            id matches Some(text) ==> self@.request_id == Some(text@),
            id is None ==> self@.request_id is None,
    {
        match &self.request_id {
            Some(id) => Some(id.as_str()),
            None => None,
        }
    }

    /// Returns the number of physical attempts made by the logical invocation.
    pub fn attempts(&self) -> (attempts: u8)
        ensures
            attempts == self@.attempts,
    {
        self.attempts
    }

    /// Returns the application response headers associated with the error.
    pub fn headers(&self) -> (headers: &Vec<(String, String)>)
        ensures
            headers@.map_values(|h: (String, String)| (h.0@, h.1@)) == self@.headers,
    {
        &self.headers
    }

    /// Returns the normalized framework retry recommendation.
    pub fn retry_hint(&self) -> (hint: RetryHint)
        ensures
            hint == self@.retry_hint,
    {
        self.retry_hint
    }

    /// Returns the text of the retained diagnostic source.
    pub fn source_ref(&self) -> (source: Option<&str>)
        ensures
            source matches Some(text) ==> self@.source == Some(text@),
            source is None ==> self@.source is None,
    {
        match &self.source {
            Some(source) => Some(source.as_str()),
            None => None,
        }
    }

    /// Renders `{code}: {message}`.
    pub fn render(&self) -> (text: String)
        ensures
            text@ == self@.code + ": "@ + self@.message,
    {
        let mut text = String::from_str(self.code.as_str());
        text.append(": ");
        text.append(self.message.as_str());
        text
    }
}

/// The parts of an error decoded from a remote peer's response.
pub struct RemoteErrorParts {
    /// Application or framework.
    pub kind: ErrorKind,
    /// The semantic category.
    pub category: ErrorCategory,
    /// The validated code.
    pub code: ErrorCode,
    /// The public message.
    pub message: String,
    /// The HTTP status.
    pub status: u16,
    /// The logical invocation identifier.
    pub request_id: String,
    /// The peer's retry recommendation.
    pub retry_hint: RetryHint,
}

/// Builds a remote error from decoded parts; a remote application error never keeps
/// a retryable hint.
pub fn from_remote_parts(parts: RemoteErrorParts) -> (error: Error)
    ensures
        error@ == (ErrorView {
            origin: ErrorOrigin::Remote,
            request_id: Some(parts.request_id@),
            retry_hint: if parts.kind == ErrorKind::Application { RetryHint::Never } else { parts.retry_hint },
            ..fresh_error(parts.kind, parts.category, parts.code@, parts.message@, parts.status)
        }),
        error.wf(),
{
    let retry_hint = match parts.kind {
        ErrorKind::Application => RetryHint::Never,
        ErrorKind::Framework => parts.retry_hint,
    };
    let mut error = Error::fresh(parts.kind, parts.category, parts.code, parts.message, parts.status);
    error.origin = ErrorOrigin::Remote;
    error.request_id = Some(parts.request_id);
    error.retry_hint = retry_hint;
    error
}


} // verus!
