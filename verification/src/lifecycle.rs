use vstd::prelude::*;
use vstd::string::*;

verus! {

/// Stable class of a client runtime failure.
#[derive(Clone, Copy, Debug, PartialEq, Eq, Hash, Structural)]
#[non_exhaustive]
pub enum ClientErrorKind {
    /// Runtime configuration or construction failed.
    Build,
    /// A direct endpoint or discovery connection could not be established.
    Connect,
    /// Service discovery did not become usable.
    Discovery,
    /// The client runtime is draining or closed.
    Closed,
    /// A bounded client operation exceeded its deadline.
    Timeout,
    /// Client shutdown failed before its shared deadline.
    Shutdown,
}

impl ClientErrorKind {
    /// The lower-case name used in rendered messages.
    pub open spec fn spec_name(self) -> Seq<char> {
        match self {
            ClientErrorKind::Build => "build"@,
            ClientErrorKind::Connect => "connect"@,
            ClientErrorKind::Discovery => "discovery"@,
            ClientErrorKind::Closed => "closed"@,
            ClientErrorKind::Timeout => "timeout"@,
            ClientErrorKind::Shutdown => "shutdown"@,
        }
    }

    /// Returns the lower-case name used in rendered messages.
    pub fn name(self) -> (name: &'static str)
        ensures
            name@ == self.spec_name(),
    {
        match self {
            ClientErrorKind::Build => "build",
            ClientErrorKind::Connect => "connect",
            ClientErrorKind::Discovery => "discovery",
            ClientErrorKind::Closed => "closed",
            ClientErrorKind::Timeout => "timeout",
            ClientErrorKind::Shutdown => "shutdown",
        }
    }
}

/// Failure to construct, connect, or shut down a client runtime.
///
/// The diagnostic source is retained as text and is never included in
/// [`ClientError::render`] or [`ClientError::describe`].
#[derive(Clone)]
#[non_exhaustive]
pub struct ClientError {
    kind: ClientErrorKind,
    message: String,
    source: Option<String>,
}

impl ClientError {
    /// The stable failure class.
    pub closed spec fn spec_kind(&self) -> ClientErrorKind {
        self.kind
    }

    /// The public diagnostic message.
    pub closed spec fn spec_message(&self) -> Seq<char> {
        self.message@
    }

    /// The retained diagnostic source text.
    pub closed spec fn spec_source(&self) -> Option<Seq<char>> {
        match &self.source {
            Some(source) => Some(source@),
            None => None,
        }
    }

    /// Creates an error without a diagnostic source.
    pub fn from_message(kind: ClientErrorKind, message: &str) -> (error: Self)
        ensures
            error.spec_kind() == kind,
            error.spec_message() == message@,
            error.spec_source() is None,
    {
        ClientError { kind, message: message.to_owned(), source: None }
    }

    /// Creates an error that retains the text of its diagnostic source.
    pub fn with_source(kind: ClientErrorKind, message: &str, source: &str) -> (error: Self)
        ensures
            error.spec_kind() == kind,
            error.spec_message() == message@,
            error.spec_source() == Some(source@),
    {
        ClientError { kind, message: message.to_owned(), source: Some(source.to_owned()) }
    }

    /// Returns the stable failure class.
    pub fn kind(&self) -> (kind: ClientErrorKind)
        ensures
            kind == self.spec_kind(),
    {
        self.kind
    }

    /// Returns the public diagnostic message.
    pub fn message(&self) -> (message: &str)
        ensures
            message@ == self.spec_message(),
    {
        self.message.as_str()
    }

    /// Returns the retained diagnostic source text.
    pub fn source_ref(&self) -> (source: Option<&str>)
        ensures
            source matches Some(s) ==> self.spec_source() == Some(s@),
            source is None ==> self.spec_source() is None,
    {
        match &self.source {
            Some(source) => Some(source.as_str()),
            None => None,
        }
    }

    /// Renders `client {kind} failed: {message}`; the source is never included.
    pub fn render(&self) -> (text: String)
        ensures
            text@ == "client "@ + self.spec_kind().spec_name() + " failed: "@ + self.spec_message(),
    {
        let mut text = String::from_str("client ");
        text.append(self.kind.name());
        text.append(" failed: ");
        text.append(self.message.as_str());
        text
    }

    /// Describes the error for diagnostics: its kind, its message and whether a
    /// source is retained, never the source itself.
    pub fn describe(&self) -> (text: String)
        ensures
            text@ == "ClientError { kind: "@ + self.spec_kind().spec_name() + ", message: "@
                + self.spec_message() + ", has_source: "@
                + (if self.spec_source() is Some { "true"@ } else { "false"@ }) + " }"@,
    {
        let mut text = String::from_str("ClientError { kind: ");
        text.append(self.kind.name());
        text.append(", message: ");
        text.append(self.message.as_str());
        text.append(", has_source: ");
        text.append(if self.source.is_some() { "true" } else { "false" });
        text.append(" }");
        text
    }
}

/// Stable class of a server lifecycle failure.
#[derive(Clone, Copy, Debug, PartialEq, Eq, Hash, Structural)]
#[non_exhaustive]
pub enum ServerErrorKind {
    /// Static service, route, address, or configuration validation failed.
    Validation,
    /// The listening socket could not be bound.
    Bind,
    /// The server could not reach Ready during startup.
    Startup,
    /// The listener reached a fatal accept failure.
    Accept,
    /// One or more registry operations failed.
    Registry,
    /// The shared graceful-shutdown deadline elapsed.
    Timeout,
    /// Shutdown failed for a reason other than its deadline.
    Shutdown,
}

impl ServerErrorKind {
    /// The lower-case name used in rendered messages.
    pub open spec fn spec_name(self) -> Seq<char> {
        match self {
            ServerErrorKind::Validation => "validation"@,
            ServerErrorKind::Bind => "bind"@,
            ServerErrorKind::Startup => "startup"@,
            ServerErrorKind::Accept => "accept"@,
            ServerErrorKind::Registry => "registry"@,
            ServerErrorKind::Timeout => "timeout"@,
            ServerErrorKind::Shutdown => "shutdown"@,
        }
    }

    /// Returns the lower-case name used in rendered messages.
    pub fn name(self) -> (name: &'static str)
        ensures
            name@ == self.spec_name(),
    {
        match self {
            ServerErrorKind::Validation => "validation",
            ServerErrorKind::Bind => "bind",
            ServerErrorKind::Startup => "startup",
            ServerErrorKind::Accept => "accept",
            ServerErrorKind::Registry => "registry",
            ServerErrorKind::Timeout => "timeout",
            ServerErrorKind::Shutdown => "shutdown",
        }
    }
}

/// Failure to validate, start, accept, register, or shut down a server.
///
/// The diagnostic source is retained as text and is never included in
/// [`ServerError::render`] or [`ServerError::describe`].
#[derive(Clone)]
#[non_exhaustive]
pub struct ServerError {
    kind: ServerErrorKind,
    message: String,
    source: Option<String>,
}

impl ServerError {
    /// The stable failure class.
    pub closed spec fn spec_kind(&self) -> ServerErrorKind {
        self.kind
    }

    /// The public diagnostic message.
    pub closed spec fn spec_message(&self) -> Seq<char> {
        self.message@
    }

    /// The retained diagnostic source text.
    pub closed spec fn spec_source(&self) -> Option<Seq<char>> {
        match &self.source {
            Some(source) => Some(source@),
            None => None,
        }
    }

    /// Creates an error without a diagnostic source.
    pub fn from_message(kind: ServerErrorKind, message: &str) -> (error: Self)
        ensures
            error.spec_kind() == kind,
            error.spec_message() == message@,
            error.spec_source() is None,
    {
        ServerError { kind, message: message.to_owned(), source: None }
    }

    /// Creates an error that retains the text of its diagnostic source.
    pub fn with_source(kind: ServerErrorKind, message: &str, source: &str) -> (error: Self)
        ensures
            error.spec_kind() == kind,
            error.spec_message() == message@,
            error.spec_source() == Some(source@),
    {
        ServerError { kind, message: message.to_owned(), source: Some(source.to_owned()) }
    }

    /// Returns the stable failure class.
    pub fn kind(&self) -> (kind: ServerErrorKind)
        ensures
            kind == self.spec_kind(),
    {
        self.kind
    }

    /// Returns the public diagnostic message.
    pub fn message(&self) -> (message: &str)
        ensures
            message@ == self.spec_message(),
    {
        self.message.as_str()
    }

    /// Returns the retained diagnostic source text.
    pub fn source_ref(&self) -> (source: Option<&str>)
        ensures
            source matches Some(s) ==> self.spec_source() == Some(s@),
            source is None ==> self.spec_source() is None,
    {
        match &self.source {
            Some(source) => Some(source.as_str()),
            None => None,
        }
    }

    /// Renders `server {kind} failed: {message}`; the source is never included.
    pub fn render(&self) -> (text: String)
        ensures
            text@ == "server "@ + self.spec_kind().spec_name() + " failed: "@ + self.spec_message(),
    {
        let mut text = String::from_str("server ");
        text.append(self.kind.name());
        text.append(" failed: ");
        text.append(self.message.as_str());
        text
    }

    /// Describes the error for diagnostics: its kind, its message and whether a
    /// source is retained, never the source itself.
    pub fn describe(&self) -> (text: String)
        ensures
            text@ == "ServerError { kind: "@ + self.spec_kind().spec_name() + ", message: "@
                + self.spec_message() + ", has_source: "@
                + (if self.spec_source() is Some { "true"@ } else { "false"@ }) + " }"@,
    {
        let mut text = String::from_str("ServerError { kind: ");
        text.append(self.kind.name());
        text.append(", message: ");
        text.append(self.message.as_str());
        text.append(", has_source: ");
        text.append(if self.source.is_some() { "true" } else { "false" });
        text.append(" }");
        text
    }
}

} // verus!
