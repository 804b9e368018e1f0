use crate::error::{Error, ErrorCategory, ErrorKind, fresh_error};
use vstd::prelude::*;

verus! {

/// Whether an interceptor runs for a client or a server invocation.
#[derive(Clone, Copy, Debug, PartialEq, Eq, Hash, Structural)]
#[non_exhaustive]
pub enum Side {
    /// An outbound client invocation.
    Client,
    /// An inbound server invocation.
    Server,
}

/// The precise point at which interceptor runs.
#[derive(Clone, Copy, Debug, PartialEq, Eq, Structural)]
#[non_exhaustive]
pub enum InterceptionStage {
    /// Once around the complete logical client invocation.
    ClientCall,
    /// Once around each physical client transport attempt.
    ClientAttempt,
    /// After server admission and before the request body is polled.
    ServerHead,
    /// After server decoding and before the interface handler.
    ServerCall,
}

/// The side a stage belongs to.
pub open spec fn spec_stage_side(stage: InterceptionStage) -> Side {
    match stage {
        InterceptionStage::ClientCall | InterceptionStage::ClientAttempt => Side::Client,
        _ => Side::Server,
    }
}

/// Returns the side a stage belongs to.
pub fn stage_side(stage: InterceptionStage) -> (side: Side)
    ensures
        side == spec_stage_side(stage),
{
    match stage {
        InterceptionStage::ClientCall | InterceptionStage::ClientAttempt => Side::Client,
        _ => Side::Server,
    }
}

/// The HTTP wire role of one interface parameter.
#[derive(Clone, Copy, Debug, PartialEq, Eq, Structural)]
#[non_exhaustive]
pub enum ArgumentSource {
    /// A named path placeholder.
    Path,
    /// A URL query parameter.
    Query,
    /// A named HTTP header.
    Header,
    /// A named request cookie.
    Cookie,
    /// A named field in the synthesized JSON request body object.
    BodyField,
    /// The single JSON request body.
    Body,
    /// An object expanded into query parameters.
    QueryMap,
    /// An object expanded into request headers.
    HeaderMap,
}

/// Static wire metadata for one named interface parameter.
#[derive(Clone, Copy, Debug, PartialEq, Eq)]
pub struct ArgumentField {
    name: &'static str,
    source: ArgumentSource,
    repeated: bool,
}

impl ArgumentField {
    /// The parameter name.
    pub closed spec fn spec_name(&self) -> Seq<char> {
        self.name@
    }

    /// The wire role.
    pub closed spec fn spec_source(&self) -> ArgumentSource {
        self.source
    }

    /// Whether the parameter repeats.
    pub closed spec fn spec_repeated(&self) -> bool {
        self.repeated
    }

    /// Creates field metadata generated from an interface parameter.
    pub fn new(name: &'static str, source: ArgumentSource, repeated: bool) -> (field: Self)
        ensures
            field.spec_name() == name@,
            field.spec_source() == source,
            field.spec_repeated() == repeated,
    {
        ArgumentField { name, source, repeated }
    }

    /// Returns the parameter name.
    pub fn name(&self) -> (name: &'static str)
        ensures
            name@ == self.spec_name(),
    {
        self.name
    }

    /// Returns the wire role.
    pub fn source(&self) -> (source: ArgumentSource)
        ensures
            source == self.spec_source(),
    {
        self.source
    }

    /// Returns whether the parameter repeats.
    pub fn repeated(&self) -> (repeated: bool)
        ensures
            repeated == self.spec_repeated(),
    {
        self.repeated
    }
}

/// The error of a request whose message does not match the invocation schema.
pub fn invalid_argument() -> (error: Error)
    ensures
        error@ == fresh_error(ErrorKind::Framework, ErrorCategory::InvalidArgument, "invalid_argument"@,
            "request does not match the invocation message schema"@, 400),
        error.wf(),
{
    proof {
        reveal_strlit("invalid_argument");
    }
    Error::framework(ErrorCategory::InvalidArgument, "invalid_argument", "request does not match the invocation message schema")
}

/// The error of a request that carries an argument the method does not declare.
pub fn unknown_argument() -> (error: Error)
    ensures
        error@ == fresh_error(ErrorKind::Framework, ErrorCategory::InvalidArgument, "unknown_argument"@,
            "request contains an unknown invocation argument"@, 400),
        error.wf(),
{
    proof {
        reveal_strlit("unknown_argument");
    }
    Error::framework(ErrorCategory::InvalidArgument, "unknown_argument", "request contains an unknown invocation argument")
}

/// A resolved server route: the service class, the method and any path fields.
pub struct PathCacheResult {
    /// The service class.
    pub class: String,
    /// The method name.
    pub method: String,
    /// The fields captured from a templated path.
    pub fields: Option<Vec<(String, String)>>,
}

/// The configuration of a fusen application.
#[derive(Clone, Debug)]
pub struct FusenApplicationConfig {
    application_name: String,
    port: Option<u16>,
    register: Option<String>,
}

impl FusenApplicationConfig {
    /// The application name.
    pub closed spec fn spec_application_name(&self) -> Seq<char> {
        self.application_name@
    }

    /// The listening port, if configured.
    pub closed spec fn spec_port(&self) -> Option<u16> {
        self.port
    }

    /// The registry address, if configured.
    pub closed spec fn spec_register(&self) -> Option<Seq<char>> {
        match &self.register {
            Some(r) => Some(r@),
            None => None,
        }
    }
}

impl Default for FusenApplicationConfig {
    /// Returns an unnamed application without port or registry.
    fn default() -> (config: FusenApplicationConfig)
        ensures
            config.spec_application_name() == Seq::<char>::empty(),
            config.spec_port() is None,
            config.spec_register() is None,
    {
        FusenApplicationConfig { application_name: String::new(), port: None, register: None }
    }
}

impl FusenApplicationConfig {
    /// Returns the application name.
    pub fn application_name(&self) -> (name: &str)
        ensures
            name@ == self.spec_application_name(),
    {
        self.application_name.as_str()
    }

    /// Returns the listening port, if configured.
    pub fn port(&self) -> (port: Option<u16>)
        ensures
            port == self.spec_port(),
    {
        self.port
    }

    /// Returns the registry address, if configured.
    pub fn register(&self) -> (register: Option<&str>)
        ensures
            register matches Some(r) ==> self.spec_register() == Some(r@),
            register is None ==> self.spec_register() is None,
    {
        match &self.register {
            Some(r) => Some(r.as_str()),
            None => None,
        }
    }

    /// Sets the application name.
    pub fn with_application_name(self, name: String) -> (config: Self)
        ensures
            config.spec_application_name() == name@,
            config.spec_port() == self.spec_port(),
            config.spec_register() == self.spec_register(),
    {
        FusenApplicationConfig { application_name: name, port: self.port, register: self.register }
    }

    /// Sets the listening port.
    pub fn with_port(self, port: Option<u16>) -> (config: Self)
        ensures
            config.spec_application_name() == self.spec_application_name(),
            config.spec_port() == port,
            config.spec_register() == self.spec_register(),
    {
        FusenApplicationConfig { application_name: self.application_name, port, register: self.register }
    }

    /// Sets the registry address.
    pub fn with_register(self, register: Option<String>) -> (config: Self)
        ensures
            config.spec_application_name() == self.spec_application_name(),
            config.spec_port() == self.spec_port(),
            config.spec_register() == match register { Some(r) => Some(r@), None => None::<Seq<char>> },
    {
        FusenApplicationConfig { application_name: self.application_name, port: self.port, register }
    }
}

} // verus!
