use crate::contract::{HttpBindingId, http_json_v1};
use crate::lifecycle::{ClientError, ClientErrorKind};
use crate::text::str_eq;
use vstd::prelude::*;
use vstd::string::*;

verus! {

/// How a client reaches its service.
pub enum EndpointMode {
    /// Neither `direct()` nor `discover()` was chosen.
    Unset,
    /// One explicit endpoint: its normalized URL, or why it did not parse.
    Direct(Result<String, String>),
    /// Providers are discovered through the runtime registry.
    Discovery,
}

/// Where a connected client's endpoints come from.
pub enum ConnectPlan {
    /// The explicit endpoint with this normalized URL.
    Direct(String),
    /// A discovery subscription for the interface's selector.
    Discover,
}

/// What a client connection is checked against.
pub struct ConnectRequest<'a> {
    /// Whether the runtime still admits new clients.
    pub running: bool,
    /// Why the generated interface schema is invalid, if it is.
    pub schema_problem: Option<&'a str>,
    /// The bindings the runtime serves.
    pub bindings: &'a Vec<HttpBindingId>,
    /// The binding the client selected.
    pub binding: &'a HttpBindingId,
    /// Why the interface does not fit the JSON binding, if it does not.
    pub json_problem: Option<&'a str>,
    /// How the client reaches its service.
    pub endpoint: EndpointMode,
    /// Whether capabilities declared for a direct endpoint support the binding, if
    /// capabilities were declared.
    pub direct_supports_binding: Option<bool>,
    /// Whether the runtime has a registry.
    pub has_registry: bool,
}

/// The kind, message and source of a client error.
pub open spec fn error_parts(error: ClientError) -> (ClientErrorKind, Seq<char>, Option<Seq<char>>) {
    (error.spec_kind(), error.spec_message(), error.spec_source())
}

/// The outcome of a client connection: the first failed check wins, in this order:
/// the runtime is running, the interface schema is valid, the binding is served, a
/// JSON interface fits its binding, then the endpoint choice.
pub open spec fn connect_spec(request: ConnectRequest) -> Result<Option<Seq<char>>, (ClientErrorKind, Seq<char>, Option<Seq<char>>)> {
    if !request.running {
        Err((ClientErrorKind::Closed, "client runtime is draining or closed"@, None))
    } else if request.schema_problem is Some {
        Err((ClientErrorKind::Connect, "invalid interface schema: "@ + request.schema_problem->Some_0@, None))
    } else if !request.bindings@.map_values(|b: HttpBindingId| b@).contains(request.binding@) {
        Err((ClientErrorKind::Connect, "HTTP binding "@ + request.binding@ + " is not registered"@, None))
    } else if request.binding@ == http_json_v1() && request.json_problem is Some {
        Err((ClientErrorKind::Connect, "invalid http-json-v1 interface: "@ + request.json_problem->Some_0@, None))
    } else {
        match request.endpoint {
            EndpointMode::Direct(parsed) => if request.direct_supports_binding == Some(false) {
                Err((ClientErrorKind::Connect, "direct endpoint does not support HTTP binding "@ + request.binding@, None))
            } else {
                match parsed {
                    Ok(url) => Ok(Some(url@)),
                    Err(reason) => Err((ClientErrorKind::Connect, "invalid direct service endpoint"@, Some(reason@))),
                }
            },
            EndpointMode::Discovery => if request.has_registry {
                Ok(None)
            } else {
                Err((ClientErrorKind::Discovery, "discover() requires a registry on ClientRuntime"@, None))
            },
            EndpointMode::Unset => Err((ClientErrorKind::Connect, "client must select direct() or discover()"@, None)),
        }
    }
}

fn served(bindings: &Vec<HttpBindingId>, binding: &HttpBindingId) -> (found: bool)
    ensures
        found == bindings@.map_values(|b: HttpBindingId| b@).contains(binding@),
{
    let ghost views = bindings@.map_values(|b: HttpBindingId| b@);
    let mut i: usize = 0;
    while i < bindings.len()
        invariant
            views == bindings@.map_values(|b: HttpBindingId| b@),
            i <= views.len(),
            forall|k: int| 0 <= k < i ==> views[k] != binding@,
        decreases views.len() - i,
    {
        if str_eq(bindings[i].as_str(), binding.as_str()) {
            assert(views[i as int] == binding@);
            return true;
        }
        i = i + 1;
    }
    false
}

fn connect_error(kind: ClientErrorKind, prefix: &str, detail: &str, suffix: &str) -> (error: ClientError)
    ensures
        error_parts(error) == (kind, prefix@ + detail@ + suffix@, None::<Seq<char>>),
{
    let mut message = String::from_str(prefix);
    message.append(detail);
    message.append(suffix);
    ClientError::from_message(kind, message.as_str())
}

/// Checks a client connection and decides where its endpoints come from.
pub fn plan_connect(request: ConnectRequest) -> (result: Result<ConnectPlan, ClientError>)
    ensures
        match (result, connect_spec(request)) {
            (Ok(ConnectPlan::Direct(url)), Ok(Some(expected))) => url@ == expected,
            (Ok(ConnectPlan::Discover), Ok(None)) => true,
            (Err(e), Err(parts)) => error_parts(e) == parts,
            _ => false,
        },
{
    proof {
        reveal_strlit("");
    }
    if !request.running {
        return Err(ClientError::from_message(ClientErrorKind::Closed, "client runtime is draining or closed"));
    }
    match request.schema_problem {
        Some(reason) => {
            return Err(connect_error(ClientErrorKind::Connect, "invalid interface schema: ", reason, ""));
        },
        None => {},
    }
    if !served(request.bindings, request.binding) {
        return Err(connect_error(ClientErrorKind::Connect, "HTTP binding ", request.binding.as_str(), " is not registered"));
    }
    let json = HttpBindingId::json_v1();
    if str_eq(request.binding.as_str(), json.as_str()) {
        match request.json_problem {
            Some(reason) => {
                return Err(connect_error(ClientErrorKind::Connect, "invalid http-json-v1 interface: ", reason, ""));
            },
            None => {},
        }
    }
    match request.endpoint {
        EndpointMode::Direct(parsed) => {
            if request.direct_supports_binding == Some(false) {
                return Err(connect_error(
                    ClientErrorKind::Connect,
                    "direct endpoint does not support HTTP binding ",
                    request.binding.as_str(),
                    "",
                ));
            }
            match parsed {
                Ok(url) => Ok(ConnectPlan::Direct(url)),
                Err(reason) => Err(ClientError::with_source(
                    ClientErrorKind::Connect,
                    "invalid direct service endpoint",
                    reason.as_str(),
                )),
            }
        },
        EndpointMode::Discovery => if request.has_registry {
            Ok(ConnectPlan::Discover)
        } else {
            Err(ClientError::from_message(ClientErrorKind::Discovery, "discover() requires a registry on ClientRuntime"))
        },
        EndpointMode::Unset => Err(ClientError::from_message(
            ClientErrorKind::Connect,
            "client must select direct() or discover()",
        )),
    }
}

/// A connection is only planned for a running runtime with a valid schema and a
/// served binding, whose JSON interface (for the JSON binding) fits; a direct plan
/// keeps the parsed endpoint URL of a direct client whose declared capabilities do not
/// refuse the binding, and a discovery plan needs a registry. A runtime that is not
/// running refuses every connection as closed.
pub proof fn lemma_connect_plan(request: ConnectRequest)
    ensures
        !request.running ==> (connect_spec(request) matches Err(parts) && parts.0 == ClientErrorKind::Closed),
        connect_spec(request) is Ok ==> {
            &&& request.running
            &&& request.schema_problem is None
            &&& request.bindings@.map_values(|b: HttpBindingId| b@).contains(request.binding@)
            &&& (request.binding@ == http_json_v1() ==> request.json_problem is None)
        },
        connect_spec(request) matches Ok(Some(url)) ==> (request.endpoint matches EndpointMode::Direct(Ok(parsed))
            && parsed@ == url && request.direct_supports_binding != Some(false)),
        connect_spec(request) matches Ok(None) ==> (request.endpoint is Discovery && request.has_registry),
        request.endpoint is Unset ==> connect_spec(request) is Err,
{
}

} // verus!
