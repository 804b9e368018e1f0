use crate::contract::{
    EndpointCapabilities, EndpointCapabilitiesView, HttpBindingId, HttpVersion, HttpVersionPolicy, HttpVersionSet,
    ServiceInstance, ServiceInstanceView, is_secure_endpoint,
};
use crate::error::{Error, ErrorCategory, ErrorKind, ErrorView, fresh_error};
use crate::text::str_eq;
use vstd::prelude::*;

verus! {

/// How a failed attempt is classified for breakers, retries and metrics.
#[derive(Clone, Copy, Debug, PartialEq, Eq, Hash, Structural)]
pub enum FailureClass {
    /// The connection could not be established.
    Connect,
    /// The connection failed while exchanging the request.
    Transport,
    /// The attempt or the invocation ran out of time.
    Timeout,
    /// The peer reported itself unavailable.
    Unavailable,
    /// The peer reported itself overloaded.
    Overloaded,
    /// The peer failed internally.
    RemoteServer,
    /// The peer reported another remote failure.
    RemoteFailure,
    /// The exchange broke the wire protocol.
    Protocol,
    /// The service returned an application error.
    Application,
    /// The request was invalid.
    InvalidRequest,
    /// The invocation was cancelled.
    Cancelled,
    /// The client refused the attempt itself.
    LocalRejection,
}

impl FailureClass {
    /// The low-cardinality metric label of the failure class.
    pub open spec fn spec_name(self) -> Seq<char> {
        match self {
            FailureClass::Connect => "connect"@,
            FailureClass::Transport => "transport"@,
            FailureClass::Timeout => "timeout"@,
            FailureClass::Unavailable => "unavailable"@,
            FailureClass::Overloaded => "overloaded"@,
            FailureClass::RemoteServer => "remote_server"@,
            FailureClass::RemoteFailure => "remote_failure"@,
            FailureClass::Protocol => "protocol"@,
            FailureClass::Application => "application"@,
            FailureClass::InvalidRequest => "invalid_request"@,
            FailureClass::Cancelled => "cancelled"@,
            FailureClass::LocalRejection => "local_rejection"@,
        }
    }

    /// Returns the low-cardinality metric label of the failure class.
    pub fn name(self) -> (name: &'static str)
        ensures
            name@ == self.spec_name(),
    {
        match self {
            FailureClass::Connect => "connect",
            FailureClass::Transport => "transport",
            FailureClass::Timeout => "timeout",
            FailureClass::Unavailable => "unavailable",
            FailureClass::Overloaded => "overloaded",
            FailureClass::RemoteServer => "remote_server",
            FailureClass::RemoteFailure => "remote_failure",
            FailureClass::Protocol => "protocol",
            FailureClass::Application => "application",
            FailureClass::InvalidRequest => "invalid_request",
            FailureClass::Cancelled => "cancelled",
            FailureClass::LocalRejection => "local_rejection",
        }
    }
}

/// The error of a discovery without routable instances.
pub fn no_instances() -> (error: Error)
    ensures
        error@ == fresh_error(ErrorKind::Framework, ErrorCategory::Unavailable, "no_instances"@,
            "discovery has no currently routable service instances"@, 503),
        error.wf(),
{
    proof {
        reveal_strlit("no_instances");
    }
    Error::framework(ErrorCategory::Unavailable, "no_instances", "discovery has no currently routable service instances")
}

/// The error of a selection where no endpoint fits the binding and version policy.
pub fn no_compatible_endpoint() -> (error: Error)
    ensures
        error@ == fresh_error(ErrorKind::Framework, ErrorCategory::Unavailable, "no_compatible_endpoint"@,
            "no endpoint is compatible with the selected HTTP binding and version policy"@, 503),
        error.wf(),
{
    proof {
        reveal_strlit("no_compatible_endpoint");
    }
    Error::framework(ErrorCategory::Unavailable, "no_compatible_endpoint", "no endpoint is compatible with the selected HTTP binding and version policy")
}

/// The error of an invocation on a draining or closed runtime.
pub fn closed_invocation() -> (error: Error)
    ensures
        error@ == fresh_error(ErrorKind::Framework, ErrorCategory::Unavailable, "client_closed"@,
            "client runtime is draining or closed"@, 503),
        error.wf(),
{
    proof {
        reveal_strlit("client_closed");
    }
    Error::framework(ErrorCategory::Unavailable, "client_closed", "client runtime is draining or closed")
}

/// The error of a cancelled invocation.
pub fn cancelled() -> (error: Error)
    ensures
        error@ == fresh_error(ErrorKind::Framework, ErrorCategory::Cancelled, "cancelled"@,
            "service invocation was cancelled"@, 499),
        error.wf(),
{
    proof {
        reveal_strlit("cancelled");
    }
    Error::framework(ErrorCategory::Cancelled, "cancelled", "service invocation was cancelled")
}

/// The error of an invocation whose deadline elapsed.
pub fn deadline_exceeded() -> (error: Error)
    ensures
        error@ == fresh_error(ErrorKind::Framework, ErrorCategory::DeadlineExceeded, "deadline_exceeded"@,
            "service invocation deadline elapsed"@, 504),
        error.wf(),
{
    proof {
        reveal_strlit("deadline_exceeded");
    }
    Error::framework(ErrorCategory::DeadlineExceeded, "deadline_exceeded", "service invocation deadline elapsed")
}

/// The error of an attempt every breaker rejected.
pub fn circuit_open() -> (error: Error)
    ensures
        error@ == fresh_error(ErrorKind::Framework, ErrorCategory::Unavailable, "circuit_open"@,
            "circuit breaker rejected the attempt"@, 503),
        error.wf(),
{
    proof {
        reveal_strlit("circuit_open");
    }
    Error::framework(ErrorCategory::Unavailable, "circuit_open", "circuit breaker rejected the attempt")
}

/// The error of an attempt whose endpoint has no concurrency left.
pub fn endpoint_overloaded() -> (error: Error)
    ensures
        error@ == fresh_error(ErrorKind::Framework, ErrorCategory::ResourceExhausted, "endpoint_overloaded"@,
            "selected endpoint concurrency is exhausted"@, 429),
        error.wf(),
{
    proof {
        reveal_strlit("endpoint_overloaded");
    }
    Error::framework(ErrorCategory::ResourceExhausted, "endpoint_overloaded", "selected endpoint concurrency is exhausted")
}

/// The error of a router that panicked.
pub fn router_panic() -> (error: Error)
    ensures
        error@ == fresh_error(ErrorKind::Framework, ErrorCategory::Internal, "router_panic"@,
            "router failed"@, 500),
        error.wf(),
{
    proof {
        reveal_strlit("router_panic");
    }
    Error::framework(ErrorCategory::Internal, "router_panic", "router failed")
}

/// The error of a router that returned instances it was not given.
pub fn invalid_router_output() -> (error: Error)
    ensures
        error@ == fresh_error(ErrorKind::Framework, ErrorCategory::Internal, "invalid_router_output"@,
            "instance router must return a non-duplicated subset of its input snapshot"@, 500),
        error.wf(),
{
    proof {
        reveal_strlit("invalid_router_output");
    }
    Error::framework(ErrorCategory::Internal, "invalid_router_output", "instance router must return a non-duplicated subset of its input snapshot")
}

/// The error of a load balancer that panicked.
pub fn load_balancer_panic() -> (error: Error)
    ensures
        error@ == fresh_error(ErrorKind::Framework, ErrorCategory::Internal, "load_balancer_panic"@,
            "load balancer failed"@, 500),
        error.wf(),
{
    proof {
        reveal_strlit("load_balancer_panic");
    }
    Error::framework(ErrorCategory::Internal, "load_balancer_panic", "load balancer failed")
}

/// The error of a load balancer that chose outside its candidates.
pub fn invalid_load_balancer_selection() -> (error: Error)
    ensures
        error@ == fresh_error(ErrorKind::Framework, ErrorCategory::Internal, "invalid_load_balancer_selection"@,
            "load balancer returned an out-of-range index"@, 500),
        error.wf(),
{
    proof {
        reveal_strlit("invalid_load_balancer_selection");
    }
    Error::framework(ErrorCategory::Internal, "invalid_load_balancer_selection", "load balancer returned an out-of-range index")
}

/// The error of a retry policy that panicked.
pub fn retry_policy_panic() -> (error: Error)
    ensures
        error@ == fresh_error(ErrorKind::Framework, ErrorCategory::Internal, "retry_policy_panic"@,
            "retry policy failed"@, 500),
        error.wf(),
{
    proof {
        reveal_strlit("retry_policy_panic");
    }
    Error::framework(ErrorCategory::Internal, "retry_policy_panic", "retry policy failed")
}

/// The error of argument serialization that panicked.
pub fn serialization_panic() -> (error: Error)
    ensures
        error@ == fresh_error(ErrorKind::Framework, ErrorCategory::Internal, "serialization_panic"@,
            "failed to serialize invocation arguments"@, 500),
        error.wf(),
{
    proof {
        reveal_strlit("serialization_panic");
    }
    Error::framework(ErrorCategory::Internal, "serialization_panic", "failed to serialize invocation arguments")
}

/// The error of an invocation refused for want of concurrency, with no queue.
pub fn admission_overloaded() -> (error: Error)
    ensures
        error@ == fresh_error(ErrorKind::Framework, ErrorCategory::ResourceExhausted, "overloaded"@,
            "client logical invocation concurrency is exhausted"@, 429),
        error.wf(),
{
    proof {
        reveal_strlit("overloaded");
    }
    Error::framework(ErrorCategory::ResourceExhausted, "overloaded", "client logical invocation concurrency is exhausted")
}

/// The error of an invocation refused by a full admission queue.
pub fn admission_queue_full() -> (error: Error)
    ensures
        error@ == fresh_error(ErrorKind::Framework, ErrorCategory::ResourceExhausted, "admission_queue_full"@,
            "client admission queue is full"@, 429),
        error.wf(),
{
    proof {
        reveal_strlit("admission_queue_full");
    }
    Error::framework(ErrorCategory::ResourceExhausted, "admission_queue_full", "client admission queue is full")
}

/// The error of an invocation whose admission wait elapsed.
pub fn admission_queue_timeout() -> (error: Error)
    ensures
        error@ == fresh_error(ErrorKind::Framework, ErrorCategory::ResourceExhausted, "admission_queue_timeout"@,
            "client admission queue wait elapsed"@, 429),
        error.wf(),
{
    proof {
        reveal_strlit("admission_queue_timeout");
    }
    Error::framework(ErrorCategory::ResourceExhausted, "admission_queue_timeout", "client admission queue wait elapsed")
}

/// The local error of a result that does not decode into the return type.
pub fn invalid_result() -> (error: Error)
    ensures
        error@ == fresh_error(ErrorKind::Framework, ErrorCategory::DataLoss, "invalid_result"@,
            "invocation result does not match the generated return type"@, 502),
        error.wf(),
{
    proof {
        reveal_strlit("invalid_result");
    }
    Error::framework(ErrorCategory::DataLoss, "invalid_result", "invocation result does not match the generated return type")
}

/// The status class label of an HTTP status: `1xx` to `4xx` by its hundreds, and
/// `5xx` for everything else.
pub open spec fn spec_status_class(status: u16) -> Seq<char> {
    if status / 100 == 1 {
        "1xx"@
    } else if status / 100 == 2 {
        "2xx"@
    } else if status / 100 == 3 {
        "3xx"@
    } else if status / 100 == 4 {
        "4xx"@
    } else {
        "5xx"@
    }
}

/// Returns the status class label of an HTTP status.
pub fn status_class(status: u16) -> (class: &'static str)
    ensures
        class@ == spec_status_class(status),
{
    let hundreds = status / 100;
    if hundreds == 1 {
        "1xx"
    } else if hundreds == 2 {
        "2xx"
    } else if hundreds == 3 {
        "3xx"
    } else if hundreds == 4 {
        "4xx"
    } else {
        "5xx"
    }
}

/// The HTTP version label an attempt reports: the version the peer answered with,
/// else the selected version unless it was left to TLS negotiation.
pub open spec fn spec_attempt_http_version_name(auto_negotiate: bool, selected: HttpVersion,
    observed: Option<HttpVersion>) -> Option<Seq<char>> {
    match observed {
        Some(version) => Some(version.spec_name()),
        None => if auto_negotiate { None } else { Some(selected.spec_name()) },
    }
}

/// Returns the HTTP version label an attempt reports.
pub fn attempt_http_version_name(auto_negotiate: bool, selected: HttpVersion, observed: Option<HttpVersion>)
    -> (name: Option<&'static str>)
    ensures
        match name {
            Some(n) => spec_attempt_http_version_name(auto_negotiate, selected, observed) == Some(n@),
            None => spec_attempt_http_version_name(auto_negotiate, selected, observed) is None,
        },
{
    match observed {
        Some(version) => Some(version.name()),
        None => if auto_negotiate {
            None
        } else {
            Some(selected.name())
        },
    }
}

/// The HTTP version an attempt uses under `policy` towards an endpoint that serves
/// `versions`, over TLS when `secure`: `Auto` prefers HTTP/2 over TLS and falls back
/// to HTTP/1.1; `Http1` needs HTTP/1.1; `Http2` needs HTTP/2 over TLS; `H2c` needs
/// HTTP/2 over cleartext.
pub open spec fn spec_select_http_version(policy: HttpVersionPolicy, secure: bool, http1_1: bool, http2: bool)
    -> Option<HttpVersion> {
    match policy {
        HttpVersionPolicy::Auto => if secure && http2 {
            Some(HttpVersion::Http2)
        } else if http1_1 {
            Some(HttpVersion::Http11)
        } else {
            None
        },
        HttpVersionPolicy::Http1 => if http1_1 { Some(HttpVersion::Http11) } else { None },
        HttpVersionPolicy::Http2 => if secure && http2 { Some(HttpVersion::Http2) } else { None },
        HttpVersionPolicy::H2c => if !secure && http2 { Some(HttpVersion::Http2) } else { None },
    }
}

/// Returns the HTTP version an attempt uses, or `None` when the endpoint is not
/// compatible with the policy.
pub fn select_http_version(policy: HttpVersionPolicy, secure: bool, versions: HttpVersionSet)
    -> (version: Option<HttpVersion>)
    ensures
        version == spec_select_http_version(policy, secure, versions.spec_http1_1(), versions.spec_http2()),
{
    match policy {
        HttpVersionPolicy::Auto => {
            if secure && versions.serves_http2() {
                Some(HttpVersion::Http2)
            } else if versions.serves_http1_1() {
                Some(HttpVersion::Http11)
            } else {
                None
            }
        },
        HttpVersionPolicy::Http1 => if versions.serves_http1_1() {
            Some(HttpVersion::Http11)
        } else {
            None
        },
        HttpVersionPolicy::Http2 => if secure && versions.serves_http2() {
            Some(HttpVersion::Http2)
        } else {
            None
        },
        HttpVersionPolicy::H2c => if !secure && versions.serves_http2() {
            Some(HttpVersion::Http2)
        } else {
            None
        },
    }
}

/// Whether the version is left to TLS negotiation: under `Auto`, over TLS, towards an
/// endpoint serving both HTTP/1.1 and HTTP/2.
pub open spec fn spec_should_auto_negotiate(policy: HttpVersionPolicy, secure: bool, http1_1: bool, http2: bool) -> bool {
    policy == HttpVersionPolicy::Auto && secure && http1_1 && http2
}

/// Returns whether the version is left to TLS negotiation.
pub fn should_auto_negotiate(policy: HttpVersionPolicy, secure: bool, versions: HttpVersionSet) -> (auto: bool)
    ensures
        auto == spec_should_auto_negotiate(policy, secure, versions.spec_http1_1(), versions.spec_http2()),
{
    policy == HttpVersionPolicy::Auto && secure && versions.serves_http1_1() && versions.serves_http2()
}

/// Every element that `keep` retains comes from the kept sequence.
pub proof fn lemma_keep_subset<A>(s: Seq<A>, p: spec_fn(A) -> bool)
    ensures
        forall|i: int| 0 <= i < keep(s, p).len() ==> s.contains(#[trigger] keep(s, p)[i]),
    decreases s.len(),
{
    if s.len() > 0 {
        lemma_keep_subset(s.drop_last(), p);
        let rest = keep(s.drop_last(), p);
        assert forall|i: int| 0 <= i < keep(s, p).len() implies s.contains(#[trigger] keep(s, p)[i]) by {
            if i < rest.len() {
                assert(keep(s, p)[i] == rest[i]);
                let k = choose|k: int| 0 <= k < s.drop_last().len() && s.drop_last()[k] == rest[i];
                assert(s[k] == rest[i]);
            } else {
                assert(keep(s, p)[i] == s.last());
                assert(s[s.len() - 1] == s.last());
            }
        }
    }
}

/// Every element that `keep` retains satisfies the predicate.
pub proof fn lemma_keep_satisfies<A>(s: Seq<A>, p: spec_fn(A) -> bool)
    ensures
        forall|i: int| 0 <= i < keep(s, p).len() ==> p(#[trigger] keep(s, p)[i]),
    decreases s.len(),
{
    if s.len() > 0 {
        lemma_keep_satisfies(s.drop_last(), p);
        let rest = keep(s.drop_last(), p);
        assert forall|i: int| 0 <= i < keep(s, p).len() implies p(#[trigger] keep(s, p)[i]) by {
            if i < rest.len() {
                assert(keep(s, p)[i] == rest[i]);
            }
        }
    }
}

/// The elements of `s` that satisfy `p`, in order.
pub open spec fn keep<A>(s: Seq<A>, p: spec_fn(A) -> bool) -> Seq<A>
    decreases s.len(),
{
    if s.len() == 0 {
        s
    } else {
        let rest = keep(s.drop_last(), p);
        if p(s.last()) {
            rest.push(s.last())
        } else {
            rest
        }
    }
}

/// The views of a list of instances.
pub open spec fn instance_views(instances: Seq<ServiceInstance>) -> Seq<ServiceInstanceView> {
    instances.map_values(|i: ServiceInstance| i@)
}

/// Whether an instance can serve `binding` under `policy`.
pub open spec fn is_compatible(binding: Seq<char>, policy: HttpVersionPolicy) -> spec_fn(ServiceInstanceView) -> bool {
    |v: ServiceInstanceView| v.capabilities.bindings.contains(binding) && spec_select_http_version(
        policy,
        is_secure_endpoint(v.endpoint),
        v.capabilities.http1_1,
        v.capabilities.http2,
    ) is Some
}

/// Whether an instance's endpoint has not been attempted yet.
pub open spec fn is_untried(attempted: Seq<Seq<char>>) -> spec_fn(ServiceInstanceView) -> bool {
    |v: ServiceInstanceView| !attempted.contains(v.endpoint)
}

/// The candidates of an attempt: the instances compatible with the binding and the
/// version policy, narrowed to those not attempted yet when there are any.
pub open spec fn candidates_spec(instances: Seq<ServiceInstanceView>, binding: Seq<char>, policy: HttpVersionPolicy,
    attempted: Seq<Seq<char>>) -> Seq<ServiceInstanceView> {
    let compatible = keep(instances, is_compatible(binding, policy));
    let untried = keep(compatible, is_untried(attempted));
    if untried.len() > 0 {
        untried
    } else {
        compatible
    }
}

/// Returns whether `instance` can serve `binding` under `policy`.
pub fn compatible(instance: &ServiceInstance, binding: &HttpBindingId, policy: HttpVersionPolicy) -> (ok: bool)
    ensures
        ok == is_compatible(binding@, policy)(instance@),
{
    let caps = instance.capabilities();
    let versions = caps.http_versions();
    caps.supports_binding(binding) && select_http_version(policy, instance.is_secure(), versions).is_some()
}

fn contains_str(items: &Vec<String>, value: &str) -> (found: bool)
    ensures
        found == items@.map_values(|s: String| s@).contains(value@),
{
    let ghost views = items@.map_values(|s: String| s@);
    let mut i: usize = 0;
    while i < items.len()
        invariant
            views == items@.map_values(|s: String| s@),
            i <= items@.len(),
            forall|k: int| 0 <= k < i ==> views[k] != value@,
        decreases items@.len() - i,
    {
        if str_eq(items[i].as_str(), value) {
            assert(views[i as int] == value@);
            return true;
        }
        i = i + 1;
    }
    false
}

/// The bits of the default routing weight, `1.0`.
pub open spec fn default_weight_bits() -> u64 {
    0x3FF0_0000_0000_0000
}

/// The capabilities assumed for a direct endpoint that declares none: both HTTP
/// versions over TLS, HTTP/1.1 otherwise, with only the client's binding.
pub open spec fn direct_generic_capabilities(secure: bool, binding: Seq<char>) -> EndpointCapabilitiesView {
    EndpointCapabilitiesView { http1_1: true, http2: secure, bindings: seq![binding], invocation_controls: false }
}

/// The single candidate of a client with a direct endpoint: instance `direct` with
/// the default weight, the declared capabilities or else the generic ones.
pub fn direct_instance(endpoint: &str, capabilities: Option<EndpointCapabilities>, binding: &HttpBindingId)
    -> (instance: ServiceInstance)
    ensures
        instance@.instance_id == "direct"@,
        instance@.endpoint == endpoint@,
        instance@.capabilities == match capabilities {
            Some(c) => c@,
            None => direct_generic_capabilities(is_secure_endpoint(endpoint@), binding@),
        },
        instance@.weight_bits == default_weight_bits(),
        instance@.metadata.len() == 0,
{
    proof {
        reveal_strlit("https:");
    }
    let capabilities = match capabilities {
        Some(c) => c,
        None => {
            let versions = if crate::text::starts_with(endpoint, "https:") {
                HttpVersionSet::all()
            } else {
                HttpVersionSet::http1_1()
            };
            let mut bindings: Vec<HttpBindingId> = Vec::new();
            bindings.push(binding.duplicate());
            proof {
                let ids = bindings@.map_values(|b: HttpBindingId| b@);
                assert(ids =~= seq![binding@]);
                crate::ordering::lemma_sort_sorted_identity(ids);
            }
            match EndpointCapabilities::new(versions, bindings, false) {
                Some(c) => c,
                None => {
                    assert(false);
                    EndpointCapabilities::generic()
                },
            }
        },
    };
    let metadata: Vec<(String, String)> = Vec::new();
    assert(crate::contract::pairs_view(metadata@).len() == 0);
    ServiceInstance::new(String::from_str("direct"), endpoint.to_owned(), capabilities, 0x3FF0_0000_0000_0000,
        metadata)
}

/// Narrows the instances of an attempt to its candidates; fails when no instance is
/// compatible with the binding and the version policy.
pub fn select_candidates(instances: &Vec<ServiceInstance>, binding: &HttpBindingId, policy: HttpVersionPolicy,
    attempted: &Vec<String>) -> (result: Result<Vec<ServiceInstance>, Error>)
    ensures
        keep(instance_views(instances@), is_compatible(binding@, policy)).len() == 0 ==> (result matches Err(e)
            && e@ == no_compatible_endpoint_view()),
        keep(instance_views(instances@), is_compatible(binding@, policy)).len() > 0 ==> (result matches Ok(c)
            && instance_views(c@) == candidates_spec(instance_views(instances@), binding@, policy,
                attempted@.map_values(|s: String| s@))),
        result matches Err(e) ==> e.wf(),
{
    let ghost views = instance_views(instances@);
    let ghost tried = attempted@.map_values(|s: String| s@);
    let ghost pc = is_compatible(binding@, policy);
    let ghost pu = is_untried(tried);
    let mut compatible_list: Vec<ServiceInstance> = Vec::new();
    let mut untried_list: Vec<ServiceInstance> = Vec::new();
    let mut i: usize = 0;
    while i < instances.len()
        invariant
            views == instance_views(instances@),
            tried == attempted@.map_values(|s: String| s@),
            pc == is_compatible(binding@, policy),
            pu == is_untried(tried),
            i <= views.len(),
            instance_views(compatible_list@) == keep(views.take(i as int), pc),
            instance_views(untried_list@) == keep(keep(views.take(i as int), pc), pu),
        decreases views.len() - i,
    {
        assert(views.take(i + 1).drop_last() =~= views.take(i as int));
        assert(views.take(i + 1).last() == views[i as int]);
        if compatible(&instances[i], binding, policy) {
            let ghost before_c = compatible_list@;
            let ghost before_u = untried_list@;
            let keep_untried = !contains_str(attempted, instances[i].endpoint());
            let ghost kc = keep(views.take(i as int), pc);
            assert(kc.push(views[i as int]).drop_last() =~= kc);
            assert(keep_untried == pu(views[i as int]));
            if keep_untried {
                untried_list.push(instances[i].duplicate());
                assert(instance_views(untried_list@) =~= instance_views(before_u).push(views[i as int]));
            }
            compatible_list.push(instances[i].duplicate());
            assert(instance_views(compatible_list@) =~= instance_views(before_c).push(views[i as int]));
        }
        i = i + 1;
    }
    assert(views.take(views.len() as int) =~= views);
    if compatible_list.len() == 0 {
        return Err(no_compatible_endpoint());
    }
    if untried_list.len() > 0 {
        Ok(untried_list)
    } else {
        Ok(compatible_list)
    }
}

/// The view of the error returned when no endpoint is compatible.
pub open spec fn no_compatible_endpoint_view() -> ErrorView {
    fresh_error(ErrorKind::Framework, ErrorCategory::Unavailable, "no_compatible_endpoint"@,
        "no endpoint is compatible with the selected HTTP binding and version policy"@, 503)
}

/// How often `x` occurs in `s`.
pub open spec fn count_of<A>(s: Seq<A>, x: A) -> nat
    decreases s.len(),
{
    if s.len() == 0 {
        0
    } else {
        count_of(s.drop_last(), x) + if s.last() == x { 1nat } else { 0nat }
    }
}

/// Whether every element occurs in `output` at most as often as in `input`: the
/// output is a non-duplicated subset of the input.
pub open spec fn is_sub_multiset<A>(output: Seq<A>, input: Seq<A>) -> bool {
    forall|x: A| #[trigger] count_of(output, x) <= count_of(input, x)
}

/// How often `x` occurs in `s` at a position marked in `marked`.
pub open spec fn count_marked<A>(s: Seq<A>, marked: Seq<bool>, x: A) -> nat
    decreases s.len(),
{
    if s.len() == 0 {
        0
    } else {
        count_marked(s.drop_last(), marked.drop_last(), x) + if marked[s.len() - 1] && s.last() == x {
            1nat
        } else {
            0nat
        }
    }
}

proof fn lemma_count_marked_none<A>(s: Seq<A>, marked: Seq<bool>, x: A)
    requires
        marked.len() == s.len(),
        forall|j: int| 0 <= j < marked.len() ==> !marked[j],
    ensures
        count_marked(s, marked, x) == 0,
    decreases s.len(),
{
    if s.len() > 0 {
        lemma_count_marked_none(s.drop_last(), marked.drop_last(), x);
    }
}

proof fn lemma_count_marked_le<A>(s: Seq<A>, marked: Seq<bool>, x: A)
    requires
        marked.len() == s.len(),
    ensures
        count_marked(s, marked, x) <= count_of(s, x),
    decreases s.len(),
{
    if s.len() > 0 {
        lemma_count_marked_le(s.drop_last(), marked.drop_last(), x);
    }
}

proof fn lemma_count_marked_all<A>(s: Seq<A>, marked: Seq<bool>, x: A)
    requires
        marked.len() == s.len(),
        forall|j: int| 0 <= j < s.len() && s[j] == x ==> marked[j],
    ensures
        count_marked(s, marked, x) == count_of(s, x),
    decreases s.len(),
{
    if s.len() > 0 {
        lemma_count_marked_all(s.drop_last(), marked.drop_last(), x);
    }
}

proof fn lemma_count_marked_mark<A>(s: Seq<A>, marked: Seq<bool>, j: int, x: A)
    requires
        marked.len() == s.len(),
        0 <= j < s.len(),
        !marked[j],
    ensures
        count_marked(s, marked.update(j, true), x) == count_marked(s, marked, x) + if s[j] == x { 1nat } else { 0nat },
    decreases s.len(),
{
    let updated = marked.update(j, true);
    if j == s.len() - 1 {
        assert(updated.drop_last() =~= marked.drop_last());
    } else {
        assert(updated.drop_last() =~= marked.drop_last().update(j, true));
        lemma_count_marked_mark(s.drop_last(), marked.drop_last(), j, x);
    }
}

proof fn lemma_count_prefix_le<A>(s: Seq<A>, k: int, x: A)
    requires
        0 <= k <= s.len(),
    ensures
        count_of(s.take(k), x) <= count_of(s, x),
    decreases s.len(),
{
    if k == s.len() {
        assert(s.take(k) =~= s);
    } else {
        assert(s.take(k) =~= s.drop_last().take(k));
        lemma_count_prefix_le(s.drop_last(), k, x);
    }
}

/// Checks that a router returned a non-duplicated subset of the instances it was
/// given: every returned instance must match a distinct input instance.
pub fn validate_router_output(input: &Vec<ServiceInstance>, output: &Vec<ServiceInstance>) -> (result: Result<(), Error>)
    ensures
        result is Ok <==> is_sub_multiset(instance_views(output@), instance_views(input@)),
        result matches Err(e) ==> e@ == fresh_error(ErrorKind::Framework, ErrorCategory::Internal,
            "invalid_router_output"@,
            "instance router must return a non-duplicated subset of its input snapshot"@, 500) && e.wf(),
{
    let ghost inp = instance_views(input@);
    let ghost out = instance_views(output@);
    let mut matched: Vec<bool> = Vec::new();
    let mut j: usize = 0;
    while j < input.len()
        invariant
            j <= input@.len(),
            matched@.len() == j,
            forall|a: int| 0 <= a < j ==> !matched@[a],
        decreases input@.len() - j,
    {
        matched.push(false);
        j = j + 1;
    }
    assert forall|x: ServiceInstanceView| #[trigger] count_marked(inp, matched@, x) == count_of(out.take(0), x) by {
        lemma_count_marked_none(inp, matched@, x);
        assert(out.take(0) =~= Seq::<ServiceInstanceView>::empty());
    }
    let mut k: usize = 0;
    while k < output.len()
        invariant
            inp == instance_views(input@),
            out == instance_views(output@),
            matched@.len() == inp.len(),
            k <= out.len(),
            forall|x: ServiceInstanceView| #[trigger] count_marked(inp, matched@, x) == count_of(out.take(k as int), x),
        decreases out.len() - k,
    {
        let ghost y = out[k as int];
        assert(out.take(k + 1).drop_last() =~= out.take(k as int));
        let mut found = false;
        let mut j: usize = 0;
        while j < input.len()
            invariant
                inp == instance_views(input@),
                out == instance_views(output@),
                y == out[k as int],
                k < out.len(),
                matched@.len() == inp.len(),
                j <= inp.len(),
                !found ==> forall|a: int| 0 <= a < j && inp[a] == y ==> matched@[a],
                found ==> j < inp.len() && !matched@[j as int] && inp[j as int] == y,
            ensures
                !found ==> forall|a: int| 0 <= a < inp.len() && inp[a] == y ==> matched@[a],
                found ==> j < inp.len() && !matched@[j as int] && inp[j as int] == y,
            decreases inp.len() - j,
        {
            if !matched[j] && input[j].same_as(&output[k]) {
                found = true;
                break;
            }
            j = j + 1;
        }
        if !found {
            proof {
                lemma_count_marked_all(inp, matched@, y);
                lemma_count_prefix_le(out, k + 1, y);
                assert(count_of(out, y) > count_of(inp, y));
            }
            return Err(invalid_router_output());
        }
        let ghost before = matched@;
        matched.set(j, true);
        assert forall|x: ServiceInstanceView| #[trigger] count_marked(inp, matched@, x) == count_of(out.take(k + 1), x) by {
            lemma_count_marked_mark(inp, before, j as int, x);
        }
        k = k + 1;
    }
    assert(out.take(out.len() as int) =~= out);
    assert forall|x: ServiceInstanceView| #[trigger] count_of(out, x) <= count_of(inp, x) by {
        lemma_count_marked_le(inp, matched@, x);
    }
    Ok(())
}

/// How a version policy chooses: a chosen version is always one the endpoint
/// serves; `Http1` chooses HTTP/1.1 exactly when it is served and never HTTP/2;
/// `Http2` chooses HTTP/2 exactly over TLS towards an HTTP/2 endpoint, `H2c` exactly
/// over cleartext; `Auto` chooses HTTP/2 over TLS when served and otherwise falls
/// back to HTTP/1.1 when served.
pub proof fn lemma_version_policy(policy: HttpVersionPolicy, secure: bool, http1_1: bool, http2: bool)
    ensures
        spec_select_http_version(policy, secure, http1_1, http2) == Some(HttpVersion::Http11) ==> http1_1,
        spec_select_http_version(policy, secure, http1_1, http2) == Some(HttpVersion::Http2) ==> http2,
        spec_select_http_version(policy, secure, http1_1, http2) is Some ==> (
            spec_select_http_version(policy, secure, http1_1, http2) == Some(HttpVersion::Http11)
            || spec_select_http_version(policy, secure, http1_1, http2) == Some(HttpVersion::Http2)),
        policy == HttpVersionPolicy::Http1 ==> (http1_1 <==> spec_select_http_version(policy, secure, http1_1, http2)
            == Some(HttpVersion::Http11)),
        policy == HttpVersionPolicy::Http1 ==> spec_select_http_version(policy, secure, http1_1, http2)
            != Some(HttpVersion::Http2),
        policy == HttpVersionPolicy::Http2 ==> ((secure && http2) <==> spec_select_http_version(policy, secure, http1_1,
            http2) == Some(HttpVersion::Http2)),
        policy == HttpVersionPolicy::Http2 ==> spec_select_http_version(policy, secure, http1_1, http2)
            != Some(HttpVersion::Http11),
        policy == HttpVersionPolicy::H2c ==> ((!secure && http2) <==> spec_select_http_version(policy, secure, http1_1,
            http2) == Some(HttpVersion::Http2)),
        policy == HttpVersionPolicy::H2c ==> spec_select_http_version(policy, secure, http1_1, http2)
            != Some(HttpVersion::Http11),
        policy == HttpVersionPolicy::Auto && secure && http2 ==> spec_select_http_version(policy, secure, http1_1, http2)
            == Some(HttpVersion::Http2),
        policy == HttpVersionPolicy::Auto && !(secure && http2) && http1_1 ==> spec_select_http_version(policy, secure,
            http1_1, http2) == Some(HttpVersion::Http11),
        policy == HttpVersionPolicy::Auto && !(secure && http2) && !http1_1 ==> spec_select_http_version(policy, secure,
            http1_1, http2) is None,
        spec_should_auto_negotiate(policy, secure, http1_1, http2) ==> policy == HttpVersionPolicy::Auto && secure
            && http1_1 && http2,
        policy == HttpVersionPolicy::Auto && secure && http1_1 && http2 ==> spec_should_auto_negotiate(policy, secure,
            http1_1, http2),
{
}

/// Every element that satisfies the predicate is retained by `keep`.
pub proof fn lemma_keep_complete<A>(s: Seq<A>, p: spec_fn(A) -> bool, i: int)
    requires
        0 <= i < s.len(),
        p(s[i]),
    ensures
        keep(s, p).contains(s[i]),
    decreases s.len(),
{
    if i == s.len() - 1 {
        assert(keep(s, p).last() == s[i]);
        assert(keep(s, p)[keep(s, p).len() - 1] == s[i]);
    } else {
        lemma_keep_complete(s.drop_last(), p, i);
        assert(s.drop_last()[i] == s[i]);
        let rest = keep(s.drop_last(), p);
        let k = choose|k: int| 0 <= k < rest.len() && rest[k] == s[i];
        if p(s.last()) {
            assert(keep(s, p)[k] == rest[k]);
        }
    }
}

/// Everything `keep` retains satisfies the predicate and comes from the input; it
/// never grows the input.
pub proof fn lemma_keep_sound<A>(s: Seq<A>, p: spec_fn(A) -> bool)
    ensures
        keep(s, p).len() <= s.len(),
        forall|j: int| 0 <= j < keep(s, p).len() ==> p(#[trigger] keep(s, p)[j]) && s.contains(keep(s, p)[j]),
    decreases s.len(),
{
    if s.len() > 0 {
        let init = s.drop_last();
        lemma_keep_sound(init, p);
        let rest = keep(init, p);
        let all = keep(s, p);
        if p(s.last()) {
            assert(all == rest.push(s.last()));
        } else {
            assert(all == rest);
        }
        assert forall|j: int| 0 <= j < all.len() implies p(#[trigger] all[j]) && s.contains(all[j]) by {
            if j < rest.len() {
                assert(all[j] == rest[j]);
                let w = choose|w: int| 0 <= w < init.len() && init[w] == rest[j];
                assert(s[w] == init[w]);
            } else {
                assert(all[j] == s[s.len() - 1]);
            }
        }
    }
}

/// The status class of an HTTP status is named by its hundreds digit: 1xx to 4xx
/// for statuses 100 to 499, and 5xx for the rest.
pub proof fn lemma_status_class(status: u16)
    ensures
        100 <= status < 200 ==> spec_status_class(status) == "1xx"@,
        200 <= status < 300 ==> spec_status_class(status) == "2xx"@,
        300 <= status < 400 ==> spec_status_class(status) == "3xx"@,
        400 <= status < 500 ==> spec_status_class(status) == "4xx"@,
        (status >= 500 || status < 100) ==> spec_status_class(status) == "5xx"@,
{
}

/// The version an attempt reports is the one the peer answered with when known;
/// otherwise the selected one, unless the version was left to TLS negotiation.
pub proof fn lemma_attempt_version_name(auto_negotiate: bool, selected: HttpVersion, observed: Option<HttpVersion>)
    ensures
        observed matches Some(v) ==> spec_attempt_http_version_name(auto_negotiate, selected, observed)
            == Some(v.spec_name()),
        observed is None && auto_negotiate ==> spec_attempt_http_version_name(auto_negotiate, selected, observed) is None,
        observed is None && !auto_negotiate ==> spec_attempt_http_version_name(auto_negotiate, selected, observed)
            == Some(selected.spec_name()),
{
}

/// The candidates of an attempt are instances that serve the binding under the
/// policy; there are none exactly when no instance is compatible; when some
/// compatible instance has not been attempted yet, the candidates are exactly the
/// untried compatible ones, and otherwise every compatible instance is a candidate.
pub proof fn lemma_candidates(instances: Seq<ServiceInstanceView>, binding: Seq<char>, policy: HttpVersionPolicy,
    attempted: Seq<Seq<char>>)
    ensures
        forall|i: int| 0 <= i < candidates_spec(instances, binding, policy, attempted).len() ==> {
            let c = #[trigger] candidates_spec(instances, binding, policy, attempted)[i];
            &&& instances.contains(c)
            &&& c.capabilities.bindings.contains(binding)
            &&& spec_select_http_version(policy, is_secure_endpoint(c.endpoint), c.capabilities.http1_1,
                c.capabilities.http2) is Some
        },
        candidates_spec(instances, binding, policy, attempted).len() == 0 <==> !(exists|i: int| 0 <= i < instances.len()
            && #[trigger] is_compatible(binding, policy)(instances[i])),
        (exists|i: int| 0 <= i < instances.len() && is_compatible(binding, policy)(instances[i])
            && !attempted.contains(#[trigger] instances[i].endpoint)) ==> {
            &&& forall|i: int| 0 <= i < candidates_spec(instances, binding, policy, attempted).len()
                ==> !attempted.contains((#[trigger] candidates_spec(instances, binding, policy, attempted)[i]).endpoint)
            &&& forall|i: int| 0 <= i < instances.len() && is_compatible(binding, policy)(instances[i])
                && !attempted.contains(instances[i].endpoint)
                ==> candidates_spec(instances, binding, policy, attempted).contains(#[trigger] instances[i])
        },
        (forall|i: int| 0 <= i < instances.len() && is_compatible(binding, policy)(instances[i])
            ==> attempted.contains(#[trigger] instances[i].endpoint)) ==> forall|i: int| 0 <= i < instances.len()
            && is_compatible(binding, policy)(instances[i])
            ==> candidates_spec(instances, binding, policy, attempted).contains(#[trigger] instances[i]),
{
    let compatible = keep(instances, is_compatible(binding, policy));
    let untried = keep(compatible, is_untried(attempted));
    lemma_keep_satisfies(instances, is_compatible(binding, policy));
    lemma_keep_subset(instances, is_compatible(binding, policy));
    lemma_keep_satisfies(compatible, is_untried(attempted));
    lemma_keep_subset(compatible, is_untried(attempted));
    let cands = candidates_spec(instances, binding, policy, attempted);
    assert forall|i: int| 0 <= i < cands.len() implies {
        let c = #[trigger] cands[i];
        &&& instances.contains(c)
        &&& c.capabilities.bindings.contains(binding)
        &&& spec_select_http_version(policy, is_secure_endpoint(c.endpoint), c.capabilities.http1_1,
            c.capabilities.http2) is Some
    } by {
        if untried.len() > 0 {
            assert(compatible.contains(untried[i]));
            let k = choose|k: int| 0 <= k < compatible.len() && compatible[k] == untried[i];
            assert(is_compatible(binding, policy)(compatible[k]));
            assert(instances.contains(compatible[k]));
        } else {
            assert(is_compatible(binding, policy)(compatible[i]));
            assert(instances.contains(compatible[i]));
        }
    }
    if exists|i: int| 0 <= i < instances.len() && #[trigger] is_compatible(binding, policy)(instances[i]) {
        let i = choose|i: int| 0 <= i < instances.len() && #[trigger] is_compatible(binding, policy)(instances[i]);
        lemma_keep_complete(instances, is_compatible(binding, policy), i);
        assert(compatible.len() > 0);
        if untried.len() == 0 {
            assert(cands == compatible);
        }
    }
    if exists|i: int| 0 <= i < instances.len() && is_compatible(binding, policy)(instances[i])
        && !attempted.contains(#[trigger] instances[i].endpoint) {
        let i = choose|i: int| 0 <= i < instances.len() && is_compatible(binding, policy)(instances[i])
            && !attempted.contains(#[trigger] instances[i].endpoint);
        lemma_keep_complete(instances, is_compatible(binding, policy), i);
        let k = choose|k: int| 0 <= k < compatible.len() && compatible[k] == instances[i];
        lemma_keep_complete(compatible, is_untried(attempted), k);
        assert(untried.len() > 0);
        assert forall|j: int| 0 <= j < cands.len() implies !attempted.contains((#[trigger] cands[j]).endpoint) by {
            assert(is_untried(attempted)(untried[j]));
        }
        assert forall|j: int| 0 <= j < instances.len() && is_compatible(binding, policy)(instances[j])
            && !attempted.contains(instances[j].endpoint) implies cands.contains(#[trigger] instances[j]) by {
            lemma_keep_complete(instances, is_compatible(binding, policy), j);
            let m = choose|m: int| 0 <= m < compatible.len() && compatible[m] == instances[j];
            lemma_keep_complete(compatible, is_untried(attempted), m);
        }
    }
    if forall|i: int| 0 <= i < instances.len() && is_compatible(binding, policy)(instances[i])
        ==> attempted.contains(#[trigger] instances[i].endpoint) {
        assert(untried.len() == 0) by {
            if untried.len() > 0 {
                assert(is_untried(attempted)(untried[0]));
                assert(compatible.contains(untried[0]));
                let m = choose|m: int| 0 <= m < compatible.len() && compatible[m] == untried[0];
                assert(instances.contains(compatible[m]));
                let n = choose|n: int| 0 <= n < instances.len() && instances[n] == compatible[m];
                assert(is_compatible(binding, policy)(compatible[m]));
                assert(attempted.contains(instances[n].endpoint));
            }
        }
        assert forall|j: int| 0 <= j < instances.len() && is_compatible(binding, policy)(instances[j])
            implies cands.contains(#[trigger] instances[j]) by {
            lemma_keep_complete(instances, is_compatible(binding, policy), j);
        }
    }
}

} // verus!
