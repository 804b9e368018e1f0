use crate::text::{starts_with, str_eq};
use vstd::prelude::*;
use vstd::string::*;

verus! {

/// An HTTP protocol version.
#[derive(Clone, Copy, Debug, PartialEq, Eq, Hash, Structural)]
pub enum HttpVersion {
    /// HTTP/0.9.
    Http09,
    /// HTTP/1.0.
    Http10,
    /// HTTP/1.1.
    Http11,
    /// HTTP/2.
    Http2,
    /// HTTP/3.
    Http3,
}

impl HttpVersion {
    /// The version's label: `0.9`, `1.0`, `1.1`, `2` or `3`.
    pub open spec fn spec_name(self) -> Seq<char> {
        match self {
            HttpVersion::Http09 => "0.9"@,
            HttpVersion::Http10 => "1.0"@,
            HttpVersion::Http11 => "1.1"@,
            HttpVersion::Http2 => "2"@,
            HttpVersion::Http3 => "3"@,
        }
    }

    /// Returns the version's label.
    pub fn name(self) -> (name: &'static str)
        ensures
            name@ == self.spec_name(),
    {
        match self {
            HttpVersion::Http09 => "0.9",
            HttpVersion::Http10 => "1.0",
            HttpVersion::Http11 => "1.1",
            HttpVersion::Http2 => "2",
            HttpVersion::Http3 => "3",
        }
    }
}

/// The HTTP versions an endpoint serves: HTTP/1.1, HTTP/2 or both.
#[derive(Clone, Copy, Debug, PartialEq, Eq, Hash, Structural)]
pub struct HttpVersionSet {
    http1_1: bool,
    http2: bool,
}

impl HttpVersionSet {
    #[verifier::type_invariant]
    spec fn serves_some(self) -> bool {
        self.http1_1 || self.http2
    }

    /// Whether HTTP/1.1 is served.
    pub closed spec fn spec_http1_1(self) -> bool {
        self.http1_1
    }

    /// Whether HTTP/2 is served.
    pub closed spec fn spec_http2(self) -> bool {
        self.http2
    }

    /// Whether `version` is served.
    pub open spec fn spec_contains(self, version: HttpVersion) -> bool {
        (version == HttpVersion::Http11 && self.spec_http1_1()) || (version == HttpVersion::Http2 && self.spec_http2())
    }

    /// HTTP/1.1 only.
    pub fn http1_1() -> (set: Self)
        ensures
            set.spec_http1_1() && !set.spec_http2(),
    {
        HttpVersionSet { http1_1: true, http2: false }
    }

    /// HTTP/2 only.
    pub fn http2() -> (set: Self)
        ensures
            !set.spec_http1_1() && set.spec_http2(),
    {
        HttpVersionSet { http1_1: false, http2: true }
    }

    /// Both HTTP/1.1 and HTTP/2.
    pub fn all() -> (set: Self)
        ensures
            set.spec_http1_1() && set.spec_http2(),
    {
        HttpVersionSet { http1_1: true, http2: true }
    }

    /// Returns whether `version` is served.
    pub fn contains(self, version: HttpVersion) -> (served: bool)
        ensures
            served == self.spec_contains(version),
    {
        match version {
            HttpVersion::Http11 => self.http1_1,
            HttpVersion::Http2 => self.http2,
            _ => false,
        }
    }

    /// Returns whether HTTP/1.1 is served.
    pub fn serves_http1_1(self) -> (served: bool)
        ensures
            served == self.spec_http1_1(),
    {
        self.http1_1
    }

    /// Returns whether HTTP/2 is served.
    pub fn serves_http2(self) -> (served: bool)
        ensures
            served == self.spec_http2(),
    {
        self.http2
    }
}

/// How a client chooses the HTTP version of an attempt.
#[derive(Clone, Copy, Debug, PartialEq, Eq, Hash, Structural)]
#[non_exhaustive]
pub enum HttpVersionPolicy {
    /// HTTP/2 over TLS when served, else HTTP/1.1.
    Auto,
    /// HTTP/1.1 only.
    Http1,
    /// HTTP/2 over TLS only.
    Http2,
    /// HTTP/2 over cleartext only.
    H2c,
}

/// Whether `id` is a valid HTTP binding identifier: 1 to 64 characters, starting with
/// a lower-case letter, made of lower-case letters, digits and hyphens.
pub open spec fn is_binding_id(id: Seq<char>) -> bool {
    &&& 0 < id.len() <= 64
    &&& 'a' <= id[0] <= 'z'
    &&& forall|i: int| 0 <= i < id.len() ==> {
        ||| 'a' <= #[trigger] id[i] <= 'z'
        ||| '0' <= id[i] <= '9'
        ||| id[i] == '-'
    }
}

/// The identifier of the built-in JSON binding.
pub open spec fn http_json_v1() -> Seq<char> {
    "http-json-v1"@
}

/// A validated identifier of an HTTP request and response binding.
#[derive(Debug, PartialEq, Eq, Hash)]
pub struct HttpBindingId(String);

impl Clone for HttpBindingId {
    fn clone(&self) -> (copy: Self)
        ensures
            copy@ == self@,
    {
        self.duplicate()
    }
}

impl View for HttpBindingId {
    type V = Seq<char>;

    closed spec fn view(&self) -> Seq<char> {
        self.0@
    }
}

impl HttpBindingId {
    #[verifier::type_invariant]
    spec fn valid(self) -> bool {
        is_binding_id(self.0@)
    }

    /// Validates a binding identifier.
    pub fn new(value: &str) -> (result: Option<HttpBindingId>)
        ensures
            result is Some <==> is_binding_id(value@),
            result matches Some(id) ==> id@ == value@,
    {
        let len = value.unicode_len();
        if len == 0 || len > 64 {
            return None;
        }
        let first = value.get_char(0);
        if !('a' <= first && first <= 'z') {
            return None;
        }
        let mut i: usize = 0;
        while i < len
            invariant
                len == value@.len(),
                i <= len,
                forall|j: int| 0 <= j < i ==> {
                    ||| 'a' <= #[trigger] value@[j] <= 'z'
                    ||| '0' <= value@[j] <= '9'
                    ||| value@[j] == '-'
                },
            decreases len - i,
        {
            let c = value.get_char(i);
            if !(('a' <= c && c <= 'z') || ('0' <= c && c <= '9') || c == '-') {
                return None;
            }
            i = i + 1;
        }
        Some(HttpBindingId(value.to_owned()))
    }

    /// The identifier of the built-in JSON binding, `http-json-v1`.
    pub fn json_v1() -> (id: HttpBindingId)
        ensures
            id@ == http_json_v1(),
            is_binding_id(id@),
    {
        proof {
            reveal_strlit("http-json-v1");
            assert(is_binding_id(http_json_v1()));
        }
        HttpBindingId(String::from_str("http-json-v1"))
    }

    /// Returns the identifier text.
    pub fn as_str(&self) -> (text: &str)
        ensures
            text@ == self@,
            is_binding_id(self@),
    {
        proof {
            use_type_invariant(self);
        }
        self.0.as_str()
    }

    /// Returns an equal copy.
    pub fn duplicate(&self) -> (copy: Self)
        ensures
            copy@ == self@,
    {
        proof {
            use_type_invariant(self);
        }
        HttpBindingId(self.0.clone())
    }
}

/// The abstract content of [`EndpointCapabilities`].
pub struct EndpointCapabilitiesView {
    pub http1_1: bool,
    pub http2: bool,
    pub bindings: Seq<Seq<char>>,
    pub invocation_controls: bool,
}

/// The HTTP versions, bindings and invocation controls an endpoint supports.
#[derive(Debug)]
pub struct EndpointCapabilities {
    http_versions: HttpVersionSet,
    bindings: Vec<HttpBindingId>,
    invocation_controls: bool,
}

/// The invariant of capabilities: at least one HTTP version, at least one binding, every binding a valid
/// identifier, in strictly ascending order.
pub open spec fn capabilities_wf(v: EndpointCapabilitiesView) -> bool {
    &&& v.http1_1 || v.http2
    &&& v.bindings.len() > 0
    &&& forall|i: int| 0 <= i < v.bindings.len() ==> is_binding_id(#[trigger] v.bindings[i])
    &&& crate::ordering::strictly_sorted(v.bindings)
}

impl View for EndpointCapabilities {
    type V = EndpointCapabilitiesView;

    closed spec fn view(&self) -> EndpointCapabilitiesView {
        EndpointCapabilitiesView {
            http1_1: self.http_versions.spec_http1_1(),
            http2: self.http_versions.spec_http2(),
            bindings: self.bindings@.map_values(|b: HttpBindingId| b@),
            invocation_controls: self.invocation_controls,
        }
    }
}

/// Whether `a` orders before `b`: character by character, by code point, a proper
/// prefix first.
pub open spec fn seq_less(a: Seq<char>, b: Seq<char>) -> bool
    decreases a.len(),
{
    if a.len() == 0 {
        b.len() > 0
    } else if b.len() == 0 {
        false
    } else if a[0] != b[0] {
        (a[0] as int) < (b[0] as int)
    } else {
        seq_less(a.drop_first(), b.drop_first())
    }
}

/// `t` with `x` inserted before its first element that `x` orders before.
pub open spec fn insert_sorted(t: Seq<Seq<char>>, x: Seq<char>) -> Seq<Seq<char>>
    decreases t.len(),
{
    if t.len() == 0 {
        seq![x]
    } else if seq_less(x, t[0]) {
        seq![x] + t
    } else {
        seq![t[0]] + insert_sorted(t.drop_first(), x)
    }
}

/// The elements of `s` in ascending order.
pub open spec fn sort_seq(s: Seq<Seq<char>>) -> Seq<Seq<char>>
    decreases s.len(),
{
    if s.len() == 0 {
        s
    } else {
        insert_sorted(sort_seq(s.drop_last()), s.last())
    }
}

/// Returns whether `a` orders before `b`.
pub fn str_less(a: &str, b: &str) -> (less: bool)
    ensures
        less == seq_less(a@, b@),
{
    let n = a.unicode_len();
    let m = b.unicode_len();
    let mut i: usize = 0;
    assert(a@.skip(0) =~= a@);
    assert(b@.skip(0) =~= b@);
    while i < n && i < m
        invariant
            n == a@.len(),
            m == b@.len(),
            i <= n,
            i <= m,
            seq_less(a@, b@) == seq_less(a@.skip(i as int), b@.skip(i as int)),
        decreases n - i,
    {
        let x = a.get_char(i);
        let y = b.get_char(i);
        assert(a@.skip(i as int)[0] == x);
        assert(b@.skip(i as int)[0] == y);
        if x != y {
            return (x as u32) < (y as u32);
        }
        assert(a@.skip(i as int).drop_first() =~= a@.skip(i + 1));
        assert(b@.skip(i as int).drop_first() =~= b@.skip(i + 1));
        i = i + 1;
    }
    i < m && i == n
}

proof fn lemma_insert_sorted_at(t: Seq<Seq<char>>, x: Seq<char>, p: int)
    requires
        0 <= p <= t.len(),
        forall|k: int| 0 <= k < p ==> !seq_less(x, #[trigger] t[k]),
        p < t.len() ==> seq_less(x, t[p]),
    ensures
        insert_sorted(t, x) == t.insert(p, x),
    decreases p,
{
    if p == 0 {
        if t.len() == 0 {
            assert(t.insert(0, x) =~= seq![x]);
        } else {
            assert(t.insert(0, x) =~= seq![x] + t);
        }
    } else {
        let rest = t.drop_first();
        assert forall|k: int| 0 <= k < p - 1 implies !seq_less(x, #[trigger] rest[k]) by {
            assert(rest[k] == t[k + 1]);
        }
        if p - 1 < rest.len() {
            assert(rest[p - 1] == t[p]);
        }
        lemma_insert_sorted_at(rest, x, p - 1);
        assert(t.insert(p, x) =~= seq![t[0]] + rest.insert(p - 1, x));
    }
}

/// Returns the bindings in ascending order.
pub fn sort_bindings(bindings: &Vec<HttpBindingId>) -> (sorted: Vec<HttpBindingId>)
    ensures
        sorted@.map_values(|b: HttpBindingId| b@) == sort_seq(bindings@.map_values(|b: HttpBindingId| b@)),
{
    let ghost ids = bindings@.map_values(|b: HttpBindingId| b@);
    let mut sorted: Vec<HttpBindingId> = Vec::new();
    let mut i: usize = 0;
    assert(ids.take(0) =~= Seq::<Seq<char>>::empty());
    assert(sorted@.map_values(|b: HttpBindingId| b@) =~= Seq::<Seq<char>>::empty());
    while i < bindings.len()
        invariant
            ids == bindings@.map_values(|b: HttpBindingId| b@),
            i <= ids.len(),
            sorted@.map_values(|b: HttpBindingId| b@) == sort_seq(ids.take(i as int)),
        decreases ids.len() - i,
    {
        let ghost t = sorted@.map_values(|b: HttpBindingId| b@);
        let mut p: usize = 0;
        while p < sorted.len() && !str_less(bindings[i].as_str(), sorted[p].as_str())
            invariant
                t == sorted@.map_values(|b: HttpBindingId| b@),
                ids == bindings@.map_values(|b: HttpBindingId| b@),
                i < ids.len(),
                p <= t.len(),
                forall|k: int| 0 <= k < p ==> !seq_less(ids[i as int], #[trigger] t[k]),
            decreases t.len() - p,
        {
            p = p + 1;
        }
        proof {
            lemma_insert_sorted_at(t, ids[i as int], p as int);
            assert(ids.take(i + 1).drop_last() =~= ids.take(i as int));
        }
        sorted.insert(p, bindings[i].duplicate());
        assert(sorted@.map_values(|b: HttpBindingId| b@) =~= t.insert(p as int, ids[i as int]));
        i = i + 1;
    }
    assert(ids.take(ids.len() as int) =~= ids);
    sorted
}

/// Whether no binding occurs twice.
pub open spec fn distinct(bindings: Seq<Seq<char>>) -> bool {
    forall|i: int, j: int| 0 <= i < j < bindings.len() ==> bindings[i] != bindings[j]
}

impl EndpointCapabilities {
    #[verifier::type_invariant]
    pub open spec fn well_formed(self) -> bool {
        capabilities_wf(self@)
    }

    /// Declares capabilities; at least one binding is required and none may repeat.
    pub fn new(http_versions: HttpVersionSet, bindings: Vec<HttpBindingId>, invocation_controls: bool) -> (result: Option<Self>)
        ensures
            result is Some <==> (bindings@.len() > 0 && distinct(bindings@.map_values(|b: HttpBindingId| b@))),
            result matches Some(caps) ==> caps@ == (EndpointCapabilitiesView {
                http1_1: http_versions.spec_http1_1(),
                http2: http_versions.spec_http2(),
                bindings: sort_seq(bindings@.map_values(|b: HttpBindingId| b@)),
                invocation_controls,
            }),
            result matches Some(caps) ==> capabilities_wf(caps@),
    {
        if bindings.len() == 0 {
            return None;
        }
        proof {
            use_type_invariant(&http_versions);
        }
        let ghost ids = bindings@.map_values(|b: HttpBindingId| b@);
        let mut i: usize = 0;
        while i < bindings.len()
            invariant
                ids == bindings@.map_values(|b: HttpBindingId| b@),
                i <= bindings@.len(),
                forall|a: int, b: int| 0 <= a < b < i ==> ids[a] != ids[b],
                forall|a: int| 0 <= a < i ==> is_binding_id(#[trigger] ids[a]),
            decreases bindings@.len() - i,
        {
            let current: &HttpBindingId = &bindings[i];
            proof {
                use_type_invariant(current);
            }
            let mut j: usize = 0;
            while j < i
                invariant
                    ids == bindings@.map_values(|b: HttpBindingId| b@),
                    i < bindings@.len(),
                    j <= i,
                    forall|a: int, b: int| 0 <= a < b < i ==> ids[a] != ids[b],
                    forall|a: int| 0 <= a < j ==> ids[a] != ids[i as int],
                decreases i - j,
            {
                if str_eq(bindings[j].as_str(), bindings[i].as_str()) {
                    assert(ids[j as int] == ids[i as int]);
                    assert(!distinct(ids));
                    return None;
                }
                j = j + 1;
            }
            i = i + 1;
        }
        let sorted = sort_bindings(&bindings);
        proof {
            crate::ordering::lemma_sort_sorted(ids);
            let v = sort_seq(ids);
            assert forall|a: int| 0 <= a < v.len() implies is_binding_id(#[trigger] v[a]) by {
                assert(v.contains(v[a]));
                assert(ids.contains(v[a]));
                let k = choose|k: int| 0 <= k < ids.len() && ids[k] == v[a];
                assert(is_binding_id(ids[k]));
            }
        }
        Some(EndpointCapabilities { http_versions, bindings: sorted, invocation_controls })
    }

    /// The capabilities assumed when a provider declares none: HTTP/1.1 only, the JSON
    /// binding, no invocation controls.
    pub fn generic() -> (caps: Self)
        ensures
            caps@ == (EndpointCapabilitiesView {
                http1_1: true,
                http2: false,
                bindings: seq![http_json_v1()],
                invocation_controls: false,
            }),
            capabilities_wf(caps@),
    {
        let mut bindings = Vec::new();
        bindings.push(HttpBindingId::json_v1());
        let caps = EndpointCapabilities { http_versions: HttpVersionSet::http1_1(), bindings, invocation_controls: false };
        assert(caps@.bindings =~= seq![http_json_v1()]);
        caps
    }

    /// Returns the served HTTP versions.
    pub fn http_versions(&self) -> (set: HttpVersionSet)
        ensures
            set.spec_http1_1() == self@.http1_1,
            set.spec_http2() == self@.http2,
    {
        self.http_versions
    }

    /// Returns whether negotiated invocation controls are supported.
    pub fn invocation_controls(&self) -> (supported: bool)
        ensures
            supported == self@.invocation_controls,
    {
        self.invocation_controls
    }

    /// Returns the supported bindings.
    pub fn bindings(&self) -> (bindings: &Vec<HttpBindingId>)
        ensures
            bindings@.map_values(|b: HttpBindingId| b@) == self@.bindings,
            capabilities_wf(self@),
    {
        proof {
            use_type_invariant(self);
        }
        &self.bindings
    }

    /// Returns whether `binding` is supported.
    pub fn supports_binding(&self, binding: &HttpBindingId) -> (supported: bool)
        ensures
            supported == self@.bindings.contains(binding@),
    {
        let ghost ids = self.bindings@.map_values(|b: HttpBindingId| b@);
        let mut i: usize = 0;
        while i < self.bindings.len()
            invariant
                ids == self.bindings@.map_values(|b: HttpBindingId| b@),
                i <= self.bindings@.len(),
                forall|a: int| 0 <= a < i ==> ids[a] != binding@,
            decreases self.bindings@.len() - i,
        {
            if str_eq(self.bindings[i].as_str(), binding.as_str()) {
                assert(ids[i as int] == binding@);
                return true;
            }
            i = i + 1;
        }
        false
    }
}

/// The abstract content of a [`ServiceSelector`].
pub struct ServiceSelectorView {
    pub service_id: Seq<char>,
    pub group: Option<Seq<char>>,
    pub version: Option<Seq<char>>,
}

/// The interface identity a client discovers or a provider registers.
#[derive(Clone, Debug, PartialEq, Eq, Hash)]
pub struct ServiceSelector {
    service_id: String,
    group: Option<String>,
    version: Option<String>,
}

/// The characters of an optional string.
pub open spec fn opt_view(value: Option<String>) -> Option<Seq<char>> {
    match value {
        Some(s) => Some(s@),
        None => None,
    }
}

impl View for ServiceSelector {
    type V = ServiceSelectorView;

    closed spec fn view(&self) -> ServiceSelectorView {
        ServiceSelectorView {
            service_id: self.service_id@,
            group: opt_view(self.group),
            version: opt_view(self.version),
        }
    }
}

impl ServiceSelector {
    /// Creates a selector; the service identifier must not be empty.
    pub fn new(service_id: String, group: Option<String>, version: Option<String>) -> (result: Option<Self>)
        ensures
            result is Some <==> service_id@.len() > 0,
            result matches Some(selector) ==> selector@ == (ServiceSelectorView {
                service_id: service_id@,
                group: opt_view(group),
                version: opt_view(version),
            }),
    {
        if service_id.as_str().unicode_len() == 0 {
            return None;
        }
        Some(ServiceSelector { service_id, group, version })
    }

    /// Returns the service identifier.
    pub fn service_id(&self) -> (id: &str)
        ensures
            id@ == self@.service_id,
    {
        self.service_id.as_str()
    }

    /// Returns the optional group.
    pub fn group(&self) -> (group: Option<&str>)
        ensures
            group matches Some(g) ==> self@.group == Some(g@),
            group is None ==> self@.group is None,
    {
        match &self.group {
            Some(g) => Some(g.as_str()),
            None => None,
        }
    }

    /// Returns the optional version.
    pub fn version(&self) -> (version: Option<&str>)
        ensures
            version matches Some(v) ==> self@.version == Some(v@),
            version is None ==> self@.version is None,
    {
        match &self.version {
            Some(v) => Some(v.as_str()),
            None => None,
        }
    }

    /// Returns whether both selectors name the same service, group and version.
    pub fn same_as(&self, other: &ServiceSelector) -> (same: bool)
        ensures
            same == (self@ == other@),
    {
        if !str_eq(self.service_id.as_str(), other.service_id.as_str()) {
            return false;
        }
        let group = match (&self.group, &other.group) {
            (Some(a), Some(b)) => str_eq(a.as_str(), b.as_str()),
            (None, None) => true,
            _ => false,
        };
        if !group {
            return false;
        }
        match (&self.version, &other.version) {
            (Some(a), Some(b)) => str_eq(a.as_str(), b.as_str()),
            (None, None) => true,
            _ => false,
        }
    }
}

/// Returns whether two string sequences hold the same strings in the same order.
pub fn same_strings(a: &Vec<HttpBindingId>, b: &Vec<HttpBindingId>) -> (same: bool)
    ensures
        same == (a@.map_values(|x: HttpBindingId| x@) == b@.map_values(|x: HttpBindingId| x@)),
{
    let ghost va = a@.map_values(|x: HttpBindingId| x@);
    let ghost vb = b@.map_values(|x: HttpBindingId| x@);
    if a.len() != b.len() {
        assert(va.len() != vb.len());
        return false;
    }
    let mut i: usize = 0;
    while i < a.len()
        invariant
            va == a@.map_values(|x: HttpBindingId| x@),
            vb == b@.map_values(|x: HttpBindingId| x@),
            a@.len() == b@.len(),
            i <= a@.len(),
            forall|k: int| 0 <= k < i ==> va[k] == vb[k],
        decreases a@.len() - i,
    {
        if !str_eq(a[i].as_str(), b[i].as_str()) {
            assert(va[i as int] != vb[i as int]);
            return false;
        }
        i = i + 1;
    }
    assert(va =~= vb);
    true
}

/// Returns whether two key and value lists hold the same pairs in the same order.
pub fn same_pairs(a: &Vec<(String, String)>, b: &Vec<(String, String)>) -> (same: bool)
    ensures
        same == (pairs_view(a@) == pairs_view(b@)),
{
    let ghost va = pairs_view(a@);
    let ghost vb = pairs_view(b@);
    if a.len() != b.len() {
        assert(va.len() != vb.len());
        return false;
    }
    let mut i: usize = 0;
    while i < a.len()
        invariant
            va == pairs_view(a@),
            vb == pairs_view(b@),
            a@.len() == b@.len(),
            i <= a@.len(),
            forall|k: int| 0 <= k < i ==> va[k] == vb[k],
        decreases a@.len() - i,
    {
        if !str_eq(a[i].0.as_str(), b[i].0.as_str()) || !str_eq(a[i].1.as_str(), b[i].1.as_str()) {
            assert(va[i as int] != vb[i as int]);
            return false;
        }
        i = i + 1;
    }
    assert(va =~= vb);
    true
}

/// The characters of each key and value.
pub open spec fn pairs_view(pairs: Seq<(String, String)>) -> Seq<(Seq<char>, Seq<char>)> {
    pairs.map_values(|p: (String, String)| (p.0@, p.1@))
}

impl EndpointCapabilities {
    /// Returns whether both declare the same versions, bindings and controls.
    pub fn same_as(&self, other: &EndpointCapabilities) -> (same: bool)
        ensures
            same == (self@ == other@),
    {
        self.http_versions.serves_http1_1() == other.http_versions.serves_http1_1()
            && self.http_versions.serves_http2() == other.http_versions.serves_http2()
            && self.invocation_controls == other.invocation_controls
            && same_strings(&self.bindings, &other.bindings)
    }
}

/// Whether an endpoint URL uses TLS.
pub open spec fn is_secure_endpoint(endpoint: Seq<char>) -> bool {
    endpoint.len() >= 6 && endpoint.subrange(0, 6) == "https:"@
}

/// The abstract content of a [`ServiceInstance`].
pub struct ServiceInstanceView {
    pub instance_id: Seq<char>,
    pub endpoint: Seq<char>,
    pub capabilities: EndpointCapabilitiesView,
    pub weight_bits: u64,
    pub metadata: Seq<(Seq<char>, Seq<char>)>,
}

/// One routable provider instance: its identifier, its normalized endpoint URL, its
/// capabilities, its routing weight (the bits of a positive finite number) and its
/// user metadata.
#[derive(Clone, Debug)]
pub struct ServiceInstance {
    instance_id: String,
    endpoint: String,
    capabilities: EndpointCapabilities,
    weight_bits: u64,
    metadata: Vec<(String, String)>,
}

impl View for ServiceInstance {
    type V = ServiceInstanceView;

    closed spec fn view(&self) -> ServiceInstanceView {
        ServiceInstanceView {
            instance_id: self.instance_id@,
            endpoint: self.endpoint@,
            capabilities: self.capabilities@,
            weight_bits: self.weight_bits,
            metadata: pairs_view(self.metadata@),
        }
    }
}

impl ServiceInstance {
    /// Assembles an instance from validated parts.
    pub fn new(instance_id: String, endpoint: String, capabilities: EndpointCapabilities, weight_bits: u64,
        metadata: Vec<(String, String)>) -> (instance: Self)
        ensures
            instance@ == (ServiceInstanceView {
                instance_id: instance_id@,
                endpoint: endpoint@,
                capabilities: capabilities@,
                weight_bits,
                metadata: pairs_view(metadata@),
            }),
    {
        ServiceInstance { instance_id, endpoint, capabilities, weight_bits, metadata }
    }

    /// Returns the instance identifier.
    pub fn instance_id(&self) -> (id: &str)
        ensures
            id@ == self@.instance_id,
    {
        self.instance_id.as_str()
    }

    /// Returns the normalized endpoint URL.
    pub fn endpoint(&self) -> (endpoint: &str)
        ensures
            endpoint@ == self@.endpoint,
    {
        self.endpoint.as_str()
    }

    /// Returns the capabilities.
    pub fn capabilities(&self) -> (capabilities: &EndpointCapabilities)
        ensures
            capabilities@ == self@.capabilities,
    {
        &self.capabilities
    }

    /// Returns the bits of the routing weight.
    pub fn weight_bits(&self) -> (bits: u64)
        ensures
            bits == self@.weight_bits,
    {
        self.weight_bits
    }

    /// Returns the user metadata.
    pub fn metadata(&self) -> (metadata: &Vec<(String, String)>)
        ensures
            pairs_view(metadata@) == self@.metadata,
    {
        &self.metadata
    }

    /// Returns whether the endpoint uses TLS.
    pub fn is_secure(&self) -> (secure: bool)
        ensures
            secure == is_secure_endpoint(self@.endpoint),
    {
        proof {
            reveal_strlit("https:");
        }
        starts_with(self.endpoint.as_str(), "https:")
    }

    /// Returns whether both instances agree in every part.
    pub fn same_as(&self, other: &ServiceInstance) -> (same: bool)
        ensures
            same == (self@ == other@),
    {
        str_eq(self.instance_id.as_str(), other.instance_id.as_str())
            && str_eq(self.endpoint.as_str(), other.endpoint.as_str())
            && self.capabilities.same_as(&other.capabilities)
            && self.weight_bits == other.weight_bits
            && same_pairs(&self.metadata, &other.metadata)
    }
}

/// Returns an equal copy of a key and value list.
pub fn duplicate_pairs(pairs: &Vec<(String, String)>) -> (copy: Vec<(String, String)>)
    ensures
        pairs_view(copy@) == pairs_view(pairs@),
{
    let mut copy: Vec<(String, String)> = Vec::new();
    let mut i: usize = 0;
    while i < pairs.len()
        invariant
            i <= pairs@.len(),
            copy@.len() == i,
            forall|k: int| 0 <= k < i ==> (#[trigger] copy@[k]).0@ == pairs@[k].0@ && copy@[k].1@ == pairs@[k].1@,
        decreases pairs@.len() - i,
    {
        let key = pairs[i].0.clone();
        let value = pairs[i].1.clone();
        copy.push((key, value));
        i = i + 1;
    }
    assert(pairs_view(copy@) =~= pairs_view(pairs@));
    copy
}

impl EndpointCapabilities {
    /// Returns an equal copy.
    pub fn duplicate(&self) -> (copy: Self)
        ensures
            copy@ == self@,
    {
        proof {
            use_type_invariant(self);
        }
        let mut bindings: Vec<HttpBindingId> = Vec::new();
        let mut i: usize = 0;
        while i < self.bindings.len()
            invariant
                i <= self.bindings@.len(),
                bindings@.len() == i,
                forall|k: int| 0 <= k < i ==> (#[trigger] bindings@[k])@ == self.bindings@[k]@,
            decreases self.bindings@.len() - i,
        {
            bindings.push(self.bindings[i].duplicate());
            i = i + 1;
        }
        assert(bindings@.map_values(|b: HttpBindingId| b@) =~= self.bindings@.map_values(|b: HttpBindingId| b@));
        let copy = EndpointCapabilities {
            http_versions: self.http_versions,
            bindings,
            invocation_controls: self.invocation_controls,
        };
        assert(copy@.bindings =~= self@.bindings);
        copy
    }
}

impl Clone for EndpointCapabilities {
    fn clone(&self) -> (copy: Self)
        ensures
            copy@ == self@,
    {
        self.duplicate()
    }
}

impl ServiceInstance {
    /// Returns an equal copy.
    pub fn duplicate(&self) -> (copy: Self)
        ensures
            copy@ == self@,
    {
        ServiceInstance {
            instance_id: self.instance_id.clone(),
            endpoint: self.endpoint.clone(),
            capabilities: self.capabilities.duplicate(),
            weight_bits: self.weight_bits,
            metadata: duplicate_pairs(&self.metadata),
        }
    }
}

} // verus!
