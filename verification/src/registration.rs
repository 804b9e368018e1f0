use crate::contract::{EndpointCapabilities, HttpBindingId, ServiceInstance, ServiceInstanceView, ServiceSelector, pairs_view};
use crate::invocation::keep;
use crate::membership::unique_keys;
use crate::nacos::encode_http_versions;
use crate::registry::{RegistryError, RegistryErrorKind, RegistryOperation};
use crate::text::str_eq;
use vstd::prelude::*;
use vstd::string::*;

verus! {

/// The scheme, host, port (explicit or the scheme's default) and path that
/// `url::Url` reports for a URL text, or `None` when the text does not parse.
pub uninterp spec fn url_parts(url: Seq<char>) -> Option<(Seq<char>, Option<Seq<char>>, Option<u16>, Seq<char>)>;

/// The parts of a parsed URL.
pub struct UrlParts {
    /// The scheme, lower-cased.
    pub scheme: String,
    /// The host, if the URL has one.
    pub host: Option<String>,
    /// The explicit port, else the scheme's default port, if either exists.
    pub port: Option<u16>,
    /// The path.
    pub path: String,
}

/// Parses `url` with `url::Url::parse` and reads its scheme, `host_str`,
/// `port_or_known_default` and path. The contract only names the result: it is
/// `url_parts` of the text, whatever the url crate computes for it.
#[verifier::external_body]
fn parse_url(url: &str) -> (parts: Option<UrlParts>)
    ensures
        match parts {
            Some(p) => url_parts(url@) == Some((
                p.scheme@,
                match p.host { Some(h) => Some(h@), None => None::<Seq<char>> },
                p.port,
                p.path@,
            )),
            None => url_parts(url@) is None,
        },
{
    match url::Url::parse(url) {
        Ok(parsed) => Some(UrlParts {
            scheme: parsed.scheme().to_owned(),
            host: parsed.host_str().map(str::to_owned),
            port: parsed.port_or_known_default(),
            path: parsed.path().to_owned(),
        }),
        Err(_) => None,
    }
}

/// The map that a list of key and value pairs describes: a later pair replaces an
/// earlier one with the same key.
pub open spec fn as_map(pairs: Seq<(Seq<char>, Seq<char>)>) -> Map<Seq<char>, Seq<char>>
    decreases pairs.len(),
{
    if pairs.len() == 0 {
        Map::empty()
    } else {
        as_map(pairs.drop_last()).insert(pairs.last().0, pairs.last().1)
    }
}

/// `m` after inserting every pair of `pairs`, in order.
pub open spec fn insert_all(m: Map<Seq<char>, Seq<char>>, pairs: Seq<(Seq<char>, Seq<char>)>) -> Map<Seq<char>, Seq<char>>
    decreases pairs.len(),
{
    if pairs.len() == 0 {
        m
    } else {
        insert_all(m, pairs.drop_last()).insert(pairs.last().0, pairs.last().1)
    }
}

proof fn lemma_as_map_update(pairs: Seq<(Seq<char>, Seq<char>)>, i: int, value: Seq<char>)
    requires
        unique_keys(pairs),
        0 <= i < pairs.len(),
    ensures
        as_map(pairs.update(i, (pairs[i].0, value))) == as_map(pairs).insert(pairs[i].0, value),
    decreases pairs.len(),
{
    let updated = pairs.update(i, (pairs[i].0, value));
    if i == pairs.len() - 1 {
        assert(updated.drop_last() =~= pairs.drop_last());
        assert(as_map(updated) =~= as_map(pairs).insert(pairs[i].0, value));
    } else {
        assert(updated.drop_last() =~= pairs.drop_last().update(i, (pairs[i].0, value)));
        lemma_as_map_update(pairs.drop_last(), i, value);
        assert(pairs.last().0 != pairs[i].0);
        assert(as_map(updated) =~= as_map(pairs).insert(pairs[i].0, value));
    }
}

proof fn lemma_as_map_absent(pairs: Seq<(Seq<char>, Seq<char>)>, key: Seq<char>)
    requires
        forall|i: int| 0 <= i < pairs.len() ==> pairs[i].0 != key,
    ensures
        !as_map(pairs).contains_key(key),
    decreases pairs.len(),
{
    if pairs.len() > 0 {
        lemma_as_map_absent(pairs.drop_last(), key);
    }
}

/// Sets `key` to `value`, replacing an earlier value.
pub fn put(metadata: &mut Vec<(String, String)>, key: &str, value: &str)
    requires
        unique_keys(pairs_view(old(metadata)@)),
    ensures
        unique_keys(pairs_view(final(metadata)@)),
        as_map(pairs_view(final(metadata)@)) == as_map(pairs_view(old(metadata)@)).insert(key@, value@),
{
    let ghost before = pairs_view(metadata@);
    let mut i: usize = 0;
    while i < metadata.len()
        invariant
            before == pairs_view(metadata@),
            unique_keys(before),
            *metadata == *old(metadata),
            i <= before.len(),
            forall|k: int| 0 <= k < i ==> before[k].0 != key@,
        decreases before.len() - i,
    {
        if str_eq(metadata[i].0.as_str(), key) {
            let entry = (metadata[i].0.clone(), value.to_owned());
            metadata.set(i, entry);
            proof {
                assert(pairs_view(metadata@) =~= before.update(i as int, (before[i as int].0, value@)));
                lemma_as_map_update(before, i as int, value@);
                assert forall|a: int, b: int| 0 <= a < b < pairs_view(metadata@).len() implies
                    #[trigger] pairs_view(metadata@)[a].0 != #[trigger] pairs_view(metadata@)[b].0 by {
                    assert(pairs_view(metadata@)[a].0 == before[a].0);
                    assert(pairs_view(metadata@)[b].0 == before[b].0);
                }
            }
            return;
        }
        i = i + 1;
    }
    metadata.push((key.to_owned(), value.to_owned()));
    proof {
        assert(pairs_view(metadata@) =~= before.push((key@, value@)));
        assert(pairs_view(metadata@).drop_last() =~= before);
        assert forall|a: int, b: int| 0 <= a < b < pairs_view(metadata@).len() implies
            #[trigger] pairs_view(metadata@)[a].0 != #[trigger] pairs_view(metadata@)[b].0 by {
            if b == before.len() {
                assert(pairs_view(metadata@)[a] == before[a]);
            }
        }
    }
}

/// Sets every pair of `pairs`, in order.
pub fn put_all(metadata: &mut Vec<(String, String)>, pairs: &Vec<(String, String)>)
    requires
        unique_keys(pairs_view(old(metadata)@)),
    ensures
        unique_keys(pairs_view(final(metadata)@)),
        as_map(pairs_view(final(metadata)@)) == insert_all(as_map(pairs_view(old(metadata)@)), pairs_view(pairs@)),
{
    let ghost start = as_map(pairs_view(metadata@));
    let ghost all = pairs_view(pairs@);
    let mut i: usize = 0;
    while i < pairs.len()
        invariant
            start == as_map(pairs_view(old(metadata)@)),
            all == pairs_view(pairs@),
            i <= all.len(),
            unique_keys(pairs_view(metadata@)),
            as_map(pairs_view(metadata@)) == insert_all(start, all.take(i as int)),
        decreases all.len() - i,
    {
        assert(all.take(i + 1).drop_last() =~= all.take(i as int));
        put(metadata, pairs[i].0.as_str(), pairs[i].1.as_str());
        i = i + 1;
    }
    assert(all.take(all.len() as int) =~= all);
}

/// The comma-separated list of `parts`.
pub open spec fn join_commas(parts: Seq<Seq<char>>) -> Seq<char>
    decreases parts.len(),
{
    if parts.len() == 0 {
        Seq::empty()
    } else if parts.len() == 1 {
        parts[0]
    } else {
        join_commas(parts.drop_last()) + seq![','] + parts.last()
    }
}

/// Joins binding identifiers with commas.
pub fn join_bindings(bindings: &Vec<HttpBindingId>) -> (joined: String)
    ensures
        joined@ == join_commas(bindings@.map_values(|b: HttpBindingId| b@)),
{
    let ghost ids = bindings@.map_values(|b: HttpBindingId| b@);
    let mut joined = String::new();
    let mut i: usize = 0;
    proof {
        reveal_strlit(",");
    }
    while i < bindings.len()
        invariant
            ids == bindings@.map_values(|b: HttpBindingId| b@),
            i <= ids.len(),
            joined@ == join_commas(ids.take(i as int)),
        decreases ids.len() - i,
    {
        let ghost prefix = ids.take(i + 1);
        assert(prefix.drop_last() =~= ids.take(i as int));
        assert(prefix.last() == ids[i as int]);
        if i > 0 {
            proof {
                reveal_strlit(",");
            }
            joined.append(",");
            joined.append(bindings[i].as_str());
            assert(joined@ =~= join_commas(ids.take(i as int)) + seq![','] + ids[i as int]);
        } else {
            joined.append(bindings[i].as_str());
            assert(prefix.len() == 1);
            assert(joined@ =~= ids[0]);
        }
        i = i + 1;
    }
    assert(ids.take(ids.len() as int) =~= ids);
    joined
}

/// A provider's registration: where it is served, what it serves and its metadata.
pub struct Registration {
    selector: ServiceSelector,
    selector_metadata: Vec<(String, String)>,
    metadata: Vec<(String, String)>,
    instance_id: String,
    endpoint: String,
    capabilities: EndpointCapabilities,
    weight_bits: u64,
}

impl Registration {
    #[verifier::type_invariant]
    spec fn endpoint_parses(self) -> bool {
        &&& url_parts(self.endpoint@) is Some
        &&& crate::contract::capabilities_wf(self.capabilities@)
    }

    /// Assembles a registration; fails when `endpoint` is not a URL.
    pub fn new(selector: ServiceSelector, selector_metadata: Vec<(String, String)>, metadata: Vec<(String, String)>,
        instance_id: String, endpoint: String, capabilities: EndpointCapabilities, weight_bits: u64) -> (result: Option<Self>)
        ensures
            result is Some <==> url_parts(endpoint@) is Some,
            result matches Some(r) ==> r.spec_endpoint() == endpoint@ && r.spec_selector() == selector@
                && r.spec_instance_id() == instance_id@ && r.spec_capabilities() == capabilities@
                && r.spec_weight_bits() == weight_bits && r.spec_selector_metadata() == pairs_view(selector_metadata@)
                && r.spec_metadata() == pairs_view(metadata@),
            result matches Some(r) ==> crate::contract::capabilities_wf(r.spec_capabilities()),
    {
        proof {
            use_type_invariant(&capabilities);
        }
        match parse_url(endpoint.as_str()) {
            Some(_) => Some(Registration {
                selector,
                selector_metadata,
                metadata,
                instance_id,
                endpoint,
                capabilities,
                weight_bits,
            }),
            None => None,
        }
    }

    /// The selector.
    pub closed spec fn spec_selector(&self) -> crate::contract::ServiceSelectorView {
        self.selector@
    }

    /// The selector's own metadata.
    pub closed spec fn spec_selector_metadata(&self) -> Seq<(Seq<char>, Seq<char>)> {
        pairs_view(self.selector_metadata@)
    }

    /// The registration's metadata.
    pub closed spec fn spec_metadata(&self) -> Seq<(Seq<char>, Seq<char>)> {
        pairs_view(self.metadata@)
    }

    /// The instance identifier.
    pub closed spec fn spec_instance_id(&self) -> Seq<char> {
        self.instance_id@
    }

    /// The endpoint URL.
    pub closed spec fn spec_endpoint(&self) -> Seq<char> {
        self.endpoint@
    }

    /// The capabilities.
    pub closed spec fn spec_capabilities(&self) -> crate::contract::EndpointCapabilitiesView {
        self.capabilities@
    }

    /// The bits of the routing weight.
    pub closed spec fn spec_weight_bits(&self) -> u64 {
        self.weight_bits
    }
}

/// The Nacos instance a registration publishes.
pub struct RegisteredInstance {
    /// The instance identifier.
    pub instance_id: Option<String>,
    /// The address.
    pub ip: String,
    /// The port.
    pub port: i32,
    /// The bits of the routing weight.
    pub weight_bits: u64,
    /// The metadata, one value per key.
    pub metadata: Vec<(String, String)>,
}

/// The host an instance registers under: an IPv6 literal loses its brackets.
pub open spec fn registered_ip(host: Seq<char>) -> Seq<char> {
    if host.len() >= 2 && host[0] == '[' && host.last() == ']' {
        host.subrange(1, host.len() - 1)
    } else {
        host
    }
}

/// The metadata a registration carries from its lists: the selector's metadata,
/// overridden by the registration's.
pub open spec fn user_registration_metadata(r: Registration) -> Map<Seq<char>, Seq<char>> {
    insert_all(insert_all(Map::empty(), r.spec_selector_metadata()), r.spec_metadata())
}

/// The metadata a registration publishes: its own metadata, then the reserved keys.
pub open spec fn registered_metadata(r: Registration, scheme: Seq<char>, path: Seq<char>) -> Map<Seq<char>, Seq<char>> {
    let base = user_registration_metadata(r)
        .insert("fusen.scheme"@, scheme)
        .insert("fusen.service_id"@, r.spec_selector().service_id)
        .insert("fusen.instance_id"@, r.spec_instance_id())
        .insert("fusen.http.bindings"@, join_commas(r.spec_capabilities().bindings))
        .insert("fusen.http.versions"@, versions_text(r.spec_capabilities().http1_1, r.spec_capabilities().http2));
    let controls = if r.spec_capabilities().invocation_controls { base.insert("fusen.invocation-controls"@, "v1"@) } else { base };
    let based = if path != "/"@ && path.len() > 0 { controls.insert("fusen.base_path"@, path) } else { controls };
    let versioned = match r.spec_selector().version { Some(v) => based.insert("fusen.version"@, v), None => based };
    match r.spec_selector().group { Some(g) => versioned.insert("fusen.group"@, g), None => versioned }
}

/// The metadata text of a version set.
pub open spec fn versions_text(http1_1: bool, http2: bool) -> Seq<char> {
    if http1_1 && !http2 {
        "1.1"@
    } else if !http1_1 && http2 {
        "2"@
    } else {
        "1.1,2"@
    }
}

/// Builds the Nacos instance of a registration: its host (without IPv6 brackets) and
/// port come from the endpoint URL, and its metadata carries the selector's and the
/// registration's metadata under the reserved keys that discovery decodes.
pub fn build_instance(registration: &Registration) -> (result: Result<RegisteredInstance, RegistryError>)
    ensures
        match url_parts(registration.spec_endpoint()) {
            Some((scheme, host, port, path)) => match (host, port) {
                (None, _) => result matches Err(e) && e.spec_operation() == RegistryOperation::PrepareRegistration
                    && e.spec_kind() == RegistryErrorKind::InvalidResource
                    && e.spec_message() == "advertised endpoint has no host"@,
                (Some(_), None) => result matches Err(e) && e.spec_operation() == RegistryOperation::PrepareRegistration
                    && e.spec_kind() == RegistryErrorKind::InvalidResource
                    && e.spec_message() == "advertised endpoint has no port"@,
                (Some(h), Some(p)) => result matches Ok(instance)
                    && instance.instance_id matches Some(id) && id@ == registration.spec_instance_id()
                    && instance.ip@ == registered_ip(h)
                    && instance.port == p as i32
                    && instance.weight_bits == registration.spec_weight_bits()
                    && unique_keys(pairs_view(instance.metadata@))
                    && as_map(pairs_view(instance.metadata@)) == registered_metadata(*registration, scheme, path),
            },
            None => false,
        },
        crate::contract::capabilities_wf(registration.spec_capabilities()),
{
    proof {
        use_type_invariant(registration);
    }
    let parts = match parse_url(registration.endpoint.as_str()) {
        Some(parts) => parts,
        None => {
            return Err(RegistryError::message(
                RegistryOperation::PrepareRegistration,
                RegistryErrorKind::InvalidResource,
                "advertised endpoint has no host",
            ));
        },
    };
    let host = match parts.host {
        Some(host) => host,
        None => {
            return Err(RegistryError::message(
                RegistryOperation::PrepareRegistration,
                RegistryErrorKind::InvalidResource,
                "advertised endpoint has no host",
            ));
        },
    };
    let ip = strip_brackets(host.as_str());
    let port = match parts.port {
        Some(port) => port,
        None => {
            return Err(RegistryError::message(
                RegistryOperation::PrepareRegistration,
                RegistryErrorKind::InvalidResource,
                "advertised endpoint has no port",
            ));
        },
    };
    let mut metadata: Vec<(String, String)> = Vec::new();
    assert(pairs_view(metadata@) =~= Seq::empty());
    assert(as_map(pairs_view(metadata@)) == Map::<Seq<char>, Seq<char>>::empty());
    put_all(&mut metadata, &registration.selector_metadata);
    put_all(&mut metadata, &registration.metadata);
    put(&mut metadata, "fusen.scheme", parts.scheme.as_str());
    put(&mut metadata, "fusen.service_id", registration.selector.service_id());
    put(&mut metadata, "fusen.instance_id", registration.instance_id.as_str());
    let bindings = join_bindings(registration.capabilities.bindings());
    put(&mut metadata, "fusen.http.bindings", bindings.as_str());
    let versions = encode_http_versions(registration.capabilities.http_versions());
    proof {
        reveal_strlit("1.1");
        reveal_strlit("2");
        reveal_strlit("1.1,2");
    }
    put(&mut metadata, "fusen.http.versions", versions);
    if registration.capabilities.invocation_controls() {
        put(&mut metadata, "fusen.invocation-controls", "v1");
    }
    proof {
        reveal_strlit("/");
    }
    if !str_eq(parts.path.as_str(), "/") && parts.path.as_str().unicode_len() > 0 {
        put(&mut metadata, "fusen.base_path", parts.path.as_str());
    }
    match registration.selector.version() {
        Some(version) => put(&mut metadata, "fusen.version", version),
        None => {},
    }
    match registration.selector.group() {
        Some(group) => put(&mut metadata, "fusen.group", group),
        None => {},
    }
    Ok(RegisteredInstance {
        instance_id: Some(registration.instance_id.clone()),
        ip,
        port: port as i32,
        weight_bits: registration.weight_bits,
        metadata,
    })
}

/// Removes the brackets around an IPv6 literal host.
pub fn strip_brackets(host: &str) -> (ip: String)
    ensures
        ip@ == registered_ip(host@),
{
    let n = host.unicode_len();
    if n >= 2 && host.get_char(0) == '[' && host.get_char(n - 1) == ']' {
        host.substring_char(1, n - 1).to_owned()
    } else {
        host.to_owned()
    }
}

/// The text `url::Url` gives the URL parsed from `base` after its path segments are
/// replaced by `segments` (when present), or `None` when `base` does not parse or
/// cannot take path segments.
pub uninterp spec fn endpoint_url(base: Seq<char>, segments: Option<Seq<Seq<char>>>) -> Option<Seq<char>>;

/// Parses `base` with `url::Url::parse`, replaces its path segments through
/// `path_segments_mut` (`clear`, then `extend`) when `segments` are given, and returns
/// the URL text. The contract only names the result.
#[verifier::external_body]
fn build_endpoint_url(base: &str, segments: Option<&Vec<String>>) -> (url: Option<String>)
    ensures
        match url {
            Some(u) => endpoint_url(base@, match segments { Some(s) => Some(s@.map_values(|x: String| x@)), None => None }) == Some(u@),
            None => endpoint_url(base@, match segments { Some(s) => Some(s@.map_values(|x: String| x@)), None => None }) is None,
        },
{
    let mut url = url::Url::parse(base).ok()?;
    if let Some(segments) = segments {
        url.path_segments_mut().ok()?.clear().extend(segments.iter());
    }
    Some(url.to_string())
}

/// The result of `percent_encoding::percent_decode_str` decoded as UTF-8, or `None`
/// when the decoded bytes are not UTF-8.
pub uninterp spec fn percent_decoded(segment: Seq<char>) -> Option<Seq<char>>;

/// Percent-decodes a path segment with `percent_decode_str(..).decode_utf8()`. The
/// contract names the result and states what the crate's source shows of text without
/// a `%`: its bytes are kept as they are, so it decodes to itself.
#[verifier::external_body]
fn percent_decode_segment(segment: &str) -> (decoded: Option<String>)
    ensures
        match decoded {
            Some(d) => percent_decoded(segment@) == Some(d@),
            None => percent_decoded(segment@) is None,
        },
        decoded is Some || segment@.contains('%'),
        decoded matches Some(d) ==> (d@ == segment@ || segment@.contains('%')),
{
    match percent_encoding::percent_decode_str(segment).decode_utf8() {
        Ok(text) => Some(text.into_owned()),
        Err(_) => None,
    }
}

/// A port number Nacos reported, when it is a valid non-zero `u16`.
pub open spec fn instance_port(port: i32) -> Option<u16> {
    if 1 <= port <= 65535 {
        Some(port as u16)
    } else {
        None
    }
}

/// The decimal digits of `n`.
pub open spec fn decimal(n: nat) -> Seq<char>
    decreases n,
{
    if n < 10 {
        seq![digit_char(n)]
    } else {
        decimal(n / 10).push(digit_char(n % 10))
    }
}

/// The character of a decimal digit.
pub open spec fn digit_char(d: nat) -> char {
    if d == 0 { '0' } else if d == 1 { '1' } else if d == 2 { '2' } else if d == 3 { '3' } else if d == 4 { '4' }
    else if d == 5 { '5' } else if d == 6 { '6' } else if d == 7 { '7' } else if d == 8 { '8' } else { '9' }
}

fn digit_text(d: u32) -> (text: &'static str)
    requires
        d < 10,
    ensures
        text@ == seq![digit_char(d as nat)],
{
    proof {
        reveal_strlit("0");
        reveal_strlit("1");
        reveal_strlit("2");
        reveal_strlit("3");
        reveal_strlit("4");
        reveal_strlit("5");
        reveal_strlit("6");
        reveal_strlit("7");
        reveal_strlit("8");
        reveal_strlit("9");
    }
    if d == 0 { "0" } else if d == 1 { "1" } else if d == 2 { "2" } else if d == 3 { "3" } else if d == 4 { "4" }
    else if d == 5 { "5" } else if d == 6 { "6" } else if d == 7 { "7" } else if d == 8 { "8" } else { "9" }
}

/// Appends the decimal digits of `n`.
pub fn append_decimal(text: &mut String, n: u32)
    ensures
        final(text)@ == old(text)@ + decimal(n as nat),
    decreases n,
{
    if n < 10 {
        text.append(digit_text(n));
    } else {
        append_decimal(text, n / 10);
        text.append(digit_text(n % 10));
        assert(old(text)@ + decimal(n as nat) =~= old(text)@ + decimal((n / 10) as nat) + seq![digit_char((n % 10) as nat)]);
    }
}

/// The scheme an instance is served with: its metadata entry, `http` by default.
pub open spec fn instance_scheme(metadata: Seq<(Seq<char>, Seq<char>)>) -> Seq<char> {
    match crate::nacos::lookup(metadata, "fusen.scheme"@) {
        Some(s) => s,
        None => "http"@,
    }
}

/// The host text of an address: IPv6 literals are bracketed.
pub open spec fn host_text(ip: Seq<char>, ipv6: bool) -> Seq<char> {
    if ipv6 { seq!['['] + ip + seq![']'] } else { ip }
}

/// The non-empty pieces of a base path between slashes.
pub open spec fn path_pieces(path: Seq<char>) -> Seq<Seq<char>> {
    keep(crate::chars::split_on(path, '/'), |piece: Seq<char>| piece.len() > 0)
}

/// The decoded pieces, or `None` when one does not decode.
pub open spec fn decoded_pieces(pieces: Seq<Seq<char>>) -> Option<Seq<Seq<char>>>
    decreases pieces.len(),
{
    if pieces.len() == 0 {
        Some(Seq::empty())
    } else {
        match (decoded_pieces(pieces.drop_last()), percent_decoded(pieces.last())) {
            (Some(rest), Some(last)) => Some(rest.push(last)),
            _ => None,
        }
    }
}

/// Whether a metadata key belongs to the reserved `fusen.` namespace.
pub open spec fn is_reserved_key(key: Seq<char>) -> bool {
    key.len() >= 6 && key.subrange(0, 6) == "fusen."@
}

/// The instance identifier: the metadata entry, else the one Nacos stores, else one
/// made of the address and port.
pub open spec fn instance_identifier(instance: NacosInstance, port: u16) -> Seq<char> {
    match crate::nacos::lookup(pairs_view(instance.metadata@), "fusen.instance_id"@) {
        Some(id) => id,
        None => match instance.instance_id {
            Some(id) => id@,
            None => "nacos:"@ + instance.ip@ + seq![':'] + decimal(port as nat),
        },
    }
}

/// The endpoint URL of an instance, when every part is acceptable.
pub open spec fn instance_url(instance: NacosInstance) -> Option<Seq<char>> {
    let md = pairs_view(instance.metadata@);
    match instance_port(instance.port) {
        None => None,
        Some(port) => {
            let scheme = instance_scheme(md);
            if scheme != "http"@ && scheme != "https"@ {
                None
            } else {
                let base = scheme + "://"@ + host_text(instance.ip@, instance.ipv6) + seq![':'] + decimal(port as nat);
                match crate::nacos::lookup(md, "fusen.base_path"@) {
                    None => endpoint_url(base, None),
                    Some(path) => match decoded_pieces(path_pieces(path)) {
                        None => None,
                        Some(pieces) => endpoint_url(base, Some(pieces)),
                    },
                }
            }
        },
    }
}

/// A Nacos service instance as this library reads it.
pub struct NacosInstance {
    /// The instance identifier Nacos stores, if any.
    pub instance_id: Option<String>,
    /// The address.
    pub ip: String,
    /// Whether the address is an IPv6 literal.
    pub ipv6: bool,
    /// The port.
    pub port: i32,
    /// The bits of the routing weight.
    pub weight_bits: u64,
    /// Whether Nacos reports the instance healthy.
    pub healthy: bool,
    /// Whether the instance is enabled.
    pub enabled: bool,
    /// The metadata, one value per key.
    pub metadata: Vec<(String, String)>,
}

/// Whether a weight's bits encode a number greater than zero: not negative, not zero
/// and not NaN.
pub open spec fn is_positive_weight(bits: u64) -> bool {
    &&& bits >> 63u64 == 0
    &&& bits != 0
    &&& !((bits >> 52u64) & 0x7ff == 0x7ff && bits & 0xf_ffff_ffff_ffff != 0)
}

/// Returns whether a weight's bits encode a number greater than zero.
pub fn positive_weight(bits: u64) -> (positive: bool)
    ensures
        positive == is_positive_weight(bits),
{
    bits >> 63u64 == 0 && bits != 0 && !((bits >> 52u64) & 0x7ff == 0x7ff && bits & 0xf_ffff_ffff_ffff != 0)
}

/// The user metadata of an instance: every entry outside the reserved namespace.
pub open spec fn user_metadata(metadata: Seq<(Seq<char>, Seq<char>)>) -> Seq<(Seq<char>, Seq<char>)> {
    keep(metadata, |entry: (Seq<char>, Seq<char>)| !is_reserved_key(entry.0))
}

/// The service instance Nacos reports, when its port, scheme, base path and
/// capabilities are acceptable.
pub open spec fn discovered_instance(instance: NacosInstance, convention: crate::nacos::NacosConvention)
    -> Option<ServiceInstanceView> {
    let md = pairs_view(instance.metadata@);
    match (instance_url(instance), crate::nacos::decoded_capabilities(md, convention)) {
        (Some(url), Some(caps)) => Some(ServiceInstanceView {
            instance_id: instance_identifier(instance, instance_port(instance.port)->Some_0),
            endpoint: url,
            capabilities: caps,
            weight_bits: instance.weight_bits,
            metadata: user_metadata(md),
        }),
        _ => None,
    }
}

proof fn lemma_decoded_prefix_none(views: Seq<Seq<char>>, n: int)
    requires
        0 <= n <= views.len(),
        decoded_pieces(keep(views.take(n), |piece: Seq<char>| piece.len() > 0)) is None,
    ensures
        decoded_pieces(keep(views, |piece: Seq<char>| piece.len() > 0)) is None,
    decreases views.len() - n,
{
    let p = |piece: Seq<char>| piece.len() > 0;
    if n < views.len() {
        assert(views.take(n + 1).drop_last() =~= views.take(n));
        let k = keep(views.take(n), p);
        assert(k.push(views[n]).drop_last() =~= k);
        lemma_decoded_prefix_none(views, n + 1);
    } else {
        assert(views.take(n) =~= views);
    }
}

fn decode_path(path: &str) -> (pieces: Option<Vec<String>>)
    ensures
        match pieces {
            Some(p) => decoded_pieces(path_pieces(path@)) == Some(p@.map_values(|x: String| x@)),
            None => decoded_pieces(path_pieces(path@)) is None,
        },
{
    let raw = crate::chars::split(path, '/');
    let ghost views = raw@.map_values(|x: String| x@);
    let ghost p = |piece: Seq<char>| piece.len() > 0;
    let mut decoded: Vec<String> = Vec::new();
    let mut i: usize = 0;
    while i < raw.len()
        invariant
            views == raw@.map_values(|x: String| x@),
            views == crate::chars::split_on(path@, '/'),
            p == (|piece: Seq<char>| piece.len() > 0),
            i <= views.len(),
            decoded_pieces(keep(views.take(i as int), p)) == Some(decoded@.map_values(|x: String| x@)),
        decreases views.len() - i,
    {
        let ghost k = keep(views.take(i as int), p);
        assert(views.take(i + 1).drop_last() =~= views.take(i as int));
        assert(views.take(i + 1).last() == views[i as int]);
        if raw[i].as_str().unicode_len() > 0 {
            assert(k.push(views[i as int]).drop_last() =~= k);
            match percent_decode_segment(raw[i].as_str()) {
                Some(piece) => {
                    let ghost before = decoded@.map_values(|x: String| x@);
                    decoded.push(piece);
                    assert(decoded@.map_values(|x: String| x@) =~= before.push(piece@));
                },
                None => {
                    proof {
                        lemma_decoded_prefix_none(views, i + 1);
                    }
                    return None;
                },
            }
        }
        i = i + 1;
    }
    assert(views.take(views.len() as int) =~= views);
    Some(decoded)
}

/// Returns the user metadata of an instance.
pub fn user_metadata_of(metadata: &Vec<(String, String)>) -> (user: Vec<(String, String)>)
    ensures
        pairs_view(user@) == user_metadata(pairs_view(metadata@)),
{
    let ghost views = pairs_view(metadata@);
    let mut user: Vec<(String, String)> = Vec::new();
    let mut i: usize = 0;
    proof {
        reveal_strlit("fusen.");
    }
    while i < metadata.len()
        invariant
            views == pairs_view(metadata@),
            i <= views.len(),
            pairs_view(user@) == user_metadata(views.take(i as int)),
            "fusen."@.len() == 6,
        decreases views.len() - i,
    {
        assert(views.take(i + 1).drop_last() =~= views.take(i as int));
        assert(views.take(i + 1).last() == views[i as int]);
        if !crate::text::starts_with(metadata[i].0.as_str(), "fusen.") {
            let ghost before = pairs_view(user@);
            user.push((metadata[i].0.clone(), metadata[i].1.clone()));
            assert(pairs_view(user@) =~= before.push(views[i as int]));
        }
        i = i + 1;
    }
    assert(views.take(views.len() as int) =~= views);
    user
}

/// Reads a Nacos instance as a service instance: the port must be a valid non-zero
/// port, the scheme `http` or `https`, every base path piece must percent-decode and
/// the capabilities must decode under `convention`; reserved metadata is dropped.
pub fn to_service_instance(instance: &NacosInstance, convention: crate::nacos::NacosConvention)
    -> (result: Option<ServiceInstance>)
    ensures
        match result {
            Some(si) => discovered_instance(*instance, convention) == Some(si@),
            None => discovered_instance(*instance, convention) is None,
        },
{
    let ghost md = pairs_view(instance.metadata@);
    proof {
        reveal_strlit("http");
        reveal_strlit("https");
        reveal_strlit("://");
        reveal_strlit("[");
        reveal_strlit("]");
        reveal_strlit(":");
        reveal_strlit("nacos:");
    }
    if instance.port < 1 || instance.port > 65535 {
        return None;
    }
    let port = instance.port as u16;
    let scheme: &str = match crate::nacos::metadata_get(&instance.metadata, "fusen.scheme") {
        Some(s) => s,
        None => "http",
    };
    if !str_eq(scheme, "http") && !str_eq(scheme, "https") {
        return None;
    }
    let mut base = String::from_str(scheme);
    base.append("://");
    if instance.ipv6 {
        base.append("[");
        base.append(instance.ip.as_str());
        base.append("]");
    } else {
        base.append(instance.ip.as_str());
    }
    base.append(":");
    append_decimal(&mut base, port as u32);
    assert(base@ =~= scheme@ + "://"@ + host_text(instance.ip@, instance.ipv6) + seq![':'] + decimal(port as nat));
    let url = match crate::nacos::metadata_get(&instance.metadata, "fusen.base_path") {
        None => build_endpoint_url(base.as_str(), None),
        Some(path) => match decode_path(path) {
            None => {
                return None;
            },
            Some(pieces) => build_endpoint_url(base.as_str(), Some(&pieces)),
        },
    };
    let url = match url {
        Some(url) => url,
        None => {
            return None;
        },
    };
    let instance_id = match crate::nacos::metadata_get(&instance.metadata, "fusen.instance_id") {
        Some(id) => id.to_owned(),
        None => match &instance.instance_id {
            Some(id) => id.clone(),
            None => {
                let mut id = String::from_str("nacos:");
                id.append(instance.ip.as_str());
                id.append(":");
                append_decimal(&mut id, port as u32);
                assert(id@ =~= "nacos:"@ + instance.ip@ + seq![':'] + decimal(port as nat));
                id
            },
        },
    };
    let capabilities = match crate::nacos::decode_capabilities(&instance.metadata, convention) {
        Some(c) => c,
        None => {
            return None;
        },
    };
    let metadata = user_metadata_of(&instance.metadata);
    Some(ServiceInstance::new(instance_id, url, capabilities, instance.weight_bits, metadata))
}

/// Whether a Nacos instance passes discovery's filters for a selector: it is healthy,
/// enabled, positively weighted and its metadata matches the selector.
pub open spec fn passes_filters(instance: NacosInstance, selector: ServiceSelector,
    convention: crate::nacos::NacosConvention) -> bool {
    &&& instance.healthy
    &&& instance.enabled
    &&& is_positive_weight(instance.weight_bits)
    &&& crate::nacos::matches_selector_spec(crate::nacos::metadata_view(instance.metadata@), selector@.service_id,
        selector@.version, convention)
}

/// The service instances discovery reads from `instances`, in their order: each one
/// that passes the filters and reads as a service instance.
pub open spec fn discovered_instances(instances: Seq<NacosInstance>, selector: ServiceSelector,
    convention: crate::nacos::NacosConvention) -> Seq<ServiceInstanceView>
    decreases instances.len(),
{
    if instances.len() == 0 {
        Seq::empty()
    } else {
        let earlier = discovered_instances(instances.drop_last(), selector, convention);
        let last = instances.last();
        if passes_filters(last, selector, convention) && discovered_instance(last, convention) is Some {
            earlier.push(discovered_instance(last, convention)->Some_0)
        } else {
            earlier
        }
    }
}

/// Reads the instances Nacos reports for a selector: healthy, enabled instances with
/// a positive weight that match the selector and read as service instances, in order.
pub fn to_service_instances(instances: &Vec<NacosInstance>, selector: &ServiceSelector,
    convention: crate::nacos::NacosConvention) -> (result: Vec<ServiceInstance>)
    ensures
        result@.map_values(|si: ServiceInstance| si@) == discovered_instances(instances@, *selector, convention),
{
    let mut result: Vec<ServiceInstance> = Vec::new();
    let mut n: usize = 0;
    while n < instances.len()
        invariant
            n <= instances@.len(),
            result@.map_values(|si: ServiceInstance| si@) == discovered_instances(instances@.take(n as int), *selector,
                convention),
        decreases instances@.len() - n,
    {
        let ghost before = result@;
        let candidate = &instances[n];
        assert(instances@.take(n + 1).drop_last() =~= instances@.take(n as int));
        assert(instances@.take(n + 1).last() == instances@[n as int]);
        if candidate.healthy && candidate.enabled && positive_weight(candidate.weight_bits)
            && crate::nacos::matches_selector(&candidate.metadata, selector, convention) {
            match to_service_instance(candidate, convention) {
                Some(si) => {
                    result.push(si);
                    assert(result@.map_values(|si: ServiceInstance| si@) =~= before.map_values(
                        |si: ServiceInstance| si@).push(result@.last()@));
                },
                None => {},
            }
        }
        n = n + 1;
    }
    assert(instances@.take(instances@.len() as int) =~= instances@);
    result
}

/// Discovery keeps only what Nacos reports as healthy, enabled, positively weighted
/// and matching the selector, read as a service instance; every reported instance
/// that meets all of that is kept; nothing is added.
pub proof fn lemma_discovered_instances(instances: Seq<NacosInstance>, selector: ServiceSelector,
    convention: crate::nacos::NacosConvention)
    ensures
        discovered_instances(instances, selector, convention).len() <= instances.len(),
        forall|j: int| 0 <= j < discovered_instances(instances, selector, convention).len() ==> exists|i: int| {
            &&& 0 <= i < instances.len()
            &&& (#[trigger] instances[i]).healthy
            &&& instances[i].enabled
            &&& is_positive_weight(instances[i].weight_bits)
            &&& crate::nacos::matches_selector_spec(crate::nacos::metadata_view(instances[i].metadata@),
                selector@.service_id, selector@.version, convention)
            &&& discovered_instance(instances[i], convention)
                == Some(#[trigger] discovered_instances(instances, selector, convention)[j])
        },
        forall|i: int| {
            &&& 0 <= i < instances.len()
            &&& (#[trigger] instances[i]).healthy
            &&& instances[i].enabled
            &&& is_positive_weight(instances[i].weight_bits)
            &&& crate::nacos::matches_selector_spec(crate::nacos::metadata_view(instances[i].metadata@),
                selector@.service_id, selector@.version, convention)
            &&& discovered_instance(instances[i], convention) is Some
        } ==> discovered_instances(instances, selector, convention).contains(
            discovered_instance(instances[i], convention)->Some_0),
    decreases instances.len(),
{
    if instances.len() > 0 {
        let init = instances.drop_last();
        lemma_discovered_instances(init, selector, convention);
        let rest = discovered_instances(init, selector, convention);
        let all = discovered_instances(instances, selector, convention);
        let last = instances.last();
        let kept = passes_filters(last, selector, convention) && discovered_instance(last, convention) is Some;
        if kept {
            assert(all == rest.push(discovered_instance(last, convention)->Some_0));
        } else {
            assert(all == rest);
        }
        assert forall|j: int| 0 <= j < all.len() implies exists|i: int| {
            &&& 0 <= i < instances.len()
            &&& (#[trigger] instances[i]).healthy
            &&& instances[i].enabled
            &&& is_positive_weight(instances[i].weight_bits)
            &&& crate::nacos::matches_selector_spec(crate::nacos::metadata_view(instances[i].metadata@),
                selector@.service_id, selector@.version, convention)
            &&& discovered_instance(instances[i], convention) == Some(#[trigger] all[j])
        } by {
            if j < rest.len() {
                assert(all[j] == rest[j]);
                let i = choose|i: int| {
                    &&& 0 <= i < init.len()
                    &&& (#[trigger] init[i]).healthy
                    &&& init[i].enabled
                    &&& is_positive_weight(init[i].weight_bits)
                    &&& crate::nacos::matches_selector_spec(crate::nacos::metadata_view(init[i].metadata@),
                        selector@.service_id, selector@.version, convention)
                    &&& discovered_instance(init[i], convention) == Some(#[trigger] rest[j])
                };
                assert(init[i] == instances[i]);
            } else {
                assert(instances[instances.len() - 1] == last);
            }
        }
        assert forall|i: int| {
            &&& 0 <= i < instances.len()
            &&& (#[trigger] instances[i]).healthy
            &&& instances[i].enabled
            &&& is_positive_weight(instances[i].weight_bits)
            &&& crate::nacos::matches_selector_spec(crate::nacos::metadata_view(instances[i].metadata@),
                selector@.service_id, selector@.version, convention)
            &&& discovered_instance(instances[i], convention) is Some
        } implies all.contains(discovered_instance(instances[i], convention)->Some_0) by {
            let d = discovered_instance(instances[i], convention)->Some_0;
            if i < init.len() {
                assert(init[i] == instances[i]);
                assert(rest.contains(d));
                let w = choose|w: int| 0 <= w < rest.len() && rest[w] == d;
                assert(all[w] == d);
            } else {
                assert(instances[i] == last);
                assert(all[all.len() - 1] == d);
            }
        }
    }
}

/// A reported port is usable exactly when it is a non-zero `u16`, and then it is
/// kept as reported.
pub proof fn lemma_instance_port(port: i32)
    ensures
        instance_port(port) is Some <==> 1 <= port <= 65535,
        instance_port(port) matches Some(p) ==> p as int == port as int,
{
}

/// A bracketed IPv6 host registers without its brackets; a host that does not start
/// with `[` registers as it is.
pub proof fn lemma_registered_ip(address: Seq<char>, host: Seq<char>)
    ensures
        registered_ip(seq!['['] + address + seq![']']) == address,
        (host.len() == 0 || host[0] != '[') ==> registered_ip(host) == host,
{
    let bracketed = seq!['['] + address + seq![']'];
    assert(bracketed.subrange(1, bracketed.len() - 1) =~= address);
}

} // verus!
