use crate::chars::{blank, has_ascii_control, is_ascii_control, is_blank, is_trimmed, split, split_on, trimmed, lemma_split_nonempty};
use crate::contract::{
    distinct, is_binding_id, opt_view, sort_seq, EndpointCapabilities, EndpointCapabilitiesView, HttpBindingId,
    HttpVersionSet, ServiceSelector,
};
use crate::registry::{RegistryError, RegistryErrorKind, RegistryOperation};
use crate::text::str_eq;
use vstd::prelude::*;
use vstd::string::*;

verus! {

// ---------------------------------------------------------------------------
// Connection settings
// ---------------------------------------------------------------------------

/// The abstract content of a [`NacosConfig`].
pub struct NacosConfigView {
    pub server_addr: Seq<char>,
    pub namespace: Option<Seq<char>>,
    pub username: Option<Seq<char>>,
    pub password: Option<Seq<char>>,
}

/// Nacos client connection and authentication settings.
///
/// [`NacosConfig::describe`] never shows the password.
#[derive(Clone)]
pub struct NacosConfig {
    server_addr: String,
    namespace: Option<String>,
    username: Option<String>,
    password: Option<String>,
}

impl View for NacosConfig {
    type V = NacosConfigView;

    closed spec fn view(&self) -> NacosConfigView {
        NacosConfigView {
            server_addr: self.server_addr@,
            namespace: opt_view(self.namespace),
            username: opt_view(self.username),
            password: opt_view(self.password),
        }
    }
}

/// The production defaults: a local server and no namespace or credentials.
pub open spec fn default_nacos() -> NacosConfigView {
    NacosConfigView { server_addr: "127.0.0.1:8848"@, namespace: None, username: None, password: None }
}

/// The first problem with Nacos settings, if any.
pub open spec fn nacos_config_problem(c: NacosConfigView) -> Option<Seq<char>> {
    if is_blank(c.server_addr) {
        Some("Nacos server address must not be empty"@)
    } else if !is_trimmed(c.server_addr) {
        Some("Nacos server address must not contain surrounding whitespace"@)
    } else if (c.username is Some) != (c.password is Some) {
        Some("Nacos username and password must be configured together"@)
    } else {
        None
    }
}

/// `result` fails with exactly the expected problem, or succeeds when there is none.
pub open spec fn reports_problem(result: Result<(), &'static str>, problem: Option<Seq<char>>) -> bool {
    match result {
        Ok(()) => problem is None,
        Err(message) => problem == Some(message@),
    }
}

fn describe_option(text: &mut String, value: &Option<String>)
    ensures
        final(text)@ == old(text)@ + match opt_view(*value) {
            Some(v) => "Some(\""@ + v + "\")"@,
            None => "None"@,
        },
{
    match value {
        Some(v) => {
            text.append("Some(\"");
            text.append(v.as_str());
            text.append("\")");
        },
        None => {
            text.append("None");
        },
    }
}

impl Default for NacosConfig {
    /// Returns the production defaults.
    fn default() -> (config: NacosConfig)
        ensures
            config@ == default_nacos(),
    {
        NacosConfig { server_addr: String::from_str("127.0.0.1:8848"), namespace: None, username: None, password: None }
    }
}

impl NacosConfig {
    /// Starts a builder with production defaults.
    pub fn builder() -> (builder: NacosConfigBuilder)
        ensures
            builder@ == default_nacos(),
    {
        NacosConfigBuilder { config: NacosConfig::default() }
    }

    /// Returns the comma-separated Nacos server addresses.
    pub fn server_addr(&self) -> (addr: &str)
        ensures
            addr@ == self@.server_addr,
    {
        self.server_addr.as_str()
    }

    /// Returns the optional Nacos namespace.
    pub fn namespace(&self) -> (namespace: Option<&str>)
        ensures
            namespace matches Some(n) ==> self@.namespace == Some(n@),
            namespace is None ==> self@.namespace is None,
    {
        match &self.namespace {
            Some(n) => Some(n.as_str()),
            None => None,
        }
    }

    /// Returns the optional HTTP authentication username.
    pub fn username(&self) -> (username: Option<&str>)
        ensures
            username matches Some(n) ==> self@.username == Some(n@),
            username is None ==> self@.username is None,
    {
        match &self.username {
            Some(n) => Some(n.as_str()),
            None => None,
        }
    }

    /// Returns the optional HTTP authentication password.
    ///
    /// Callers must not include this value in logs, metrics, or error messages.
    pub fn password(&self) -> (password: Option<&str>)
        ensures
            password matches Some(n) ==> self@.password == Some(n@),
            password is None ==> self@.password is None,
    {
        match &self.password {
            Some(n) => Some(n.as_str()),
            None => None,
        }
    }

    /// Replaces the optional username, keeping every other setting.
    pub fn with_username(self, username: Option<String>) -> (config: NacosConfig)
        ensures
            config@ == (NacosConfigView { username: opt_view(username), ..self@ }),
    {
        NacosConfig { username, ..self }
    }

    /// Replaces the password.
    pub fn with_password(self, password: Option<String>) -> (config: NacosConfig)
        ensures
            config@ == (NacosConfigView { password: opt_view(password), ..self@ }),
    {
        NacosConfig { password, ..self }
    }

    /// Checks the settings before any network I/O: the server address must hold a
    /// non-white-space character and no surrounding white space, and the username and
    /// password must be configured together.
    pub fn validate(&self) -> (result: Result<(), &'static str>)
        ensures
            reports_problem(result, nacos_config_problem(self@)),
    {
        if blank(self.server_addr.as_str()) {
            return Err("Nacos server address must not be empty");
        }
        if !trimmed(self.server_addr.as_str()) {
            return Err("Nacos server address must not contain surrounding whitespace");
        }
        if self.username.is_some() != self.password.is_some() {
            return Err("Nacos username and password must be configured together");
        }
        Ok(())
    }

    /// Describes the settings for diagnostics with the password redacted.
    pub fn describe(&self) -> (text: String)
        ensures
            text@ == "NacosConfig { server_addr: \""@ + self@.server_addr + "\", namespace: "@
                + match self@.namespace { Some(v) => "Some(\""@ + v + "\")"@, None => "None"@ }
                + ", username: "@
                + match self@.username { Some(v) => "Some(\""@ + v + "\")"@, None => "None"@ }
                + ", password: "@
                + (if self@.password is Some { "Some(\"<redacted>\")"@ } else { "None"@ }) + " }"@,
    {
        let mut text = String::from_str("NacosConfig { server_addr: \"");
        text.append(self.server_addr.as_str());
        text.append("\", namespace: ");
        describe_option(&mut text, &self.namespace);
        text.append(", username: ");
        describe_option(&mut text, &self.username);
        text.append(", password: ");
        text.append(if self.password.is_some() { "Some(\"<redacted>\")" } else { "None" });
        text.append(" }");
        text
    }
}

/// Builder for [`NacosConfig`].
#[derive(Clone)]
pub struct NacosConfigBuilder {
    config: NacosConfig,
}

impl View for NacosConfigBuilder {
    type V = NacosConfigView;

    closed spec fn view(&self) -> NacosConfigView {
        self.config@
    }
}

impl NacosConfigBuilder {
    /// Sets the comma-separated Nacos server addresses.
    pub fn server_addr(self, server_addr: String) -> (builder: Self)
        ensures
            builder@ == (NacosConfigView { server_addr: server_addr@, ..self@ }),
    {
        NacosConfigBuilder { config: NacosConfig { server_addr, ..self.config } }
    }

    /// Sets the Nacos namespace.
    pub fn namespace(self, namespace: String) -> (builder: Self)
        ensures
            builder@ == (NacosConfigView { namespace: Some(namespace@), ..self@ }),
    {
        NacosConfigBuilder { config: NacosConfig { namespace: Some(namespace), ..self.config } }
    }

    /// Sets HTTP authentication credentials.
    pub fn credentials(self, username: String, password: String) -> (builder: Self)
        ensures
            builder@ == (NacosConfigView { username: Some(username@), password: Some(password@), ..self@ }),
    {
        NacosConfigBuilder { config: NacosConfig { username: Some(username), password: Some(password), ..self.config } }
    }

    /// Builds the immutable configuration; validation happens before network I/O.
    pub fn build(self) -> (config: NacosConfig)
        ensures
            config@ == self@,
    {
        self.config
    }
}

/// The problem with an application name, if any: it must be 1 to 128 bytes, without
/// surrounding white space or ASCII control characters.
pub open spec fn application_name_problem(name: &str) -> Option<Seq<char>> {
    if name@.len() == 0 || name.spec_bytes().len() > 128 || !is_trimmed(name@)
        || exists|i: int| 0 <= i < name.spec_bytes().len() && is_ascii_control(#[trigger] name.spec_bytes()[i]) {
        Some("Nacos application name must be 1-128 bytes without surrounding whitespace or control characters"@)
    } else {
        None
    }
}

/// Checks the application name a Nacos client registers under.
pub fn validate_application_name(value: &str) -> (result: Result<(), &'static str>)
    ensures
        reports_problem(result, application_name_problem(value)),
{
    let empty = value.is_empty();
    let long = value.as_bytes().len() > 128;
    let untrimmed = !trimmed(value);
    let control = has_ascii_control(value);
    assert(empty == (value@.len() == 0));
    assert(long == (value.spec_bytes().len() > 128));
    if empty || long || untrimmed || control {
        Err("Nacos application name must be 1-128 bytes without surrounding whitespace or control characters")
    } else {
        Ok(())
    }
}

// ---------------------------------------------------------------------------
// Instance metadata
// ---------------------------------------------------------------------------

/// Provider-specific conventions used when interoperating with Nacos services.
#[derive(Clone, Copy, Debug, PartialEq, Eq, Hash, Structural)]
#[non_exhaustive]
pub enum NacosConvention {
    /// Requires Fusen endpoint capability metadata.
    Canonical,
    /// Accepts Spring Cloud instances that omit Fusen endpoint capability metadata.
    SpringCloud,
}

impl Default for NacosConvention {
    /// Returns [`NacosConvention::Canonical`].
    fn default() -> (convention: NacosConvention)
        ensures
            convention == NacosConvention::Canonical,
    {
        NacosConvention::Canonical
    }
}

/// Instance metadata as key and value pairs.
pub type Metadata = Vec<(String, String)>;

/// The characters of each metadata key and value.
pub open spec fn metadata_view(metadata: Seq<(String, String)>) -> Seq<(Seq<char>, Seq<char>)> {
    metadata.map_values(|entry: (String, String)| (entry.0@, entry.1@))
}

/// The value of the first entry with `key`, if any.
pub open spec fn lookup(metadata: Seq<(Seq<char>, Seq<char>)>, key: Seq<char>) -> Option<Seq<char>>
    decreases metadata.len(),
{
    if metadata.len() == 0 {
        None
    } else if metadata[0].0 == key {
        Some(metadata[0].1)
    } else {
        lookup(metadata.drop_first(), key)
    }
}

/// A metadata lookup finds the value of the first entry with the key: it is absent
/// exactly when no entry has the key, and otherwise it is the value of an entry with
/// the key before which no entry has it.
pub proof fn lemma_lookup_first(metadata: Seq<(Seq<char>, Seq<char>)>, key: Seq<char>)
    ensures
        lookup(metadata, key) is None <==> forall|i: int| 0 <= i < metadata.len() ==> (#[trigger] metadata[i]).0 != key,
        lookup(metadata, key) matches Some(v) ==> exists|i: int| {
            &&& 0 <= i < metadata.len()
            &&& #[trigger] metadata[i] == (key, v)
            &&& forall|j: int| 0 <= j < i ==> (#[trigger] metadata[j]).0 != key
        },
    decreases metadata.len(),
{
    if metadata.len() > 0 {
        let tail = metadata.drop_first();
        lemma_lookup_first(tail, key);
        if metadata[0].0 == key {
            assert(metadata[0] == (key, metadata[0].1));
        } else {
            assert forall|i: int| 0 <= i < tail.len() implies tail[i] == #[trigger] metadata[i + 1] by {}
            if lookup(metadata, key) is None {
                assert forall|i: int| 0 <= i < metadata.len() implies (#[trigger] metadata[i]).0 != key by {
                    if i > 0 {
                        assert(tail[i - 1] == metadata[i]);
                    }
                }
            } else {
                let v = lookup(metadata, key)->Some_0;
                let i = choose|i: int| {
                    &&& 0 <= i < tail.len()
                    &&& #[trigger] tail[i] == (key, v)
                    &&& forall|j: int| 0 <= j < i ==> (#[trigger] tail[j]).0 != key
                };
                assert(metadata[i + 1] == (key, v));
                assert forall|j: int| 0 <= j < i + 1 implies (#[trigger] metadata[j]).0 != key by {
                    if j > 0 {
                        assert(tail[j - 1] == metadata[j]);
                    }
                }
            }
            if exists|i: int| 0 <= i < metadata.len() && (#[trigger] metadata[i]).0 == key {
                let i = choose|i: int| 0 <= i < metadata.len() && (#[trigger] metadata[i]).0 == key;
                assert(tail[i - 1] == metadata[i]);
            }
        }
    }
}

/// Returns the value of the first metadata entry with `key`.
pub fn metadata_get<'a>(metadata: &'a Metadata, key: &str) -> (value: Option<&'a str>)
    ensures
        value matches Some(v) ==> lookup(metadata_view(metadata@), key@) == Some(v@),
        value is None ==> lookup(metadata_view(metadata@), key@) is None,
{
    let ghost all = metadata_view(metadata@);
    assert(all.skip(0) =~= all);
    let mut i: usize = 0;
    while i < metadata.len()
        invariant
            all == metadata_view(metadata@),
            i <= metadata@.len(),
            lookup(all, key@) == lookup(all.skip(i as int), key@),
        decreases metadata@.len() - i,
    {
        assert(all.skip(i as int)[0] == all[i as int]);
        if str_eq(metadata[i].0.as_str(), key) {
            return Some(metadata[i].1.as_str());
        }
        assert(all.skip(i as int).drop_first() =~= all.skip(i + 1));
        i = i + 1;
    }
    None
}

/// The metadata key of the transport scheme.
pub open spec fn meta_scheme() -> Seq<char> { "fusen.scheme"@ }
/// The metadata key of the base path.
pub open spec fn meta_base_path() -> Seq<char> { "fusen.base_path"@ }
/// The metadata key of the service identifier.
pub open spec fn meta_service_id() -> Seq<char> { "fusen.service_id"@ }
/// The metadata key of the service version.
pub open spec fn meta_version() -> Seq<char> { "fusen.version"@ }
/// The metadata key of the service group.
pub open spec fn meta_group() -> Seq<char> { "fusen.group"@ }
/// The metadata key of the instance identifier.
pub open spec fn meta_instance_id() -> Seq<char> { "fusen.instance_id"@ }
/// The metadata key of the HTTP bindings.
pub open spec fn meta_http_bindings() -> Seq<char> { "fusen.http.bindings"@ }
/// The metadata key of the HTTP versions.
pub open spec fn meta_http_versions() -> Seq<char> { "fusen.http.versions"@ }
/// The metadata key of the invocation-control protocol.
pub open spec fn meta_invocation_controls() -> Seq<char> { "fusen.invocation-controls"@ }

/// The HTTP versions named by comma-separated pieces, as (HTTP/1.1, HTTP/2) flags,
/// or `None` when a piece is unknown or repeated.
pub open spec fn versions_of(pieces: Seq<Seq<char>>) -> Option<(bool, bool)>
    decreases pieces.len(),
{
    if pieces.len() == 0 {
        Some((false, false))
    } else {
        match versions_of(pieces.drop_last()) {
            None => None,
            Some((h1, h2)) => if pieces.last() == "1.1"@ {
                if h1 { None } else { Some((true, h2)) }
            } else if pieces.last() == "2"@ {
                if h2 { None } else { Some((h1, true)) }
            } else {
                None
            },
        }
    }
}

/// Pieces name HTTP versions exactly when each is `1.1` or `2` and none repeats, and
/// then HTTP/1.1 and HTTP/2 are declared exactly when a piece names them.
pub proof fn lemma_versions_of(pieces: Seq<Seq<char>>)
    ensures
        versions_of(pieces) is Some <==> ((forall|i: int| 0 <= i < pieces.len() ==> #[trigger] pieces[i] == "1.1"@
            || pieces[i] == "2"@) && (forall|i: int, j: int| 0 <= i < j < pieces.len() ==> #[trigger] pieces[i]
            != #[trigger] pieces[j])),
        versions_of(pieces) matches Some((h1, h2)) ==> (h1 <==> pieces.contains("1.1"@)) && (h2 <==> pieces.contains(
            "2"@)),
    decreases pieces.len(),
{
    reveal_strlit("1.1");
    reveal_strlit("2");
    assert("1.1"@ != "2"@) by {
        assert("1.1"@.len() != "2"@.len());
    }
    if pieces.len() > 0 {
        let init = pieces.drop_last();
        let last = pieces.last();
        lemma_versions_of(init);
        assert forall|i: int| 0 <= i < init.len() implies init[i] == #[trigger] pieces[i] by {}
        let valid = (forall|i: int| 0 <= i < pieces.len() ==> #[trigger] pieces[i] == "1.1"@ || pieces[i] == "2"@)
            && (forall|i: int, j: int| 0 <= i < j < pieces.len() ==> #[trigger] pieces[i] != #[trigger] pieces[j]);
        let init_valid = (forall|i: int| 0 <= i < init.len() ==> #[trigger] init[i] == "1.1"@ || init[i] == "2"@)
            && (forall|i: int, j: int| 0 <= i < j < init.len() ==> #[trigger] init[i] != #[trigger] init[j]);
        assert(pieces == init.push(last));
        assert forall|x: Seq<char>| pieces.contains(x) <==> init.contains(x) || x == last by {
            if pieces.contains(x) {
                let k = choose|k: int| 0 <= k < pieces.len() && pieces[k] == x;
                if k < init.len() {
                    assert(init[k] == x);
                }
            }
            if init.contains(x) {
                let k = choose|k: int| 0 <= k < init.len() && init[k] == x;
                assert(pieces[k] == x);
            }
            if x == last {
                assert(pieces[pieces.len() - 1] == x);
            }
        }
        if valid {
            assert(init_valid) by {
                assert forall|i: int, j: int| 0 <= i < j < init.len() implies #[trigger] init[i]
                    != #[trigger] init[j] by {
                    assert(pieces[i] != pieces[j]);
                }
            }
            assert(pieces[pieces.len() - 1] == last);
            assert(!init.contains(last)) by {
                if init.contains(last) {
                    let k = choose|k: int| 0 <= k < init.len() && init[k] == last;
                    assert(pieces[k] != pieces[pieces.len() - 1]);
                }
            }
        } else if init_valid && versions_of(pieces) is Some {
            assert(last == "1.1"@ || last == "2"@);
            assert(!init.contains(last));
            assert forall|i: int, j: int| 0 <= i < j < pieces.len() implies #[trigger] pieces[i]
                != #[trigger] pieces[j] by {
                if j == pieces.len() - 1 {
                    assert(init.contains(pieces[i]));
                }
            }
        } else if !init_valid && versions_of(pieces) is Some {
            assert(versions_of(init) is Some);
        }
    }
}

/// The HTTP versions declared by a comma-separated list of `1.1` and `2`, each at
/// most once; `None` for anything else.
pub open spec fn decoded_versions(value: Seq<char>) -> Option<(bool, bool)> {
    match versions_of(split_on(value, ',')) {
        Some((h1, h2)) => if h1 || h2 { Some((h1, h2)) } else { None },
        None => None,
    }
}

/// Decodes a comma-separated list of HTTP versions.
pub fn decode_http_versions(value: &str) -> (set: Option<HttpVersionSet>)
    ensures
        set is Some <==> decoded_versions(value@) is Some,
        set matches Some(v) ==> decoded_versions(value@) == Some((v.spec_http1_1(), v.spec_http2())),
{
    let pieces = split(value, ',');
    let ghost views = pieces@.map_values(|p: String| p@);
    let mut http1 = false;
    let mut http2 = false;
    let mut i: usize = 0;
    while i < pieces.len()
        invariant
            views == pieces@.map_values(|p: String| p@),
            views == split_on(value@, ','),
            i <= pieces@.len(),
            versions_of(views.take(i as int)) == Some((http1, http2)),
        decreases pieces@.len() - i,
    {
        assert(views.take(i + 1).drop_last() =~= views.take(i as int));
        let piece = pieces[i].as_str();
        if str_eq(piece, "1.1") {
            if http1 {
                proof { lemma_versions_prefix_fails(views, (i + 1) as int); }
                return None;
            }
            http1 = true;
        } else if str_eq(piece, "2") {
            if http2 {
                proof { lemma_versions_prefix_fails(views, (i + 1) as int); }
                return None;
            }
            http2 = true;
        } else {
            proof { lemma_versions_prefix_fails(views, (i + 1) as int); }
            return None;
        }
        i = i + 1;
    }
    assert(views.take(pieces.len() as int) =~= views);
    if http1 && http2 {
        Some(HttpVersionSet::all())
    } else if http1 {
        Some(HttpVersionSet::http1_1())
    } else if http2 {
        Some(HttpVersionSet::http2())
    } else {
        None
    }
}

proof fn lemma_versions_prefix_fails(pieces: Seq<Seq<char>>, n: int)
    requires
        0 <= n <= pieces.len(),
        versions_of(pieces.take(n)) is None,
    ensures
        versions_of(pieces) is None,
    decreases pieces.len() - n,
{
    if n < pieces.len() {
        assert(pieces.take(n + 1).drop_last() =~= pieces.take(n));
        lemma_versions_prefix_fails(pieces, n + 1);
    } else {
        assert(pieces.take(n) =~= pieces);
    }
}

/// Encodes an HTTP version set as its metadata value.
pub fn encode_http_versions(versions: HttpVersionSet) -> (value: &'static str)
    ensures
        versions.spec_http1_1() && !versions.spec_http2() ==> value@ == "1.1"@,
        !versions.spec_http1_1() && versions.spec_http2() ==> value@ == "2"@,
        !(versions.spec_http1_1() != versions.spec_http2()) ==> value@ == "1.1,2"@,
{
    if versions.serves_http1_1() && !versions.serves_http2() {
        "1.1"
    } else if !versions.serves_http1_1() && versions.serves_http2() {
        "2"
    } else {
        "1.1,2"
    }
}

/// The bindings declared by a comma-separated list: every piece must be a valid
/// binding identifier and none may repeat.
pub open spec fn decoded_bindings(value: Seq<char>) -> Option<Seq<Seq<char>>> {
    let pieces = split_on(value, ',');
    if (forall|i: int| 0 <= i < pieces.len() ==> is_binding_id(#[trigger] pieces[i])) && distinct(pieces) {
        Some(pieces)
    } else {
        None
    }
}

/// Decodes a comma-separated list of binding identifiers.
pub fn decode_bindings(value: &str) -> (bindings: Option<Vec<HttpBindingId>>)
    ensures
        bindings is Some <==> decoded_bindings(value@) is Some,
        bindings matches Some(b) ==> decoded_bindings(value@) == Some(b@.map_values(|id: HttpBindingId| id@)),
{
    let pieces = split(value, ',');
    let ghost views = pieces@.map_values(|p: String| p@);
    let mut bindings: Vec<HttpBindingId> = Vec::new();
    let mut i: usize = 0;
    while i < pieces.len()
        invariant
            views == pieces@.map_values(|p: String| p@),
            views == split_on(value@, ','),
            i <= pieces@.len(),
            bindings@.len() == i,
            forall|k: int| 0 <= k < i ==> #[trigger] bindings@[k]@ == views[k],
            forall|k: int| 0 <= k < i ==> is_binding_id(#[trigger] views[k]),
            forall|a: int, b: int| 0 <= a < b < i ==> views[a] != views[b],
        decreases pieces@.len() - i,
    {
        let binding = match HttpBindingId::new(pieces[i].as_str()) {
            Some(binding) => binding,
            None => {
                assert(!is_binding_id(views[i as int]));
                return None;
            },
        };
        let mut j: usize = 0;
        while j < i
            invariant
                views == pieces@.map_values(|p: String| p@),
                views == split_on(value@, ','),
                i < pieces@.len(),
                j <= i,
                bindings@.len() == i,
                forall|k: int| 0 <= k < i ==> #[trigger] bindings@[k]@ == views[k],
                binding@ == views[i as int],
                forall|a: int| 0 <= a < j ==> views[a] != views[i as int],
            decreases i - j,
        {
            if str_eq(bindings[j].as_str(), binding.as_str()) {
                assert(views[j as int] == views[i as int]);
                assert(!distinct(views));
                return None;
            }
            j = j + 1;
        }
        bindings.push(binding);
        i = i + 1;
    }
    assert(bindings@.map_values(|id: HttpBindingId| id@) =~= views);
    Some(bindings)
}

/// The capabilities declared by instance metadata. Without any capability key a
/// Spring Cloud instance gets the generic capabilities and a canonical one is rejected;
/// otherwise bindings and versions are both required and the controls key, when
/// present, must name protocol `v1`.
pub open spec fn decoded_capabilities(metadata: Seq<(Seq<char>, Seq<char>)>, convention: NacosConvention)
    -> Option<EndpointCapabilitiesView> {
    let bindings = lookup(metadata, meta_http_bindings());
    let versions = lookup(metadata, meta_http_versions());
    let controls = lookup(metadata, meta_invocation_controls());
    if bindings is None && versions is None && controls is None {
        if convention == NacosConvention::SpringCloud {
            Some(EndpointCapabilitiesView {
                http1_1: true,
                http2: false,
                bindings: seq!["http-json-v1"@],
                invocation_controls: false,
            })
        } else {
            None
        }
    } else if bindings is None || versions is None {
        None
    } else if decoded_bindings(bindings->Some_0) is None || decoded_versions(versions->Some_0) is None {
        None
    } else if controls is Some && controls->Some_0 != "v1"@ {
        None
    } else {
        Some(EndpointCapabilitiesView {
            http1_1: decoded_versions(versions->Some_0)->Some_0.0,
            http2: decoded_versions(versions->Some_0)->Some_0.1,
            bindings: sort_seq(decoded_bindings(bindings->Some_0)->Some_0),
            invocation_controls: controls is Some,
        })
    }
}

/// Decodes endpoint capabilities from instance metadata.
pub fn decode_capabilities(metadata: &Metadata, convention: NacosConvention) -> (caps: Option<EndpointCapabilities>)
    ensures
        caps is Some <==> decoded_capabilities(metadata_view(metadata@), convention) is Some,
        caps matches Some(c) ==> decoded_capabilities(metadata_view(metadata@), convention) == Some(c@),
{
    let bindings = metadata_get(metadata, "fusen.http.bindings");
    let versions = metadata_get(metadata, "fusen.http.versions");
    let controls = metadata_get(metadata, "fusen.invocation-controls");
    if bindings.is_none() && versions.is_none() && controls.is_none() {
        return match convention {
            NacosConvention::SpringCloud => {
                let caps = EndpointCapabilities::generic();
                Some(caps)
            },
            NacosConvention::Canonical => None,
        };
    }
    let bindings = match bindings {
        Some(b) => b,
        None => {
            return None;
        },
    };
    let versions = match versions {
        Some(v) => v,
        None => {
            return None;
        },
    };
    proof {
        lemma_split_nonempty(bindings@, ',');
    }
    let bindings = match decode_bindings(bindings) {
        Some(b) => b,
        None => {
            return None;
        },
    };
    let versions = match decode_http_versions(versions) {
        Some(v) => v,
        None => {
            return None;
        },
    };
    let invocation_controls = match controls {
        None => false,
        Some(value) => {
            if str_eq(value, "v1") {
                true
            } else {
                return None;
            }
        },
    };
    EndpointCapabilities::new(versions, bindings, invocation_controls)
}

/// Whether an instance's metadata matches a selector: its version entry equals the
/// selector's version, and its service-identifier entry equals the selector's service,
/// or is absent under the Spring Cloud convention.
pub open spec fn matches_selector_spec(metadata: Seq<(Seq<char>, Seq<char>)>, service_id: Seq<char>,
    version: Option<Seq<char>>, convention: NacosConvention) -> bool {
    &&& lookup(metadata, meta_version()) == version
    &&& match lookup(metadata, meta_service_id()) {
        Some(id) => id == service_id,
        None => convention == NacosConvention::SpringCloud,
    }
}

/// Returns whether an instance's metadata matches a selector.
pub fn matches_selector(metadata: &Metadata, selector: &ServiceSelector, convention: NacosConvention) -> (matched: bool)
    ensures
        matched == matches_selector_spec(metadata_view(metadata@), selector@.service_id, selector@.version, convention),
{
    let version = metadata_get(metadata, "fusen.version");
    let same_version = match (version, selector.version()) {
        (None, None) => true,
        (Some(a), Some(b)) => str_eq(a, b),
        _ => false,
    };
    if !same_version {
        return false;
    }
    match metadata_get(metadata, "fusen.service_id") {
        Some(id) => str_eq(id, selector.service_id()),
        None => convention == NacosConvention::SpringCloud,
    }
}

/// Returns the Nacos service name of a selector: its service identifier.
pub fn service_name(selector: &ServiceSelector) -> (name: String)
    ensures
        name@ == selector@.service_id,
{
    selector.service_id().to_owned()
}

/// Returns the Nacos group of a selector: its group, or `DEFAULT_GROUP`.
pub fn service_group(selector: &ServiceSelector) -> (group: Option<String>)
    ensures
        group matches Some(g) && g@ == match selector@.group { Some(g) => g, None => "DEFAULT_GROUP"@ },
{
    match selector.group() {
        Some(g) => Some(g.to_owned()),
        None => Some(String::from_str("DEFAULT_GROUP")),
    }
}

// ---------------------------------------------------------------------------
// Provider errors and snapshots
// ---------------------------------------------------------------------------

/// The class of a Nacos SDK error that decides its registry classification.
#[derive(Clone, Copy, Debug, PartialEq, Eq, Structural)]
pub enum NacosErrorClass {
    /// An invalid request parameter.
    InvalidParam,
    /// A malformed server address.
    WrongServerAddress,
    /// A payload that could not be (de)serialized.
    Serialization,
    /// Any other provider failure.
    Other,
}

/// The registry classification of a Nacos SDK error class.
pub open spec fn provider_error_kind(class: NacosErrorClass) -> RegistryErrorKind {
    match class {
        NacosErrorClass::InvalidParam | NacosErrorClass::WrongServerAddress => RegistryErrorKind::InvalidResource,
        NacosErrorClass::Serialization => RegistryErrorKind::Internal,
        NacosErrorClass::Other => RegistryErrorKind::Unavailable,
    }
}

/// Classifies a Nacos SDK failure, keeping its text as the source.
pub fn provider_error(operation: RegistryOperation, class: NacosErrorClass, source: &str) -> (error: RegistryError)
    ensures
        error.spec_operation() == operation,
        error.spec_kind() == provider_error_kind(class),
        error.spec_message() == provider_error_kind(class).spec_default_message(),
        error.spec_source() == source@,
{
    let kind = match class {
        NacosErrorClass::InvalidParam | NacosErrorClass::WrongServerAddress => RegistryErrorKind::InvalidResource,
        NacosErrorClass::Serialization => RegistryErrorKind::Internal,
        NacosErrorClass::Other => RegistryErrorKind::Unavailable,
    };
    RegistryError::new(operation, kind, source)
}

/// Orders the initial instance fetch against subscription events: an event that
/// arrives before initialization is held and wins over the older fetch, and events
/// after initialization are published directly.
pub struct SnapshotGate<T> {
    initialized: bool,
    pending: Option<Vec<T>>,
}

impl<T> SnapshotGate<T> {
    /// Whether the initial snapshot has been published.
    pub closed spec fn spec_initialized(&self) -> bool {
        self.initialized
    }

    /// The event held until initialization, if any.
    pub closed spec fn spec_pending(&self) -> Option<Seq<T>> {
        match &self.pending {
            Some(v) => Some(v@),
            None => None,
        }
    }

    /// Creates an uninitialized gate with nothing held.
    pub fn new() -> (gate: Self)
        ensures
            !gate.spec_initialized(),
            gate.spec_pending() is None,
    {
        SnapshotGate { initialized: false, pending: None }
    }

    /// Returns the snapshot to publish as the initial one: the held event if there is
    /// one, else the fetched `initial` list. The held event is consumed.
    pub fn initial_snapshot(&mut self, initial: Vec<T>) -> (snapshot: Vec<T>)
        ensures
            snapshot@ == initial_choice(old(self).spec_pending(), initial@),
            final(self).spec_pending() is None,
            final(self).spec_initialized() == old(self).spec_initialized(),
    {
        match self.pending.take() {
            Some(pending) => pending,
            None => initial,
        }
    }

    /// Records that the initial snapshot was published.
    pub fn mark_initialized(&mut self)
        ensures
            final(self).spec_initialized(),
            final(self).spec_pending() == old(self).spec_pending(),
    {
        self.initialized = true;
    }

    /// Accepts one subscription event: returns it for publication once initialized,
    /// else holds it, replacing any older held event.
    pub fn update(&mut self, instances: Vec<T>) -> (publish: Option<Vec<T>>)
        ensures
            publish is Some <==> old(self).spec_initialized(),
            publish matches Some(p) ==> p@ == instances@,
            final(self).spec_pending() == held_after_update(
                old(self).spec_initialized(),
                old(self).spec_pending(),
                instances@,
            ),
            final(self).spec_initialized() == old(self).spec_initialized(),
    {
        if self.initialized {
            Some(instances)
        } else {
            self.pending = Some(instances);
            None
        }
    }
}

/// What a gate holds after an event: nothing new once initialized, else the event.
pub open spec fn held_after_update<T>(initialized: bool, pending: Option<Seq<T>>, event: Seq<T>) -> Option<Seq<T>> {
    if initialized {
        pending
    } else {
        Some(event)
    }
}

/// The initial snapshot chosen from what is held and what was fetched.
pub open spec fn initial_choice<T>(pending: Option<Seq<T>>, fetched: Seq<T>) -> Seq<T> {
    match pending {
        Some(p) => p,
        None => fetched,
    }
}

/// An event that reaches an uninitialized gate wins over the initial fetch, whatever
/// was held before it and whatever the fetch returned.
pub proof fn lemma_initialization_event_wins<T>(pending: Option<Seq<T>>, event: Seq<T>, fetched: Seq<T>)
    ensures
        initial_choice(held_after_update(false, pending, event), fetched) == event,
{
}

/// Without an event before initialization, the fetched list is the initial snapshot.
pub proof fn lemma_fetch_used_without_event<T>(fetched: Seq<T>)
    ensures
        initial_choice(None, fetched) == fetched,
{
}

/// Capabilities are read from metadata as follows. Without any capability entry, a
/// Spring Cloud instance serves HTTP/1.1 with the JSON binding and no invocation
/// controls, and a canonical one is rejected. Otherwise both the binding and the
/// version entries are required and must decode, and an invocation-control entry must
/// say `v1`; the capabilities are then those entries, with invocation controls exactly
/// when the entry is present, and at least one version and one binding.
pub proof fn lemma_decoded_capabilities(metadata: Seq<(Seq<char>, Seq<char>)>, convention: NacosConvention)
    ensures
        ({
            let none = lookup(metadata, "fusen.http.bindings"@) is None && lookup(metadata, "fusen.http.versions"@)
                is None && lookup(metadata, "fusen.invocation-controls"@) is None;
            &&& none && convention == NacosConvention::SpringCloud ==> decoded_capabilities(metadata, convention)
                == Some(EndpointCapabilitiesView {
                    http1_1: true,
                    http2: false,
                    bindings: seq!["http-json-v1"@],
                    invocation_controls: false,
                })
            &&& none && convention == NacosConvention::Canonical ==> decoded_capabilities(metadata, convention) is None
            &&& !none && lookup(metadata, "fusen.http.bindings"@) is None ==> decoded_capabilities(metadata, convention)
                is None
            &&& !none && lookup(metadata, "fusen.http.versions"@) is None ==> decoded_capabilities(metadata, convention)
                is None
            &&& (lookup(metadata, "fusen.invocation-controls"@) matches Some(c) && c != "v1"@)
                ==> decoded_capabilities(metadata, convention) is None
            &&& !none ==> (decoded_capabilities(metadata, convention) matches Some(caps) ==> {
                &&& lookup(metadata, "fusen.http.bindings"@) matches Some(b)
                &&& lookup(metadata, "fusen.http.versions"@) matches Some(v)
                &&& decoded_versions(v) == Some((caps.http1_1, caps.http2))
                &&& (caps.http1_1 || caps.http2)
                &&& decoded_bindings(b) matches Some(ids)
                &&& forall|x: Seq<char>| caps.bindings.contains(x) <==> ids.contains(x)
                &&& caps.bindings.len() > 0
                &&& caps.invocation_controls == (lookup(metadata, "fusen.invocation-controls"@) is Some)
            })
        }),
{
    let caps = decoded_capabilities(metadata, convention);
    if let Some(b) = lookup(metadata, "fusen.http.bindings"@) {
        if let Some(ids) = decoded_bindings(b) {
            if caps is Some {
                lemma_decoded_versions_nonempty(lookup(metadata, "fusen.http.versions"@)->Some_0);
                crate::ordering::lemma_sort_sorted(ids);
                crate::chars::lemma_split_nonempty(b, ',');
            }
        }
    }
}

/// An instance matches a selector only when its version entry equals the selector's
/// version (both absent, or both present and equal) and its service-identifier entry
/// names the selector's service, or is absent under the Spring Cloud convention; an
/// instance meeting both matches.
pub proof fn lemma_selector_match(metadata: Seq<(Seq<char>, Seq<char>)>, service_id: Seq<char>,
    version: Option<Seq<char>>, convention: NacosConvention)
    ensures
        matches_selector_spec(metadata, service_id, version, convention) ==> lookup(metadata, "fusen.version"@) == version,
        lookup(metadata, "fusen.version"@) != version ==> !matches_selector_spec(metadata, service_id, version, convention),
        matches_selector_spec(metadata, service_id, version, convention) ==> (lookup(metadata, "fusen.service_id"@)
            == Some(service_id) || (lookup(metadata, "fusen.service_id"@) is None
            && convention == NacosConvention::SpringCloud)),
        lookup(metadata, "fusen.version"@) == version && lookup(metadata, "fusen.service_id"@) == Some(service_id)
            ==> matches_selector_spec(metadata, service_id, version, convention),
        lookup(metadata, "fusen.version"@) == version && lookup(metadata, "fusen.service_id"@) is None
            && convention == NacosConvention::SpringCloud ==> matches_selector_spec(metadata, service_id, version,
            convention),
        (lookup(metadata, "fusen.service_id"@) matches Some(id) && id != service_id) ==> !matches_selector_spec(metadata,
            service_id, version, convention),
        (lookup(metadata, "fusen.service_id"@) is None && convention == NacosConvention::Canonical)
            ==> !matches_selector_spec(metadata, service_id, version, convention),
{
}

/// Nacos settings are accepted exactly when the server address holds a
/// non-white-space character and no surrounding white space, and the username and
/// password are configured together.
pub proof fn lemma_nacos_settings(c: NacosConfigView)
    ensures
        nacos_config_problem(c) is None <==> (!is_blank(c.server_addr) && is_trimmed(c.server_addr)
            && (c.username is Some <==> c.password is Some)),
{
}

/// A decoded version list always names at least one version.
pub proof fn lemma_decoded_versions_nonempty(value: Seq<char>)
    ensures
        decoded_versions(value) matches Some((h1, h2)) ==> h1 || h2,
{
}

/// A provider failure is retryable exactly when it is not about the request: invalid
/// parameters and server addresses are invalid resources, serialization failures are
/// internal, and anything else is an unavailability.
pub proof fn lemma_provider_error_kinds(class: NacosErrorClass)
    ensures
        provider_error_kind(class).spec_is_retryable() <==> class == NacosErrorClass::Other,
        (class == NacosErrorClass::InvalidParam || class == NacosErrorClass::WrongServerAddress)
            ==> provider_error_kind(class) == RegistryErrorKind::InvalidResource,
        class == NacosErrorClass::Serialization ==> provider_error_kind(class) == RegistryErrorKind::Internal,
{
}

} // verus!
