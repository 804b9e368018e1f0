use crate::nacos::{application_name_problem, nacos_config_problem, validate_application_name, NacosConfig, NacosErrorClass};
use crate::text::str_eq;
use vstd::prelude::*;
use vstd::string::*;

verus! {

/// The Nacos group used when a configuration key names none.
pub open spec fn default_config_group() -> Seq<char> {
    "DEFAULT_GROUP"@
}

/// The configuration-source operation that failed.
#[derive(Clone, Copy, Debug, PartialEq, Eq, Hash, Structural)]
pub enum ConfigOperation {
    /// Preparing a source or a key.
    Prepare,
    /// Activating a key: the first fetch.
    Activate,
    /// Publishing a changed document.
    Publish,
    /// Closing a key.
    Close,
}

/// The classification of a configuration failure.
#[derive(Clone, Copy, Debug, PartialEq, Eq, Hash, Structural)]
pub enum ConfigErrorKind {
    /// The caller's input was rejected.
    InvalidInput,
    /// The provider returned data that could not be read.
    InvalidData,
    /// The provider could not be reached or failed.
    Unavailable,
    /// The document's format is not supported.
    UnsupportedFormat,
}

/// A configuration document format.
#[derive(Clone, Copy, Debug, PartialEq, Eq, Hash, Structural)]
pub enum ConfigFormat {
    /// JSON.
    Json,
    /// YAML.
    Yaml,
    /// TOML.
    Toml,
}

impl ConfigFormat {
    /// The format a name denotes: `json`, `yaml` or `yml`, `toml`.
    pub open spec fn spec_from_name(name: Seq<char>) -> Option<ConfigFormat> {
        if name == "json"@ {
            Some(ConfigFormat::Json)
        } else if name == "yaml"@ || name == "yml"@ {
            Some(ConfigFormat::Yaml)
        } else if name == "toml"@ {
            Some(ConfigFormat::Toml)
        } else {
            None
        }
    }

    /// Returns the format a name denotes.
    pub fn from_name(name: &str) -> (format: Option<ConfigFormat>)
        ensures
            format == ConfigFormat::spec_from_name(name@),
    {
        if str_eq(name, "json") {
            Some(ConfigFormat::Json)
        } else if str_eq(name, "yaml") || str_eq(name, "yml") {
            Some(ConfigFormat::Yaml)
        } else if str_eq(name, "toml") {
            Some(ConfigFormat::Toml)
        } else {
            None
        }
    }
}

/// A configuration document: its format and its text.
pub struct ConfigDocument {
    /// The format.
    pub format: ConfigFormat,
    /// The text.
    pub content: String,
}

impl ConfigDocument {
    /// Returns the document's format.
    pub fn format(&self) -> (format: ConfigFormat)
        ensures
            format == self.format,
    {
        self.format
    }
}

/// A configuration failure: the operation, its classification, a safe message and
/// the provider's own text, which diagnostics never show.
pub struct ConfigError {
    operation: ConfigOperation,
    kind: ConfigErrorKind,
    message: String,
    source: String,
}

impl ConfigError {
    /// The operation that failed.
    pub closed spec fn spec_operation(&self) -> ConfigOperation {
        self.operation
    }

    /// The classification.
    pub closed spec fn spec_kind(&self) -> ConfigErrorKind {
        self.kind
    }

    /// The safe message.
    pub closed spec fn spec_message(&self) -> Seq<char> {
        self.message@
    }

    /// The provider's text.
    pub closed spec fn spec_source(&self) -> Seq<char> {
        self.source@
    }

    /// An error described by a safe message.
    pub fn message(operation: ConfigOperation, kind: ConfigErrorKind, message: &str) -> (error: Self)
        ensures
            error.spec_operation() == operation,
            error.spec_kind() == kind,
            error.spec_message() == message@,
            error.spec_source() == Seq::<char>::empty(),
    {
        ConfigError { operation, kind, message: message.to_owned(), source: String::new() }
    }

    /// Returns the operation that failed.
    pub fn operation(&self) -> (operation: ConfigOperation)
        ensures
            operation == self.spec_operation(),
    {
        self.operation
    }

    /// Returns the classification.
    pub fn kind(&self) -> (kind: ConfigErrorKind)
        ensures
            kind == self.spec_kind(),
    {
        self.kind
    }

    /// Returns the safe message.
    pub fn safe_message(&self) -> (message: &str)
        ensures
            message@ == self.spec_message(),
    {
        self.message.as_str()
    }

    /// Returns the provider's text.
    pub fn source_text(&self) -> (source: &str)
        ensures
            source@ == self.spec_source(),
    {
        self.source.as_str()
    }

    /// Describes the error for diagnostics: the safe message only.
    pub fn describe(&self) -> (text: String)
        ensures
            text@ == self.spec_message(),
    {
        self.message.clone()
    }
}

/// The configuration classification of a Nacos SDK error class.
pub open spec fn config_error_kind(class: NacosErrorClass) -> ConfigErrorKind {
    match class {
        NacosErrorClass::InvalidParam | NacosErrorClass::WrongServerAddress => ConfigErrorKind::InvalidInput,
        NacosErrorClass::Serialization => ConfigErrorKind::InvalidData,
        NacosErrorClass::Other => ConfigErrorKind::Unavailable,
    }
}

/// The safe message of a provider failure of a kind.
pub open spec fn provider_failure_message(kind: ConfigErrorKind) -> Seq<char> {
    match kind {
        ConfigErrorKind::InvalidInput => "configuration provider rejected the request"@,
        ConfigErrorKind::InvalidData => "configuration provider returned unreadable data"@,
        _ => "configuration provider is unavailable"@,
    }
}

/// Classifies a Nacos SDK failure of a configuration operation, keeping its text as
/// the source.
pub fn config_provider_error(operation: ConfigOperation, class: NacosErrorClass, source: &str) -> (error: ConfigError)
    ensures
        error.spec_operation() == operation,
        error.spec_kind() == config_error_kind(class),
        error.spec_message() == provider_failure_message(config_error_kind(class)),
        error.spec_source() == source@,
{
    let kind = match class {
        NacosErrorClass::InvalidParam | NacosErrorClass::WrongServerAddress => ConfigErrorKind::InvalidInput,
        NacosErrorClass::Serialization => ConfigErrorKind::InvalidData,
        NacosErrorClass::Other => ConfigErrorKind::Unavailable,
    };
    let message = match kind {
        ConfigErrorKind::InvalidInput => "configuration provider rejected the request",
        ConfigErrorKind::InvalidData => "configuration provider returned unreadable data",
        _ => "configuration provider is unavailable",
    };
    ConfigError { operation, kind, message: message.to_owned(), source: source.to_owned() }
}

/// The Nacos group of a configuration key: its own, else `DEFAULT_GROUP`.
pub fn config_group(group: Option<&str>) -> (resolved: String)
    ensures
        resolved@ == match group { Some(g) => g@, None => default_config_group() },
{
    match group {
        Some(g) => g.to_owned(),
        None => String::from_str("DEFAULT_GROUP"),
    }
}

/// Checks a configuration source's settings before any network I/O: the Nacos
/// settings first, then the application name; each problem is invalid input of the
/// prepare operation.
pub fn prepare_config_source(config: &NacosConfig, application_name: &str) -> (result: Result<(), ConfigError>)
    ensures
        match (nacos_config_problem(config@), application_name_problem(application_name)) {
            (Some(problem), _) => result matches Err(e) && e.spec_operation() == ConfigOperation::Prepare
                && e.spec_kind() == ConfigErrorKind::InvalidInput && e.spec_message() == problem,
            (None, Some(problem)) => result matches Err(e) && e.spec_operation() == ConfigOperation::Prepare
                && e.spec_kind() == ConfigErrorKind::InvalidInput && e.spec_message() == problem,
            (None, None) => result is Ok,
        },
{
    match config.validate() {
        Err(message) => {
            return Err(ConfigError::message(ConfigOperation::Prepare, ConfigErrorKind::InvalidInput, message));
        },
        Ok(()) => {},
    }
    match validate_application_name(application_name) {
        Err(message) => Err(ConfigError::message(ConfigOperation::Prepare, ConfigErrorKind::InvalidInput, message)),
        Ok(()) => Ok(()),
    }
}

/// The extension of the file name of a path text, as `std::path::Path::extension`
/// reports it, or `None`.
pub uninterp spec fn path_extension(path: Seq<char>) -> Option<Seq<char>>;

/// Reads the extension of `path` with `std::path::Path::extension`. The contract only
/// names the result: it is `path_extension` of the text.
#[verifier::external_body]
fn file_extension(path: &str) -> (extension: Option<String>)
    ensures
        match extension {
            Some(e) => path_extension(path@) == Some(e@),
            None => path_extension(path@) is None,
        },
{
    std::path::Path::new(path).extension().and_then(|e| e.to_str()).map(str::to_owned)
}

/// The text `format!("{:?}", s)` writes for a string: quoted, with `Debug` escapes.
pub uninterp spec fn debug_text(s: Seq<char>) -> Seq<char>;

/// Writes a string with its `Debug` formatting through `format!`; the contract names
/// the text.
#[verifier::external_body]
fn debug_str(s: &str) -> (text: String)
    ensures
        text@ == debug_text(s@),
{
    format!("{s:?}")
}

/// The message that rejects a document format, naming the resource and the content
/// type in their `Debug` form.
pub open spec fn unsupported_format_text(data_id: Seq<char>, content_type: Seq<char>) -> Seq<char> {
    "Nacos resource "@ + debug_text(data_id) + " uses unsupported content type "@ + debug_text(content_type)
}

/// Writes the message that rejects a document format.
pub fn unsupported_format_message(data_id: &str, content_type: &str) -> (message: String)
    ensures
        message@ == unsupported_format_text(data_id@, content_type@),
{
    let mut message = String::from_str("Nacos resource ");
    let data_id_text = debug_str(data_id);
    message.append(data_id_text.as_str());
    message.append(" uses unsupported content type ");
    let content_type_text = debug_str(content_type);
    message.append(content_type_text.as_str());
    message
}

/// The format of a fetched document: the one its content type names, else the one
/// its data identifier's extension names.
pub open spec fn document_format(data_id: Seq<char>, content_type: Seq<char>) -> Option<ConfigFormat> {
    match ConfigFormat::spec_from_name(content_type) {
        Some(format) => Some(format),
        None => match path_extension(data_id) {
            Some(extension) => ConfigFormat::spec_from_name(extension),
            None => None,
        },
    }
}

/// Reads a fetched configuration: its format comes from the content type, else from
/// the data identifier's extension; without either the document is rejected as an
/// unsupported format of `operation`, with a message that names the resource and the
/// content type but never the content.
pub fn document_from_response(data_id: &str, content_type: &str, content: &str, operation: ConfigOperation)
    -> (result: Result<ConfigDocument, ConfigError>)
    ensures
        match document_format(data_id@, content_type@) {
            Some(format) => result matches Ok(document) && document.format == format && document.content@ == content@,
            None => result matches Err(e) && e.spec_operation() == operation
                && e.spec_kind() == ConfigErrorKind::UnsupportedFormat
                && e.spec_message() == unsupported_format_text(data_id@, content_type@),
        },
{
    let format = match ConfigFormat::from_name(content_type) {
        Some(format) => Some(format),
        None => match file_extension(data_id) {
            Some(extension) => ConfigFormat::from_name(extension.as_str()),
            None => None,
        },
    };
    match format {
        Some(format) => Ok(ConfigDocument { format, content: content.to_owned() }),
        None => {
            let message = unsupported_format_message(data_id, content_type);
            Err(ConfigError {
                operation,
                kind: ConfigErrorKind::UnsupportedFormat,
                message,
                source: String::new(),
            })
        },
    }
}

/// A format name denotes a format exactly when it is `json`, `yaml`, `yml` or `toml`,
/// and each name denotes its own format.
pub proof fn lemma_format_names(name: Seq<char>)
    ensures
        (ConfigFormat::spec_from_name(name) == Some(ConfigFormat::Json)) <==> name == "json"@,
        (ConfigFormat::spec_from_name(name) == Some(ConfigFormat::Yaml)) <==> (name == "yaml"@ || name == "yml"@),
        (ConfigFormat::spec_from_name(name) == Some(ConfigFormat::Toml)) <==> name == "toml"@,
{
    reveal_strlit("json");
    reveal_strlit("yaml");
    reveal_strlit("yml");
    reveal_strlit("toml");
    assert("json"@[0] != "yaml"@[0]);
    assert("json"@[0] != "toml"@[0]);
    assert("yaml"@[0] != "toml"@[0]);
    assert("yml"@.len() != "toml"@.len());
    assert("yml"@.len() != "json"@.len());
}

/// A content type that names a format decides the document's format, whatever the
/// data identifier says; otherwise the extension of the data identifier decides; a
/// document is unreadable only when neither names a format.
pub proof fn lemma_document_format(data_id: Seq<char>, content_type: Seq<char>)
    ensures
        ConfigFormat::spec_from_name(content_type) matches Some(f) ==> document_format(data_id, content_type)
            == Some(f),
        ConfigFormat::spec_from_name(content_type) is None ==> document_format(data_id, content_type) == match
            path_extension(data_id) {
            Some(extension) => ConfigFormat::spec_from_name(extension),
            None => None,
        },
        document_format(data_id, content_type) is None <==> (ConfigFormat::spec_from_name(content_type) is None
            && (path_extension(data_id) matches Some(x) ==> ConfigFormat::spec_from_name(x) is None)),
{
}

/// A Nacos failure of a configuration operation is the caller's fault for a rejected
/// parameter or server address, unreadable data for a serialization failure, and the
/// provider's unavailability otherwise; each kind has its own safe message.
pub proof fn lemma_config_error_classes(class: NacosErrorClass)
    ensures
        (config_error_kind(class) == ConfigErrorKind::InvalidInput) <==> (class == NacosErrorClass::InvalidParam
            || class == NacosErrorClass::WrongServerAddress),
        (config_error_kind(class) == ConfigErrorKind::InvalidData) <==> class == NacosErrorClass::Serialization,
        (config_error_kind(class) == ConfigErrorKind::Unavailable) <==> class == NacosErrorClass::Other,
        config_error_kind(class) != ConfigErrorKind::UnsupportedFormat,
        provider_failure_message(ConfigErrorKind::InvalidInput) != provider_failure_message(ConfigErrorKind::InvalidData),
        provider_failure_message(ConfigErrorKind::InvalidInput) != provider_failure_message(ConfigErrorKind::Unavailable),
        provider_failure_message(ConfigErrorKind::InvalidData) != provider_failure_message(ConfigErrorKind::Unavailable),
{
    reveal_strlit("configuration provider rejected the request");
    reveal_strlit("configuration provider returned unreadable data");
    reveal_strlit("configuration provider is unavailable");
    assert("configuration provider rejected the request"@.len() != "configuration provider returned unreadable data"@.len());
    assert("configuration provider rejected the request"@.len() != "configuration provider is unavailable"@.len());
    assert("configuration provider returned unreadable data"@.len() != "configuration provider is unavailable"@.len());
}


} // verus!
