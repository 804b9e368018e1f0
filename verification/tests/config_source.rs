use fusen::config_source::{
    config_group, config_provider_error, document_from_response, prepare_config_source, ConfigErrorKind, ConfigFormat,
    ConfigOperation,
};
use fusen::nacos::{NacosConfig, NacosErrorClass};

#[test]
fn format_uses_content_type_then_data_id_extension() {
    let explicit = document_from_response("settings.data", "toml", "value = 'ok'", ConfigOperation::Activate)
        .ok()
        .unwrap();
    assert_eq!(explicit.format(), ConfigFormat::Toml);

    let inferred = document_from_response("settings.yaml", "text", "value: ok", ConfigOperation::Activate)
        .ok()
        .unwrap();
    assert_eq!(inferred.format(), ConfigFormat::Yaml);
}

#[test]
fn unknown_format_is_rejected_without_exposing_content() {
    let error = document_from_response("settings.data", "xml", "<password>secret</password>", ConfigOperation::Activate)
        .err()
        .unwrap();
    assert_eq!(error.kind(), ConfigErrorKind::UnsupportedFormat);
    assert!(!error.describe().contains("secret"));
}

#[test]
fn rejected_format_names_the_resource_and_content_type() {
    let error = document_from_response("app", "xml", "x", ConfigOperation::Publish).err().unwrap();
    assert_eq!(error.operation(), ConfigOperation::Publish);
    assert_eq!(error.describe(), "Nacos resource \"app\" uses unsupported content type \"xml\"");
}

#[test]
fn document_keeps_its_content() {
    let document = document_from_response("a.json", "", "{}", ConfigOperation::Activate).ok().unwrap();
    assert_eq!(document.format(), ConfigFormat::Json);
    assert_eq!(document.content, "{}");
}

#[test]
fn configuration_keys_default_to_the_default_group() {
    assert_eq!(config_group(None), "DEFAULT_GROUP");
    assert_eq!(config_group(Some("prod")), "prod");
}

#[test]
fn configuration_sources_validate_before_connecting() {
    assert!(prepare_config_source(&NacosConfig::default(), "demo").is_ok());
    let error = prepare_config_source(&NacosConfig::default(), " demo").err().unwrap();
    assert_eq!(error.operation(), ConfigOperation::Prepare);
    assert_eq!(error.kind(), ConfigErrorKind::InvalidInput);
    let unpaired = NacosConfig::default().with_username(Some("service".into()));
    let error = prepare_config_source(&unpaired, "demo").err().unwrap();
    assert_eq!(error.safe_message(), "Nacos username and password must be configured together");
}

#[test]
fn provider_failures_are_classified() {
    let error = config_provider_error(ConfigOperation::Close, NacosErrorClass::Serialization, "bad payload");
    assert_eq!(error.kind(), ConfigErrorKind::InvalidData);
    assert_eq!(error.source_text(), "bad payload");
    assert!(!error.describe().contains("bad payload"));
    let error = config_provider_error(ConfigOperation::Activate, NacosErrorClass::WrongServerAddress, "addr");
    assert_eq!(error.kind(), ConfigErrorKind::InvalidInput);
    let error = config_provider_error(ConfigOperation::Activate, NacosErrorClass::Other, "down");
    assert_eq!(error.kind(), ConfigErrorKind::Unavailable);
}
