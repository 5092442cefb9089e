use zeptoclaw::error::ZeptoError;
use zeptoclaw::json::Json;
use zeptoclaw::peripherals::nvs::{
    validate_nvs_string, DeviceCommand, NvsDeleteTool, NvsGetTool, NvsSetTool, MAX_KEY_LEN,
    MAX_NAMESPACE_LEN, MAX_VALUE_LEN,
};
use zeptoclaw::tools::output::ToolCategory;

fn json(text: &str) -> Json {
    Json::parse(text).unwrap()
}

#[test]
fn test_validate_nvs_string_valid_key() {
    assert!(validate_nvs_string("wifi_ssid", "key", MAX_KEY_LEN).is_ok());
    assert!(validate_nvs_string("k", "key", MAX_KEY_LEN).is_ok());
    assert!(validate_nvs_string("key-1", "key", MAX_KEY_LEN).is_ok());
    assert!(validate_nvs_string("KEY_123", "key", MAX_KEY_LEN).is_ok());
}

#[test]
fn test_validate_nvs_string_exactly_max_len() {
    // 15 chars — at the limit, should pass.
    let at_limit = "a".repeat(MAX_KEY_LEN);
    assert_eq!(at_limit.len(), MAX_KEY_LEN);
    assert!(validate_nvs_string(&at_limit, "key", MAX_KEY_LEN).is_ok());
}

#[test]
fn test_validate_nvs_string_empty_key() {
    let err = validate_nvs_string("", "key", MAX_KEY_LEN).unwrap_err();
    let msg = err.message();
    assert!(
        msg.contains("empty"),
        "expected 'empty' in error, got: {msg}"
    );
}

#[test]
fn test_validate_nvs_string_empty_namespace() {
    let err = validate_nvs_string("", "namespace", MAX_NAMESPACE_LEN).unwrap_err();
    let msg = err.message();
    assert!(
        msg.contains("empty"),
        "expected 'empty' in error, got: {msg}"
    );
}

#[test]
fn test_validate_nvs_string_too_long_key() {
    // 16 chars — one over the limit.
    let too_long = "a".repeat(MAX_KEY_LEN + 1);
    let err = validate_nvs_string(&too_long, "key", MAX_KEY_LEN).unwrap_err();
    let msg = err.message();
    assert!(
        msg.contains("exceeds") || msg.contains("maximum"),
        "expected length error, got: {msg}"
    );
}

#[test]
fn test_validate_nvs_string_too_long_namespace() {
    let too_long = "n".repeat(MAX_NAMESPACE_LEN + 1);
    let err = validate_nvs_string(&too_long, "namespace", MAX_NAMESPACE_LEN).unwrap_err();
    let msg = err.message();
    assert!(
        msg.contains("exceeds") || msg.contains("maximum"),
        "expected length error, got: {msg}"
    );
}

#[test]
fn test_validate_nvs_string_invalid_chars_space() {
    let err = validate_nvs_string("my key", "key", MAX_KEY_LEN).unwrap_err();
    let msg = err.message();
    assert!(
        msg.contains("invalid"),
        "expected 'invalid' in error, got: {msg}"
    );
}

#[test]
fn test_validate_nvs_string_invalid_chars_dot() {
    let err = validate_nvs_string("my.key", "key", MAX_KEY_LEN).unwrap_err();
    let msg = err.message();
    assert!(
        msg.contains("invalid"),
        "expected 'invalid' in error, got: {msg}"
    );
}

#[test]
fn test_validate_nvs_string_invalid_chars_slash() {
    let err = validate_nvs_string("my/key", "key", MAX_KEY_LEN).unwrap_err();
    let msg = err.message();
    assert!(
        msg.contains("invalid"),
        "expected 'invalid' in error, got: {msg}"
    );
}

#[test]
fn test_validate_nvs_string_invalid_chars_at() {
    let err = validate_nvs_string("key@host", "key", MAX_KEY_LEN).unwrap_err();
    let msg = err.message();
    assert!(
        msg.contains("invalid"),
        "expected 'invalid' in error, got: {msg}"
    );
}

#[test]
fn test_max_key_len_is_15() {
    assert_eq!(MAX_KEY_LEN, 15);
}

#[test]
fn test_max_namespace_len_is_15() {
    assert_eq!(MAX_NAMESPACE_LEN, 15);
}

#[test]
fn test_max_value_len_is_4000() {
    assert_eq!(MAX_VALUE_LEN, 4000);
}

#[test]
fn test_validate_nvs_string_allows_underscore_and_hyphen() {
    assert!(validate_nvs_string("my_key", "key", MAX_KEY_LEN).is_ok());
    assert!(validate_nvs_string("my-key", "key", MAX_KEY_LEN).is_ok());
    assert!(validate_nvs_string("a_b-c", "key", MAX_KEY_LEN).is_ok());
}

#[test]
fn test_validate_nvs_string_error_mentions_field() {
    let err = validate_nvs_string("", "namespace", MAX_NAMESPACE_LEN).unwrap_err();
    let msg = err.message();
    assert!(
        msg.contains("namespace"),
        "error should mention field name, got: {msg}"
    );

    let err2 = validate_nvs_string("", "key", MAX_KEY_LEN).unwrap_err();
    let msg2 = err2.message();
    assert!(
        msg2.contains("key"),
        "error should mention field name, got: {msg2}"
    );
}

fn has(required: &Json, name: &str) -> bool {
    required
        .as_array()
        .unwrap()
        .iter()
        .any(|v| v.as_str() == Some(name))
}

fn is_object(value: Option<&Json>) -> bool {
    value.unwrap().as_object().is_some()
}

#[test]
fn test_nvs_get_parameter_schema() {
    let schema = NvsGetTool.parameters();
    assert_eq!(schema.get_str("type"), Some("object"));
    let properties = schema.get("properties").unwrap();
    assert!(is_object(properties.get("namespace")));
    assert!(is_object(properties.get("key")));
    let required = schema.get("required").unwrap();
    assert!(has(required, "key"));
    assert!(!has(required, "namespace"), "namespace is optional");
    assert_eq!(
        properties.get("namespace").unwrap().get_str("description"),
        Some("NVS namespace (default: \"config\", max 15 chars, alphanumeric/_/-)")
    );
    assert_eq!(
        properties.get("key").unwrap().get_str("description"),
        Some("NVS key name (required, max 15 chars, alphanumeric/_/-)")
    );
}

#[test]
fn test_nvs_set_parameter_schema() {
    let schema = NvsSetTool.parameters();
    assert_eq!(schema.get_str("type"), Some("object"));
    let properties = schema.get("properties").unwrap();
    assert!(is_object(properties.get("namespace")));
    assert!(is_object(properties.get("key")));
    assert!(is_object(properties.get("value")));
    let required = schema.get("required").unwrap();
    assert!(has(required, "key"));
    assert!(has(required, "value"));
    assert!(!has(required, "namespace"), "namespace is optional");
    assert_eq!(
        properties.get("value").unwrap().get_str("description"),
        Some("String value to store in NVS")
    );
}

#[test]
fn test_nvs_delete_parameter_schema() {
    let schema = NvsDeleteTool.parameters();
    assert_eq!(schema.get_str("type"), Some("object"));
    let properties = schema.get("properties").unwrap();
    assert!(is_object(properties.get("namespace")));
    assert!(is_object(properties.get("key")));
    let required = schema.get("required").unwrap();
    assert!(has(required, "key"));
    assert!(!has(required, "namespace"), "namespace is optional");
    assert_eq!(
        properties.get("key").unwrap().get_str("description"),
        Some("NVS key name to delete (required, max 15 chars, alphanumeric/_/-)")
    );
}

fn text_of(r: Result<DeviceCommand, ZeptoError>) -> String {
    match r {
        Ok(command) => format!("{} {}", command.name, command.args.compact()),
        Err(e) => e.message().to_string(),
    }
}

#[test]
fn commands_name_a_value() {
    assert_eq!(
        text_of(NvsGetTool.command(&json(r#"{"key": "ssid"}"#))),
        r#"nvs_get {"key":"ssid","namespace":"config"}"#
    );
    assert_eq!(
        text_of(NvsDeleteTool.command(&json(r#"{"key": "ssid", "namespace": "wifi"}"#))),
        r#"nvs_delete {"key":"ssid","namespace":"wifi"}"#
    );
    assert_eq!(
        text_of(NvsSetTool.command(&json(r#"{"key": "ssid", "value": "a b"}"#))),
        r#"nvs_set {"key":"ssid","namespace":"config","value":"a b"}"#
    );
}

#[test]
fn commands_need_their_parts() {
    assert_eq!(
        text_of(NvsGetTool.command(&json(r#"{"key": 1}"#))),
        "Missing required parameter 'key'"
    );
    assert_eq!(
        text_of(NvsDeleteTool.command(&json("{}"))),
        "Missing required parameter 'key'"
    );
    assert_eq!(
        text_of(NvsSetTool.command(&json(r#"{"value": "v"}"#))),
        "Missing required parameter 'key'"
    );
    assert_eq!(
        text_of(NvsSetTool.command(&json(r#"{"key": "no good"}"#))),
        "Missing required parameter 'value'"
    );
}

#[test]
fn commands_with_bad_names_are_refused() {
    assert_eq!(
        text_of(NvsGetTool.command(&json(r#"{"key": "", "namespace": "a b"}"#))),
        "NVS namespace 'a b' contains invalid characters; only alphanumeric, '_', and '-' are allowed"
    );
    assert_eq!(
        text_of(NvsGetTool.command(&json(r#"{"key": ""}"#))),
        "NVS key must not be empty"
    );
    assert_eq!(
        text_of(NvsSetTool.command(&json(r#"{"key": "ééééééééx", "value": ""}"#))),
        "NVS key 'ééééééééx' exceeds maximum length of 15 bytes (got 17)"
    );
    assert_eq!(
        text_of(NvsDeleteTool.command(&json(r#"{"key": "é"}"#))),
        "NVS key 'é' contains invalid characters; only alphanumeric, '_', and '-' are allowed"
    );
}

#[test]
fn values_have_a_limit() {
    let at_limit = format!(r#"{{"key": "k", "value": "{}"}}"#, "v".repeat(MAX_VALUE_LEN));
    assert!(NvsSetTool.command(&json(&at_limit)).is_ok());
    let over = format!(r#"{{"key": "k", "value": "{}"}}"#, "é".repeat(2001));
    assert_eq!(
        text_of(NvsSetTool.command(&json(&over))),
        "NVS value exceeds maximum length of 4000 bytes (got 4002)"
    );
}

#[test]
fn replies_are_for_the_model() {
    let output = NvsGetTool.output(Ok("value".to_string())).unwrap();
    assert_eq!(output.for_llm, "value");
    assert!(output.for_user.is_none());
    let e = NvsSetTool
        .output(Err(ZeptoError::Tool("timeout".to_string())))
        .unwrap_err();
    assert_eq!(e.message(), "timeout");
}

#[test]
fn names_of_the_tools() {
    assert_eq!(NvsGetTool.name(), "nvs_get");
    assert_eq!(NvsSetTool.name(), "nvs_set");
    assert_eq!(NvsDeleteTool.name(), "nvs_delete");
    assert_eq!(NvsGetTool.category(), ToolCategory::Hardware);
    assert_eq!(
        NvsGetTool.description(),
        "Read a value from ESP32 NVS (non-volatile flash storage) by namespace and key. \
         Returns the stored string value, or an error if the key does not exist."
    );
    assert_eq!(
        NvsSetTool.description(),
        "Write a string value to ESP32 NVS (non-volatile flash storage). \
         Creates the key if it does not exist; overwrites if it does."
    );
    assert_eq!(
        NvsDeleteTool.description(),
        "Delete a key from ESP32 NVS (non-volatile flash storage). \
         Returns an error if the namespace or key does not exist."
    );
    assert_eq!(NvsGetTool.compact_description(), "Read NVS key value");
    assert_eq!(NvsSetTool.compact_description(), "Write NVS key value");
    assert_eq!(NvsDeleteTool.compact_description(), "Delete NVS key");
}
