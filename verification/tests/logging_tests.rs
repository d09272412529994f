use pmp_deploy::logging::{
    is_sensitive_key, mask_capture, mask_sensitive, mask_value, sensitive_value_patterns, LogConfig, LogFormat, SensitiveValue,
};
use pmp_deploy::plugin_sdk::{DeploymentResult, PluginError};

#[test]
fn test_log_format_from_str() {
    assert_eq!("text".parse::<LogFormat>().unwrap(), LogFormat::Text);
    assert_eq!("json".parse::<LogFormat>().unwrap(), LogFormat::Json);
    assert_eq!("compact".parse::<LogFormat>().unwrap(), LogFormat::Compact);
    assert!("invalid".parse::<LogFormat>().is_err());
}

#[test]
fn log_format_names_ignore_case() {
    assert_eq!(LogFormat::parse("PRETTY").unwrap(), LogFormat::Text);
    assert_eq!(
        LogFormat::parse("xml").unwrap_err(),
        "Unknown log format: xml. Use 'text', 'json', or 'compact'"
    );
}

#[test]
fn test_log_config_builder() {
    let config = LogConfig::new().with_format(LogFormat::Json).with_level("debug").with_timestamps(false);

    assert_eq!(config.format, LogFormat::Json);
    assert_eq!(config.level, "debug");
    assert!(!config.timestamps);
}

#[test]
fn log_config_presets() {
    let v = LogConfig::verbose();
    assert_eq!(v.level, "debug");
    assert!(v.file_info && v.span_events);
    let q = LogConfig::quiet();
    assert_eq!(q.format, LogFormat::Compact);
    assert_eq!(q.level, "warn");
    assert!(!q.timestamps);
    let j = LogConfig::json();
    assert_eq!(j.format, LogFormat::Json);
}

#[test]
fn test_mask_value() {
    assert_eq!(mask_value("abc"), "****");
    assert_eq!(mask_value("abcd"), "****");
    assert_eq!(mask_value("abcde"), "abcd****");
    assert_eq!(mask_value("secret-token-12345"), "secr****");
}

#[test]
fn test_is_sensitive_key() {
    assert!(is_sensitive_key("password"));
    assert!(is_sensitive_key("API_KEY"));
    assert!(is_sensitive_key("aws_secret_access_key"));
    assert!(is_sensitive_key("DATABASE_PASSWORD"));
    assert!(!is_sensitive_key("username"));
    assert!(!is_sensitive_key("host"));
}

#[test]
fn test_sensitive_value_display() {
    let masked = SensitiveValue::masked("my-secret-token");
    assert_eq!(masked.to_string(), "my-s****");

    let visible = SensitiveValue::visible("my-value");
    assert_eq!(visible.to_string(), "my-value");
}

#[test]
fn sensitive_value_debug_forms() {
    assert_eq!(SensitiveValue::masked("my-secret-token").debug_string(), "\"my-s****\"");
    assert_eq!(SensitiveValue::visible("a\"b").debug_string(), "\"a\\\"b\"");
}

#[test]
fn masking_a_found_value() {
    assert_eq!(mask_capture("\"password\": \"secret123\"", "secret123"), "\"password\": \"se***\"");
    assert_eq!(mask_capture("token=abc", "abc"), "token=***");
    let (a, b) = sensitive_value_patterns("token");
    assert_eq!(a, "token[\"']?\\s*[:=]\\s*[\"']?([^\"'\\s,}]+)");
    assert_eq!(b, "token[\"']?\\s*[:=]\\s*[\"']([^\"']+)[\"']");
}

#[test]
fn test_deployment_result_success() {
    let r = DeploymentResult::success("deployed", "v1.0.0");
    assert!(r.success);
    assert_eq!(r.version, Some("v1.0.0".to_string()));
}

#[test]
fn test_deployment_result_failure() {
    let r = DeploymentResult::failure("failed");
    assert!(!r.success);
    assert!(r.version.is_none());
}

#[test]
fn plugin_results_across_the_boundary() {
    let r = DeploymentResult::success_with_rollback("ok", "v2", "v1");
    assert_eq!(r.rollback_version, Some("v1".to_string()));
    let (ok, message, version, rollback) = r.ffi_parts();
    assert!(ok);
    assert_eq!((message.as_str(), version.as_str(), rollback.as_str()), ("ok", "v2", "v1"));
    let (ok, _, version, _) = DeploymentResult::failure("bad").ffi_parts();
    assert!(!ok);
    assert!(version.is_empty());
    assert_eq!(PluginError::ConfigError("x".to_string()).to_string(), "Configuration error: x");
}

#[test]
fn test_mask_sensitive() {
    let input = r#"{"password": "secret123", "username": "admin"}"#;
    let masked = mask_sensitive(input).unwrap();
    assert!(!masked.contains("secret123"));
    assert!(masked.contains("admin"));
}

#[test]
fn mask_sensitive_keeps_two_bytes_of_long_values() {
    assert_eq!(mask_sensitive("password=secret123 user=bob").unwrap(), "password=se*** user=bob");
    assert_eq!(
        mask_sensitive(r#"{"password": "secret123", "username": "admin"}"#).unwrap(),
        r#"{"password": "se***", "username": "admin"}"#
    );
}

#[test]
fn mask_sensitive_hides_short_values_and_leaves_plain_text() {
    assert_eq!(mask_sensitive("token=abc").unwrap(), "token=***");
    assert_eq!(mask_sensitive("nothing to hide here").unwrap(), "nothing to hide here");
}

#[test]
fn mask_sensitive_refuses_to_cut_a_character() {
    assert!(mask_sensitive("password=aébcd").is_none());
}
