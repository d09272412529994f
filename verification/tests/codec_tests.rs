use pmp_deploy::config::env_vars::{EnvVarError, EnvVarResolver};
use pmp_deploy::infrastructure::aws_eks::AwsEksProvider;
use pmp_deploy::infrastructure::helm::{CommandOutput, HelmDeployer, HelmError};
use pmp_deploy::infrastructure::k8s_resources::{K8sConfigMapSpec, K8sResourceManager};
use pmp_deploy::text::trim_text;

fn output(success: bool, stdout: &str) -> CommandOutput {
    CommandOutput { success, stdout: stdout.to_string(), stderr: String::new() }
}

#[test]
fn release_revision_reads_the_first_release() {
    let out = output(true, r#"[{"name":"web","revision":7},{"name":"other","revision":2}]"#);
    assert_eq!(HelmDeployer::release_revision(&out).unwrap(), "7");
}

#[test]
fn release_revision_keeps_the_json_text_of_a_string_revision() {
    let out = output(true, r#"[{"name":"web","revision":"7"}]"#);
    assert_eq!(HelmDeployer::release_revision(&out).unwrap(), "\"7\"");
}

#[test]
fn release_revision_of_an_empty_list_or_failed_command_is_unknown() {
    assert_eq!(HelmDeployer::release_revision(&output(true, "[]")).unwrap(), "unknown");
    assert_eq!(HelmDeployer::release_revision(&output(false, "not json")).unwrap(), "unknown");
}

#[test]
fn release_revision_refuses_output_that_is_not_a_list() {
    let r = HelmDeployer::release_revision(&output(true, "{oops"));
    assert!(matches!(r, Err(HelmError::InvalidReleaseList(_))));
}

#[test]
fn image_patch_quotes_its_texts_as_json() {
    let patch = AwsEksProvider::image_patch("web", "repo/web:\"1\"");
    assert_eq!(
        patch,
        r#"{"spec":{"template":{"spec":{"containers":[{"image":"repo/web:\"1\"","name":"web"}]}}}}"#
    );
}

#[test]
fn extract_value_reads_json_fields() {
    let resolver = EnvVarResolver::from_settings(None, None, None);
    let raw = r#"{"password":"s3cr3t","port":5432}"#;
    assert_eq!(resolver.extract_value(raw, &Some("password".to_string())).unwrap(), "s3cr3t");
    assert_eq!(resolver.extract_value(raw, &Some("port".to_string())).unwrap(), "5432");
    assert_eq!(resolver.extract_value(raw, &None).unwrap(), raw);
}

#[test]
fn extract_value_reports_missing_fields_and_non_json_secrets() {
    let resolver = EnvVarResolver::from_settings(None, None, None);
    let missing = resolver.extract_value(r#"{"a":"b"}"#, &Some("user".to_string()));
    assert!(matches!(missing, Err(EnvVarError::JsonFieldNotFound { ref field }) if field == "user"));
    let not_json = resolver.extract_value("plain text", &Some("user".to_string()));
    assert!(matches!(not_json, Err(EnvVarError::SecretNotJson)));
}

fn config_map(binary: Vec<(String, String)>) -> K8sConfigMapSpec {
    K8sConfigMapSpec {
        name: "settings".to_string(),
        namespace: None,
        data: vec![],
        binary_data: binary,
        data_from_files: vec![],
        labels: vec![],
        annotations: vec![],
    }
}

#[test]
fn config_map_object_decodes_binary_entries() {
    let manager = K8sResourceManager::new("prod");
    let spec = config_map(vec![("greeting".to_string(), "aGVsbG8=".to_string())]);
    let object = manager.config_map_object(&spec).unwrap();
    assert_eq!(object.namespace, "prod");
    assert_eq!(object.binary_data, Some(vec![("greeting".to_string(), b"hello".to_vec())]));
}

#[test]
fn config_map_object_refuses_invalid_base64() {
    let manager = K8sResourceManager::new("prod");
    let spec = config_map(vec![("greeting".to_string(), "not base64!".to_string())]);
    assert!(manager.config_map_object(&spec).is_err());
}

#[test]
fn trim_text_strips_surrounding_whitespace() {
    assert_eq!(trim_text("  deploy \t\n"), "deploy");
    assert_eq!(trim_text("\u{2003}wide\u{2003}"), "wide");
    assert_eq!(trim_text("   "), "");
}

#[test]
fn image_patch_escapes_control_characters() {
    let patch = AwsEksProvider::image_patch("w\\eb", "a\tb\u{1}é");
    assert_eq!(
        patch,
        "{\"spec\":{\"template\":{\"spec\":{\"containers\":[{\"image\":\"a\\tb\\u0001é\",\"name\":\"w\\\\eb\"}]}}}}"
    );
}
