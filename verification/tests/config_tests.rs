use pmp_deploy::config::env_vars::{from_legacy_env, EnvVarConfig, EnvVarSource};
use pmp_deploy::config::loader::{join_path, ConfigLoader, LoaderError};
use pmp_deploy::config::schema::{
    file_name, Config, ConfigValue, EnvironmentConfig, GlobalConfig, InfrastructureConfig,
    ProjectReference,
};
use pmp_deploy::config::validation::ConfigValidator;

fn env(infrastructure: &str, deployment_type: &str) -> EnvironmentConfig {
    EnvironmentConfig {
        infrastructure: infrastructure.to_string(),
        deployment_type: deployment_type.to_string(),
        image: None,
        replicas: None,
        resources: None,
        env: vec![],
        environment: vec![],
        hooks: None,
        config: vec![],
    }
}

fn text(key: &str, value: &str) -> (String, ConfigValue) {
    (key.to_string(), ConfigValue::Text(value.to_string()))
}

#[test]
fn test_env_var_source_default() {
    let source: EnvVarSource = Default::default();
    assert_eq!(source, EnvVarSource::StaticValue);
}

#[test]
fn test_env_var_config_static() {
    let config = EnvVarConfig::static_value("my-value");
    assert_eq!(config.source, EnvVarSource::StaticValue);
    assert_eq!(config.value, Some("my-value".to_string()));
}

#[test]
fn test_env_var_config_from_env() {
    let config = EnvVarConfig::from_env("MY_VAR");
    assert_eq!(config.source, EnvVarSource::Environment);
    assert_eq!(config.env_var, Some("MY_VAR".to_string()));
}

#[test]
fn test_env_var_config_from_aws() {
    let config = EnvVarConfig::from_aws_secrets_manager("arn:aws:secretsmanager:...");
    assert_eq!(config.source, EnvVarSource::AwsSecretsManager);
    assert_eq!(config.arn, Some("arn:aws:secretsmanager:...".to_string()));
}

#[test]
fn test_env_var_config_from_vault() {
    let config = EnvVarConfig::from_vault("secret/data/myapp").with_json_field("password");
    assert_eq!(config.source, EnvVarSource::Vault);
    assert_eq!(config.key, Some("secret/data/myapp".to_string()));
    assert_eq!(config.json_field, Some("password".to_string()));
}

#[test]
fn test_from_legacy_env() {
    let legacy = vec![
        ("FOO".to_string(), "bar".to_string()),
        ("BAZ".to_string(), "qux".to_string()),
    ];

    let converted = from_legacy_env(&legacy);

    assert_eq!(converted.len(), 2);
    let foo = &converted.iter().find(|(k, _)| k == "FOO").unwrap().1;
    assert_eq!(foo.source, EnvVarSource::StaticValue);
    assert_eq!(foo.value, Some("bar".to_string()));
}

#[test]
fn test_project_reference_display_name() {
    let with_name = ProjectReference {
        path: "/some/path".to_string(),
        name: Some("custom-name".to_string()),
    };
    assert_eq!(with_name.display_name(), "custom-name");

    let without_name = ProjectReference { path: "/some/project".to_string(), name: None };
    assert_eq!(without_name.display_name(), "project");
}

#[test]
fn test_validate_missing_infrastructure_reference() {
    let config = Config {
        infrastructure: vec![],
        environments: vec![("dev".to_string(), env("nonexistent", "rolling-update"))],
        secrets: None,
    };

    let result = ConfigValidator::validate(&config);
    assert!(result.is_err());

    let errors = result.unwrap_err();
    assert!(errors.iter().any(|e| e.message.contains("does not exist")));
}

#[test]
fn test_validate_invalid_deployment_type() {
    let infrastructure = vec![(
        "local".to_string(),
        InfrastructureConfig {
            infrastructure_type: "docker-compose".to_string(),
            config: vec![text("compose_file", "docker-compose.yml")],
        },
    )];
    let config = Config {
        infrastructure,
        environments: vec![("dev".to_string(), env("local", "invalid-type"))],
        secrets: None,
    };

    let result = ConfigValidator::validate(&config);
    assert!(result.is_err());
}

#[test]
fn validation_reports_every_error_in_order() {
    let config = Config {
        infrastructure: vec![
            (
                "eks".to_string(),
                InfrastructureConfig { infrastructure_type: "aws-eks".to_string(), config: vec![] },
            ),
            (
                "k8s".to_string(),
                InfrastructureConfig { infrastructure_type: "kubernetes".to_string(), config: vec![] },
            ),
            (
                "plugin".to_string(),
                InfrastructureConfig { infrastructure_type: "my-cloud".to_string(), config: vec![] },
            ),
        ],
        environments: vec![("prod".to_string(), env("missing", "blue-green"))],
        secrets: None,
    };
    let errors = ConfigValidator::validate(&config).unwrap_err();
    let texts: Vec<String> = errors.iter().map(|e| e.to_string()).collect();
    assert_eq!(
        texts,
        vec![
            "infrastructure.eks.config.cluster_name: Required field 'cluster_name' is missing for aws-eks",
            "infrastructure.eks.config.region: Required field 'region' is missing for aws-eks",
            "infrastructure.k8s.config: Kubernetes config requires either 'kubeconfig_path' or 'context'",
            "environments.prod.infrastructure: Referenced infrastructure 'missing' does not exist",
            "environments.prod.deployment_type: Invalid deployment type 'blue-green'. Valid options: rolling-update, all-in",
        ]
    );
}

#[test]
fn validation_accepts_complete_config() {
    let config = Config {
        infrastructure: vec![
            (
                "ecs".to_string(),
                InfrastructureConfig {
                    infrastructure_type: "aws-ecs".to_string(),
                    config: vec![text("cluster", "c"), text("region", "r")],
                },
            ),
            (
                "fn".to_string(),
                InfrastructureConfig {
                    infrastructure_type: "aws-lambda".to_string(),
                    config: vec![text("region", "r")],
                },
            ),
        ],
        environments: vec![("dev".to_string(), env("ecs", "all-in"))],
        secrets: None,
    };
    assert!(ConfigValidator::validate(&config).is_ok());
}

#[test]
fn file_name_follows_path_components() {
    assert_eq!(file_name("/some/project"), Some("project".to_string()));
    assert_eq!(file_name("/some/project/"), Some("project".to_string()));
    assert_eq!(file_name("a/./b/."), Some("b".to_string()));
    assert_eq!(file_name("/"), None);
    assert_eq!(file_name("."), None);
    assert_eq!(file_name("a/.."), None);
    assert_eq!(file_name(""), None);
}

#[test]
fn find_project_by_name_or_directory() {
    let global = GlobalConfig {
        projects: vec![
            ProjectReference { path: "/opt/alpha".to_string(), name: Some("first".to_string()) },
            ProjectReference { path: "/opt/beta".to_string(), name: None },
        ],
        defaults: None,
    };
    assert_eq!(global.find_project("first").unwrap().path, "/opt/alpha");
    assert_eq!(global.find_project("beta").unwrap().path, "/opt/beta");
    assert_eq!(global.find_project("alpha").unwrap().path, "/opt/alpha");
    assert!(global.find_project("gamma").is_none());
    assert_eq!(global.projects[1].display_name(), "beta");
}

#[test]
fn config_lookups_by_name() {
    let config = Config {
        infrastructure: vec![(
            "local".to_string(),
            InfrastructureConfig { infrastructure_type: "docker-compose".to_string(), config: vec![] },
        )],
        environments: vec![
            ("dev".to_string(), env("local", "all-in")),
            ("prod".to_string(), env("local", "rolling-update")),
        ],
        secrets: None,
    };
    assert_eq!(config.get_environment("prod").unwrap().deployment_type, "rolling-update");
    assert!(config.get_environment("qa").is_none());
    assert!(config.get_infrastructure("local").is_some());
    assert_eq!(config.list_environments(), vec!["dev".to_string(), "prod".to_string()]);
    assert_eq!(config.list_infrastructures(), vec!["local".to_string()]);
}

#[test]
fn loader_paths() {
    assert_eq!(join_path("/home/me", ".pmp-deploy.yaml"), "/home/me/.pmp-deploy.yaml");
    assert_eq!(join_path("/home/me/", ".pmp-deploy.yaml"), "/home/me/.pmp-deploy.yaml");
    assert_eq!(join_path("", "x"), "x");

    let loader = ConfigLoader::new();
    assert_eq!(loader.resolve_project_config_path("/work", true).unwrap(), "/work/.pmp-deploy.yaml");
    match loader.resolve_project_config_path("/work", false) {
        Err(e @ LoaderError::ProjectConfigMissing(_)) => {
            assert_eq!(e.to_string(), "No .pmp-deploy.yaml found in current directory: /work")
        }
        _ => panic!("expected a missing project configuration"),
    }
    let given = ConfigLoader::new().with_project_config("/etc/p.yaml".to_string());
    assert_eq!(given.resolve_project_config_path("/work", false).unwrap(), "/etc/p.yaml");

    assert_eq!(loader.resolve_global_config_path(Some("/home/me")), "/home/me/.pmp-deploy.yaml");
    assert_eq!(loader.resolve_global_config_path(None), ".pmp-deploy.yaml");
    let global = ConfigLoader::default().with_global_config("/g.yaml".to_string());
    assert_eq!(global.resolve_global_config_path(Some("/home/me")), "/g.yaml");

    let found = loader.find_project_configs(&vec![
        ("/a/.pmp-deploy.yaml".to_string(), true),
        ("/b/.pmp-deploy.yaml".to_string(), false),
        ("/c/.pmp-deploy.yaml".to_string(), true),
    ]);
    assert_eq!(found, vec!["/a/.pmp-deploy.yaml".to_string(), "/c/.pmp-deploy.yaml".to_string()]);
    assert_eq!(
        ConfigLoader::check_config_file("/x.yaml", false).unwrap_err().to_string(),
        "Configuration file not found: /x.yaml"
    );
}
