use pmp_deploy::config::schema::{ConfigValue, EnvironmentConfig, InfrastructureConfig};
use pmp_deploy::deployment::strategy::DeploymentType;
use pmp_deploy::infrastructure::aws_ecs::HealthCheckConfig;
use pmp_deploy::infrastructure::docker_compose::DockerComposeProvider;
use pmp_deploy::infrastructure::helm::HelmConfig;
use pmp_deploy::infrastructure::k8s_resources::{HpaConfig, RawManifestConfig};
use pmp_deploy::infrastructure::kubernetes::{DeploymentMethod, KubernetesProvider, ReplicaCounts};
use pmp_deploy::infrastructure::kustomize::{KustomizeConfig, KustomizeDeployer, KustomizeImage, KustomizeReplica};
use pmp_deploy::infrastructure::lambda_extended::{
    glob_to_regex, old_layer_versions, EventSourceType, LambdaPackager, LayerVersion, ZipPackageConfig,
};
use pmp_deploy::infrastructure::manifest::{BuiltinVariables, ManifestRenderer, ManifestTemplateConfig, RenderedManifest};
use pmp_deploy::infrastructure::provider::{DeployMode, DeploymentContext, InfrastructureType};
use pmp_deploy::infrastructure::registry::{FactoryError, ProviderFactory, ProviderKind};

fn pairs(items: &[(&str, &str)]) -> Vec<(String, String)> {
    items.iter().map(|(k, v)| (k.to_string(), v.to_string())).collect()
}

fn environment(config: Vec<(String, ConfigValue)>, image: Option<&str>) -> EnvironmentConfig {
    EnvironmentConfig {
        infrastructure: "k8s".to_string(),
        deployment_type: "rolling-update".to_string(),
        image: image.map(String::from),
        replicas: None,
        resources: None,
        env: vec![],
        environment: vec![],
        hooks: None,
        config,
    }
}

fn kustomize(path: &str) -> KustomizeConfig {
    KustomizeConfig {
        path: path.to_string(),
        images: vec![],
        replicas: vec![],
        labels: vec![],
        annotations: vec![],
        name_prefix: None,
        name_suffix: None,
        namespace: None,
        enable_helm: false,
        load_restrictor: None,
        prune: false,
        prune_whitelist: vec![],
    }
}

#[test]
fn test_health_check_defaults() {
    let config = HealthCheckConfig::default();
    assert_eq!(config.path, "/health");
    assert_eq!(config.interval_seconds, 30);
    assert_eq!(config.timeout_seconds, 5);
    assert_eq!(config.healthy_threshold, 2);
    assert_eq!(config.unhealthy_threshold, 3);
}

#[test]
fn test_docker_compose_provider_new() {
    let provider = DockerComposeProvider::new("docker-compose.yml", Some("myapp"));
    assert_eq!(provider.compose_file, "docker-compose.yml");
    assert_eq!(provider.project_name, Some("myapp".to_string()));
}

#[test]
fn test_docker_compose_provider_from_config() {
    let config = InfrastructureConfig {
        infrastructure_type: "docker-compose".to_string(),
        config: vec![
            ("compose_file".to_string(), ConfigValue::Text("custom-compose.yml".to_string())),
            ("project_name".to_string(), ConfigValue::Text("test-project".to_string())),
        ],
    };
    let provider = DockerComposeProvider::from_config(&config);
    assert_eq!(provider.compose_file, "custom-compose.yml");
    assert_eq!(provider.project_name, Some("test-project".to_string()));
}

#[test]
fn docker_compose_commands() {
    let provider = DockerComposeProvider::new("c.yml", Some("app")).with_ssh_host("deploy@host");
    assert_eq!(
        provider.command(&vec!["up".to_string(), "-d".to_string()]),
        vec!["ssh", "deploy@host", "docker", "compose", "-f", "c.yml", "-p", "app", "up", "-d"]
    );
    let local = DockerComposeProvider::new("c.yml", None);
    assert_eq!(local.base_command(), vec!["docker", "compose", "-f", "c.yml"]);
    let steps = DockerComposeProvider::deploy_steps();
    assert_eq!(steps.len(), 4);
    assert_eq!(steps[1].args, vec!["down", "--remove-orphans"]);
    assert!(steps[1].may_fail);
    assert_eq!(DockerComposeProvider::logs_args(false), vec!["logs", "--tail", "100"]);
    assert_eq!(
        DockerComposeProvider::check_docker(false, false).unwrap_err().to_string(),
        "Docker is not installed or not in PATH. Please install Docker: https://docs.docker.com/get-docker/"
    );
    let r = DockerComposeProvider::deploy_result(false, "app:v2");
    assert_eq!(r.message, "Deployed app:v2 successfully");
    assert_eq!(r.version, Some("app:v2".to_string()));
    assert_eq!(local.supported_deployment_types(), vec![DeploymentType::AllIn]);
}

#[test]
fn test_raw_manifest_config_default() {
    let config = RawManifestConfig::default();
    assert!(config.files.is_empty());
    assert!(!config.recursive);
    assert!(!config.prune);
}

#[test]
fn test_hpa_config_name() {
    let config = HpaConfig {
        name: None,
        target_deployment: "my-app".to_string(),
        min_replicas: 1,
        max_replicas: 10,
        target_cpu_utilization: Some(70),
        target_memory_utilization: None,
        custom_metrics: vec![],
        scale_down_stabilization_secs: None,
        scale_up_stabilization_secs: None,
    };
    assert_eq!(config.hpa_name(), "my-app-hpa");

    let config_with_name = HpaConfig { name: Some("custom-hpa".to_string()), ..config };
    assert_eq!(config_with_name.hpa_name(), "custom-hpa");
}

#[test]
fn test_determine_strategy() {
    assert_eq!(
        match DeploymentType::RollingUpdate {
            DeploymentType::RollingUpdate => "RollingUpdate",
            _ => "Other",
        },
        "RollingUpdate"
    );
    let provider = KubernetesProvider::new("default", None);
    assert_eq!(provider.determine_strategy(&DeploymentType::RollingUpdate), "RollingUpdate");
    assert_eq!(provider.determine_strategy(&DeploymentType::AllIn), "Recreate");
}

#[test]
fn test_deployment_method_default() {
    assert_eq!(DeploymentMethod::default(), DeploymentMethod::Direct);
}

#[test]
fn kubernetes_deployment_method_choice() {
    let provider = KubernetesProvider::new("default", None);
    let ctx = |config: Vec<(String, ConfigValue)>, mode: DeployMode| DeploymentContext {
        environment_name: "prod".to_string(),
        environment: environment(config, Some("app:v1")),
        dry_run: false,
        verbose: false,
        deploy_mode: mode,
    };
    let named = vec![("deployment_method".to_string(), ConfigValue::Text("Raw_Manifest".to_string()))];
    assert_eq!(provider.get_deployment_method(&ctx(named, DeployMode::Full)), DeploymentMethod::RawManifest);
    let helm = vec![("helm".to_string(), ConfigValue::Structured("chart: x".to_string()))];
    assert_eq!(provider.get_deployment_method(&ctx(helm.clone(), DeployMode::Full)), DeploymentMethod::Helm);
    assert_eq!(provider.deploy_method(&ctx(helm, DeployMode::AppOnly)), DeploymentMethod::Direct);
    assert_eq!(provider.get_deployment_method(&ctx(vec![], DeployMode::Full)), DeploymentMethod::Direct);

    let mut with_template = KubernetesProvider::new("default", None);
    with_template.manifest_template_config = Some(ManifestTemplateConfig::default());
    let helm = vec![("helm".to_string(), ConfigValue::Structured("chart: x".to_string()))];
    assert_eq!(with_template.get_deployment_method(&ctx(helm, DeployMode::Full)), DeploymentMethod::Template);
}

#[test]
fn kubernetes_release_settings() {
    let mut images = kustomize("./k8s");
    images.images = vec![KustomizeImage {
        name: "web".to_string(),
        new_name: Some("registry/web".to_string()),
        new_tag: Some("v1".to_string()),
        digest: None,
    }];
    let c = KubernetesProvider::kustomize_release_config(Some(images.clone()), "web", Some("v2")).unwrap();
    assert_eq!(c.images.len(), 1);
    assert_eq!(c.images[0].new_tag, Some("v2".to_string()));
    assert_eq!(c.images[0].new_name, Some("registry/web".to_string()));
    let c = KubernetesProvider::kustomize_release_config(Some(images), "api", Some("v2")).unwrap();
    assert_eq!(c.images.len(), 2);
    assert_eq!(c.images[1].name, "api");
    assert!(KubernetesProvider::kustomize_release_config(None, "api", None).is_err());

    let counts = ReplicaCounts { replicas: Some(3), ready_replicas: Some(3), updated_replicas: Some(3), available_replicas: None };
    assert!(KubernetesProvider::rollout_complete(&counts));
    let empty = ReplicaCounts { replicas: None, ready_replicas: None, updated_replicas: None, available_replicas: None };
    assert!(!KubernetesProvider::rollout_complete(&empty));
    assert_eq!(
        KubernetesProvider::rollout_time_check(301, 300).unwrap_err().to_string(),
        "Deployment rollout timed out after 300 seconds"
    );
    let provider = KubernetesProvider::new("prod", None);
    assert_eq!(
        provider.check_deployment_exists("web", false).unwrap_err().to_string(),
        "Deployment 'web' not found in namespace 'prod'. Please create the deployment first or use Helm/Kustomize."
    );
    assert_eq!(
        provider.direct_status_text("web", Some(counts)).unwrap(),
        "Deployment: web\nNamespace: prod\nReplicas: 3/3 ready\nUpdated: 3\nAvailable: 0"
    );
}

#[test]
fn test_helm_config_merge() {
    let base = HelmConfig {
        chart: "./charts/my-app".to_string(),
        repo: None,
        repo_name: None,
        version: Some("1.0.0".to_string()),
        release_name: Some("my-app".to_string()),
        values_files: vec!["values.yaml".to_string()],
        set: pairs(&[("replicas", "2")]),
        set_string: vec![],
        create_namespace: false,
        wait: true,
        timeout: None,
        atomic: false,
        skip_crds: false,
    };
    let overrides = HelmConfig {
        chart: String::new(),
        repo: None,
        repo_name: None,
        version: Some("2.0.0".to_string()),
        release_name: None,
        values_files: vec!["values-prod.yaml".to_string()],
        set: pairs(&[("replicas", "5"), ("image.tag", "v2")]),
        set_string: vec![],
        create_namespace: true,
        wait: false,
        timeout: Some("10m".to_string()),
        atomic: false,
        skip_crds: false,
    };

    let merged = base.merge(&overrides);

    let get = |k: &str| merged.set.iter().find(|(n, _)| n == k).map(|(_, v)| v.clone());
    assert_eq!(merged.chart, "./charts/my-app");
    assert_eq!(merged.version, Some("2.0.0".to_string()));
    assert_eq!(merged.release_name, Some("my-app".to_string()));
    assert_eq!(merged.values_files.len(), 2);
    assert_eq!(get("replicas"), Some("5".to_string()));
    assert_eq!(get("image.tag"), Some("v2".to_string()));
    assert!(merged.create_namespace);
    assert!(merged.wait);
    assert_eq!(merged.timeout, Some("10m".to_string()));

    let helm = KubernetesProvider::helm_release_config(Some(merged), Some("v3")).unwrap();
    let tag = helm.set.iter().find(|(n, _)| n == "image.tag").map(|(_, v)| v.clone());
    assert_eq!(tag, Some("v3".to_string()));
    assert_eq!(helm.set.len(), 2);
}

#[test]
fn test_kustomize_config_merge() {
    let base = KustomizeConfig {
        images: vec![KustomizeImage {
            name: "my-app".to_string(),
            new_name: None,
            new_tag: Some("v1.0.0".to_string()),
            digest: None,
        }],
        replicas: vec![KustomizeReplica { name: "my-deployment".to_string(), count: 3 }],
        labels: pairs(&[("app", "my-app")]),
        namespace: Some("default".to_string()),
        ..kustomize("./k8s/base")
    };
    let overrides = KustomizeConfig {
        images: vec![KustomizeImage {
            name: "my-app".to_string(),
            new_name: None,
            new_tag: Some("v2.0.0".to_string()),
            digest: None,
        }],
        replicas: vec![KustomizeReplica { name: "my-deployment".to_string(), count: 10 }],
        labels: pairs(&[("environment", "production")]),
        name_prefix: Some("prod-".to_string()),
        namespace: Some("production".to_string()),
        prune: true,
        ..kustomize("./k8s/overlays/prod")
    };

    let merged = base.merge(&overrides);

    assert_eq!(merged.path, "./k8s/overlays/prod");
    assert_eq!(merged.images[0].new_tag, Some("v2.0.0".to_string()));
    assert_eq!(merged.replicas[0].count, 10);
    assert_eq!(merged.labels.len(), 2);
    assert_eq!(merged.name_prefix, Some("prod-".to_string()));
    assert_eq!(merged.namespace, Some("production".to_string()));
    assert!(merged.prune);
}

#[test]
fn test_build_kubectl_image_args() {
    let deployer = KustomizeDeployer::new("default", None);
    let config = KustomizeConfig {
        images: vec![
            KustomizeImage {
                name: "my-app".to_string(),
                new_name: Some("my-registry/my-app".to_string()),
                new_tag: Some("v1.0.0".to_string()),
                digest: None,
            },
            KustomizeImage {
                name: "sidecar".to_string(),
                new_name: None,
                new_tag: Some("latest".to_string()),
                digest: None,
            },
        ],
        ..kustomize("./k8s")
    };

    let args = deployer.build_kubectl_args(&config);

    assert!(args.contains(&"--set-image".to_string()));
    assert!(args.iter().any(|a| a.contains("my-registry/my-app:v1.0.0")));
    assert!(args.iter().any(|a| a.contains("sidecar:latest")));
}

#[test]
fn test_count_resources() {
    let deployer = KustomizeDeployer::new("default", None);
    let output = r#"
deployment.apps/my-app created
service/my-app configured
configmap/my-config unchanged
"#;
    assert_eq!(deployer.count_resources(output), 3);
}

#[test]
fn test_zip_package_s3_key() {
    let config = ZipPackageConfig {
        source_path: "./src".to_string(),
        s3_bucket: Some("bucket".to_string()),
        s3_prefix: Some("code".to_string()),
        exclude: vec![],
        include_hidden: false,
    };

    let key = config.s3_key("my-function");
    assert!(key.starts_with("code/my-function-"));
    assert!(key.ends_with(".zip"));
    assert_eq!(config.s3_key_at("my-function", 42), "code/my-function-42.zip");
    let flat = ZipPackageConfig { s3_prefix: None, ..config };
    assert_eq!(flat.s3_key_at("f", 7), "f-7.zip");
}

#[test]
fn test_event_source_type() {
    assert_eq!(EventSourceType::Sqs.as_str(), "SQS");
    assert_eq!(EventSourceType::DynamodbStream.as_str(), "DynamoDB");
    assert_eq!(EventSourceType::KinesisStream.as_str(), "Kinesis");
}

#[test]
fn zip_exclusions() {
    assert_eq!(glob_to_regex("*.pyc"), "[^/]*.pyc");
    assert_eq!(glob_to_regex("a/**/b"), "a/.[^/]*/b");
    let patterns = vec!["*.pyc".to_string(), "__pycache__".to_string()];
    assert!(LambdaPackager::should_exclude("src/app.pyc", &patterns));
    assert!(LambdaPackager::should_exclude("src/__pycache__/x", &patterns));
    assert!(!LambdaPackager::should_exclude("src/app.py", &patterns));
    let config = ZipPackageConfig {
        source_path: ".".to_string(),
        s3_bucket: None,
        s3_prefix: None,
        exclude: patterns,
        include_hidden: false,
    };
    assert!(LambdaPackager::skips_entry(&config, ".env", "./.env"));
    assert!(!LambdaPackager::skips_entry(&config, "main.py", "./main.py"));
}

#[test]
fn layer_cleanup_deletes_oldest_first() {
    let v = |n: i64| LayerVersion { version: n, arn: format!("arn:{}", n), description: None, created_date: None };
    let versions = vec![v(5), v(4), v(3), v(2), v(1)];
    assert_eq!(old_layer_versions(&versions, 2), vec![1, 2, 3]);
    assert!(old_layer_versions(&versions, 5).is_empty());
    assert!(old_layer_versions(&versions, 9).is_empty());
}

#[test]
fn test_manifest_template_config_default() {
    let config = ManifestTemplateConfig::default();
    assert!(config.path.is_empty());
    assert!(config.variables.is_empty());
    assert!(!config.include_env);
}

#[test]
fn test_builtin_variables_new() {
    let builtins = BuiltinVariables::new("production", "prod");
    assert_eq!(builtins.namespace, "production");
    assert_eq!(builtins.environment, "prod");
    assert!(builtins.image.is_none());
}

#[test]
fn test_builtin_variables_with_image() {
    let builtins = BuiltinVariables::new("default", "staging").with_image("myapp:v1.2.3");
    assert_eq!(builtins.image, Some("myapp:v1.2.3".to_string()));
    assert_eq!(builtins.image_tag, Some("v1.2.3".to_string()));
}

#[test]
fn test_builtin_variables_image_without_tag() {
    let builtins = BuiltinVariables::new("default", "staging").with_image("myapp");
    assert_eq!(builtins.image, Some("myapp".to_string()));
    assert_eq!(builtins.image_tag, Some("myapp".to_string()));
}

#[test]
fn test_manifest_renderer_from_string() {
    let template = r#"
apiVersion: apps/v1
kind: Deployment
metadata:
  name: {{ DEPLOYMENT_NAME }}
  namespace: {{ NAMESPACE }}
spec:
  template:
    spec:
      containers:
        - name: app
          image: {{ IMAGE }}
"#;
    let renderer = ManifestRenderer::from_string("deployment.yaml", template).unwrap();
    let config = ManifestTemplateConfig {
        path: String::new(),
        variables: Vec::new(),
        include_env: false,
        env_prefix: None,
    };
    let builtins = BuiltinVariables::new("production", "prod")
        .with_image("myapp:v1.0.0")
        .with_deployment_name("my-app");
    let rendered = renderer.render("deployment.yaml", &config, &builtins, &Vec::new()).unwrap();
    assert!(rendered.contains("name: my-app"));
    assert!(rendered.contains("namespace: production"));
    assert!(rendered.contains("image: myapp:v1.0.0"));
}

#[test]
fn test_manifest_renderer_with_variables() {
    let template = r#"
replicas: {{ REPLICAS }}
memory: {{ MEMORY_LIMIT }}
"#;
    let renderer = ManifestRenderer::from_string("config.yaml", template).unwrap();
    let config = ManifestTemplateConfig {
        path: String::new(),
        variables: pairs(&[("REPLICAS", "3"), ("MEMORY_LIMIT", "512Mi")]),
        include_env: false,
        env_prefix: None,
    };
    let builtins = BuiltinVariables::new("default", "dev");
    let rendered = renderer.render("config.yaml", &config, &builtins, &Vec::new()).unwrap();
    assert!(rendered.contains("replicas: 3"));
    assert!(rendered.contains("memory: 512Mi"));
}

#[test]
fn test_rendered_manifest_parse_documents() {
    let manifest = RenderedManifest {
        name: "test.yaml".to_string(),
        content: r#"
apiVersion: v1
kind: ConfigMap
metadata:
  name: test
---
apiVersion: v1
kind: Secret
metadata:
  name: test-secret
"#
        .to_string(),
    };
    let docs = manifest.parse_documents().unwrap();
    assert_eq!(docs.len(), 2);
}

#[test]
fn test_template_names() {
    let renderer = ManifestRenderer::from_string("test.yaml", "content").unwrap();
    let names: Vec<_> = renderer.template_names();
    assert_eq!(names, vec!["test.yaml"]);
}

#[test]
fn renderer_refuses_unknown_template_and_bad_syntax() {
    let renderer = ManifestRenderer::from_string("a.yaml", "x: {{ NAMESPACE }}").unwrap();
    let config = ManifestTemplateConfig::default();
    let builtins = BuiltinVariables::new("ns", "dev");
    assert!(renderer.render("missing.yaml", &config, &builtins, &Vec::new()).is_err());
    assert_eq!(renderer.render("a.yaml", &config, &builtins, &Vec::new()).unwrap(), "x: ns");
    assert!(ManifestRenderer::from_string("b.yaml", "{% if %}").is_err());
}

#[test]
fn render_all_of_no_templates_is_empty() {
    let renderer = ManifestRenderer::from_templates(&Vec::new()).unwrap();
    let config = ManifestTemplateConfig::default();
    let builtins = BuiltinVariables::new("ns", "dev");
    assert!(renderer.render_all(&config, &builtins, &Vec::new()).unwrap().is_empty());
}

#[test]
fn render_all_keeps_template_order_and_process_variables() {
    let templates = pairs(&[("one.yaml", "a: {{ APP_MODE }}"), ("two.yaml", "b: {{ ENVIRONMENT }}")]);
    let renderer = ManifestRenderer::from_templates(&templates).unwrap();
    let config = ManifestTemplateConfig {
        path: String::new(),
        variables: Vec::new(),
        include_env: true,
        env_prefix: Some("APP_".to_string()),
    };
    let builtins = BuiltinVariables::new("ns", "staging");
    let process = pairs(&[("APP_MODE", "fast"), ("OTHER", "hidden")]);
    let rendered = renderer.render_all(&config, &builtins, &process).unwrap();
    assert_eq!(rendered.len(), 2);
    assert_eq!(rendered[0].name, "one.yaml");
    assert_eq!(rendered[0].content, "a: fast");
    assert_eq!(rendered[1].name, "two.yaml");
    assert_eq!(rendered[1].content, "b: staging");
}

#[test]
fn parse_documents_skips_empty_documents() {
    let manifest = RenderedManifest { name: "m.yaml".to_string(), content: "a: 1\n---\n---\nb: 2\n".to_string() };
    let docs = manifest.parse_documents().unwrap();
    assert_eq!(docs, vec!["a: 1\n".to_string(), "b: 2\n".to_string()]);
    let bad = RenderedManifest { name: "bad.yaml".to_string(), content: "a: [1, 2".to_string() };
    assert!(bad.parse_documents().is_err());
}

#[test]
fn zip_package_holds_the_files_in_order() {
    let files = vec![
        ("handler.py".to_string(), b"def handler(e, c):\n    return 1\n".to_vec()),
        ("lib/util.py".to_string(), b"X = 2\n".to_vec()),
    ];
    let bytes = LambdaPackager::create_zip(&files).unwrap();
    assert_eq!(&bytes[..4], b"PK\x03\x04");
    let mut archive = zip::ZipArchive::new(std::io::Cursor::new(bytes)).unwrap();
    assert_eq!(archive.len(), 2);
    let mut first = String::new();
    {
        let mut entry = archive.by_index(0).unwrap();
        assert_eq!(entry.name(), "handler.py");
        std::io::Read::read_to_string(&mut entry, &mut first).unwrap();
    }
    assert_eq!(first, "def handler(e, c):\n    return 1\n");
    assert_eq!(archive.by_index(1).unwrap().name(), "lib/util.py");
}

#[test]
fn test_infrastructure_type_from_str() {
    assert_eq!(InfrastructureType::from_str("aws-eks"), InfrastructureType::AwsEks);
    assert_eq!(InfrastructureType::from_str("aws-ecs"), InfrastructureType::AwsEcs);
    assert_eq!(InfrastructureType::from_str("kubernetes"), InfrastructureType::Kubernetes);
}

#[test]
fn infrastructure_type_names_read_back() {
    for t in [
        InfrastructureType::AwsEks,
        InfrastructureType::AwsEcs,
        InfrastructureType::AwsLambda,
        InfrastructureType::Kubernetes,
        InfrastructureType::DockerCompose,
        InfrastructureType::Custom("my-cloud".to_string()),
    ] {
        assert_eq!(InfrastructureType::from_str(t.as_str()), t);
    }
}

#[test]
fn test_deploy_mode_from_str() {
    assert_eq!(DeployMode::from_str("full"), DeployMode::Full);
    assert_eq!(DeployMode::from_str("app-only"), DeployMode::AppOnly);
    assert_eq!(DeployMode::from_str("apponly"), DeployMode::AppOnly);
    assert_eq!(DeployMode::from_str("app"), DeployMode::AppOnly);
    assert_eq!(DeployMode::from_str("image-only"), DeployMode::AppOnly);
    assert_eq!(DeployMode::from_str("unknown"), DeployMode::Full);
    assert_eq!(DeployMode::from_str("FULL"), DeployMode::Full);
    assert_eq!(DeployMode::from_str("APP-ONLY"), DeployMode::AppOnly);
}

#[test]
fn deploy_mode_spelling_reads_back() {
    for mode in [DeployMode::Full, DeployMode::AppOnly] {
        assert_eq!(DeployMode::from_str(mode.as_str()), mode);
    }
    assert_eq!(DeployMode::Full.as_str(), "full");
    assert_eq!(DeployMode::AppOnly.as_str(), "app-only");
}

#[test]
fn test_deploy_mode_is_app_only() {
    assert!(!DeployMode::Full.is_app_only());
    assert!(DeployMode::AppOnly.is_app_only());
}

#[test]
fn test_deploy_mode_default() {
    let mode: DeployMode = Default::default();
    assert_eq!(mode, DeployMode::AppOnly);
    assert!(mode.is_app_only());
}

#[test]
fn provider_factory_choices() {
    assert_eq!(ProviderFactory::provider_kind(InfrastructureType::AwsEcs, false).unwrap(), ProviderKind::AwsEcs);
    assert_eq!(ProviderFactory::provider_kind_of("kubernetes", true).unwrap(), ProviderKind::Kubernetes);
    assert!(matches!(
        ProviderFactory::provider_kind(InfrastructureType::Kubernetes, false),
        Err(FactoryError::KubernetesDisabled)
    ));
    let e = ProviderFactory::provider_kind_of("my-cloud", true).unwrap_err();
    assert_eq!(
        e.to_string(),
        "Custom infrastructure type 'my-cloud' requires a plugin. Check ~/.pmp-deploy/plugins/ for available plugins."
    );
}
