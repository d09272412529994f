use std::time::Duration;

use pmp_deploy::error::{ConfigError, DeploymentError, Error};
use pmp_deploy::hooks::executor::{HookContext, HookExecutor, HookResult, HookRunner, HookStart};
use pmp_deploy::hooks::types::{
    EnvFromSource, HookConfig, HookTiming, HookType, HookTypeConfig, HooksConfig, K8sJobHookConfig, LambdaHookConfig,
};
use pmp_deploy::hooks::{ContainerHookExecutor, EcsTaskHookExecutor, HttpHookExecutor, K8sJobHookExecutor, LambdaHookExecutor};

fn hook(name: &str, hook_type: HookType) -> HookConfig {
    HookConfig {
        name: name.to_string(),
        hook_type,
        config: HookTypeConfig::default(),
        timeout_secs: 60,
        fail_on_error: true,
        description: None,
    }
}

#[test]
fn test_config_error_display() {
    let err = ConfigError::NotFound { path: "/path/to/config.yaml".to_string() };
    assert!(err.to_string().contains("not found"));

    let err = ConfigError::EnvironmentNotFound { name: "production".to_string() };
    assert!(err.to_string().contains("production"));
}

#[test]
fn test_deployment_error_display() {
    let err = DeploymentError::HealthCheckFailed {
        environment: "staging".to_string(),
        message: "timeout".to_string(),
    };
    assert!(err.to_string().contains("staging"));
    assert!(err.to_string().contains("timeout"));
}

#[test]
fn test_error_conversion() {
    let config_err = ConfigError::NotFound { path: "/test".to_string() };
    let err: Error = config_err.into();

    assert!(matches!(err, Error::Config(_)));
}

#[test]
fn error_messages_are_exact() {
    let err = ConfigError::NotFound { path: "/test".to_string() };
    assert_eq!(err.to_string(), "Configuration file not found: /test");
    let err: Error = ConfigError::NotFound { path: "/test".to_string() }.into();
    assert_eq!(err.to_string(), "Configuration error: Configuration file not found: /test");
}

#[test]
fn test_container_executor_hook_type() {
    let executor = ContainerHookExecutor::new();
    assert_eq!(executor.hook_type(), HookType::Container);
}

#[test]
fn test_ecs_executor_hook_type() {
    let executor = EcsTaskHookExecutor::new();
    assert_eq!(executor.hook_type(), HookType::EcsTask);
}

#[test]
fn test_http_executor_hook_type() {
    let executor = HttpHookExecutor::new();
    assert_eq!(executor.hook_type(), HookType::Http);
}

#[test]
fn test_k8s_executor_hook_type() {
    let executor = K8sJobHookExecutor::new();
    assert_eq!(executor.hook_type(), HookType::K8sJob);
}

#[test]
fn test_lambda_executor_hook_type() {
    let executor = LambdaHookExecutor::new();
    assert_eq!(executor.hook_type(), HookType::Lambda);
}

#[test]
fn test_hook_result_success() {
    let result = HookResult::success("test", "output".to_string(), Duration::from_secs(1));
    assert!(result.success);
    assert_eq!(result.name, "test");
    assert_eq!(result.exit_code, Some(0));
    assert!(result.error.is_none());
}

#[test]
fn test_hook_result_failure() {
    let result = HookResult::failure("test", "error msg".to_string(), Duration::from_secs(1));
    assert!(!result.success);
    assert_eq!(result.name, "test");
    assert_eq!(result.error, Some("error msg".to_string()));
}

#[test]
fn test_hook_context_builder() {
    let ctx = HookContext::new("prod", "aws-ecs")
        .with_image("myapp:v1")
        .with_aws_region("us-east-1")
        .with_ecs_cluster("my-cluster")
        .with_dry_run(true);

    assert_eq!(ctx.environment, "prod");
    assert_eq!(ctx.infrastructure_type, "aws-ecs");
    assert_eq!(ctx.image, Some("myapp:v1".to_string()));
    assert_eq!(ctx.aws_region, Some("us-east-1".to_string()));
    assert_eq!(ctx.ecs_cluster, Some("my-cluster".to_string()));
    assert!(ctx.dry_run);
}

#[test]
fn test_hook_runner_new() {
    let runner = HookRunner::new();
    assert!(runner.executors.is_empty());
}

#[test]
fn runner_dry_run_and_missing_executor() {
    let mut runner = HookRunner::new();
    runner.register(HookType::Http);
    let h = hook("ping", HookType::Http);
    let dry = HookContext::new("dev", "docker-compose").with_dry_run(true);
    match runner.start_hook(&h, &dry).unwrap() {
        HookStart::DryRun(r) => {
            assert!(r.success);
            assert_eq!(r.output, "Dry-run: skipped");
            assert_eq!(r.duration, Duration::ZERO);
        }
        _ => panic!("a dry run does not execute"),
    }
    let live = HookContext::new("dev", "docker-compose");
    assert!(matches!(runner.start_hook(&h, &live).unwrap(), HookStart::Execute(0)));
    let missing = hook("migrate", HookType::Container);
    assert!(runner.start_hook(&missing, &live).is_err());
}

#[test]
fn test_is_success_status_default() {
    let executor = HttpHookExecutor::new();

    assert!(executor.is_success_status(200, &[]));
    assert!(executor.is_success_status(201, &[]));
    assert!(executor.is_success_status(204, &[]));
    assert!(!executor.is_success_status(400, &[]));
    assert!(!executor.is_success_status(500, &[]));
}

#[test]
fn test_is_success_status_custom() {
    let executor = HttpHookExecutor::new();

    assert!(executor.is_success_status(200, &[200, 201]));
    assert!(executor.is_success_status(201, &[200, 201]));
    assert!(!executor.is_success_status(204, &[200, 201]));
}

#[test]
fn test_determine_function_name_from_arn() {
    let executor = LambdaHookExecutor::new();
    let config = LambdaHookConfig {
        function_arn: Some("arn:aws:lambda:us-east-1:123456789:function:test".to_string()),
        invoke_self: false,
        ..Default::default()
    };
    let context = HookContext::default();

    let name = executor.determine_function_name(&config, &context);
    assert_eq!(name, Some("arn:aws:lambda:us-east-1:123456789:function:test".to_string()));
}

#[test]
fn test_determine_function_name_invoke_self() {
    let executor = LambdaHookExecutor::new();
    let config = LambdaHookConfig { function_arn: None, invoke_self: true, ..Default::default() };
    let context = HookContext::new("prod", "aws-lambda").with_lambda_function("my-deployed-function");

    let name = executor.determine_function_name(&config, &context);
    assert_eq!(name, Some("my-deployed-function".to_string()));
}

#[test]
fn test_hook_timing_as_str() {
    assert_eq!(HookTiming::PreDeploy.as_str(), "pre_deploy");
    assert_eq!(HookTiming::PostDeploy.as_str(), "post_deploy");
    assert_eq!(HookTiming::OnFailure.as_str(), "on_failure");
    assert_eq!(HookTiming::OnSuccess.as_str(), "on_success");
}

#[test]
fn test_hook_type_as_str() {
    assert_eq!(HookType::Container.as_str(), "container");
    assert_eq!(HookType::Http.as_str(), "http");
    assert_eq!(HookType::EcsTask.as_str(), "ecs_task");
    assert_eq!(HookType::K8sJob.as_str(), "k8s_job");
    assert_eq!(HookType::Lambda.as_str(), "lambda");
}

#[test]
fn test_hooks_config_get_hooks() {
    let config = HooksConfig { pre_deploy: vec![hook("test", HookType::Http)], ..Default::default() };

    assert_eq!(config.get_hooks(HookTiming::PreDeploy).len(), 1);
    assert_eq!(config.get_hooks(HookTiming::PostDeploy).len(), 0);
    assert!(config.has_hooks(HookTiming::PreDeploy));
    assert!(!config.has_hooks(HookTiming::PostDeploy));
}

#[test]
fn test_hooks_config_is_empty() {
    let empty = HooksConfig::default();
    assert!(empty.is_empty());

    let not_empty = HooksConfig { pre_deploy: vec![hook("test", HookType::Http)], ..Default::default() };
    assert!(!not_empty.is_empty());
}

#[test]
fn on_success_hooks_are_the_post_deploy_hooks() {
    let config = HooksConfig {
        post_deploy: vec![hook("notify", HookType::Http)],
        on_success: vec![hook("other", HookType::Http)],
        ..Default::default()
    };
    let on_success = config.get_hooks(HookTiming::OnSuccess);
    assert_eq!(on_success.len(), 1);
    assert_eq!(on_success[0].name, "notify");
}

#[test]
fn hook_job_keeps_each_environment_source() {
    let mut config = K8sJobHookConfig::default();
    config.image = "migrate:1".to_string();
    config.env_from = vec![EnvFromSource::ConfigMap("settings".to_string()), EnvFromSource::Secret("db".to_string())];
    let job = K8sJobHookExecutor::build_job_at(&config, "db_migrate", &HookContext::new("prod", "kubernetes"), 42);
    assert_eq!(job.name, "hook-db-migrate-42");
    let sources = job.env_from.unwrap();
    assert!(matches!(&sources[0], EnvFromSource::ConfigMap(n) if n == "settings"));
    assert!(matches!(&sources[1], EnvFromSource::Secret(n) if n == "db"));
}
