use pmp_deploy::config::schema::{ConfigValue, EnvironmentConfig};
use pmp_deploy::infrastructure::aws_ecs::{
    AutoScalingConfig, AwsEcsProvider, CloudWatchLogsConfig, EcsDeployStep, EcsDeploymentObservation,
    LoadBalancerConfig,
};
use pmp_deploy::infrastructure::aws_lambda::{AwsLambdaProvider, LambdaDeployStep, UpdateProgress};
use pmp_deploy::infrastructure::provider::{DeployMode, DeploymentContext};

fn environment(config: Vec<(String, ConfigValue)>, image: Option<&str>) -> EnvironmentConfig {
    EnvironmentConfig {
        infrastructure: "aws".to_string(),
        deployment_type: "rolling-update".to_string(),
        image: image.map(String::from),
        replicas: None,
        resources: None,
        env: vec![],
        environment: vec![],
        hooks: None,
        config,
    }
}

fn context(env: EnvironmentConfig, mode: DeployMode) -> DeploymentContext {
    DeploymentContext {
        environment_name: "prod".to_string(),
        environment: env,
        dry_run: false,
        verbose: false,
        deploy_mode: mode,
    }
}

#[test]
fn lambda_plan_with_alias_and_concurrency() {
    let provider = AwsLambdaProvider::new("orders", "eu-west-1").with_alias("live");
    let env = environment(
        vec![
            ("provisioned_concurrency".to_string(), ConfigValue::Unsigned(5)),
            ("reserved_concurrency".to_string(), ConfigValue::Unsigned(0)),
            ("deployment_timeout_secs".to_string(), ConfigValue::Unsigned(30)),
        ],
        Some("acct.dkr.ecr/orders:v2"),
    );
    let plan = provider.deploy_plan(&context(env, DeployMode::Full)).unwrap();
    assert_eq!(plan.image, "acct.dkr.ecr/orders:v2");
    assert_eq!(plan.alias.as_deref(), Some("live"));
    assert_eq!(plan.version_description, "Deployed via pmp-deploy: acct.dkr.ecr/orders:v2");
    assert_eq!(plan.timeout_secs, 30);
    assert_eq!(
        plan.steps,
        vec![
            LambdaDeployStep::UpdateImage,
            LambdaDeployStep::WaitForUpdate,
            LambdaDeployStep::UpdateEnvironment,
            LambdaDeployStep::PublishVersion,
            LambdaDeployStep::UpdateAlias,
            LambdaDeployStep::ProvisionedConcurrency(5),
            LambdaDeployStep::ReservedConcurrency(0),
        ]
    );
    let done = provider.deploy_outcome(&plan, &Some("7".to_string()), false);
    assert!(done.success);
    assert_eq!(done.version.as_deref(), Some("7"));
    assert_eq!(done.message, "Deployed acct.dkr.ecr/orders:v2 to Lambda function orders (version: 7)");
}

#[test]
fn lambda_app_only_plan_skips_versions_and_concurrency() {
    let provider = AwsLambdaProvider::new("orders", "eu-west-1");
    let env = environment(vec![("provisioned_concurrency".to_string(), ConfigValue::Unsigned(5))], Some("img:1"));
    let plan = provider.deploy_plan(&context(env, DeployMode::AppOnly)).unwrap();
    assert_eq!(plan.timeout_secs, 120);
    assert_eq!(
        plan.steps,
        vec![LambdaDeployStep::UpdateImage, LambdaDeployStep::WaitForUpdate, LambdaDeployStep::UpdateEnvironment]
    );
    let done = provider.deploy_outcome(&plan, &None, true);
    assert_eq!(done.version.as_deref(), Some("$LATEST"));
    assert_eq!(done.message, "Deployed img:1 to Lambda function orders (version: $LATEST) (app-only)");
    assert!(provider.deploy_plan(&context(environment(vec![], None), DeployMode::Full)).is_err());
}

#[test]
fn lambda_rollback_and_update_states() {
    assert_eq!(AwsLambdaProvider::previous_version(&Some("4".to_string())).unwrap(), "3");
    assert!(AwsLambdaProvider::previous_version(&Some("1".to_string())).is_err());
    assert!(AwsLambdaProvider::previous_version(&Some("x".to_string())).is_err());
    assert!(AwsLambdaProvider::rollback_alias(None).is_err());
    assert_eq!(
        AwsLambdaProvider::update_progress(&Some("Active".to_string())).unwrap(),
        UpdateProgress::Done
    );
    assert_eq!(
        AwsLambdaProvider::update_progress(&Some("Pending".to_string())).unwrap(),
        UpdateProgress::Waiting
    );
    assert!(AwsLambdaProvider::update_progress(&Some("Failed".to_string())).is_err());
}

#[test]
fn ecs_plan_with_logs_target_group_and_autoscaling() {
    let mut provider = AwsEcsProvider::new("main", "us-east-1");
    provider.cloudwatch_config = Some(CloudWatchLogsConfig {
        log_group: None,
        log_stream_prefix: None,
        retention_days: 30,
        create_log_group: true,
    });
    provider.load_balancer_config = Some(LoadBalancerConfig {
        target_group_arn: Some("arn:tg".to_string()),
        container_name: None,
        container_port: None,
        health_check: None,
    });
    let env = environment(vec![("service_name".to_string(), ConfigValue::Text("web".to_string()))], Some("web:9"));
    let autoscaling = Some(AutoScalingConfig::default());
    let plan = provider.deploy_plan(&context(env.clone(), DeployMode::Full), &autoscaling).unwrap();
    assert_eq!(plan.service_name, "web");
    assert_eq!(plan.log_group.as_deref(), Some("/ecs/web"));
    assert_eq!(plan.target_group_arn.as_deref(), Some("arn:tg"));
    assert_eq!(plan.timeout_secs, 600);
    assert_eq!(
        plan.steps,
        vec![
            EcsDeployStep::EnsureLogGroup,
            EcsDeployStep::UpdateTaskDefinition,
            EcsDeployStep::WaitForStable,
            EcsDeployStep::CheckTargetHealth,
            EcsDeployStep::ConfigureAutoscaling,
        ]
    );
    let app_only = provider.deploy_plan(&context(env, DeployMode::AppOnly), &autoscaling).unwrap();
    assert_eq!(
        app_only.steps,
        vec![
            EcsDeployStep::EnsureLogGroup,
            EcsDeployStep::UpdateTaskDefinition,
            EcsDeployStep::WaitForStable,
            EcsDeployStep::CheckTargetHealth,
        ]
    );
    let done = provider.deploy_outcome(&app_only, true);
    assert_eq!(done.message, "Deployed web:9 to ECS service web in cluster main (app-only)");
    assert_eq!(done.version.as_deref(), Some("web:9"));
}

#[test]
fn ecs_plain_plan_and_stability() {
    let provider = AwsEcsProvider::new("main", "us-east-1");
    let plan = provider
        .deploy_plan(&context(environment(vec![], Some("img")), DeployMode::Full), &None)
        .unwrap();
    assert_eq!(plan.service_name, "app");
    assert_eq!(plan.steps, vec![EcsDeployStep::UpdateTaskDefinition, EcsDeployStep::WaitForStable]);
    let primary = EcsDeploymentObservation { status: Some("PRIMARY".to_string()), running_count: 2, desired_count: 2 };
    assert!(AwsEcsProvider::is_stable(2, 2, 0, &vec![primary.clone()]));
    assert!(!AwsEcsProvider::is_stable(1, 2, 0, &vec![primary]));
    let health = AwsEcsProvider::count_target_health(&vec![
        Some("healthy".to_string()),
        Some("unhealthy".to_string()),
        None,
        Some("healthy".to_string()),
    ]);
    assert_eq!((health.total, health.healthy, health.unhealthy, health.draining), (4, 2, 1, 0));
    let (previous, revision) = AwsEcsProvider::previous_task_definition("arn:aws:ecs:task-definition/web:12").unwrap();
    assert_eq!(previous, "arn:aws:ecs:task-definition/web:11");
    assert_eq!(revision, 11);
    assert!(AwsEcsProvider::previous_task_definition("web").is_err());
}
