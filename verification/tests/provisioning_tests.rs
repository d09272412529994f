use pmp_deploy::infrastructure::provisioning::ecs::{
    EcsClusterConfig, EcsCurrentState, EcsNetworkConfig, EcsProvisioningConfig, EcsServiceConfig, EcsTaskConfig,
};
use pmp_deploy::infrastructure::provisioning::lambda::{
    compute_lambda_diff, LambdaCurrentState, LambdaProvisioningConfig, LambdaStateDiff, LambdaVpcConfig,
};
use pmp_deploy::infrastructure::provisioning::{
    PlannedAction, PlannedChange, ProvisioningAction, ProvisioningPlan, ProvisioningResult,
};

const ROLE: &str = "arn:aws:iam::123456789:role/lambda-exec";

fn task(family: &str, cpu: &str, compat: Vec<String>) -> EcsTaskConfig {
    EcsTaskConfig {
        family: family.to_string(),
        cpu: cpu.to_string(),
        memory: "512".to_string(),
        execution_role_arn: "arn:aws:iam::123456789:role/ecs-exec".to_string(),
        task_role_arn: None,
        network_mode: "awsvpc".to_string(),
        requires_compatibilities: compat,
        containers: vec![],
        volumes: vec![],
        runtime_platform: None,
    }
}

fn service(desired_count: i32, launch_type: Option<&str>, network: Option<EcsNetworkConfig>) -> EcsServiceConfig {
    EcsServiceConfig {
        desired_count,
        launch_type: launch_type.map(|s| s.to_string()),
        capacity_provider_strategy: vec![],
        platform_version: "LATEST".to_string(),
        deployment: None,
        network,
        load_balancers: vec![],
        service_registries: vec![],
        enable_execute_command: false,
        enable_circuit_breaker: false,
        propagate_tags: None,
        health_check_grace_period_seconds: None,
        scheduling_strategy: "REPLICA".to_string(),
    }
}

fn network(subnets: Vec<&str>, groups: Vec<&str>, public: bool) -> EcsNetworkConfig {
    EcsNetworkConfig {
        subnets: subnets.into_iter().map(String::from).collect(),
        security_groups: groups.into_iter().map(String::from).collect(),
        assign_public_ip: public,
    }
}

fn existing_lambda() -> LambdaCurrentState {
    LambdaCurrentState {
        exists: true,
        memory_size: Some(256),
        timeout: Some(30),
        role: Some(ROLE.to_string()),
        architecture: Some("x86_64".to_string()),
        ephemeral_storage: Some(512),
        ..LambdaCurrentState::not_found()
    }
}

fn desired_lambda() -> LambdaProvisioningConfig {
    LambdaProvisioningConfig { role_arn: ROLE.to_string(), ..Default::default() }
}

#[test]
fn test_ecs_cluster_config_defaults() {
    let config = EcsClusterConfig::default();
    assert_eq!(config.capacity_providers, vec!["FARGATE"]);
    assert!(!config.container_insights);
}

#[test]
fn test_ecs_cluster_config_validation() {
    let mut config = EcsClusterConfig::default();
    assert!(config.validate().is_ok());
    config.capacity_providers = vec![];
    assert!(config.validate().is_err());
}

#[test]
fn test_ecs_task_config_validation() {
    let config = task("my-task", "256", vec!["FARGATE".to_string()]);
    assert!(config.validate().is_ok());

    let mut invalid_config = config.clone();
    invalid_config.family = String::new();
    assert!(invalid_config.validate().is_err());

    let mut invalid_config = config.clone();
    invalid_config.cpu = "100".to_string();
    assert!(invalid_config.validate().is_err());
}

#[test]
fn test_ecs_service_config_validation() {
    let config = service(2, Some("FARGATE"), Some(network(vec!["subnet-123"], vec!["sg-456"], true)));
    assert!(config.validate().is_ok());

    let mut invalid_config = config.clone();
    invalid_config.desired_count = -1;
    assert!(invalid_config.validate().is_err());
}

#[test]
fn test_ecs_network_config_validation() {
    assert!(network(vec![], vec!["sg-123"], false).validate().is_err());
    assert!(network(vec!["subnet-123"], vec![], false).validate().is_err());
    assert!(network(vec!["subnet-123"], vec!["sg-123"], true).validate().is_ok());
}

#[test]
fn test_ecs_provisioning_config_validation() {
    let config = EcsProvisioningConfig {
        cluster: Some(EcsClusterConfig::default()),
        task: task("test", "256", vec![]),
        service: service(1, Some("FARGATE"), Some(network(vec!["subnet-123"], vec!["sg-456"], true))),
    };
    assert!(config.validate().is_ok());
}

#[test]
fn test_ecs_current_state_not_found() {
    let state = EcsCurrentState::not_found();
    assert!(!state.cluster_exists);
    assert!(!state.service_exists);
    assert!(state.task_definition_arn.is_none());
    assert!(state.cluster_arn.is_none());
    assert!(state.service_arn.is_none());
    assert!(state.current_desired_count.is_none());
}

#[test]
fn test_ecs_task_config_cpu_validation() {
    for cpu in ["256", "512", "1024", "2048", "4096", "8192", "16384"] {
        assert!(task("test", cpu, vec![]).validate().is_ok(), "CPU {} should be valid", cpu);
    }
    for cpu in ["100", "300", "0", "999"] {
        assert!(task("test", cpu, vec![]).validate().is_err(), "CPU {} should be invalid", cpu);
    }
}

#[test]
fn test_ecs_service_launch_type_validation() {
    for lt in ["FARGATE", "EC2", "EXTERNAL"] {
        assert!(service(1, Some(lt), None).validate().is_ok(), "Launch type {} should be valid", lt);
    }
    assert!(service(1, Some("INVALID"), None).validate().is_err());
}

#[test]
fn test_lambda_provisioning_config_defaults() {
    let config = LambdaProvisioningConfig::default();
    assert_eq!(config.memory_mb, 256);
    assert_eq!(config.timeout_secs, 30);
    assert_eq!(config.architecture, "x86_64");
    assert_eq!(config.ephemeral_storage_mb, 512);
    assert_eq!(config.package_type, "Image");
}

#[test]
fn test_lambda_provisioning_config_validation() {
    let mut config = LambdaProvisioningConfig::default();
    assert!(config.validate().is_err());
    config.role_arn = ROLE.to_string();
    assert!(config.validate().is_ok());
    config.memory_mb = 50;
    assert!(config.validate().is_err());
    config.memory_mb = 256;
    config.timeout_secs = 1000;
    assert!(config.validate().is_err());
    config.timeout_secs = 30;
    config.architecture = "invalid".to_string();
    assert!(config.validate().is_err());
}

#[test]
fn test_lambda_vpc_config_validation() {
    let vpc = LambdaVpcConfig { subnet_ids: vec![], security_group_ids: vec!["sg-123".to_string()] };
    assert!(vpc.validate().is_err());
    let vpc = LambdaVpcConfig { subnet_ids: vec!["subnet-123".to_string()], security_group_ids: vec![] };
    assert!(vpc.validate().is_err());
    let vpc = LambdaVpcConfig {
        subnet_ids: vec!["subnet-123".to_string()],
        security_group_ids: vec!["sg-123".to_string()],
    };
    assert!(vpc.validate().is_ok());
}

#[test]
fn test_compute_lambda_diff_needs_create() {
    let diff = compute_lambda_diff(&LambdaCurrentState::not_found(), &desired_lambda());
    assert!(diff.needs_create);
    assert!(!diff.needs_update());
}

#[test]
fn test_compute_lambda_diff_memory_changed() {
    let desired = LambdaProvisioningConfig { memory_mb: 512, ..desired_lambda() };
    let diff = compute_lambda_diff(&existing_lambda(), &desired);
    assert!(!diff.needs_create);
    assert!(diff.memory_changed);
    assert!(diff.needs_update());
    assert_eq!(diff.changes.len(), 1);
    assert_eq!(diff.changes[0].0, "memory_mb");
}

#[test]
fn test_compute_lambda_diff_no_changes() {
    let current = LambdaCurrentState { package_type: Some("Image".to_string()), ..existing_lambda() };
    let diff = compute_lambda_diff(&current, &desired_lambda());
    assert!(!diff.needs_create);
    assert!(!diff.needs_update());
    assert!(!diff.has_immutable_changes());
    assert!(diff.changes.is_empty());
}

#[test]
fn test_compute_lambda_diff_multiple_changes() {
    let current = LambdaCurrentState {
        role: Some("arn:aws:iam::123456789:role/old-role".to_string()),
        description: Some("Old description".to_string()),
        package_type: Some("Image".to_string()),
        ..existing_lambda()
    };
    let desired = LambdaProvisioningConfig {
        memory_mb: 1024,
        timeout_secs: 60,
        role_arn: "arn:aws:iam::123456789:role/new-role".to_string(),
        description: Some("New description".to_string()),
        ephemeral_storage_mb: 1024,
        ..Default::default()
    };
    let diff = compute_lambda_diff(&current, &desired);
    assert!(!diff.needs_create);
    assert!(diff.memory_changed);
    assert!(diff.timeout_changed);
    assert!(diff.role_changed);
    assert!(diff.description_changed);
    assert!(diff.ephemeral_storage_changed);
    assert!(diff.needs_update());
    assert_eq!(diff.changes.len(), 5);
}

#[test]
fn test_compute_lambda_diff_vpc_added() {
    let desired = LambdaProvisioningConfig {
        vpc: Some(LambdaVpcConfig {
            subnet_ids: vec!["subnet-123".to_string()],
            security_group_ids: vec!["sg-456".to_string()],
        }),
        ..desired_lambda()
    };
    let diff = compute_lambda_diff(&existing_lambda(), &desired);
    assert!(diff.vpc_changed);
    assert!(diff.needs_update());
}

#[test]
fn test_compute_lambda_diff_vpc_removed() {
    let current = LambdaCurrentState {
        vpc_config: Some(LambdaVpcConfig {
            subnet_ids: vec!["subnet-123".to_string()],
            security_group_ids: vec!["sg-456".to_string()],
        }),
        ..existing_lambda()
    };
    let diff = compute_lambda_diff(&current, &desired_lambda());
    assert!(diff.vpc_changed);
    assert!(diff.needs_update());
}

#[test]
fn test_compute_lambda_diff_layers_changed() {
    let current = LambdaCurrentState {
        layers: vec!["arn:aws:lambda:us-east-1:123:layer:old:1".to_string()],
        ..existing_lambda()
    };
    let desired = LambdaProvisioningConfig {
        layers: vec!["arn:aws:lambda:us-east-1:123:layer:new:1".to_string()],
        ..desired_lambda()
    };
    let diff = compute_lambda_diff(&current, &desired);
    assert!(diff.layers_changed);
    assert!(diff.needs_update());
}

#[test]
fn test_compute_lambda_diff_architecture_changed() {
    let desired = LambdaProvisioningConfig { architecture: "arm64".to_string(), ..desired_lambda() };
    let diff = compute_lambda_diff(&existing_lambda(), &desired);
    assert!(diff.architecture_changed);
    assert!(diff.has_immutable_changes());
    assert!(!diff.needs_update());
}

#[test]
fn test_lambda_state_diff_needs_update() {
    let diff = LambdaStateDiff {
        needs_create: false,
        memory_changed: false,
        timeout_changed: false,
        role_changed: false,
        description_changed: false,
        vpc_changed: false,
        layers_changed: false,
        architecture_changed: false,
        ephemeral_storage_changed: false,
        changes: vec![],
    };
    assert!(!diff.needs_update());
    let diff_with_memory = LambdaStateDiff { memory_changed: true, ..diff.clone() };
    assert!(diff_with_memory.needs_update());
    let diff_with_vpc = LambdaStateDiff { vpc_changed: true, ..diff.clone() };
    assert!(diff_with_vpc.needs_update());
}

#[test]
fn test_lambda_validation_edge_cases() {
    let mut config = desired_lambda();
    config.memory_mb = 128;
    assert!(config.validate().is_ok());
    config.memory_mb = 10240;
    assert!(config.validate().is_ok());
    config.memory_mb = 127;
    assert!(config.validate().is_err());
    config.memory_mb = 10241;
    assert!(config.validate().is_err());
    config.memory_mb = 256;
    config.timeout_secs = 1;
    assert!(config.validate().is_ok());
    config.timeout_secs = 900;
    assert!(config.validate().is_ok());
    config.timeout_secs = 0;
    assert!(config.validate().is_err());
    config.timeout_secs = 901;
    assert!(config.validate().is_err());
    config.timeout_secs = 30;
    config.ephemeral_storage_mb = 512;
    assert!(config.validate().is_ok());
    config.ephemeral_storage_mb = 10240;
    assert!(config.validate().is_ok());
    config.ephemeral_storage_mb = 511;
    assert!(config.validate().is_err());
    config.ephemeral_storage_mb = 10241;
    assert!(config.validate().is_err());
    config.ephemeral_storage_mb = 512;
    config.package_type = "Zip".to_string();
    assert!(config.validate().is_ok());
    config.package_type = "Invalid".to_string();
    assert!(config.validate().is_err());
}

#[test]
fn test_provisioning_result_created() {
    let result = ProvisioningResult::created("Lambda", "my-function", vec!["Created new function".into()]);
    assert_eq!(result.resource_type, "Lambda");
    assert_eq!(result.resource_name, "my-function");
    assert_eq!(result.action, ProvisioningAction::Created);
    assert_eq!(result.details.len(), 1);
}

#[test]
fn test_provisioning_plan() {
    let mut plan = ProvisioningPlan::new();
    assert!(plan.is_empty());
    plan.add(PlannedChange::create("Lambda", "my-function", "Function does not exist"));
    assert!(!plan.is_empty());
    assert!(plan.has_creates());
    assert!(!plan.has_updates());
    plan.add(PlannedChange::update("Lambda", "other-function", "256", "512", "Memory size changed"));
    assert!(plan.has_updates());
}

#[test]
fn test_planned_change_no_change() {
    let change = PlannedChange::no_change("ECS Cluster", "my-cluster");
    assert_eq!(change.action, PlannedAction::NoChange);
    assert!(change.current.is_none());
    assert!(change.desired.is_none());
}
