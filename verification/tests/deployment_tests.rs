use pmp_deploy::infrastructure::provider::DeployMode;
use pmp_deploy::deployment::executor::{checkpoint_context, resume_settings};
use pmp_deploy::cli::resume::{format_completed_phases, no_checkpoint_error, not_resumable_error, resume_menu_line};
use pmp_deploy::config::schema::{ConfigValue, EnvironmentConfig};
use pmp_deploy::deployment::checkpoint::{CheckpointConfig, CheckpointManager, DeploymentPhase};
use pmp_deploy::deployment::executor::{deployment_id_at, plan_steps, ExecutionStep, HookExecutionConfig, StrategyFactory};
use pmp_deploy::deployment::rolling::RollingUpdateStrategy;
use pmp_deploy::deployment::strategy::{DeploymentResult, DeploymentStrategy, DeploymentType, StrategyConfig};

fn env(deployment_type: &str, config: Vec<(String, ConfigValue)>) -> EnvironmentConfig {
    EnvironmentConfig {
        infrastructure: "test".to_string(),
        deployment_type: deployment_type.to_string(),
        image: Some("test:latest".to_string()),
        replicas: Some(3),
        resources: None,
        env: vec![],
        environment: vec![],
        hooks: None,
        config,
    }
}

#[test]
fn test_deployment_type_from_str() {
    assert_eq!(DeploymentType::from_str("rolling-update"), Some(DeploymentType::RollingUpdate));
    assert_eq!(DeploymentType::from_str("all-in"), Some(DeploymentType::AllIn));
    assert_eq!(DeploymentType::from_str("recreate"), None);
    assert_eq!(DeploymentType::from_str("direct"), None);
    assert_eq!(DeploymentType::from_str("invalid"), None);
}

#[test]
fn test_deployment_result_builder() {
    let result = DeploymentResult::success("Deployed successfully")
        .with_version("v1.0.0")
        .with_rollback_version("v0.9.0");

    assert!(result.success);
    assert_eq!(result.version, Some("v1.0.0".to_string()));
    assert_eq!(result.rollback_version, Some("v0.9.0".to_string()));
}

#[test]
fn deployment_type_names_read_back() {
    for t in [DeploymentType::RollingUpdate, DeploymentType::AllIn] {
        assert_eq!(DeploymentType::from_str(t.as_str()), Some(t));
    }
}

#[test]
fn test_strategy_factory_create() {
    let strategy = StrategyFactory::create(&DeploymentType::RollingUpdate);
    assert_eq!(strategy.deployment_type(), DeploymentType::RollingUpdate);

    let strategy = StrategyFactory::create(&DeploymentType::AllIn);
    assert_eq!(strategy.deployment_type(), DeploymentType::RollingUpdate);
}

#[test]
fn test_strategy_factory_create_config() {
    let config = StrategyFactory::create_config(&env("rolling-update", vec![]));
    assert_eq!(config.deployment_type, DeploymentType::RollingUpdate);
    assert_eq!(config.batch_size, Some(25));

    let custom = env("rolling-update", vec![("batch_size".to_string(), ConfigValue::Unsigned(50))]);
    let config = StrategyFactory::create_config(&custom);
    assert_eq!(config.batch_size, Some(50));
}

#[test]
fn test_all_in_strategy_config() {
    let config = StrategyFactory::create_config(&env("all-in", vec![]));
    assert_eq!(config.deployment_type, DeploymentType::AllIn);
    assert_eq!(config.batch_size, Some(100));
}

#[test]
fn test_calculate_batches() {
    let strategy = RollingUpdateStrategy::new();

    assert_eq!(strategy.calculate_batches(100, 25), 4);
    assert_eq!(strategy.calculate_batches(100, 33), 4);
    assert_eq!(strategy.calculate_batches(100, 50), 2);
    assert_eq!(strategy.calculate_batches(100, 100), 1);
}

#[test]
fn test_validate_config() {
    let strategy = RollingUpdateStrategy::new();

    let valid_config = StrategyConfig {
        deployment_type: DeploymentType::RollingUpdate,
        batch_size: Some(25),
        health_check_timeout_secs: Some(300),
        rollback_on_failure: true,
    };

    assert!(strategy.validate_config(&valid_config).is_ok());

    let invalid_batch = StrategyConfig { batch_size: Some(0), ..valid_config.clone() };
    assert!(strategy.validate_config(&invalid_batch).is_err());

    let invalid_timeout = StrategyConfig { health_check_timeout_secs: Some(0), ..valid_config };
    assert!(strategy.validate_config(&invalid_timeout).is_err());
}

#[test]
fn batch_size_over_one_hundred_is_refused() {
    let strategy = RollingUpdateStrategy::new();
    let config = StrategyConfig { batch_size: Some(101), ..StrategyConfig::default() };
    assert_eq!(strategy.validate_config(&config).unwrap_err().to_string(), "batch_size cannot exceed 100%");
}

#[test]
fn test_format_completed_phases_empty() {
    let phases: Vec<DeploymentPhase> = vec![];
    assert_eq!(format_completed_phases(&phases), "none");
}

#[test]
fn test_format_completed_phases_single() {
    let phases = vec![DeploymentPhase::PreHooks];
    assert_eq!(format_completed_phases(&phases), "pre_hooks");
}

#[test]
fn test_format_completed_phases_multiple() {
    let phases = vec![DeploymentPhase::PreHooks, DeploymentPhase::InfrastructureProvisioning];
    assert_eq!(format_completed_phases(&phases), "pre_hooks, infrastructure_provisioning");
}

#[test]
fn resume_messages() {
    assert_eq!(no_checkpoint_error("dep_1"), "No checkpoint found for deployment 'dep_1'");
    assert_eq!(
        not_resumable_error("dep_1", DeploymentPhase::Completed),
        "Deployment 'dep_1' cannot be resumed (phase: completed)"
    );
    assert_eq!(resume_menu_line("dep_1", DeploymentPhase::HealthCheck, &None), "dep_1 - health_check (in progress)");
    assert_eq!(
        resume_menu_line("dep_2", DeploymentPhase::AppDeployment, &Some("boom".to_string())),
        "dep_2 - app_deployment (error: boom)"
    );
}

#[test]
fn phases_advance_in_order() {
    let mut p = DeploymentPhase::PreHooks;
    let mut seen = vec![p];
    while p != DeploymentPhase::Completed {
        let next = p.next();
        assert_eq!(next.ordinal(), p.ordinal() + 1);
        p = next;
        seen.push(p);
    }
    assert_eq!(seen.len(), 6);
    assert_eq!(DeploymentPhase::Completed.next(), DeploymentPhase::Completed);
}

#[test]
fn resumed_plan_skips_completed_steps() {
    assert_eq!(
        plan_steps(DeploymentPhase::PreHooks),
        vec![ExecutionStep::PreHooks, ExecutionStep::AppDeployment, ExecutionStep::HealthCheck, ExecutionStep::PostHooks]
    );
    assert_eq!(plan_steps(DeploymentPhase::HealthCheck), vec![ExecutionStep::HealthCheck, ExecutionStep::PostHooks]);
    assert!(plan_steps(DeploymentPhase::Completed).is_empty());
}

#[test]
fn skipping_all_hooks_runs_none() {
    let c = HookExecutionConfig::skip_all_hooks();
    assert!(!c.should_run_pre());
    assert!(!c.should_run_post());
    let c = HookExecutionConfig { skip_all: false, skip_pre: true, skip_post: false };
    assert!(!c.should_run_pre());
    assert!(c.should_run_post());
}

#[test]
fn deployment_ids_name_environment_and_time() {
    assert_eq!(deployment_id_at("prod", 1700000000123), "dep_prod_1700000000123");
}

#[test]
fn checkpoint_manager_settings() {
    let m = CheckpointManager::new();
    assert!(m.persists());
    assert!(m.saves_on_interrupt());
    let m = m.with_config(CheckpointConfig { enabled: true, save_on_interrupt: false });
    assert!(m.persists());
    assert!(!m.saves_on_interrupt());
    let m = m.with_config(CheckpointConfig { enabled: false, save_on_interrupt: true });
    assert!(!m.saves_on_interrupt());
    let e = CheckpointManager::interrupted("dep_9", DeploymentPhase::AppDeployment);
    assert_eq!(e.to_string(), "Deployment dep_9 interrupted at phase app_deployment: Deployment interrupted by user");
}

#[test]
fn checkpoint_context_and_resume_settings() {
    let ctx = checkpoint_context("prod", DeployMode::AppOnly, false);
    assert_eq!(ctx, "{\"deploy_mode\":\"app-only\",\"dry_run\":false,\"environment\":\"prod\"}");
    let (mode, env) = resume_settings("dep_1", &Some(ctx));
    assert_eq!(mode, DeployMode::AppOnly);
    assert_eq!(env, "prod");
    let (mode, env) = resume_settings("dep_1", &None);
    assert_eq!(mode, DeployMode::Full);
    assert_eq!(env, "dep_1");
    let (mode, env) = resume_settings("dep_2", &Some("not json".to_string()));
    assert_eq!(mode, DeployMode::Full);
    assert_eq!(env, "dep_2");
}
