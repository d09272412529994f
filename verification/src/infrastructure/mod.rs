pub mod aws_ecs;
pub mod aws_eks;
pub mod aws_lambda;
pub mod docker_compose;
pub mod helm;
pub mod k8s_resources;
pub mod kubernetes;
pub mod kustomize;
pub mod lambda_extended;
pub mod manifest;
pub mod provider;
pub mod provisioning;
pub mod registry;

pub use provider::{DeployMode, InfrastructureType};
pub use provisioning::{
    compute_lambda_diff, EcsClusterConfig, EcsCurrentState, EcsNetworkConfig,
    EcsProvisioningConfig, EcsServiceConfig, EcsTaskConfig, LambdaCurrentState,
    LambdaProvisioningConfig, LambdaStateDiff, LambdaVpcConfig, PlannedAction, PlannedChange,
    ProvisioningAction, ProvisioningPlan, ProvisioningResult,
};
