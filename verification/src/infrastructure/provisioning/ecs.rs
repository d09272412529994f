//! ECS provisioning configuration (cluster, task definition, service) and
//! its validation.

use vstd::prelude::*;
use crate::text::{str_eq, to_owned_string};
use super::ProvisioningConfigError;

verus! {

/// Configuration for provisioning an ECS cluster, service and task definition.
#[derive(Debug, Clone)]
pub struct EcsProvisioningConfig {
    /// Cluster configuration.
    pub cluster: Option<EcsClusterConfig>,
    /// Task definition configuration.
    pub task: EcsTaskConfig,
    /// Service configuration.
    pub service: EcsServiceConfig,
}

/// The first rule that an ECS provisioning configuration breaks: the
/// cluster's first, then the task's, then the service's.
pub open spec fn ecs_provisioning_error(c: EcsProvisioningConfig) -> Option<ProvisioningConfigError> {
    let cluster_err = match c.cluster {
        Some(cl) => ecs_cluster_error(cl),
        None => None,
    };
    if cluster_err is Some {
        cluster_err
    } else if ecs_task_error(c.task) is Some {
        ecs_task_error(c.task)
    } else {
        ecs_service_error(c.service)
    }
}

impl EcsProvisioningConfig {
    pub fn validate(&self) -> (r: Result<(), ProvisioningConfigError>)
        ensures
            r == match ecs_provisioning_error(*self) {
                Some(e) => Err::<(), ProvisioningConfigError>(e),
                None => Ok(()),
            },
    {
        if let Some(cluster) = &self.cluster {
            let r = cluster.validate();
            if r.is_err() {
                return r;
            }
        }
        let r = self.task.validate();
        if r.is_err() {
            return r;
        }
        self.service.validate()
    }
}

/// ECS cluster configuration.
#[derive(Debug, Clone)]
pub struct EcsClusterConfig {
    /// Capacity providers (e.g., FARGATE, FARGATE_SPOT, EC2).
    pub capacity_providers: Vec<String>,
    /// Default capacity provider strategy.
    pub default_capacity_provider_strategy: Vec<CapacityProviderStrategy>,
    /// Enable Container Insights.
    pub container_insights: bool,
    /// Execute command configuration.
    pub execute_command: Option<ExecuteCommandConfig>,
}

/// The capacity providers used when none are configured.
pub fn default_capacity_providers() -> (r: Vec<String>)
    ensures
        r@.len() == 1,
        r@[0]@ == "FARGATE"@,
{
    let mut v: Vec<String> = Vec::new();
    v.push(to_owned_string("FARGATE"));
    v
}

impl Default for EcsClusterConfig {
    fn default() -> (r: Self)
        ensures
            r.capacity_providers@.len() == 1,
            r.capacity_providers@[0]@ == "FARGATE"@,
            r.default_capacity_provider_strategy@.len() == 0,
            !r.container_insights,
            r.execute_command is None,
    {
        EcsClusterConfig {
            capacity_providers: default_capacity_providers(),
            default_capacity_provider_strategy: Vec::new(),
            container_insights: false,
            execute_command: None,
        }
    }
}

/// The rule that a cluster configuration breaks, if any.
pub open spec fn ecs_cluster_error(c: EcsClusterConfig) -> Option<ProvisioningConfigError> {
    if c.capacity_providers@.len() == 0 {
        Some(ProvisioningConfigError::EcsClusterMissingCapacityProvider)
    } else {
        None
    }
}

impl EcsClusterConfig {
    /// Requires at least one capacity provider. Unknown provider names are
    /// accepted (they may be EC2 capacity providers).
    pub fn validate(&self) -> (r: Result<(), ProvisioningConfigError>)
        ensures
            r == match ecs_cluster_error(*self) {
                Some(e) => Err::<(), ProvisioningConfigError>(e),
                None => Ok(()),
            },
    {
        if self.capacity_providers.len() == 0 {
            return Err(ProvisioningConfigError::EcsClusterMissingCapacityProvider);
        }
        Ok(())
    }
}

/// Capacity provider strategy entry.
#[derive(Debug, Clone)]
pub struct CapacityProviderStrategy {
    pub capacity_provider: String,
    pub weight: i32,
    pub base: i32,
}

/// Default weight of a capacity provider strategy entry.
pub fn default_weight() -> (r: i32)
    ensures
        r == 1,
{
    1
}

/// Execute command configuration for ECS Exec.
#[derive(Debug, Clone)]
pub struct ExecuteCommandConfig {
    pub enabled: bool,
    pub logging: Option<String>,
}

/// ECS task definition configuration.
#[derive(Debug, Clone)]
pub struct EcsTaskConfig {
    /// Task family name.
    pub family: String,
    /// CPU units (256, 512, 1024, 2048, 4096, 8192, 16384).
    pub cpu: String,
    /// Memory in MiB.
    pub memory: String,
    /// Execution role ARN.
    pub execution_role_arn: String,
    /// Task role ARN.
    pub task_role_arn: Option<String>,
    /// Network mode (awsvpc, bridge, host, none).
    pub network_mode: String,
    /// Requires compatibilities (FARGATE, EC2).
    pub requires_compatibilities: Vec<String>,
    /// Container definitions.
    pub containers: Vec<ContainerDefinition>,
    /// Volumes.
    pub volumes: Vec<VolumeDefinition>,
    /// Runtime platform (for Fargate).
    pub runtime_platform: Option<RuntimePlatform>,
}

/// Default task CPU units.
pub fn default_cpu() -> (r: String)
    ensures
        r@ == "256"@,
{
    to_owned_string("256")
}

/// Default task memory, in MiB.
pub fn default_memory() -> (r: String)
    ensures
        r@ == "512"@,
{
    to_owned_string("512")
}

/// Default network mode.
pub fn default_network_mode() -> (r: String)
    ensures
        r@ == "awsvpc"@,
{
    to_owned_string("awsvpc")
}

/// Default compatibilities.
pub fn default_requires_compatibilities() -> (r: Vec<String>)
    ensures
        r@.len() == 1,
        r@[0]@ == "FARGATE"@,
{
    let mut v: Vec<String> = Vec::new();
    v.push(to_owned_string("FARGATE"));
    v
}

/// The CPU values that a task definition accepts.
pub open spec fn valid_task_cpu(s: Seq<char>) -> bool {
    s == "256"@ || s == "512"@ || s == "1024"@ || s == "2048"@ || s == "4096"@
        || s == "8192"@ || s == "16384"@
}

/// The first rule that a task configuration breaks, if any.
pub open spec fn ecs_task_error(t: EcsTaskConfig) -> Option<ProvisioningConfigError> {
    if t.family@.len() == 0 {
        Some(ProvisioningConfigError::EcsTaskMissingFamily)
    } else if t.execution_role_arn@.len() == 0 {
        Some(ProvisioningConfigError::EcsTaskMissingExecutionRole)
    } else if !valid_task_cpu(t.cpu@) {
        Some(ProvisioningConfigError::EcsTaskInvalidCpu)
    } else {
        None
    }
}

impl EcsTaskConfig {
    pub fn validate(&self) -> (r: Result<(), ProvisioningConfigError>)
        ensures
            r == match ecs_task_error(*self) {
                Some(e) => Err::<(), ProvisioningConfigError>(e),
                None => Ok(()),
            },
    {
        if self.family.as_str().is_empty() {
            return Err(ProvisioningConfigError::EcsTaskMissingFamily);
        }
        if self.execution_role_arn.as_str().is_empty() {
            return Err(ProvisioningConfigError::EcsTaskMissingExecutionRole);
        }
        let cpu = self.cpu.as_str();
        if !(str_eq(cpu, "256") || str_eq(cpu, "512") || str_eq(cpu, "1024") || str_eq(cpu, "2048")
            || str_eq(cpu, "4096") || str_eq(cpu, "8192") || str_eq(cpu, "16384")) {
            return Err(ProvisioningConfigError::EcsTaskInvalidCpu);
        }
        Ok(())
    }
}

/// Container definition for a task.
#[derive(Debug, Clone)]
pub struct ContainerDefinition {
    pub name: String,
    pub image: String,
    pub port_mappings: Vec<PortMapping>,
    pub cpu: Option<i32>,
    pub memory: Option<i32>,
    pub memory_reservation: Option<i32>,
    pub essential: bool,
    pub environment: Vec<EnvironmentVariable>,
    pub secrets: Vec<SecretEnvironmentVariable>,
    pub log_configuration: Option<LogConfiguration>,
    pub health_check: Option<ContainerHealthCheck>,
    pub command: Vec<String>,
    pub entry_point: Vec<String>,
    pub working_directory: Option<String>,
    pub mount_points: Vec<MountPoint>,
    pub depends_on: Vec<ContainerDependency>,
}

/// Port mapping for a container.
#[derive(Debug, Clone)]
pub struct PortMapping {
    pub container_port: i32,
    pub host_port: Option<i32>,
    pub protocol: String,
    pub name: Option<String>,
    pub app_protocol: Option<String>,
}

/// Default port protocol.
pub fn default_protocol() -> (r: String)
    ensures
        r@ == "tcp"@,
{
    to_owned_string("tcp")
}

/// Environment variable for a container.
#[derive(Debug, Clone)]
pub struct EnvironmentVariable {
    pub name: String,
    pub value: String,
}

/// Secret environment variable (from SSM or Secrets Manager).
#[derive(Debug, Clone)]
pub struct SecretEnvironmentVariable {
    pub name: String,
    pub value_from: String,
}

/// Log configuration for a container; `options` is a list of distinct keys
/// with their values.
#[derive(Debug, Clone)]
pub struct LogConfiguration {
    pub log_driver: String,
    pub options: Vec<(String, String)>,
}

/// Default log driver.
pub fn default_log_driver() -> (r: String)
    ensures
        r@ == "awslogs"@,
{
    to_owned_string("awslogs")
}

/// Health check for a container.
#[derive(Debug, Clone)]
pub struct ContainerHealthCheck {
    pub command: Vec<String>,
    pub interval: i32,
    pub timeout: i32,
    pub retries: i32,
    pub start_period: i32,
}

/// Default health check interval, in seconds.
pub fn default_health_interval() -> (r: i32)
    ensures
        r == 30,
{
    30
}

/// Default health check timeout, in seconds.
pub fn default_health_timeout() -> (r: i32)
    ensures
        r == 5,
{
    5
}

/// Default number of health check retries.
pub fn default_health_retries() -> (r: i32)
    ensures
        r == 3,
{
    3
}

/// Default health check start period, in seconds.
pub fn default_health_start_period() -> (r: i32)
    ensures
        r == 0,
{
    0
}

/// Mount point for a container.
#[derive(Debug, Clone)]
pub struct MountPoint {
    pub source_volume: String,
    pub container_path: String,
    pub read_only: bool,
}

/// Container dependency.
#[derive(Debug, Clone)]
pub struct ContainerDependency {
    pub container_name: String,
    pub condition: String,
}

/// Volume definition for a task.
#[derive(Debug, Clone)]
pub struct VolumeDefinition {
    pub name: String,
    pub efs_volume_configuration: Option<EfsVolumeConfiguration>,
}

/// EFS volume configuration.
#[derive(Debug, Clone)]
pub struct EfsVolumeConfiguration {
    pub file_system_id: String,
    pub root_directory: Option<String>,
    pub transit_encryption: Option<String>,
    pub authorization_config: Option<EfsAuthorizationConfig>,
}

/// EFS authorization configuration.
#[derive(Debug, Clone)]
pub struct EfsAuthorizationConfig {
    pub access_point_id: Option<String>,
    pub iam: Option<String>,
}

/// Runtime platform for Fargate tasks.
#[derive(Debug, Clone)]
pub struct RuntimePlatform {
    pub operating_system_family: String,
    pub cpu_architecture: Option<String>,
}

/// Default operating system family.
pub fn default_operating_system() -> (r: String)
    ensures
        r@ == "LINUX"@,
{
    to_owned_string("LINUX")
}

/// ECS service configuration.
#[derive(Debug, Clone)]
pub struct EcsServiceConfig {
    pub desired_count: i32,
    pub launch_type: Option<String>,
    pub capacity_provider_strategy: Vec<CapacityProviderStrategy>,
    pub platform_version: String,
    pub deployment: Option<DeploymentConfiguration>,
    pub network: Option<EcsNetworkConfig>,
    pub load_balancers: Vec<ServiceLoadBalancer>,
    pub service_registries: Vec<ServiceRegistry>,
    pub enable_execute_command: bool,
    pub enable_circuit_breaker: bool,
    pub propagate_tags: Option<String>,
    pub health_check_grace_period_seconds: Option<i32>,
    pub scheduling_strategy: String,
}

/// Default desired task count.
pub fn default_desired_count() -> (r: i32)
    ensures
        r == 1,
{
    1
}

/// Default launch type.
pub fn default_launch_type() -> (r: Option<String>)
    ensures
        r is Some,
        r->0@ == "FARGATE"@,
{
    Some(to_owned_string("FARGATE"))
}

/// Default platform version.
pub fn default_platform_version() -> (r: String)
    ensures
        r@ == "LATEST"@,
{
    to_owned_string("LATEST")
}

/// Default scheduling strategy.
pub fn default_scheduling_strategy() -> (r: String)
    ensures
        r@ == "REPLICA"@,
{
    to_owned_string("REPLICA")
}

/// The launch types that a service accepts.
pub open spec fn valid_launch_type(s: Seq<char>) -> bool {
    s == "FARGATE"@ || s == "EC2"@ || s == "EXTERNAL"@
}

/// The first rule that a service configuration breaks, if any.
pub open spec fn ecs_service_error(s: EcsServiceConfig) -> Option<ProvisioningConfigError> {
    if s.desired_count < 0 {
        Some(ProvisioningConfigError::EcsServiceNegativeDesiredCount)
    } else if s.launch_type is Some && !valid_launch_type(s.launch_type->0@) {
        Some(ProvisioningConfigError::EcsServiceInvalidLaunchType)
    } else {
        match s.network {
            Some(n) => ecs_network_error(n),
            None => None,
        }
    }
}

impl EcsServiceConfig {
    pub fn validate(&self) -> (r: Result<(), ProvisioningConfigError>)
        ensures
            r == match ecs_service_error(*self) {
                Some(e) => Err::<(), ProvisioningConfigError>(e),
                None => Ok(()),
            },
    {
        if self.desired_count < 0 {
            return Err(ProvisioningConfigError::EcsServiceNegativeDesiredCount);
        }
        if let Some(lt) = &self.launch_type {
            let l = lt.as_str();
            if !(str_eq(l, "FARGATE") || str_eq(l, "EC2") || str_eq(l, "EXTERNAL")) {
                return Err(ProvisioningConfigError::EcsServiceInvalidLaunchType);
            }
        }
        match &self.network {
            Some(n) => n.validate(),
            None => Ok(()),
        }
    }
}

/// Deployment configuration for an ECS service.
#[derive(Debug, Clone)]
pub struct DeploymentConfiguration {
    pub minimum_healthy_percent: i32,
    pub maximum_percent: i32,
}

/// Default minimum healthy percent.
pub fn default_minimum_healthy_percent() -> (r: i32)
    ensures
        r == 100,
{
    100
}

/// Default maximum percent.
pub fn default_maximum_percent() -> (r: i32)
    ensures
        r == 200,
{
    200
}

/// Network configuration for an ECS service.
#[derive(Debug, Clone)]
pub struct EcsNetworkConfig {
    pub subnets: Vec<String>,
    pub security_groups: Vec<String>,
    pub assign_public_ip: bool,
}

/// The first rule that a network configuration breaks, if any.
pub open spec fn ecs_network_error(n: EcsNetworkConfig) -> Option<ProvisioningConfigError> {
    if n.subnets@.len() == 0 {
        Some(ProvisioningConfigError::EcsNetworkMissingSubnet)
    } else if n.security_groups@.len() == 0 {
        Some(ProvisioningConfigError::EcsNetworkMissingSecurityGroup)
    } else {
        None
    }
}

impl EcsNetworkConfig {
    pub fn validate(&self) -> (r: Result<(), ProvisioningConfigError>)
        ensures
            r == match ecs_network_error(*self) {
                Some(e) => Err::<(), ProvisioningConfigError>(e),
                None => Ok(()),
            },
    {
        if self.subnets.len() == 0 {
            return Err(ProvisioningConfigError::EcsNetworkMissingSubnet);
        }
        if self.security_groups.len() == 0 {
            return Err(ProvisioningConfigError::EcsNetworkMissingSecurityGroup);
        }
        Ok(())
    }
}

/// Load balancer configuration for an ECS service.
#[derive(Debug, Clone)]
pub struct ServiceLoadBalancer {
    pub target_group_arn: String,
    pub container_name: String,
    pub container_port: i32,
}

/// Service registry (Cloud Map) configuration.
#[derive(Debug, Clone)]
pub struct ServiceRegistry {
    pub registry_arn: String,
    pub container_name: Option<String>,
    pub container_port: Option<i32>,
}

/// Current state of the ECS resources, for comparison.
#[derive(Debug, Clone)]
pub struct EcsCurrentState {
    pub cluster_exists: bool,
    pub service_exists: bool,
    pub task_definition_arn: Option<String>,
    pub cluster_arn: Option<String>,
    pub service_arn: Option<String>,
    pub current_desired_count: Option<i32>,
    pub current_task_definition: Option<String>,
}

impl EcsCurrentState {
    /// The state when nothing exists yet.
    pub fn not_found() -> (r: Self)
        ensures
            !r.cluster_exists,
            !r.service_exists,
            r.task_definition_arn is None,
            r.cluster_arn is None,
            r.service_arn is None,
            r.current_desired_count is None,
            r.current_task_definition is None,
    {
        EcsCurrentState {
            cluster_exists: false,
            service_exists: false,
            task_definition_arn: None,
            cluster_arn: None,
            service_arn: None,
            current_desired_count: None,
            current_task_definition: None,
        }
    }
}

} // verus!
