//! AWS ECS: the settings of the ECS provider and every decision it takes
//! around the AWS calls that the caller makes: which service and log group
//! are used, what provisioning plans and creates, which image each
//! container runs, when a service is stable, which revision a rollback
//! returns to, and what is reported.

use vstd::prelude::*;
use crate::config::schema::{config_get_str, config_text, ConfigValue, EnvironmentConfig, InfrastructureConfig};
use crate::keyed::{get_value, key_value};
use crate::text::{
    after_last, clone_opt_string, decimal, join_seqs, join_strings, opt_view, parse_i32, parsed_i32,
    push_str, seq_views, signed_decimal, i64_to_string, str_eq, suffix_after_last, to_owned_string,
    u64_to_string, before_first,
};
use super::provider::{DeployMode, DeploymentContext, InfrastructureType};
use crate::deployment::strategy::DeploymentType;
use crate::deployment::strategy::DeploymentResult;
use super::provisioning::{
    change_views, creation, modification, EcsCurrentState, EcsProvisioningConfig, EcsServiceConfig,
    PlannedChange, ProvisioningAction, ProvisioningConfigError, ProvisioningPlan, ProvisioningResult,
};
use super::provisioning::ecs::ecs_provisioning_error;

verus! {

/// The target group and container an ECS service is registered with.
#[derive(Debug, Clone)]
pub struct LoadBalancerConfig {
    pub target_group_arn: Option<String>,
    pub container_name: Option<String>,
    pub container_port: Option<i32>,
    pub health_check: Option<HealthCheckConfig>,
}

impl Default for LoadBalancerConfig {
    fn default() -> (r: Self)
        ensures
            r.target_group_arn is None && r.container_name is None,
            r.container_port is None && r.health_check is None,
    {
        LoadBalancerConfig { target_group_arn: None, container_name: None, container_port: None, health_check: None }
    }
}

/// Target group health check settings.
#[derive(Debug, Clone)]
pub struct HealthCheckConfig {
    pub path: String,
    pub interval_seconds: i32,
    pub timeout_seconds: i32,
    pub healthy_threshold: i32,
    pub unhealthy_threshold: i32,
    /// HTTP codes counted as healthy.
    pub matcher: Option<String>,
}

pub fn default_health_check_path() -> (r: String)
    ensures
        r@ == "/health"@,
{
    to_owned_string("/health")
}

pub fn default_health_check_interval() -> (r: i32)
    ensures
        r == 30,
{
    30
}

pub fn default_health_check_timeout() -> (r: i32)
    ensures
        r == 5,
{
    5
}

pub fn default_healthy_threshold() -> (r: i32)
    ensures
        r == 2,
{
    2
}

pub fn default_unhealthy_threshold() -> (r: i32)
    ensures
        r == 3,
{
    3
}

impl Default for HealthCheckConfig {
    fn default() -> (r: Self)
        ensures
            r.path@ == "/health"@,
            r.interval_seconds == 30,
            r.timeout_seconds == 5,
            r.healthy_threshold == 2,
            r.unhealthy_threshold == 3,
            r.matcher is None,
    {
        HealthCheckConfig {
            path: default_health_check_path(),
            interval_seconds: default_health_check_interval(),
            timeout_seconds: default_health_check_timeout(),
            healthy_threshold: default_healthy_threshold(),
            unhealthy_threshold: default_unhealthy_threshold(),
            matcher: None,
        }
    }
}

/// Service auto scaling settings.
#[derive(Debug, Clone)]
pub struct AutoScalingConfig {
    pub enabled: bool,
    pub min_capacity: i32,
    pub max_capacity: i32,
    pub target_tracking: Option<TargetTrackingConfig>,
    pub step_scaling: Option<StepScalingConfig>,
    pub scheduled: Vec<ScheduledScalingConfig>,
}

/// Minimum capacity when none is configured.
pub fn default_min_capacity() -> (r: i32)
    ensures
        r == 1,
{
    1
}

/// Maximum capacity when none is configured.
pub fn default_max_capacity() -> (r: i32)
    ensures
        r == 10,
{
    10
}

impl Default for AutoScalingConfig {
    fn default() -> (r: Self)
        ensures
            !r.enabled && r.min_capacity == 0 && r.max_capacity == 0,
            r.target_tracking is None && r.step_scaling is None && r.scheduled@.len() == 0,
    {
        AutoScalingConfig {
            enabled: false,
            min_capacity: 0,
            max_capacity: 0,
            target_tracking: None,
            step_scaling: None,
            scheduled: Vec::new(),
        }
    }
}

/// Target tracking scaling settings. The target value is a floating-point
/// number, kept by its IEEE-754 bit pattern: the library only passes it on.
#[derive(Debug, Clone)]
pub struct TargetTrackingConfig {
    pub target_value_bits: u64,
    pub metric_type: String,
    pub scale_in_cooldown: Option<i32>,
    pub scale_out_cooldown: Option<i32>,
    pub disable_scale_in: bool,
}

/// The bit pattern of the default target value, 70.0.
pub fn default_target_value_bits() -> (r: u64)
    ensures
        r == 0x4051800000000000u64,
{
    0x4051800000000000u64
}

pub fn default_metric_type() -> (r: String)
    ensures
        r@ == "ECSServiceAverageCPUUtilization"@,
{
    to_owned_string("ECSServiceAverageCPUUtilization")
}

/// Step scaling settings.
#[derive(Debug, Clone)]
pub struct StepScalingConfig {
    pub adjustment_type: String,
    pub steps: Vec<StepAdjustment>,
    pub cooldown: Option<i32>,
}

/// One step of a step scaling policy; the bounds are floating-point
/// numbers kept by their IEEE-754 bit patterns.
#[derive(Debug, Clone)]
pub struct StepAdjustment {
    pub lower_bound_bits: Option<u64>,
    pub upper_bound_bits: Option<u64>,
    pub adjustment: i32,
}

/// A scheduled scaling action.
#[derive(Debug, Clone)]
pub struct ScheduledScalingConfig {
    pub name: String,
    pub schedule: String,
    pub min_capacity: Option<i32>,
    pub max_capacity: Option<i32>,
}

/// CloudWatch Logs settings.
#[derive(Debug, Clone)]
pub struct CloudWatchLogsConfig {
    pub log_group: Option<String>,
    pub log_stream_prefix: Option<String>,
    pub retention_days: i32,
    pub create_log_group: bool,
}

/// Log retention when none is configured.
pub fn default_log_retention_days() -> (r: i32)
    ensures
        r == 30,
{
    30
}

impl Default for CloudWatchLogsConfig {
    fn default() -> (r: Self)
        ensures
            r.log_group is None && r.log_stream_prefix is None,
            r.retention_days == 0 && !r.create_log_group,
    {
        CloudWatchLogsConfig { log_group: None, log_stream_prefix: None, retention_days: 0, create_log_group: false }
    }
}

/// Health of the targets of a target group.
#[derive(Debug, Clone, Copy)]
pub struct TargetGroupHealth {
    pub total: usize,
    pub healthy: usize,
    pub unhealthy: usize,
    pub draining: usize,
}

/// Auto scaling state of a service.
#[derive(Debug, Clone)]
pub struct AutoScalingStatus {
    pub min_capacity: i32,
    pub max_capacity: i32,
    pub policies: Vec<String>,
}

/// A CloudWatch log event.
#[derive(Debug, Clone)]
pub struct LogEvent {
    pub timestamp: i64,
    pub message: String,
    pub log_stream: String,
}

/// What the ECS provider reports when it cannot go on.
#[derive(Debug, Clone)]
pub enum EcsError {
    ClusterRequired,
    RegionRequired,
    NoProvisioningConfig,
    InvalidProvisioning(ProvisioningConfigError),
    NoImage,
    ClusterNotFound(String),
    ClusterNotActive { cluster: String, status: String },
    UnsupportedMetricType(String),
    NoTaskDefinition,
    NoContainerDefinitions,
    InvalidTaskDefinitionArn,
    UnparsableRevision,
    NoPreviousRevision,
    DeploymentTimedOut(u64),
}

/// The message of an ECS provider error.
pub open spec fn ecs_error_text(e: EcsError) -> Seq<char> {
    match e {
        EcsError::ClusterRequired => "cluster is required for aws-ecs"@,
        EcsError::RegionRequired => "region is required for aws-ecs"@,
        EcsError::NoProvisioningConfig => "No provisioning configuration set"@,
        EcsError::InvalidProvisioning(p) => super::provisioning::provisioning_error_text(p),
        EcsError::NoImage => "No image specified for deployment"@,
        EcsError::ClusterNotFound(c) => "Cluster "@ + c@ + " not found"@,
        EcsError::ClusterNotActive { cluster, status } =>
            "Cluster "@ + cluster@ + " is not active (status: "@ + status@ + ")"@,
        EcsError::UnsupportedMetricType(m) => "Unsupported metric type: "@ + m@,
        EcsError::NoTaskDefinition => "Service has no task definition"@,
        EcsError::NoContainerDefinitions => "Task definition has no container definitions"@,
        EcsError::InvalidTaskDefinitionArn => "Invalid task definition ARN format"@,
        EcsError::UnparsableRevision => "Could not parse task definition revision"@,
        EcsError::NoPreviousRevision => "No previous revision to rollback to"@,
        EcsError::DeploymentTimedOut(t) => "Service deployment timed out after "@ + decimal(t as nat) + " seconds"@,
    }
}

impl EcsError {
    pub fn to_string(&self) -> (r: String)
        ensures
            r@ == ecs_error_text(*self),
    {
        match self {
            EcsError::ClusterRequired => to_owned_string("cluster is required for aws-ecs"),
            EcsError::RegionRequired => to_owned_string("region is required for aws-ecs"),
            EcsError::NoProvisioningConfig => to_owned_string("No provisioning configuration set"),
            EcsError::InvalidProvisioning(p) => p.to_string(),
            EcsError::NoImage => to_owned_string("No image specified for deployment"),
            EcsError::ClusterNotFound(c) => {
                let mut m = to_owned_string("Cluster ");
                push_str(&mut m, c.as_str());
                push_str(&mut m, " not found");
                m
            },
            EcsError::ClusterNotActive { cluster, status } => {
                let mut m = to_owned_string("Cluster ");
                push_str(&mut m, cluster.as_str());
                push_str(&mut m, " is not active (status: ");
                push_str(&mut m, status.as_str());
                push_str(&mut m, ")");
                m
            },
            EcsError::UnsupportedMetricType(t) => {
                let mut m = to_owned_string("Unsupported metric type: ");
                push_str(&mut m, t.as_str());
                m
            },
            EcsError::NoTaskDefinition => to_owned_string("Service has no task definition"),
            EcsError::NoContainerDefinitions => to_owned_string("Task definition has no container definitions"),
            EcsError::InvalidTaskDefinitionArn => to_owned_string("Invalid task definition ARN format"),
            EcsError::UnparsableRevision => to_owned_string("Could not parse task definition revision"),
            EcsError::NoPreviousRevision => to_owned_string("No previous revision to rollback to"),
            EcsError::DeploymentTimedOut(t) => {
                let mut m = to_owned_string("Service deployment timed out after ");
                let s = u64_to_string(*t);
                push_str(&mut m, s.as_str());
                push_str(&mut m, " seconds");
                m
            },
        }
    }
}

/// One step of an ECS deployment.
#[derive(Debug, Clone, Copy, PartialEq, Eq, Structural)]
pub enum EcsDeployStep {
    /// Create the plan's log group when it does not exist.
    EnsureLogGroup,
    /// Resolve the environment's variables, register a revision of the
    /// service's task definition whose first container runs the plan's
    /// image (with those variables when there are any), and move the
    /// service to it.
    UpdateTaskDefinition,
    /// Wait until the service is stable, for at most the plan's timeout.
    WaitForStable,
    /// Report the health of the plan's target group.
    CheckTargetHealth,
    /// Apply the autoscaling settings that `autoscaling_to_configure` picks.
    ConfigureAutoscaling,
}

/// What a deployment does, in order.
#[derive(Debug, Clone)]
pub struct EcsDeployPlan {
    pub image: String,
    pub service_name: String,
    pub log_group: Option<String>,
    pub target_group_arn: Option<String>,
    pub timeout_secs: u64,
    pub steps: Vec<EcsDeployStep>,
}

/// The log group a deployment makes sure of: the service's, when logs are
/// configured with group creation.
pub open spec fn ecs_log_group_to_create(p: AwsEcsProvider, service: Seq<char>) -> Option<Seq<char>> {
    if p.cloudwatch_config matches Some(c) && c.create_log_group { Some(ecs_log_group(p, service)) } else { None }
}

/// The target group whose health a deployment reports.
pub open spec fn ecs_target_group(p: AwsEcsProvider) -> Option<Seq<char>> {
    match p.load_balancer_config {
        Some(lb) => opt_view(lb.target_group_arn),
        None => None,
    }
}

/// The steps of a deployment: the log group when one is created, the new
/// task definition, the wait; then the target group's health when there
/// is one, and the autoscaling settings when any apply.
pub open spec fn ecs_deploy_steps(log_group: bool, target_group: bool, autoscaling: bool) -> Seq<EcsDeployStep> {
    (if log_group { seq![EcsDeployStep::EnsureLogGroup] } else { seq![] })
        + seq![EcsDeployStep::UpdateTaskDefinition, EcsDeployStep::WaitForStable]
        + (if target_group { seq![EcsDeployStep::CheckTargetHealth] } else { seq![] })
        + (if autoscaling { seq![EcsDeployStep::ConfigureAutoscaling] } else { seq![] })
}

/// The settings of the ECS provider. The AWS clients are the caller's.
#[derive(Debug, Clone)]
pub struct AwsEcsProvider {
    pub cluster: String,
    pub region: String,
    pub service_name: Option<String>,
    pub load_balancer_config: Option<LoadBalancerConfig>,
    pub autoscaling_config: Option<AutoScalingConfig>,
    pub cloudwatch_config: Option<CloudWatchLogsConfig>,
    pub provisioning_config: Option<EcsProvisioningConfig>,
}

/// A predefined metric of target tracking scaling.
#[derive(Debug, Clone, Copy, PartialEq, Eq, Structural)]
pub enum EcsScalingMetric {
    AverageCpuUtilization,
    AverageMemoryUtilization,
    AlbRequestCountPerTarget,
}

/// How a service is launched when it uses no capacity provider strategy.
#[derive(Debug, Clone, Copy, PartialEq, Eq, Structural)]
pub enum EcsLaunchType {
    Fargate,
    Ec2,
    External,
}

/// A compatibility a task definition requires.
#[derive(Debug, Clone, Copy, PartialEq, Eq, Structural)]
pub enum EcsCompatibility {
    Fargate,
    Ec2,
}

/// Deployment settings of a service.
#[derive(Debug, Clone, Copy)]
pub struct EcsDeploymentSettings {
    pub minimum_healthy_percent: i32,
    pub maximum_percent: i32,
    /// Whether failed deployments are stopped and rolled back.
    pub circuit_breaker: bool,
}

/// The image one container of a registered task definition runs.
#[derive(Debug, Clone)]
pub struct ContainerImage {
    /// Position of the configured container it is built from; `None` for
    /// the default container.
    pub source: Option<usize>,
    pub name: String,
    pub image: String,
    pub essential: bool,
}

/// What is observed of one deployment of a service.
#[derive(Debug, Clone)]
pub struct EcsDeploymentObservation {
    pub status: Option<String>,
    pub running_count: i32,
    pub desired_count: i32,
}

/// What is observed of a service, as the status report shows it.
#[derive(Debug, Clone)]
pub struct EcsServiceObservation {
    pub name: String,
    pub status: String,
    pub running_count: i32,
    pub desired_count: i32,
    pub pending_count: i32,
    pub task_definition: Option<String>,
    /// Target groups of the service's load balancers, each with its health
    /// when it could be read; `None` when the service reports none.
    pub load_balancers: Option<Vec<(Option<String>, Option<TargetGroupHealth>)>>,
}

/// The service an environment deploys to: the provider's, else the
/// environment's `service_name` text, else "app".
pub open spec fn ecs_service_name(p: AwsEcsProvider, env: EnvironmentConfig) -> Seq<char> {
    match p.service_name {
        Some(s) => s@,
        None => match config_text(env.config@, "service_name"@) {
            Some(t) => t,
            None => "app"@,
        },
    }
}

/// The log group of a service: the configured one, else `/ecs/{service}`.
pub open spec fn ecs_log_group(p: AwsEcsProvider, service: Seq<char>) -> Seq<char> {
    match p.cloudwatch_config {
        Some(c) => match c.log_group {
            Some(g) => g@,
            None => "/ecs/"@ + service,
        },
        None => "/ecs/"@ + service,
    }
}

/// The provisioning plan of a service: create the cluster when missing,
/// always register a new task definition revision, create the service
/// when missing or else update its desired count when it differs.
pub open spec fn ecs_plan(cluster: Seq<char>, service: Seq<char>, c: EcsProvisioningConfig, cur: EcsCurrentState) -> Seq<super::provisioning::PlannedChangeView> {
    (if !cur.cluster_exists {
        seq![creation("ECS Cluster"@, cluster, "Cluster does not exist"@)]
    } else {
        seq![]
    })
    + seq![creation("ECS Task Definition"@, c.task.family@, "New task definition revision will be registered"@)]
    + (if !cur.service_exists {
        seq![creation("ECS Service"@, service, "Service does not exist"@)]
    } else {
        match cur.current_desired_count {
            Some(n) if n != c.service.desired_count => seq![modification(
                "ECS Service"@,
                service,
                signed_decimal(n as int),
                signed_decimal(c.service.desired_count as int),
                "Desired count will be changed"@,
            )],
            _ => seq![],
        }
    })
}

/// The launch type of a service: none when it uses a capacity provider
/// strategy or names no launch type; "EC2" and "EXTERNAL" as named; any
/// other name is Fargate.
pub open spec fn service_launch_type(s: EcsServiceConfig) -> Option<EcsLaunchType> {
    if s.capacity_provider_strategy@.len() > 0 {
        None
    } else {
        match s.launch_type {
            None => None,
            Some(t) => Some(if t@ == "EC2"@ {
                EcsLaunchType::Ec2
            } else if t@ == "EXTERNAL"@ {
                EcsLaunchType::External
            } else {
                EcsLaunchType::Fargate
            }),
        }
    }
}

/// Number of positions in `states` that hold `state`.
pub open spec fn count_state(states: Seq<Option<String>>, state: Seq<char>) -> nat
    decreases states.len(),
{
    if states.len() == 0 {
        0
    } else {
        count_state(states.drop_last(), state) + (if states.last() matches Some(s) && s@ == state { 1nat } else { 0nat })
    }
}

/// Exactly one deployment is primary, and it runs as many tasks as it
/// wants.
pub open spec fn single_settled_primary(deps: Seq<EcsDeploymentObservation>) -> bool {
    exists|i: int| 0 <= i < deps.len() && is_primary(deps[i])
        && deps[i].running_count == deps[i].desired_count
        && forall|j: int| 0 <= j < deps.len() && j != i ==> !is_primary(#[trigger] deps[j])
}

/// A deployment whose status is "PRIMARY".
pub open spec fn is_primary(d: EcsDeploymentObservation) -> bool {
    d.status matches Some(s) && s@ == "PRIMARY"@
}

/// The deployed task definition, and the revision before it: the ARN split
/// at `:` must have at least two parts, the last an integer above 1.
pub open spec fn previous_revision(arn: Seq<char>) -> Option<i32> {
    match parsed_i32(after_last(arn, ':')) {
        Some(r) => if r > 1 { Some((r - 1) as i32) } else { None },
        None => None,
    }
}

/// The line of a load balancer in the status report.
pub open spec fn lb_lines(lbs: Seq<(Option<String>, Option<TargetGroupHealth>)>) -> Seq<char>
    decreases lbs.len(),
{
    if lbs.len() == 0 {
        seq![]
    } else {
        lb_lines(lbs.drop_last()) + match lbs.last().0 {
            None => seq![],
            Some(arn) => "\n  - Target Group: "@ + after_last(arn@, '/') + match lbs.last().1 {
                Some(h) => "\n    Health: "@ + decimal(h.healthy as nat) + "/"@ + decimal(h.total as nat) + " healthy"@,
                None => seq![],
            },
        }
    }
}

/// The status report of a service.
pub open spec fn ecs_status_text(cluster: Seq<char>, region: Seq<char>, s: EcsServiceObservation, a: Option<AutoScalingStatus>) -> Seq<char> {
    "ECS Cluster: "@ + cluster + "\nRegion: "@ + region + "\nService: "@ + s.name@ + " ("@ + s.status@
        + ")\nRunning: "@ + signed_decimal(s.running_count as int) + "/"@ + signed_decimal(s.desired_count as int)
        + "\nPending: "@ + signed_decimal(s.pending_count as int)
        + "\nTask Definition: "@ + (match s.task_definition { Some(t) => t@, None => "N/A"@ })
        + (match s.load_balancers {
            Some(lbs) if lbs@.len() > 0 => "\n\nLoad Balancers:"@ + lb_lines(lbs@),
            _ => seq![],
        })
        + (match a {
            Some(st) => "\n\nAuto Scaling:\n  Capacity: "@ + signed_decimal(st.min_capacity as int) + " - "@
                + signed_decimal(st.max_capacity as int) + "\n  Policies: "@
                + (if st.policies@.len() == 0 { "None"@ } else { join_seqs(seq_views(st.policies@), ", "@) }),
            None => seq![],
        })
}

/// The suffix of deployment messages in app-only mode.
pub open spec fn mode_suffix(app_only: bool) -> Seq<char> {
    if app_only { " (app-only)"@ } else { seq![] }
}

fn i32_text(n: i32) -> (r: String)
    ensures
        r@ == signed_decimal(n as int),
{
    i64_to_string(n as i64)
}

impl AwsEcsProvider {
    pub fn infrastructure_type(&self) -> (r: InfrastructureType)
        ensures
            r == InfrastructureType::AwsEcs,
    {
        InfrastructureType::AwsEcs
    }

    /// The deployment types the provider supports.
    pub fn supported_deployment_types(&self) -> (r: Vec<DeploymentType>)
        ensures
            r@ == seq![DeploymentType::RollingUpdate, DeploymentType::AllIn],
    {
        let mut v: Vec<DeploymentType> = Vec::new();
        v.push(DeploymentType::RollingUpdate);
        v.push(DeploymentType::AllIn);
        assert(v@ =~= seq![DeploymentType::RollingUpdate, DeploymentType::AllIn]);
        v
    }

    pub fn new(cluster: &str, region: &str) -> (r: Self)
        ensures
            r.cluster@ == cluster@ && r.region@ == region@,
            r.service_name is None && r.load_balancer_config is None,
            r.autoscaling_config is None && r.cloudwatch_config is None,
            r.provisioning_config is None,
    {
        AwsEcsProvider {
            cluster: to_owned_string(cluster),
            region: to_owned_string(region),
            service_name: None,
            load_balancer_config: None,
            autoscaling_config: None,
            cloudwatch_config: None,
            provisioning_config: None,
        }
    }

    pub fn with_service_name(self, name: &str) -> (r: Self)
        ensures
            opt_view(r.service_name) == Some(name@),
            r.cluster == self.cluster && r.region == self.region,
            r.load_balancer_config == self.load_balancer_config,
            r.autoscaling_config == self.autoscaling_config,
            r.cloudwatch_config == self.cloudwatch_config,
            r.provisioning_config == self.provisioning_config,
    {
        AwsEcsProvider { service_name: Some(to_owned_string(name)), ..self }
    }

    pub fn with_provisioning(self, config: EcsProvisioningConfig) -> (r: Self)
        ensures
            r.provisioning_config == Some(config),
            r.cluster == self.cluster && r.region == self.region,
            r.service_name == self.service_name,
            r.load_balancer_config == self.load_balancer_config,
            r.autoscaling_config == self.autoscaling_config,
            r.cloudwatch_config == self.cloudwatch_config,
    {
        AwsEcsProvider { provisioning_config: Some(config), ..self }
    }

    /// The provider an infrastructure describes by its `cluster`, `region`
    /// and optional `service_name` texts. The structured settings (load
    /// balancer, auto scaling, logs, provisioning) are read by the caller.
    pub fn from_settings(config: &InfrastructureConfig) -> (r: Result<Self, EcsError>)
        ensures
            match r {
                Ok(p) => config_text(config.config@, "cluster"@) == Some(p.cluster@)
                    && config_text(config.config@, "region"@) == Some(p.region@)
                    && opt_view(p.service_name) == config_text(config.config@, "service_name"@)
                    && p.load_balancer_config is None && p.autoscaling_config is None
                    && p.cloudwatch_config is None && p.provisioning_config is None,
                Err(EcsError::ClusterRequired) => config_text(config.config@, "cluster"@) is None,
                Err(EcsError::RegionRequired) => config_text(config.config@, "cluster"@) is Some
                    && config_text(config.config@, "region"@) is None,
                Err(_) => false,
            },
    {
        let cluster = match config_get_str(&config.config, "cluster") {
            Some(c) => c,
            None => return Err(EcsError::ClusterRequired),
        };
        let region = match config_get_str(&config.config, "region") {
            Some(r) => r,
            None => return Err(EcsError::RegionRequired),
        };
        let mut p = Self::new(cluster, region);
        if let Some(s) = config_get_str(&config.config, "service_name") {
            p.service_name = Some(to_owned_string(s));
        }
        Ok(p)
    }

    /// The service a deployment targets.
    pub fn get_service_name(&self, ctx: &DeploymentContext) -> (r: String)
        ensures
            r@ == ecs_service_name(*self, ctx.environment),
    {
        match &self.service_name {
            Some(s) => s.clone(),
            None => match config_get_str(&ctx.environment.config, "service_name") {
                Some(t) => to_owned_string(t),
                None => to_owned_string("app"),
            },
        }
    }

    /// The log group of a service.
    pub fn get_log_group_name(&self, service_name: &str) -> (r: String)
        ensures
            r@ == ecs_log_group(*self, service_name@),
    {
        if let Some(c) = &self.cloudwatch_config {
            if let Some(g) = &c.log_group {
                return g.clone();
            }
        }
        let mut r = to_owned_string("/ecs/");
        push_str(&mut r, service_name);
        r
    }

    /// The log group to create before deploying, when logs are configured
    /// with `create_log_group`.
    pub fn log_group_to_create(&self, service_name: &str) -> (r: Option<String>)
        ensures
            match r {
                Some(g) => self.cloudwatch_config matches Some(c) && c.create_log_group
                    && g@ == ecs_log_group(*self, service_name@),
                None => !(self.cloudwatch_config matches Some(c) && c.create_log_group),
            },
    {
        match &self.cloudwatch_config {
            Some(c) => if c.create_log_group { Some(self.get_log_group_name(service_name)) } else { None },
            None => None,
        }
    }

    /// The retention to set on a newly created log group: the configured
    /// number of days, when logs are configured with a positive retention.
    pub fn log_retention_to_set(&self) -> (r: Option<i32>)
        ensures
            match r {
                Some(d) => self.cloudwatch_config matches Some(c) && c.retention_days > 0 && d == c.retention_days,
                None => !(self.cloudwatch_config matches Some(c) && c.retention_days > 0),
            },
    {
        match &self.cloudwatch_config {
            Some(c) => if c.retention_days > 0 { Some(c.retention_days) } else { None },
            None => None,
        }
    }

    /// The auto scaling resource of a service, `service/{cluster}/{service}`.
    pub fn autoscaling_resource_id(&self, service_name: &str) -> (r: String)
        ensures
            r@ == "service/"@ + self.cluster@ + "/"@ + service_name@,
    {
        let mut r = to_owned_string("service/");
        push_str(&mut r, self.cluster.as_str());
        push_str(&mut r, "/");
        push_str(&mut r, service_name);
        r
    }

    /// The provisioning plan of a service given the current state: an error
    /// when no provisioning is configured or its settings break a rule.
    pub fn plan_provisioning(&self, service_name: &str, current: &EcsCurrentState) -> (r: Result<ProvisioningPlan, EcsError>)
        ensures
            match self.provisioning_config {
                None => r matches Err(EcsError::NoProvisioningConfig),
                Some(c) => match ecs_provisioning_error(c) {
                    Some(e) => r matches Err(EcsError::InvalidProvisioning(x)) && x == e,
                    None => r matches Ok(plan)
                        && change_views(plan.changes@) == ecs_plan(self.cluster@, service_name@, c, *current),
                },
            },
    {
        let config = match &self.provisioning_config {
            None => return Err(EcsError::NoProvisioningConfig),
            Some(c) => c,
        };
        match config.validate() {
            Err(e) => return Err(EcsError::InvalidProvisioning(e)),
            Ok(()) => {},
        }
        let mut plan = ProvisioningPlan::new();
        if !current.cluster_exists {
            plan.add(PlannedChange::create("ECS Cluster", self.cluster.as_str(), "Cluster does not exist"));
        }
        plan.add(PlannedChange::create(
            "ECS Task Definition",
            config.task.family.as_str(),
            "New task definition revision will be registered",
        ));
        if !current.service_exists {
            plan.add(PlannedChange::create("ECS Service", service_name, "Service does not exist"));
        } else {
            if let Some(n) = current.current_desired_count {
                if n != config.service.desired_count {
                    let cur = i32_text(n);
                    let want = i32_text(config.service.desired_count);
                    plan.add(PlannedChange::update(
                        "ECS Service",
                        service_name,
                        cur.as_str(),
                        want.as_str(),
                        "Desired count will be changed",
                    ));
                }
            }
        }
        assert(change_views(plan.changes@) =~= ecs_plan(self.cluster@, service_name@, *config, *current));
        Ok(plan)
    }

    /// The containers of a new task definition revision and their images:
    /// a single essential "app" container running `image_uri` when none
    /// are configured; otherwise each configured container, running
    /// `image_uri` when it is named "app" or is the only one, else its own
    /// image.
    pub fn container_images(&self, image_uri: &str) -> (r: Result<Vec<ContainerImage>, EcsError>)
        ensures
            match self.provisioning_config {
                None => r matches Err(EcsError::NoProvisioningConfig),
                Some(c) => r matches Ok(v) && {
                    let cs = c.task.containers@;
                    if cs.len() == 0 {
                        v@.len() == 1 && v@[0].source is None && v@[0].name@ == "app"@
                            && v@[0].image@ == image_uri@ && v@[0].essential
                    } else {
                        v@.len() == cs.len() && forall|i: int| 0 <= i < cs.len() ==> {
                            &&& #[trigger] v@[i].source == Some(i as usize)
                            &&& v@[i].name@ == cs[i].name@
                            &&& v@[i].essential == cs[i].essential
                            &&& v@[i].image@ == (if cs[i].name@ == "app"@ || cs.len() == 1 { image_uri@ } else { cs[i].image@ })
                        }
                    }
                },
            },
    {
        let config = match &self.provisioning_config {
            None => return Err(EcsError::NoProvisioningConfig),
            Some(c) => c,
        };
        let cs = &config.task.containers;
        let mut v: Vec<ContainerImage> = Vec::new();
        if cs.len() == 0 {
            v.push(ContainerImage {
                source: None,
                name: to_owned_string("app"),
                image: to_owned_string(image_uri),
                essential: true,
            });
            return Ok(v);
        }
        let mut i: usize = 0;
        while i < cs.len()
            invariant
                i <= cs@.len(),
                v@.len() == i,
                forall|k: int| 0 <= k < i ==> {
                    &&& #[trigger] v@[k].source == Some(k as usize)
                    &&& v@[k].name@ == cs@[k].name@
                    &&& v@[k].essential == cs@[k].essential
                    &&& v@[k].image@ == (if cs@[k].name@ == "app"@ || cs@.len() == 1 { image_uri@ } else { cs@[k].image@ })
                },
            decreases cs.len() - i,
        {
            let c = &cs[i];
            let image = if str_eq(c.name.as_str(), "app") || cs.len() == 1 {
                to_owned_string(image_uri)
            } else {
                c.image.clone()
            };
            v.push(ContainerImage { source: Some(i), name: c.name.clone(), image, essential: c.essential });
            i = i + 1;
        }
        Ok(v)
    }

    /// The compatibility a configured name requires: "EC2", else Fargate.
    pub fn compatibility(name: &str) -> (r: EcsCompatibility)
        ensures
            r == (if name@ == "EC2"@ { EcsCompatibility::Ec2 } else { EcsCompatibility::Fargate }),
    {
        if str_eq(name, "EC2") { EcsCompatibility::Ec2 } else { EcsCompatibility::Fargate }
    }

    /// The launch type a service is created with.
    pub fn launch_type(service: &EcsServiceConfig) -> (r: Option<EcsLaunchType>)
        ensures
            r == service_launch_type(*service),
    {
        if service.capacity_provider_strategy.len() > 0 {
            return None;
        }
        match &service.launch_type {
            None => None,
            Some(t) => Some(if str_eq(t.as_str(), "EC2") {
                EcsLaunchType::Ec2
            } else if str_eq(t.as_str(), "EXTERNAL") {
                EcsLaunchType::External
            } else {
                EcsLaunchType::Fargate
            }),
        }
    }

    /// The deployment settings of a service, with the circuit breaker
    /// (stop and roll back) when enabled.
    pub fn deployment_settings(service: &EcsServiceConfig) -> (r: Option<EcsDeploymentSettings>)
        ensures
            match service.deployment {
                None => r is None,
                Some(d) => r matches Some(s) && s.minimum_healthy_percent == d.minimum_healthy_percent
                    && s.maximum_percent == d.maximum_percent
                    && s.circuit_breaker == service.enable_circuit_breaker,
            },
    {
        match &service.deployment {
            None => None,
            Some(d) => Some(EcsDeploymentSettings {
                minimum_healthy_percent: d.minimum_healthy_percent,
                maximum_percent: d.maximum_percent,
                circuit_breaker: service.enable_circuit_breaker,
            }),
        }
    }

    /// What creating the cluster reports.
    pub fn cluster_created(&self) -> (r: ProvisioningResult)
        ensures
            r.resource_type@ == "ECS Cluster"@ && r.resource_name@ == self.cluster@,
            r.action == ProvisioningAction::Created,
            seq_views(r.details@) == seq!["Cluster created"@],
    {
        let mut d: Vec<String> = Vec::new();
        d.push(to_owned_string("Cluster created"));
        assert(seq_views(d@) =~= seq!["Cluster created"@]);
        ProvisioningResult::created("ECS Cluster", self.cluster.as_str(), d)
    }

    /// What an existing cluster reports.
    pub fn cluster_unchanged(&self) -> (r: ProvisioningResult)
        ensures
            r.resource_type@ == "ECS Cluster"@ && r.resource_name@ == self.cluster@,
            r.action == ProvisioningAction::Unchanged,
            r.details@.len() == 0,
    {
        ProvisioningResult::unchanged("ECS Cluster", self.cluster.as_str())
    }

    /// What registering a task definition reports.
    pub fn task_definition_registered(family: &str, arn: &str) -> (r: ProvisioningResult)
        ensures
            r.resource_type@ == "ECS Task Definition"@ && r.resource_name@ == family@,
            r.action == ProvisioningAction::Created,
            seq_views(r.details@) == seq!["ARN: "@ + arn@],
    {
        let mut m = to_owned_string("ARN: ");
        push_str(&mut m, arn);
        let mut d: Vec<String> = Vec::new();
        d.push(m);
        assert(seq_views(d@) =~= seq!["ARN: "@ + arn@]);
        ProvisioningResult::created("ECS Task Definition", family, d)
    }

    /// What creating a service reports.
    pub fn service_created(service_name: &str, task_definition_arn: &str, desired_count: i32) -> (r: ProvisioningResult)
        ensures
            r.resource_type@ == "ECS Service"@ && r.resource_name@ == service_name@,
            r.action == ProvisioningAction::Created,
            seq_views(r.details@) == seq![
                "Desired count: "@ + signed_decimal(desired_count as int),
                "Task definition: "@ + task_definition_arn@,
            ],
    {
        let mut a = to_owned_string("Desired count: ");
        let n = i32_text(desired_count);
        push_str(&mut a, n.as_str());
        let mut b = to_owned_string("Task definition: ");
        push_str(&mut b, task_definition_arn);
        let mut d: Vec<String> = Vec::new();
        d.push(a);
        d.push(b);
        assert(seq_views(d@) =~= seq![
            "Desired count: "@ + signed_decimal(desired_count as int),
            "Task definition: "@ + task_definition_arn@,
        ]);
        ProvisioningResult::created("ECS Service", service_name, d)
    }

    /// What updating a service reports.
    pub fn service_updated(service_name: &str, task_definition_arn: &str) -> (r: ProvisioningResult)
        ensures
            r.resource_type@ == "ECS Service"@ && r.resource_name@ == service_name@,
            r.action == ProvisioningAction::Updated,
            seq_views(r.details@) == seq!["Updated to task definition: "@ + task_definition_arn@],
    {
        let mut a = to_owned_string("Updated to task definition: ");
        push_str(&mut a, task_definition_arn);
        let mut d: Vec<String> = Vec::new();
        d.push(a);
        assert(seq_views(d@) =~= seq!["Updated to task definition: "@ + task_definition_arn@]);
        ProvisioningResult::updated("ECS Service", service_name, d)
    }

    /// How long provisioning waits for the service to settle: its health
    /// check grace period, else 600 seconds.
    pub fn provision_wait_timeout(config: &EcsProvisioningConfig) -> (r: u64)
        ensures
            r == match config.service.health_check_grace_period_seconds {
                Some(s) => s as u64,
                None => 600u64,
            },
    {
        match config.service.health_check_grace_period_seconds {
            Some(s) => {
                #[verifier::truncate]
                let t = s as u64;
                t
            },
            None => 600,
        }
    }

    /// How long a deployment waits for the service to settle: the
    /// environment's `deployment_timeout_secs`, else 600 seconds.
    pub fn deployment_timeout(env: &EnvironmentConfig) -> (r: u64)
        ensures
            r == match key_value(env.config@, "deployment_timeout_secs"@) {
                Some(ConfigValue::Unsigned(n)) => n,
                _ => 600u64,
            },
    {
        match get_value(&env.config, "deployment_timeout_secs") {
            Some(v) => match v.as_u64() {
                Some(n) => n,
                None => 600,
            },
            None => 600,
        }
    }

    /// The image a deployment rolls out: an error when the environment
    /// names none.
    pub fn deploy_image(ctx: &DeploymentContext) -> (r: Result<String, EcsError>)
        ensures
            match ctx.environment.image {
                Some(i) => r matches Ok(s) && s@ == i@,
                None => r matches Err(EcsError::NoImage),
            },
    {
        match &ctx.environment.image {
            Some(i) => Ok(i.clone()),
            None => Err(EcsError::NoImage),
        }
    }

    /// What a (not dry-run) deployment does, given the autoscaling settings
    /// the environment gives: an error when the environment names no image.
    pub fn deploy_plan(&self, ctx: &DeploymentContext, env_autoscaling: &Option<AutoScalingConfig>) -> (r: Result<EcsDeployPlan, EcsError>)
        ensures
            match ctx.environment.image {
                None => r matches Err(EcsError::NoImage),
                Some(i) => r matches Ok(p) && {
                    let service = ecs_service_name(*self, ctx.environment);
                    &&& p.image@ == i@
                    &&& p.service_name@ == service
                    &&& opt_view(p.log_group) == ecs_log_group_to_create(*self, service)
                    &&& opt_view(p.target_group_arn) == ecs_target_group(*self)
                    &&& p.timeout_secs == (match key_value(ctx.environment.config@, "deployment_timeout_secs"@) {
                            Some(ConfigValue::Unsigned(n)) => n,
                            _ => 600u64,
                        })
                    &&& p.steps@ == ecs_deploy_steps(
                            p.log_group is Some,
                            p.target_group_arn is Some,
                            ctx.deploy_mode != DeployMode::AppOnly
                                && (env_autoscaling is Some || self.autoscaling_config is Some),
                        )
                },
            },
    {
        let image = Self::deploy_image(ctx)?;
        let service_name = self.get_service_name(ctx);
        let log_group = self.log_group_to_create(service_name.as_str());
        let target_group_arn = match &self.load_balancer_config {
            Some(lb) => clone_opt_string(&lb.target_group_arn),
            None => None,
        };
        let app_only = ctx.deploy_mode.is_app_only();
        let autoscaling = self.autoscaling_to_configure(app_only, env_autoscaling).is_some();
        let mut steps: Vec<EcsDeployStep> = Vec::new();
        if log_group.is_some() {
            steps.push(EcsDeployStep::EnsureLogGroup);
        }
        steps.push(EcsDeployStep::UpdateTaskDefinition);
        steps.push(EcsDeployStep::WaitForStable);
        if target_group_arn.is_some() {
            steps.push(EcsDeployStep::CheckTargetHealth);
        }
        if autoscaling {
            steps.push(EcsDeployStep::ConfigureAutoscaling);
        }
        assert(steps@ =~= ecs_deploy_steps(log_group is Some, target_group_arn is Some, autoscaling));
        Ok(EcsDeployPlan {
            image,
            service_name,
            log_group,
            target_group_arn,
            timeout_secs: Self::deployment_timeout(&ctx.environment),
            steps,
        })
    }

    /// The result of a finished deployment.
    pub fn deploy_outcome(&self, plan: &EcsDeployPlan, app_only: bool) -> (r: DeploymentResult)
        ensures
            r.success,
            opt_view(r.version) == Some(plan.image@),
            r.message@ == "Deployed "@ + plan.image@ + " to ECS service "@ + plan.service_name@
                + " in cluster "@ + self.cluster@ + mode_suffix(app_only),
            r.rollback_version is None,
    {
        let m = self.deploy_message(false, plan.image.as_str(), plan.service_name.as_str(), app_only);
        DeploymentResult::success(m.as_str()).with_version(plan.image.as_str())
    }

    /// The message of a deployment: what a dry run would do, or what was done.
    pub fn deploy_message(&self, dry_run: bool, image: &str, service_name: &str, app_only: bool) -> (r: String)
        ensures
            r@ == (if dry_run { "Would deploy "@ } else { "Deployed "@ }) + image@ + " to ECS service "@
                + service_name@ + " in cluster "@ + self.cluster@ + mode_suffix(app_only),
    {
        let mut m = if dry_run { to_owned_string("Would deploy ") } else { to_owned_string("Deployed ") };
        push_str(&mut m, image);
        push_str(&mut m, " to ECS service ");
        push_str(&mut m, service_name);
        push_str(&mut m, " in cluster ");
        push_str(&mut m, self.cluster.as_str());
        let ghost before = m@;
        if app_only {
            push_str(&mut m, " (app-only)");
        }
        assert(m@ =~= before + mode_suffix(app_only));
        m
    }

    /// The auto scaling to configure after a deployment: none in app-only
    /// mode; otherwise the environment's, else the provider's.
    pub fn autoscaling_to_configure<'a>(&'a self, app_only: bool, from_environment: &'a Option<AutoScalingConfig>) -> (r: Option<&'a AutoScalingConfig>)
        ensures
            match r {
                Some(a) => !app_only && (if from_environment is Some { *from_environment == Some(*a) } else { self.autoscaling_config == Some(*a) }),
                None => app_only || (from_environment is None && self.autoscaling_config is None),
            },
    {
        if app_only {
            None
        } else if from_environment.is_some() {
            from_environment.as_ref()
        } else {
            self.autoscaling_config.as_ref()
        }
    }

    /// The target tracking metric a metric type names.
    pub fn target_tracking_metric(metric_type: &str) -> (r: Result<EcsScalingMetric, EcsError>)
        ensures
            metric_type@ == "ECSServiceAverageCPUUtilization"@ ==> r == Ok::<EcsScalingMetric, EcsError>(EcsScalingMetric::AverageCpuUtilization),
            metric_type@ == "ECSServiceAverageMemoryUtilization"@ ==> r == Ok::<EcsScalingMetric, EcsError>(EcsScalingMetric::AverageMemoryUtilization),
            metric_type@ == "ALBRequestCountPerTarget"@ ==> r == Ok::<EcsScalingMetric, EcsError>(EcsScalingMetric::AlbRequestCountPerTarget),
            (metric_type@ != "ECSServiceAverageCPUUtilization"@ && metric_type@ != "ECSServiceAverageMemoryUtilization"@
                && metric_type@ != "ALBRequestCountPerTarget"@) ==> (r matches Err(EcsError::UnsupportedMetricType(m)) && m@ == metric_type@),
    {
        proof {
            reveal_strlit("ECSServiceAverageCPUUtilization");
            reveal_strlit("ECSServiceAverageMemoryUtilization");
            reveal_strlit("ALBRequestCountPerTarget");
            assert("ECSServiceAverageCPUUtilization"@.len() == 31);
            assert("ECSServiceAverageMemoryUtilization"@.len() == 34);
            assert("ALBRequestCountPerTarget"@.len() == 24);
        }
        if str_eq(metric_type, "ECSServiceAverageCPUUtilization") {
            Ok(EcsScalingMetric::AverageCpuUtilization)
        } else if str_eq(metric_type, "ECSServiceAverageMemoryUtilization") {
            Ok(EcsScalingMetric::AverageMemoryUtilization)
        } else if str_eq(metric_type, "ALBRequestCountPerTarget") {
            Ok(EcsScalingMetric::AlbRequestCountPerTarget)
        } else {
            Err(EcsError::UnsupportedMetricType(to_owned_string(metric_type)))
        }
    }

    /// The name of a service's target tracking policy.
    pub fn target_tracking_policy_name(service_name: &str) -> (r: String)
        ensures
            r@ == service_name@ + "-target-tracking"@,
    {
        let mut r = to_owned_string(service_name);
        push_str(&mut r, "-target-tracking");
        r
    }

    /// Counts the targets of a target group by their health state.
    pub fn count_target_health(states: &Vec<Option<String>>) -> (r: TargetGroupHealth)
        ensures
            r.total == states@.len(),
            r.healthy == count_state(states@, "healthy"@),
            r.unhealthy == count_state(states@, "unhealthy"@),
            r.draining == count_state(states@, "draining"@),
    {
        let mut h: usize = 0;
        let mut u: usize = 0;
        let mut d: usize = 0;
        let mut i: usize = 0;
        while i < states.len()
            invariant
                i <= states@.len(),
                h == count_state(states@.take(i as int), "healthy"@),
                u == count_state(states@.take(i as int), "unhealthy"@),
                d == count_state(states@.take(i as int), "draining"@),
                h <= i && u <= i && d <= i,
            decreases states.len() - i,
        {
            proof {
                reveal_strlit("healthy");
                reveal_strlit("unhealthy");
                reveal_strlit("draining");
                assert("healthy"@.len() == 7);
                assert("unhealthy"@.len() == 9);
                assert("draining"@.len() == 8);
                let next = states@.take(i + 1);
                assert(next.drop_last() =~= states@.take(i as int));
                assert(next.last() == states@[i as int]);
            }
            match &states[i] {
                Some(s) => {
                    if str_eq(s.as_str(), "healthy") {
                        h = h + 1;
                    } else if str_eq(s.as_str(), "unhealthy") {
                        u = u + 1;
                    } else if str_eq(s.as_str(), "draining") {
                        d = d + 1;
                    }
                },
                None => {},
            }
            i = i + 1;
        }
        assert(states@.take(states@.len() as int) =~= states@);
        TargetGroupHealth { total: states.len(), healthy: h, unhealthy: u, draining: d }
    }

    /// Whether a cluster status means the cluster exists and is active.
    pub fn cluster_is_active(status: &Option<String>) -> (r: bool)
        ensures
            r == (status matches Some(s) && s@ == "ACTIVE"@),
    {
        match status {
            Some(s) => str_eq(s.as_str(), "ACTIVE"),
            None => false,
        }
    }

    /// Whether a service status means the service exists.
    pub fn service_is_present(status: &Option<String>) -> (r: bool)
        ensures
            r == (status matches Some(s) && (s@ == "ACTIVE"@ || s@ == "DRAINING"@)),
    {
        match status {
            Some(s) => str_eq(s.as_str(), "ACTIVE") || str_eq(s.as_str(), "DRAINING"),
            None => false,
        }
    }

    /// Checks the cluster found when validating: an error when it was not
    /// found or its status is not "ACTIVE".
    pub fn check_cluster(&self, found: bool, observed: Option<String>) -> (r: Result<(), EcsError>)
        ensures
            !found ==> (r matches Err(EcsError::ClusterNotFound(name)) && name@ == self.cluster@),
            found && (observed matches Some(t) && t@ == "ACTIVE"@) ==> r is Ok,
            found && !(observed matches Some(t) && t@ == "ACTIVE"@) ==> (r matches Err(EcsError::ClusterNotActive { cluster, status: st })
                && cluster@ == self.cluster@ && st@ == (match observed { Some(t) => t@, None => seq![] })),
    {
        if !found {
            return Err(EcsError::ClusterNotFound(to_owned_string(self.cluster.as_str())));
        }
        let text = match observed {
            Some(t) => t,
            None => String::new(),
        };
        proof {
            reveal_strlit("ACTIVE");
            assert("ACTIVE"@.len() == 6);
        }
        if str_eq(text.as_str(), "ACTIVE") {
            Ok(())
        } else {
            Err(EcsError::ClusterNotActive { cluster: to_owned_string(self.cluster.as_str()), status: text })
        }
    }

    /// The current state of the resources, from what was observed: whether
    /// the cluster is active (and its ARN), and the service's status, task
    /// definition and desired count.
    pub fn current_state(
        cluster_status: &Option<String>,
        cluster_arn: Option<String>,
        service_status: &Option<String>,
        task_definition: Option<String>,
        desired_count: i32,
    ) -> (r: EcsCurrentState)
        ensures
            !(cluster_status matches Some(s) && s@ == "ACTIVE"@) ==> !r.cluster_exists && !r.service_exists
                && r.task_definition_arn is None && r.cluster_arn is None && r.service_arn is None
                && r.current_desired_count is None && r.current_task_definition is None,
            (cluster_status matches Some(s) && s@ == "ACTIVE"@) ==> r.cluster_exists && r.cluster_arn == cluster_arn
                && r.service_arn is None
                && r.service_exists == (service_status matches Some(s) && (s@ == "ACTIVE"@ || s@ == "DRAINING"@))
                && (r.service_exists ==> opt_view(r.task_definition_arn) == opt_view(task_definition)
                    && opt_view(r.current_task_definition) == opt_view(task_definition)
                    && r.current_desired_count == Some(desired_count))
                && (!r.service_exists ==> r.task_definition_arn is None && r.current_task_definition is None
                    && r.current_desired_count is None),
    {
        if !Self::cluster_is_active(cluster_status) {
            return EcsCurrentState::not_found();
        }
        if !Self::service_is_present(service_status) {
            return EcsCurrentState {
                cluster_exists: true,
                service_exists: false,
                task_definition_arn: None,
                cluster_arn,
                service_arn: None,
                current_desired_count: None,
                current_task_definition: None,
            };
        }
        let td2 = clone_opt_string(&task_definition);
        EcsCurrentState {
            cluster_exists: true,
            service_exists: true,
            task_definition_arn: td2,
            cluster_arn,
            service_arn: None,
            current_desired_count: Some(desired_count),
            current_task_definition: task_definition,
        }
    }

    /// Whether a service has settled: it runs as many tasks as it wants
    /// with none pending, and exactly one primary deployment runs as many
    /// tasks as it wants.
    pub fn is_stable(running: i32, desired: i32, pending: i32, deployments: &Vec<EcsDeploymentObservation>) -> (r: bool)
        ensures
            r == (running == desired && pending == 0 && single_settled_primary(deployments@)),
    {
        if !(running == desired && pending == 0) {
            return false;
        }
        let mut found: Option<usize> = None;
        let mut i: usize = 0;
        while i < deployments.len()
            invariant
                i <= deployments@.len(),
                match found {
                    None => forall|j: int| 0 <= j < i ==> !is_primary(#[trigger] deployments@[j]),
                    Some(k) => k < i && is_primary(deployments@[k as int])
                        && forall|j: int| 0 <= j < i && j != k ==> !is_primary(#[trigger] deployments@[j]),
                },
            decreases deployments.len() - i,
        {
            let primary = match &deployments[i].status {
                Some(s) => str_eq(s.as_str(), "PRIMARY"),
                None => false,
            };
            if primary {
                if found.is_some() {
                    proof {
                        let k = found->0;
                        assert forall|w: int| 0 <= w < deployments@.len() && is_primary(deployments@[w])
                            implies exists|j: int| 0 <= j < deployments@.len() && j != w && is_primary(#[trigger] deployments@[j]) by {
                            if w == k { assert(is_primary(deployments@[i as int])); } else { assert(is_primary(deployments@[k as int])); }
                        }
                    }
                    return false;
                }
                found = Some(i);
            }
            i = i + 1;
        }
        match found {
            None => false,
            Some(k) => {
                let d = &deployments[k];
                let ok = d.running_count == d.desired_count;
                proof {
                    if !ok {
                        assert forall|w: int| 0 <= w < deployments@.len() && is_primary(deployments@[w])
                            && deployments@[w].running_count == deployments@[w].desired_count implies false by {
                            if w != k { assert(!is_primary(deployments@[w])); }
                        }
                    }
                }
                ok
            },
        }
    }

    /// The task definition a rollback returns to and its revision: the
    /// deployed ARN with its last `:`-separated part, the revision, lowered
    /// by one. An error when the ARN has no `:`, the revision is not an
    /// integer, or there is no earlier revision.
    pub fn previous_task_definition(arn: &str) -> (r: Result<(String, i32), EcsError>)
        ensures
            !arn@.contains(':') ==> r matches Err(EcsError::InvalidTaskDefinitionArn),
            arn@.contains(':') ==> match parsed_i32(after_last(arn@, ':')) {
                None => r matches Err(EcsError::UnparsableRevision),
                Some(rev) => if rev <= 1 {
                    r matches Err(EcsError::NoPreviousRevision)
                } else {
                    r matches Ok((prev, n)) && n == rev - 1
                        && prev@ == arn@.take(arn@.len() - after_last(arn@, ':').len()) + signed_decimal(n as int)
                },
            },
    {
        if !crate::text::str_has_char(arn, ':') {
            return Err(EcsError::InvalidTaskDefinitionArn);
        }
        let last = suffix_after_last(arn, ':');
        let rev = match parse_i32(last.as_str()) {
            None => return Err(EcsError::UnparsableRevision),
            Some(r) => r,
        };
        if rev <= 1 {
            return Err(EcsError::NoPreviousRevision);
        }
        let n = rev - 1;
        let v = crate::text::chars_of(arn);
        proof {
            lemma_after_last_len(arn@, ':');
        }
        let keep = v.len() - last.as_str().unicode_len();
        let mut prev = String::new();
        let mut i: usize = 0;
        while i < keep
            invariant
                v@ == arn@,
                keep <= v@.len(),
                i <= keep,
                prev@ == arn@.take(i as int),
            decreases keep - i,
        {
            crate::text::push_char(&mut prev, v[i]);
            assert(prev@ =~= arn@.take(i + 1));
            i = i + 1;
        }
        let t = i32_text(n);
        push_str(&mut prev, t.as_str());
        Ok((prev, n))
    }

    /// The message of a rollback: what a dry run would do, or the revision
    /// returned to.
    pub fn rollback_message(&self, dry_run: bool, service_name: &str, revision: i32) -> (r: String)
        ensures
            r@ == (if dry_run {
                "Would rollback ECS service "@ + service_name@ + " in cluster "@ + self.cluster@
            } else {
                "Rolled back ECS service "@ + service_name@ + " to revision "@ + signed_decimal(revision as int)
            }),
    {
        if dry_run {
            let mut m = to_owned_string("Would rollback ECS service ");
            push_str(&mut m, service_name);
            push_str(&mut m, " in cluster ");
            push_str(&mut m, self.cluster.as_str());
            m
        } else {
            let mut m = to_owned_string("Rolled back ECS service ");
            push_str(&mut m, service_name);
            push_str(&mut m, " to revision ");
            let t = i32_text(revision);
            push_str(&mut m, t.as_str());
            m
        }
    }

    /// The arguments of `aws` that follow a service's logs.
    pub fn logs_tail_args(&self, log_group: &str) -> (r: Vec<String>)
        ensures
            seq_views(r@) == seq!["logs"@, "tail"@, log_group@, "--follow"@]
                + (if self.cloudwatch_config is Some { seq!["--format"@, "short"@] } else { seq![] }),
    {
        let mut a: Vec<String> = Vec::new();
        a.push(to_owned_string("logs"));
        a.push(to_owned_string("tail"));
        a.push(to_owned_string(log_group));
        a.push(to_owned_string("--follow"));
        if self.cloudwatch_config.is_some() {
            a.push(to_owned_string("--format"));
            a.push(to_owned_string("short"));
        }
        assert(seq_views(a@) =~= seq!["logs"@, "tail"@, log_group@, "--follow"@]
            + (if self.cloudwatch_config is Some { seq!["--format"@, "short"@] } else { seq![] }));
        a
    }

    /// The status report of a service.
    pub fn status_text(&self, service: &EcsServiceObservation, autoscaling: &Option<AutoScalingStatus>) -> (r: String)
        ensures
            r@ == ecs_status_text(self.cluster@, self.region@, *service, *autoscaling),
    {
        let mut o = to_owned_string("ECS Cluster: ");
        push_str(&mut o, self.cluster.as_str());
        push_str(&mut o, "\nRegion: ");
        push_str(&mut o, self.region.as_str());
        push_str(&mut o, "\nService: ");
        push_str(&mut o, service.name.as_str());
        push_str(&mut o, " (");
        push_str(&mut o, service.status.as_str());
        push_str(&mut o, ")\nRunning: ");
        let t = i32_text(service.running_count);
        push_str(&mut o, t.as_str());
        push_str(&mut o, "/");
        let t = i32_text(service.desired_count);
        push_str(&mut o, t.as_str());
        push_str(&mut o, "\nPending: ");
        let t = i32_text(service.pending_count);
        push_str(&mut o, t.as_str());
        push_str(&mut o, "\nTask Definition: ");
        match &service.task_definition {
            Some(td) => push_str(&mut o, td.as_str()),
            None => push_str(&mut o, "N/A"),
        }
        let ghost head = o@;
        match &service.load_balancers {
            Some(lbs) => {
                if lbs.len() > 0 {
                    push_str(&mut o, "\n\nLoad Balancers:");
                    let lines = lb_text(lbs);
                    push_str(&mut o, lines.as_str());
                }
            },
            None => {},
        }
        let ghost mid = o@;
        match autoscaling {
            Some(a) => {
                push_str(&mut o, "\n\nAuto Scaling:\n  Capacity: ");
                let t = i32_text(a.min_capacity);
                push_str(&mut o, t.as_str());
                push_str(&mut o, " - ");
                let t = i32_text(a.max_capacity);
                push_str(&mut o, t.as_str());
                push_str(&mut o, "\n  Policies: ");
                if a.policies.len() == 0 {
                    push_str(&mut o, "None");
                } else {
                    let j = join_strings(&a.policies, ", ");
                    push_str(&mut o, j.as_str());
                }
            },
            None => {},
        }
        assert(o@ =~= ecs_status_text(self.cluster@, self.region@, *service, *autoscaling));
        o
    }
}

proof fn lemma_after_last_len(s: Seq<char>, c: char)
    ensures
        after_last(s, c).len() <= s.len(),
        s.take(s.len() - after_last(s, c).len()) + after_last(s, c) == s,
{
    if exists|i: int| crate::text::last_index_of(s, c, i) {
        assert(s.take(s.len() - after_last(s, c).len()) + after_last(s, c) =~= s);
    } else {
        assert(s.take(0) + s =~= s);
    }
}

fn lb_text(lbs: &Vec<(Option<String>, Option<TargetGroupHealth>)>) -> (r: String)
    ensures
        r@ == lb_lines(lbs@),
{
    let mut o = String::new();
    let mut i: usize = 0;
    while i < lbs.len()
        invariant
            i <= lbs@.len(),
            o@ == lb_lines(lbs@.take(i as int)),
        decreases lbs.len() - i,
    {
        proof {
            let next = lbs@.take(i + 1);
            assert(next.drop_last() =~= lbs@.take(i as int));
            assert(next.last() == lbs@[i as int]);
        }
        match &lbs[i].0 {
            Some(arn) => {
                push_str(&mut o, "\n  - Target Group: ");
                let short = suffix_after_last(arn.as_str(), '/');
                push_str(&mut o, short.as_str());
                match &lbs[i].1 {
                    Some(h) => {
                        push_str(&mut o, "\n    Health: ");
                        let a = u64_to_string(h.healthy as u64);
                        push_str(&mut o, a.as_str());
                        push_str(&mut o, "/");
                        let b = u64_to_string(h.total as u64);
                        push_str(&mut o, b.as_str());
                        push_str(&mut o, " healthy");
                    },
                    None => {},
                }
            },
            None => {},
        }
        i = i + 1;
    }
    assert(lbs@.take(lbs@.len() as int) =~= lbs@);
    o
}

} // verus!

verus! {

/// A service that exists is scaled to the configured count whichever way
/// it differs: when its current desired count `n` differs from the
/// configured one, the plan ends with an update of "ECS Service" from `n`
/// to the configured count; when they agree, or the service is missing,
/// the plan updates nothing.
pub proof fn lemma_plan_rescales_service(cluster: Seq<char>, service: Seq<char>, c: EcsProvisioningConfig, cur: EcsCurrentState, n: i32)
    ensures
        cur.service_exists && cur.current_desired_count == Some(n) && n != c.service.desired_count ==> {
            let p = ecs_plan(cluster, service, c, cur);
            &&& p.last().action == super::provisioning::PlannedAction::Update
            &&& p.last().resource_type == "ECS Service"@
            &&& p.last().resource_name == service
            &&& p.last().current == Some(signed_decimal(n as int))
            &&& p.last().desired == Some(signed_decimal(c.service.desired_count as int))
        },
        (!cur.service_exists || cur.current_desired_count is None
            || cur.current_desired_count == Some(c.service.desired_count)) ==>
            forall|i: int| 0 <= i < ecs_plan(cluster, service, c, cur).len()
                ==> #[trigger] ecs_plan(cluster, service, c, cur)[i].action == super::provisioning::PlannedAction::Create,
{
}

/// What a plan creates: the cluster first, exactly when it does not exist;
/// always a new revision of the configured task definition family; and
/// the service last, exactly when it does not exist.
pub proof fn lemma_plan_creates_what_is_missing(cluster: Seq<char>, service: Seq<char>, c: EcsProvisioningConfig, cur: EcsCurrentState)
    ensures
        ({
            let p = ecs_plan(cluster, service, c, cur);
            &&& !cur.cluster_exists ==> p[0].action == super::provisioning::PlannedAction::Create
                && p[0].resource_type == "ECS Cluster"@ && p[0].resource_name == cluster
            &&& p[(if cur.cluster_exists { 0int } else { 1int })].resource_type == "ECS Task Definition"@
            &&& p[(if cur.cluster_exists { 0int } else { 1int })].resource_name == c.task.family@
            &&& p[(if cur.cluster_exists { 0int } else { 1int })].action == super::provisioning::PlannedAction::Create
            &&& !cur.service_exists ==> p.last().action == super::provisioning::PlannedAction::Create
                && p.last().resource_type == "ECS Service"@ && p.last().resource_name == service
            &&& p.len() == (if cur.cluster_exists { 1int } else { 2int }) + (if !cur.service_exists
                || (cur.current_desired_count is Some && cur.current_desired_count != Some(c.service.desired_count)) { 1int } else { 0int })
        }),
{
}

} // verus!

