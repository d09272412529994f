//! Provisioning results, dry-run plans, and the validation errors of the
//! provisioning configurations.

use vstd::prelude::*;
use crate::text::{opt_view, to_owned_string};

pub mod ecs;
pub mod lambda;

pub use ecs::{
    EcsClusterConfig, EcsCurrentState, EcsNetworkConfig, EcsProvisioningConfig, EcsServiceConfig,
    EcsTaskConfig,
};
pub use lambda::{
    compute_lambda_diff, LambdaCurrentState, LambdaProvisioningConfig, LambdaStateDiff,
    LambdaVpcConfig,
};

verus! {

/// A rule of a provisioning configuration that was broken.
#[derive(Debug, Clone, Copy, PartialEq, Eq, Structural)]
pub enum ProvisioningConfigError {
    LambdaMissingRoleArn,
    LambdaMemoryOutOfRange,
    LambdaTimeoutOutOfRange,
    LambdaEphemeralStorageOutOfRange,
    LambdaInvalidArchitecture,
    LambdaInvalidPackageType,
    VpcMissingSubnet,
    VpcMissingSecurityGroup,
    EcsClusterMissingCapacityProvider,
    EcsTaskMissingFamily,
    EcsTaskMissingExecutionRole,
    EcsTaskInvalidCpu,
    EcsServiceNegativeDesiredCount,
    EcsServiceInvalidLaunchType,
    EcsNetworkMissingSubnet,
    EcsNetworkMissingSecurityGroup,
}

/// The message that explains each broken rule.
pub open spec fn provisioning_error_text(e: ProvisioningConfigError) -> Seq<char> {
    match e {
        ProvisioningConfigError::LambdaMissingRoleArn => "Lambda provisioning requires role_arn to be specified"@,
        ProvisioningConfigError::LambdaMemoryOutOfRange => "Lambda memory_mb must be between 128 and 10240"@,
        ProvisioningConfigError::LambdaTimeoutOutOfRange => "Lambda timeout_secs must be between 1 and 900"@,
        ProvisioningConfigError::LambdaEphemeralStorageOutOfRange => "Lambda ephemeral_storage_mb must be between 512 and 10240"@,
        ProvisioningConfigError::LambdaInvalidArchitecture => "Lambda architecture must be one of: x86_64, arm64"@,
        ProvisioningConfigError::LambdaInvalidPackageType => "Lambda package_type must be one of: Image, Zip"@,
        ProvisioningConfigError::VpcMissingSubnet => "VPC configuration requires at least one subnet_id"@,
        ProvisioningConfigError::VpcMissingSecurityGroup => "VPC configuration requires at least one security_group_id"@,
        ProvisioningConfigError::EcsClusterMissingCapacityProvider => "ECS cluster requires at least one capacity provider"@,
        ProvisioningConfigError::EcsTaskMissingFamily => "ECS task family is required"@,
        ProvisioningConfigError::EcsTaskMissingExecutionRole => "ECS task execution_role_arn is required"@,
        ProvisioningConfigError::EcsTaskInvalidCpu => "ECS task cpu must be one of: 256, 512, 1024, 2048, 4096, 8192, 16384"@,
        ProvisioningConfigError::EcsServiceNegativeDesiredCount => "ECS service desired_count must be non-negative"@,
        ProvisioningConfigError::EcsServiceInvalidLaunchType => "ECS service launch_type must be one of: FARGATE, EC2, EXTERNAL"@,
        ProvisioningConfigError::EcsNetworkMissingSubnet => "ECS network configuration requires at least one subnet"@,
        ProvisioningConfigError::EcsNetworkMissingSecurityGroup => "ECS network configuration requires at least one security group"@,
    }
}

impl ProvisioningConfigError {
    /// The message that explains the broken rule.
    pub fn to_string(&self) -> (r: String)
        ensures
            r@ == provisioning_error_text(*self),
    {
        let s = match self {
            ProvisioningConfigError::LambdaMissingRoleArn => "Lambda provisioning requires role_arn to be specified",
            ProvisioningConfigError::LambdaMemoryOutOfRange => "Lambda memory_mb must be between 128 and 10240",
            ProvisioningConfigError::LambdaTimeoutOutOfRange => "Lambda timeout_secs must be between 1 and 900",
            ProvisioningConfigError::LambdaEphemeralStorageOutOfRange => "Lambda ephemeral_storage_mb must be between 512 and 10240",
            ProvisioningConfigError::LambdaInvalidArchitecture => "Lambda architecture must be one of: x86_64, arm64",
            ProvisioningConfigError::LambdaInvalidPackageType => "Lambda package_type must be one of: Image, Zip",
            ProvisioningConfigError::VpcMissingSubnet => "VPC configuration requires at least one subnet_id",
            ProvisioningConfigError::VpcMissingSecurityGroup => "VPC configuration requires at least one security_group_id",
            ProvisioningConfigError::EcsClusterMissingCapacityProvider => "ECS cluster requires at least one capacity provider",
            ProvisioningConfigError::EcsTaskMissingFamily => "ECS task family is required",
            ProvisioningConfigError::EcsTaskMissingExecutionRole => "ECS task execution_role_arn is required",
            ProvisioningConfigError::EcsTaskInvalidCpu => "ECS task cpu must be one of: 256, 512, 1024, 2048, 4096, 8192, 16384",
            ProvisioningConfigError::EcsServiceNegativeDesiredCount => "ECS service desired_count must be non-negative",
            ProvisioningConfigError::EcsServiceInvalidLaunchType => "ECS service launch_type must be one of: FARGATE, EC2, EXTERNAL",
            ProvisioningConfigError::EcsNetworkMissingSubnet => "ECS network configuration requires at least one subnet",
            ProvisioningConfigError::EcsNetworkMissingSecurityGroup => "ECS network configuration requires at least one security group",
        };
        to_owned_string(s)
    }
}

/// The action taken during provisioning.
#[derive(Debug, Clone, Copy, PartialEq, Eq, Structural)]
pub enum ProvisioningAction {
    Created,
    Updated,
    Unchanged,
}

/// Result of a provisioning operation, showing what changed.
#[derive(Debug, Clone)]
pub struct ProvisioningResult {
    pub resource_type: String,
    pub resource_name: String,
    pub action: ProvisioningAction,
    pub details: Vec<String>,
}

impl ProvisioningResult {
    pub fn created(resource_type: &str, resource_name: &str, details: Vec<String>) -> (r: Self)
        ensures
            r.resource_type@ == resource_type@,
            r.resource_name@ == resource_name@,
            r.action == ProvisioningAction::Created,
            r.details@ == details@,
    {
        ProvisioningResult {
            resource_type: to_owned_string(resource_type),
            resource_name: to_owned_string(resource_name),
            action: ProvisioningAction::Created,
            details,
        }
    }

    pub fn updated(resource_type: &str, resource_name: &str, details: Vec<String>) -> (r: Self)
        ensures
            r.resource_type@ == resource_type@,
            r.resource_name@ == resource_name@,
            r.action == ProvisioningAction::Updated,
            r.details@ == details@,
    {
        ProvisioningResult {
            resource_type: to_owned_string(resource_type),
            resource_name: to_owned_string(resource_name),
            action: ProvisioningAction::Updated,
            details,
        }
    }

    pub fn unchanged(resource_type: &str, resource_name: &str) -> (r: Self)
        ensures
            r.resource_type@ == resource_type@,
            r.resource_name@ == resource_name@,
            r.action == ProvisioningAction::Unchanged,
            r.details@.len() == 0,
    {
        ProvisioningResult {
            resource_type: to_owned_string(resource_type),
            resource_name: to_owned_string(resource_name),
            action: ProvisioningAction::Unchanged,
            details: Vec::new(),
        }
    }
}

/// Planned action type.
#[derive(Debug, Clone, Copy, PartialEq, Eq, Structural)]
pub enum PlannedAction {
    Create,
    Update,
    NoChange,
}

/// A single planned change.
#[derive(Debug, Clone)]
pub struct PlannedChange {
    pub resource_type: String,
    pub resource_name: String,
    pub action: PlannedAction,
    pub current: Option<String>,
    pub desired: Option<String>,
    pub reason: String,
}

impl PlannedChange {
    pub fn create(resource_type: &str, resource_name: &str, reason: &str) -> (r: Self)
        ensures
            r.resource_type@ == resource_type@,
            r.resource_name@ == resource_name@,
            r.action == PlannedAction::Create,
            r.current is None,
            r.desired is None,
            r.reason@ == reason@,
    {
        PlannedChange {
            resource_type: to_owned_string(resource_type),
            resource_name: to_owned_string(resource_name),
            action: PlannedAction::Create,
            current: None,
            desired: None,
            reason: to_owned_string(reason),
        }
    }

    pub fn update(resource_type: &str, resource_name: &str, current: &str, desired: &str, reason: &str) -> (r: Self)
        ensures
            r.resource_type@ == resource_type@,
            r.resource_name@ == resource_name@,
            r.action == PlannedAction::Update,
            opt_view(r.current) == Some(current@),
            opt_view(r.desired) == Some(desired@),
            r.reason@ == reason@,
    {
        PlannedChange {
            resource_type: to_owned_string(resource_type),
            resource_name: to_owned_string(resource_name),
            action: PlannedAction::Update,
            current: Some(to_owned_string(current)),
            desired: Some(to_owned_string(desired)),
            reason: to_owned_string(reason),
        }
    }

    pub fn no_change(resource_type: &str, resource_name: &str) -> (r: Self)
        ensures
            r.resource_type@ == resource_type@,
            r.resource_name@ == resource_name@,
            r.action == PlannedAction::NoChange,
            r.current is None,
            r.desired is None,
            r.reason@ == "No changes needed"@,
    {
        PlannedChange {
            resource_type: to_owned_string(resource_type),
            resource_name: to_owned_string(resource_name),
            action: PlannedAction::NoChange,
            current: None,
            desired: None,
            reason: to_owned_string("No changes needed"),
        }
    }
}

/// A planned change, with its texts as characters.
pub struct PlannedChangeView {
    pub resource_type: Seq<char>,
    pub resource_name: Seq<char>,
    pub action: PlannedAction,
    pub current: Option<Seq<char>>,
    pub desired: Option<Seq<char>>,
    pub reason: Seq<char>,
}

impl View for PlannedChange {
    type V = PlannedChangeView;

    open spec fn view(&self) -> PlannedChangeView {
        PlannedChangeView {
            resource_type: self.resource_type@,
            resource_name: self.resource_name@,
            action: self.action,
            current: opt_view(self.current),
            desired: opt_view(self.desired),
            reason: self.reason@,
        }
    }
}

/// The planned changes, as characters.
pub open spec fn change_views(changes: Seq<PlannedChange>) -> Seq<PlannedChangeView> {
    changes.map_values(|c: PlannedChange| c@)
}

/// A planned creation.
pub open spec fn creation(resource_type: Seq<char>, resource_name: Seq<char>, reason: Seq<char>) -> PlannedChangeView {
    PlannedChangeView {
        resource_type,
        resource_name,
        action: PlannedAction::Create,
        current: None,
        desired: None,
        reason,
    }
}

/// A planned update from `current` to `desired`.
pub open spec fn modification(
    resource_type: Seq<char>,
    resource_name: Seq<char>,
    current: Seq<char>,
    desired: Seq<char>,
    reason: Seq<char>,
) -> PlannedChangeView {
    PlannedChangeView {
        resource_type,
        resource_name,
        action: PlannedAction::Update,
        current: Some(current),
        desired: Some(desired),
        reason,
    }
}

/// A planned "no change".
pub open spec fn no_modification(resource_type: Seq<char>, resource_name: Seq<char>) -> PlannedChangeView {
    PlannedChangeView {
        resource_type,
        resource_name,
        action: PlannedAction::NoChange,
        current: None,
        desired: None,
        reason: "No changes needed"@,
    }
}

/// Planned changes for a provisioning operation (dry-run result).
#[derive(Debug, Clone)]
pub struct ProvisioningPlan {
    pub changes: Vec<PlannedChange>,
}

/// Whether some planned change has action `a`.
pub open spec fn plan_has_action(changes: Seq<PlannedChange>, a: PlannedAction) -> bool {
    exists|i: int| 0 <= i < changes.len() && changes[i].action == a
}

impl ProvisioningPlan {
    pub fn new() -> (r: Self)
        ensures
            r.changes@.len() == 0,
    {
        ProvisioningPlan { changes: Vec::new() }
    }

    /// Appends a change at the end of the plan.
    pub fn add(&mut self, change: PlannedChange)
        ensures
            final(self).changes@ == old(self).changes@.push(change),
    {
        self.changes.push(change);
    }

    pub fn is_empty(&self) -> (r: bool)
        ensures
            r == (self.changes@.len() == 0),
    {
        self.changes.len() == 0
    }

    fn has_action(&self, a: PlannedAction) -> (r: bool)
        ensures
            r == plan_has_action(self.changes@, a),
    {
        let mut i: usize = 0;
        while i < self.changes.len()
            invariant
                i <= self.changes@.len(),
                forall|k: int| 0 <= k < i ==> self.changes@[k].action != a,
            decreases self.changes.len() - i,
        {
            if self.changes[i].action == a {
                return true;
            }
            i = i + 1;
        }
        false
    }

    pub fn has_creates(&self) -> (r: bool)
        ensures
            r == plan_has_action(self.changes@, PlannedAction::Create),
    {
        self.has_action(PlannedAction::Create)
    }

    pub fn has_updates(&self) -> (r: bool)
        ensures
            r == plan_has_action(self.changes@, PlannedAction::Update),
    {
        self.has_action(PlannedAction::Update)
    }
}

impl Default for ProvisioningPlan {
    fn default() -> (r: Self)
        ensures
            r.changes@.len() == 0,
    {
        ProvisioningPlan::new()
    }
}

} // verus!
