//! Deployment phases, in the order a deployment goes through them, and the
//! settings and error of resumable deployments.

use vstd::prelude::*;
use crate::text::{push_str, to_owned_string};

verus! {

/// A phase of a deployment. A deployment goes through the phases in the
/// order they are declared.
#[derive(Debug, Clone, Copy, PartialEq, Eq, Structural)]
pub enum DeploymentPhase {
    PreHooks,
    InfrastructureProvisioning,
    AppDeployment,
    HealthCheck,
    PostHooks,
    Completed,
}

/// Position of a phase in the deployment order.
pub open spec fn phase_ordinal(p: DeploymentPhase) -> nat {
    match p {
        DeploymentPhase::PreHooks => 0,
        DeploymentPhase::InfrastructureProvisioning => 1,
        DeploymentPhase::AppDeployment => 2,
        DeploymentPhase::HealthCheck => 3,
        DeploymentPhase::PostHooks => 4,
        DeploymentPhase::Completed => 5,
    }
}

/// The snake_case name of a phase.
pub open spec fn phase_name(p: DeploymentPhase) -> Seq<char> {
    match p {
        DeploymentPhase::PreHooks => "pre_hooks"@,
        DeploymentPhase::InfrastructureProvisioning => "infrastructure_provisioning"@,
        DeploymentPhase::AppDeployment => "app_deployment"@,
        DeploymentPhase::HealthCheck => "health_check"@,
        DeploymentPhase::PostHooks => "post_hooks"@,
        DeploymentPhase::Completed => "completed"@,
    }
}

/// The phase that follows `p` (the last phase is followed by itself).
pub open spec fn next_phase(p: DeploymentPhase) -> DeploymentPhase {
    match p {
        DeploymentPhase::PreHooks => DeploymentPhase::InfrastructureProvisioning,
        DeploymentPhase::InfrastructureProvisioning => DeploymentPhase::AppDeployment,
        DeploymentPhase::AppDeployment => DeploymentPhase::HealthCheck,
        DeploymentPhase::HealthCheck => DeploymentPhase::PostHooks,
        DeploymentPhase::PostHooks => DeploymentPhase::Completed,
        DeploymentPhase::Completed => DeploymentPhase::Completed,
    }
}

impl DeploymentPhase {
    pub fn ordinal(&self) -> (r: u8)
        ensures
            r as nat == phase_ordinal(*self),
    {
        match self {
            DeploymentPhase::PreHooks => 0,
            DeploymentPhase::InfrastructureProvisioning => 1,
            DeploymentPhase::AppDeployment => 2,
            DeploymentPhase::HealthCheck => 3,
            DeploymentPhase::PostHooks => 4,
            DeploymentPhase::Completed => 5,
        }
    }

    pub fn as_str(&self) -> (r: &'static str)
        ensures
            r@ == phase_name(*self),
    {
        match self {
            DeploymentPhase::PreHooks => "pre_hooks",
            DeploymentPhase::InfrastructureProvisioning => "infrastructure_provisioning",
            DeploymentPhase::AppDeployment => "app_deployment",
            DeploymentPhase::HealthCheck => "health_check",
            DeploymentPhase::PostHooks => "post_hooks",
            DeploymentPhase::Completed => "completed",
        }
    }

    pub fn to_string(&self) -> (r: String)
        ensures
            r@ == phase_name(*self),
    {
        to_owned_string(self.as_str())
    }

    pub fn next(&self) -> (r: DeploymentPhase)
        ensures
            r == next_phase(*self),
    {
        match self {
            DeploymentPhase::PreHooks => DeploymentPhase::InfrastructureProvisioning,
            DeploymentPhase::InfrastructureProvisioning => DeploymentPhase::AppDeployment,
            DeploymentPhase::AppDeployment => DeploymentPhase::HealthCheck,
            DeploymentPhase::HealthCheck => DeploymentPhase::PostHooks,
            DeploymentPhase::PostHooks => DeploymentPhase::Completed,
            DeploymentPhase::Completed => DeploymentPhase::Completed,
        }
    }
}

/// Advancing never goes back, and moves forward from every phase but the last.
pub proof fn lemma_next_phase_advances(p: DeploymentPhase)
    ensures
        phase_ordinal(next_phase(p)) >= phase_ordinal(p),
        p != DeploymentPhase::Completed ==> phase_ordinal(next_phase(p)) == phase_ordinal(p) + 1,
{
}

/// Settings of checkpointing.
#[derive(Debug, Clone, Copy, PartialEq, Eq, Structural)]
pub struct CheckpointConfig {
    /// Whether checkpointing is enabled.
    pub enabled: bool,
    /// Whether to save the checkpoint on interrupt.
    pub save_on_interrupt: bool,
}

impl Default for CheckpointConfig {
    fn default() -> (r: Self)
        ensures
            r.enabled,
            r.save_on_interrupt,
    {
        CheckpointConfig { enabled: true, save_on_interrupt: true }
    }
}

/// Error indicating the deployment was interrupted.
#[derive(Debug, Clone)]
pub struct InterruptedError {
    pub deployment_id: String,
    pub phase: DeploymentPhase,
    pub message: String,
}

impl InterruptedError {
    pub fn to_string(&self) -> (r: String)
        ensures
            r@ == "Deployment "@ + self.deployment_id@ + " interrupted at phase "@
                + phase_name(self.phase) + ": "@ + self.message@,
    {
        let mut s = to_owned_string("Deployment ");
        push_str(&mut s, self.deployment_id.as_str());
        push_str(&mut s, " interrupted at phase ");
        push_str(&mut s, self.phase.as_str());
        push_str(&mut s, ": ");
        push_str(&mut s, self.message.as_str());
        s
    }
}

/// What a checkpoint manager does besides talking to storage: whether it
/// persists checkpoints, whether it saves one when interrupted, and the
/// error of an interruption. Storage is the caller's.
#[derive(Debug, Clone, Copy)]
pub struct CheckpointManager {
    pub config: CheckpointConfig,
}

impl CheckpointManager {
    /// A manager with the default settings: persisting, and saving on interrupt.
    pub fn new() -> (r: Self)
        ensures
            r.config.enabled,
            r.config.save_on_interrupt,
    {
        CheckpointManager { config: CheckpointConfig::default() }
    }

    pub fn with_config(self, config: CheckpointConfig) -> (r: Self)
        ensures
            r.config == config,
    {
        CheckpointManager { config }
    }

    /// Whether changes of a checkpoint are written to storage.
    pub fn persists(&self) -> (r: bool)
        ensures
            r == self.config.enabled,
    {
        self.config.enabled
    }

    /// Whether the checkpoint is written to storage when a deployment is interrupted.
    pub fn saves_on_interrupt(&self) -> (r: bool)
        ensures
            r == (self.config.enabled && self.config.save_on_interrupt),
    {
        self.config.enabled && self.config.save_on_interrupt
    }

    /// The error of a deployment interrupted by the user at `phase`.
    pub fn interrupted(deployment_id: &str, phase: DeploymentPhase) -> (r: InterruptedError)
        ensures
            r.deployment_id@ == deployment_id@,
            r.phase == phase,
            r.message@ == "Deployment interrupted by user"@,
    {
        InterruptedError {
            deployment_id: to_owned_string(deployment_id),
            phase,
            message: to_owned_string("Deployment interrupted by user"),
        }
    }
}

/// The completed phases of a checkpoint as listed: "none", or their
/// names separated by commas.
pub open spec fn completed_phases_text(phases: Seq<DeploymentPhase>) -> Seq<char> {
    if phases.len() == 0 {
        "none"@
    } else {
        crate::text::join_seqs(phases.map_values(|p: DeploymentPhase| phase_name(p)), ", "@)
    }
}

} // verus!
