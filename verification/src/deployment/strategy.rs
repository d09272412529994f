//! Deployment types, results and strategy configuration.

use vstd::prelude::*;
use crate::text::{opt_view, str_eq, to_owned_string};

verus! {

/// How a deployment replaces running instances.
#[derive(Debug, Clone, Copy, PartialEq, Eq, Structural)]
pub enum DeploymentType {
    RollingUpdate,
    AllIn,
}

/// The configuration name of a deployment type.
pub open spec fn deployment_type_name(t: DeploymentType) -> Seq<char> {
    match t {
        DeploymentType::RollingUpdate => "rolling-update"@,
        DeploymentType::AllIn => "all-in"@,
    }
}

/// The deployment type named `s`, if any.
pub open spec fn parse_deployment_type(s: Seq<char>) -> Option<DeploymentType> {
    if s == "rolling-update"@ {
        Some(DeploymentType::RollingUpdate)
    } else if s == "all-in"@ {
        Some(DeploymentType::AllIn)
    } else {
        None
    }
}

impl DeploymentType {
    /// Parses "rolling-update" or "all-in"; any other text gives `None`.
    pub fn from_str(s: &str) -> (r: Option<DeploymentType>)
        ensures
            r == parse_deployment_type(s@),
    {
        if str_eq(s, "rolling-update") {
            Some(DeploymentType::RollingUpdate)
        } else if str_eq(s, "all-in") {
            Some(DeploymentType::AllIn)
        } else {
            None
        }
    }

    pub fn as_str(&self) -> (r: &'static str)
        ensures
            r@ == deployment_type_name(*self),
    {
        match self {
            DeploymentType::RollingUpdate => "rolling-update",
            DeploymentType::AllIn => "all-in",
        }
    }
}

/// Reading back the name of a deployment type gives the same type.
pub proof fn lemma_deployment_type_round_trip(t: DeploymentType)
    ensures
        parse_deployment_type(deployment_type_name(t)) == Some(t),
{
    reveal_strlit("rolling-update");
    reveal_strlit("all-in");
    assert("rolling-update"@.len() == 14);
    assert("all-in"@.len() == 6);
    match t {
        DeploymentType::RollingUpdate => {},
        DeploymentType::AllIn => {
            assert("all-in"@ != "rolling-update"@);
        },
    }
}

/// Outcome of a deployment or rollback.
#[derive(Debug, Clone)]
pub struct DeploymentResult {
    pub success: bool,
    pub message: String,
    pub version: Option<String>,
    pub rollback_version: Option<String>,
}

impl DeploymentResult {
    pub fn success(message: &str) -> (r: Self)
        ensures
            r.success,
            r.message@ == message@,
            r.version is None,
            r.rollback_version is None,
    {
        DeploymentResult {
            success: true,
            message: to_owned_string(message),
            version: None,
            rollback_version: None,
        }
    }

    pub fn failure(message: &str) -> (r: Self)
        ensures
            !r.success,
            r.message@ == message@,
            r.version is None,
            r.rollback_version is None,
    {
        DeploymentResult {
            success: false,
            message: to_owned_string(message),
            version: None,
            rollback_version: None,
        }
    }

    pub fn with_version(self, version: &str) -> (r: Self)
        ensures
            r.success == self.success,
            r.message == self.message,
            opt_view(r.version) == Some(version@),
            r.rollback_version == self.rollback_version,
    {
        DeploymentResult { version: Some(to_owned_string(version)), ..self }
    }

    pub fn with_rollback_version(self, version: &str) -> (r: Self)
        ensures
            r.success == self.success,
            r.message == self.message,
            r.version == self.version,
            opt_view(r.rollback_version) == Some(version@),
    {
        DeploymentResult { rollback_version: Some(to_owned_string(version)), ..self }
    }
}

/// Strategy settings taken from an environment.
#[derive(Debug, Clone)]
pub struct StrategyConfig {
    pub deployment_type: DeploymentType,
    /// Percentage of instances per batch.
    pub batch_size: Option<u32>,
    pub health_check_timeout_secs: Option<u64>,
    pub rollback_on_failure: bool,
}

impl Default for StrategyConfig {
    fn default() -> (r: Self)
        ensures
            r.deployment_type == DeploymentType::RollingUpdate,
            r.batch_size == Some(25u32),
            r.health_check_timeout_secs == Some(300u64),
            r.rollback_on_failure,
    {
        StrategyConfig {
            deployment_type: DeploymentType::RollingUpdate,
            batch_size: Some(25),
            health_check_timeout_secs: Some(300),
            rollback_on_failure: true,
        }
    }
}

/// A rule of a strategy configuration that was broken.
#[derive(Debug, Clone, Copy, PartialEq, Eq, Structural)]
pub enum StrategyConfigError {
    ZeroBatchSize,
    BatchSizeOver100,
    ZeroHealthCheckTimeout,
}

impl StrategyConfigError {
    pub fn to_string(&self) -> (r: String)
        ensures
            r@ == match *self {
                StrategyConfigError::ZeroBatchSize => "batch_size must be greater than 0"@,
                StrategyConfigError::BatchSizeOver100 => "batch_size cannot exceed 100%"@,
                StrategyConfigError::ZeroHealthCheckTimeout => "health_check_timeout_secs must be greater than 0"@,
            },
    {
        match self {
            StrategyConfigError::ZeroBatchSize => to_owned_string("batch_size must be greater than 0"),
            StrategyConfigError::BatchSizeOver100 => to_owned_string("batch_size cannot exceed 100%"),
            StrategyConfigError::ZeroHealthCheckTimeout => to_owned_string("health_check_timeout_secs must be greater than 0"),
        }
    }
}

/// The synchronous part of a deployment strategy: what it is, and which
/// configurations it accepts. Running the batches is driven by the caller.
pub trait DeploymentStrategy {
    fn deployment_type(&self) -> DeploymentType;

    fn validate_config(&self, config: &StrategyConfig) -> Result<(), StrategyConfigError>;
}

} // verus!
