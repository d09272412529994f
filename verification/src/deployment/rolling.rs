//! Rolling update strategy: instances are replaced in batches, each batch a
//! percentage of the whole. The caller performs each batch's deployment and
//! the health-check wait; this module decides what happens next.

use vstd::prelude::*;
use crate::text::{decimal, opt_view, push_str, to_owned_string, u64_to_string};
use super::strategy::{
    DeploymentResult, DeploymentStrategy, DeploymentType, StrategyConfig, StrategyConfigError,
};

verus! {

/// Progress of a rolling update.
#[derive(Debug, Clone)]
pub struct RollingState {
    pub current_batch: u32,
    pub total_batches: u32,
    pub completed_instances: u32,
    pub failed_instances: u32,
    pub previous_version: Option<String>,
}

/// Rolling update deployment strategy.
#[derive(Debug, Clone)]
pub struct RollingUpdateStrategy {
    pub state: RollingState,
}

/// Number of batches needed to cover `total` in steps of `batch_size`
/// (one batch when the step is zero).
pub open spec fn batch_count(total: int, batch_size: int) -> int {
    if batch_size == 0 {
        1
    } else {
        (total + (batch_size - 1)) / batch_size
    }
}

/// The batch size a configuration asks for (25% when unset).
pub open spec fn configured_batch_size(config: StrategyConfig) -> u32 {
    match config.batch_size {
        Some(b) => b,
        None => 25,
    }
}

/// The first rule of a rolling-update configuration that is broken.
pub open spec fn rolling_config_error(config: StrategyConfig) -> Option<StrategyConfigError> {
    if config.batch_size == Some(0u32) {
        Some(StrategyConfigError::ZeroBatchSize)
    } else if config.batch_size is Some && config.batch_size->0 > 100 {
        Some(StrategyConfigError::BatchSizeOver100)
    } else if config.health_check_timeout_secs == Some(0u64) {
        Some(StrategyConfigError::ZeroHealthCheckTimeout)
    } else {
        None
    }
}

/// The message reported when a batch fails and rollback is requested.
pub open spec fn batch_failure_text(batch: int, total: int) -> Seq<char> {
    "Rolling update failed at batch "@ + decimal((batch + 1) as nat) + "/"@ + decimal(total as nat)
        + ". Rollback initiated."@
}

/// The message reported when all batches have run.
pub open spec fn completion_text(total: int, completed: int) -> Seq<char> {
    "Rolling update completed: "@ + decimal(total as nat) + " batches, "@
        + decimal((if completed < 100 { completed } else { 100 }) as nat) + "% updated"@
}

impl RollingUpdateStrategy {
    pub fn new() -> (r: Self)
        ensures
            r.state.current_batch == 0,
            r.state.total_batches == 0,
            r.state.completed_instances == 0,
            r.state.failed_instances == 0,
            r.state.previous_version is None,
    {
        RollingUpdateStrategy {
            state: RollingState {
                current_batch: 0,
                total_batches: 0,
                completed_instances: 0,
                failed_instances: 0,
                previous_version: None,
            },
        }
    }

    /// Number of batches of `batch_size` needed to cover `total` instances.
    pub fn calculate_batches(&self, total: u32, batch_size: u32) -> (r: u32)
        requires
            batch_size == 0 || total + batch_size - 1 <= u32::MAX,
        ensures
            r == batch_count(total as int, batch_size as int),
    {
        if batch_size == 0 {
            return 1;
        }
        (total + (batch_size - 1)) / batch_size
    }

    /// Starts a run over 100% of the instances; returns the batch size and
    /// the number of batches.
    pub fn begin(&mut self, config: &StrategyConfig) -> (r: (u32, u32))
        requires
            configured_batch_size(*config) + 99 <= u32::MAX,
        ensures
            r.0 == configured_batch_size(*config),
            r.1 == batch_count(100, r.0 as int),
            final(self).state.total_batches == r.1,
            final(self).state.current_batch == 0,
            final(self).state.completed_instances == old(self).state.completed_instances,
            final(self).state.failed_instances == old(self).state.failed_instances,
            final(self).state.previous_version == old(self).state.previous_version,
    {
        let batch_size = match config.batch_size {
            Some(b) => b,
            None => 25,
        };
        let total = self.calculate_batches(100, batch_size);
        self.state.total_batches = total;
        self.state.current_batch = 0;
        (batch_size, total)
    }

    /// Marks batch `batch` (counted from 0) as the one being deployed.
    pub fn start_batch(&mut self, batch: u32)
        requires
            batch < u32::MAX,
        ensures
            final(self).state.current_batch == batch + 1,
            final(self).state.total_batches == old(self).state.total_batches,
            final(self).state.completed_instances == old(self).state.completed_instances,
            final(self).state.failed_instances == old(self).state.failed_instances,
            final(self).state.previous_version == old(self).state.previous_version,
    {
        self.state.current_batch = batch + 1;
    }

    /// Records the outcome of batch `batch`. A failed batch is counted; when
    /// rollback on failure is requested the run stops with a failure result.
    /// A successful batch adds its percentage to the completed count.
    pub fn record_batch(&mut self, batch: u32, succeeded: bool, batch_size: u32, config: &StrategyConfig)
        -> (r: Option<DeploymentResult>)
        requires
            succeeded ==> old(self).state.completed_instances + batch_size <= u32::MAX,
            !succeeded ==> old(self).state.failed_instances < u32::MAX,
        ensures
            final(self).state.current_batch == old(self).state.current_batch,
            final(self).state.total_batches == old(self).state.total_batches,
            final(self).state.previous_version == old(self).state.previous_version,
            succeeded ==> {
                &&& final(self).state.completed_instances == old(self).state.completed_instances + batch_size
                &&& final(self).state.failed_instances == old(self).state.failed_instances
                &&& r is None
            },
            !succeeded ==> {
                &&& final(self).state.completed_instances == old(self).state.completed_instances
                &&& final(self).state.failed_instances == old(self).state.failed_instances + 1
                &&& (config.rollback_on_failure <==> r is Some)
                &&& r matches Some(res) ==> !res.success
                    && res.message@ == batch_failure_text(batch as int, old(self).state.total_batches as int)
                    && res.version is None && res.rollback_version is None
            },
    {
        if !succeeded {
            self.state.failed_instances = self.state.failed_instances + 1;
            if config.rollback_on_failure {
                let mut msg = to_owned_string("Rolling update failed at batch ");
                let n = u64_to_string(batch as u64 + 1);
                push_str(&mut msg, n.as_str());
                push_str(&mut msg, "/");
                let t = u64_to_string(self.state.total_batches as u64);
                push_str(&mut msg, t.as_str());
                push_str(&mut msg, ". Rollback initiated.");
                return Some(DeploymentResult::failure(msg.as_str()));
            }
        } else {
            self.state.completed_instances = self.state.completed_instances + batch_size;
        }
        None
    }

    /// Whether a health-check wait follows batch `batch` (every batch but the last).
    pub fn needs_health_wait(&self, batch: u32) -> (r: bool)
        ensures
            r == (batch + 1 < self.state.total_batches),
    {
        self.state.total_batches > 0 && batch < self.state.total_batches - 1
    }

    /// The result reported after all batches have run.
    pub fn completion(&self) -> (r: DeploymentResult)
        ensures
            r.success,
            r.message@ == completion_text(self.state.total_batches as int, self.state.completed_instances as int),
            r.version is None,
            r.rollback_version is None,
    {
        let mut msg = to_owned_string("Rolling update completed: ");
        let t = u64_to_string(self.state.total_batches as u64);
        push_str(&mut msg, t.as_str());
        push_str(&mut msg, " batches, ");
        let pct: u32 = if self.state.completed_instances < 100 { self.state.completed_instances } else { 100 };
        let p = u64_to_string(pct as u64);
        push_str(&mut msg, p.as_str());
        push_str(&mut msg, "% updated");
        DeploymentResult::success(msg.as_str())
    }

    /// Rolls back to the recorded previous version, if there is one.
    pub fn rollback(&self) -> (r: DeploymentResult)
        ensures
            r.success == (self.state.previous_version is Some),
            self.state.previous_version matches Some(v) ==> r.message@ == "Rolled back to version "@ + v@,
            self.state.previous_version is None ==> r.message@ == "No previous version available for rollback"@,
    {
        match &self.state.previous_version {
            Some(v) => {
                let mut msg = to_owned_string("Rolled back to version ");
                push_str(&mut msg, v.as_str());
                DeploymentResult::success(msg.as_str())
            },
            None => DeploymentResult::failure("No previous version available for rollback"),
        }
    }
}

impl DeploymentStrategy for RollingUpdateStrategy {
    fn deployment_type(&self) -> (r: DeploymentType)
        ensures
            r == DeploymentType::RollingUpdate,
    {
        DeploymentType::RollingUpdate
    }

    /// Accepts a batch size of 1 to 100 (when set) and a nonzero health
    /// check timeout (when set).
    fn validate_config(&self, config: &StrategyConfig) -> (r: Result<(), StrategyConfigError>)
        ensures
            r == match rolling_config_error(*config) {
                Some(e) => Err::<(), StrategyConfigError>(e),
                None => Ok(()),
            },
    {
        if let Some(b) = config.batch_size {
            if b == 0 {
                return Err(StrategyConfigError::ZeroBatchSize);
            }
            if b > 100 {
                return Err(StrategyConfigError::BatchSizeOver100);
            }
        }
        if let Some(t) = config.health_check_timeout_secs {
            if t == 0 {
                return Err(StrategyConfigError::ZeroHealthCheckTimeout);
            }
        }
        Ok(())
    }
}

/// With a positive batch size, the batches cover everything and the last
/// batch is needed: `(n - 1) * b < total <= n * b` for `n = batch_count`.
pub proof fn lemma_batches_cover(total: nat, b: nat)
    requires
        b > 0,
    ensures
        batch_count(total as int, b as int) * b >= total,
        (batch_count(total as int, b as int) - 1) * b < total || total == 0,
{
    let n = batch_count(total as int, b as int);
    assert(n == (total + b - 1) / (b as int));
    vstd::arithmetic::div_mod::lemma_fundamental_div_mod((total + b - 1) as int, b as int);
    let r = (total + b - 1) % (b as int);
    assert(0 <= r < b) by {
        vstd::arithmetic::div_mod::lemma_mod_bound((total + b - 1) as int, b as int);
    }
    assert(n * b == total + b - 1 - r) by (nonlinear_arith)
        requires
            total + b - 1 == b * n + r;
    assert((n - 1) * b == n * b - b) by (nonlinear_arith);
}

/// While a rolling update runs with a batch size that passed validation,
/// the completed percentage before any batch stays below 100 + batch size,
/// so recording a successful batch never exceeds the counter's range.
pub proof fn lemma_completed_in_range(b: nat, k: nat, completed: nat)
    requires
        1 <= b <= 100,
        k < batch_count(100, b as int),
        completed <= k * b,
    ensures
        completed + b <= 100 + b,
        completed + b <= u32::MAX,
{
    lemma_batches_cover(100, b);
    assert(k * b <= (batch_count(100, b as int) - 1) * b) by (nonlinear_arith)
        requires
            k <= batch_count(100, b as int) - 1,
            b >= 1;
}

/// Configuration for the rolling update strategy.
#[derive(Debug, Clone)]
pub struct RollingUpdateConfig {
    /// Percentage of instances to update per batch (1-100).
    pub batch_percentage: u32,
    /// Maximum number of instances that can be unavailable during update.
    pub max_unavailable: Option<u32>,
    /// Maximum number of extra instances that can be created during update.
    pub max_surge: Option<u32>,
    /// Time to wait between batches, in seconds.
    pub batch_delay_secs: u64,
    /// Whether to pause between batches for manual approval.
    pub pause_between_batches: bool,
}

impl Default for RollingUpdateConfig {
    fn default() -> (r: Self)
        ensures
            r.batch_percentage == 25,
            r.max_unavailable == Some(1u32),
            r.max_surge == Some(1u32),
            r.batch_delay_secs == 5,
            !r.pause_between_batches,
    {
        RollingUpdateConfig {
            batch_percentage: 25,
            max_unavailable: Some(1),
            max_surge: Some(1),
            batch_delay_secs: 5,
            pause_between_batches: false,
        }
    }
}

impl RollingUpdateConfig {
    /// Takes the batch percentage from a strategy configuration (25 when
    /// unset); everything else is the default.
    pub fn from_strategy_config(config: &StrategyConfig) -> (r: Self)
        ensures
            r.batch_percentage == configured_batch_size(*config),
            r.max_unavailable == Some(1u32),
            r.max_surge == Some(1u32),
            r.batch_delay_secs == 5,
            !r.pause_between_batches,
    {
        let batch = match config.batch_size {
            Some(b) => b,
            None => 25,
        };
        RollingUpdateConfig { batch_percentage: batch, ..Default::default() }
    }
}

} // verus!
