//! Decisions of a deployment run: which strategy and settings an
//! environment gets, which phases a (possibly resumed) deployment still
//! runs, which hooks of a phase are still pending, when a hook failure
//! stops the deployment, and what a finished deployment reports.
//! The caller performs each step (hooks, provider calls, checkpoint writes).

use vstd::prelude::*;
use crate::clock::unix_millis;
use crate::infrastructure::provider::{app_only_spelling, DeployMode};
use crate::json::{json_quote, json_string_field, json_string_literal, read_json_string_field};
use crate::config::schema::{ConfigValue, EnvironmentConfig};
use crate::hooks::executor::HookResult;
use crate::hooks::types::HookConfig;
use crate::keyed::{first_key_at, get_value, key_value};
use crate::text::{
    clone_opt_string, decimal, lowercase_of, opt_view, opt_view_or_empty, push_str, seq_views,
    to_owned_string, u128_to_string,
};
use super::checkpoint::{phase_ordinal, DeploymentPhase};
use super::rolling::RollingUpdateStrategy;
use super::strategy::{parse_deployment_type, DeploymentResult, DeploymentType, StrategyConfig};

verus! {

/// Creates the strategy and its settings for an environment.
pub struct StrategyFactory;

/// The deployment type an environment asks for (rolling update when its
/// text names none).
pub open spec fn environment_deployment_type(env: EnvironmentConfig) -> DeploymentType {
    match parse_deployment_type(env.deployment_type@) {
        Some(t) => t,
        None => DeploymentType::RollingUpdate,
    }
}

/// The non-negative integer configured under `key`, if that is what the
/// first entry named `key` holds.
pub open spec fn configured_u64(env: EnvironmentConfig, key: Seq<char>) -> Option<u64> {
    match key_value(env.config@, key) {
        Some(ConfigValue::Unsigned(n)) => Some(n),
        _ => None,
    }
}

/// The boolean configured under `key`, if that is what the first entry
/// named `key` holds.
pub open spec fn configured_bool(env: EnvironmentConfig, key: Seq<char>) -> Option<bool> {
    match key_value(env.config@, key) {
        Some(ConfigValue::Bool(b)) => Some(b),
        _ => None,
    }
}

/// The strategy settings of an environment: the defaults, overridden by
/// `batch_size`, `health_check_timeout_secs` and `rollback_on_failure`
/// where configured; an all-in deployment always uses one batch of 100%.
pub open spec fn strategy_config_for(env: EnvironmentConfig) -> StrategyConfig {
    let t = environment_deployment_type(env);
    StrategyConfig {
        deployment_type: t,
        batch_size: if t == DeploymentType::AllIn {
            Some(100u32)
        } else {
            match configured_u64(env, "batch_size"@) {
                Some(n) => Some(n as u32),
                None => Some(25u32),
            }
        },
        health_check_timeout_secs: match configured_u64(env, "health_check_timeout_secs"@) {
            Some(n) => Some(n),
            None => Some(300u64),
        },
        rollback_on_failure: match configured_bool(env, "rollback_on_failure"@) {
            Some(b) => b,
            None => true,
        },
    }
}

fn config_u64(env: &EnvironmentConfig, key: &str) -> (r: Option<u64>)
    ensures
        r == configured_u64(*env, key@),
{
    match get_value(&env.config, key) {
        Some(v) => v.as_u64(),
        None => None,
    }
}

fn config_bool(env: &EnvironmentConfig, key: &str) -> (r: Option<bool>)
    ensures
        r == configured_bool(*env, key@),
{
    match get_value(&env.config, key) {
        Some(v) => v.as_bool(),
        None => None,
    }
}

impl StrategyFactory {
    /// Every deployment type runs as a rolling update; an all-in deployment
    /// is a rolling update with a single batch of 100%.
    pub fn create(deployment_type: &DeploymentType) -> (r: RollingUpdateStrategy)
        ensures
            r.state.current_batch == 0,
            r.state.total_batches == 0,
            r.state.completed_instances == 0,
            r.state.failed_instances == 0,
            r.state.previous_version is None,
    {
        match deployment_type {
            DeploymentType::RollingUpdate => RollingUpdateStrategy::new(),
            DeploymentType::AllIn => RollingUpdateStrategy::new(),
        }
    }

    pub fn create_config(env: &EnvironmentConfig) -> (r: StrategyConfig)
        ensures
            r == strategy_config_for(*env),
    {
        let deployment_type = match env.get_deployment_type() {
            Some(t) => t,
            None => DeploymentType::RollingUpdate,
        };
        let mut config = StrategyConfig { deployment_type, ..Default::default() };
        if let Some(batch) = config_u64(env, "batch_size") {
            #[verifier::truncate]
            let b = batch as u32;
            config.batch_size = Some(b);
        }
        if let Some(timeout) = config_u64(env, "health_check_timeout_secs") {
            config.health_check_timeout_secs = Some(timeout);
        }
        if let Some(rollback) = config_bool(env, "rollback_on_failure") {
            config.rollback_on_failure = rollback;
        }
        if deployment_type == DeploymentType::AllIn {
            config.batch_size = Some(100);
        }
        config
    }
}

/// Which hooks a deployment runs.
#[derive(Debug, Clone, Copy, PartialEq, Eq, Structural)]
pub struct HookExecutionConfig {
    /// Skip all hooks.
    pub skip_all: bool,
    /// Skip only pre-deploy hooks.
    pub skip_pre: bool,
    /// Skip only post-deploy hooks.
    pub skip_post: bool,
}

/// Whether a hook configuration runs the pre-deploy hooks.
pub open spec fn runs_pre_hooks(c: HookExecutionConfig) -> bool {
    !c.skip_all && !c.skip_pre
}

/// Whether a hook configuration runs the post-deploy hooks.
pub open spec fn runs_post_hooks(c: HookExecutionConfig) -> bool {
    !c.skip_all && !c.skip_post
}

impl Default for HookExecutionConfig {
    fn default() -> (r: Self)
        ensures
            !r.skip_all && !r.skip_pre && !r.skip_post,
    {
        HookExecutionConfig { skip_all: false, skip_pre: false, skip_post: false }
    }
}

impl HookExecutionConfig {
    pub fn skip_none() -> (r: Self)
        ensures
            !r.skip_all && !r.skip_pre && !r.skip_post,
    {
        Self::default()
    }

    pub fn skip_all_hooks() -> (r: Self)
        ensures
            r.skip_all && !r.skip_pre && !r.skip_post,
    {
        HookExecutionConfig { skip_all: true, skip_pre: false, skip_post: false }
    }

    pub fn should_run_pre(&self) -> (r: bool)
        ensures
            r == runs_pre_hooks(*self),
    {
        !self.skip_all && !self.skip_pre
    }

    pub fn should_run_post(&self) -> (r: bool)
        ensures
            r == runs_post_hooks(*self),
    {
        !self.skip_all && !self.skip_post
    }
}

/// Skipping all hooks runs neither the pre-deploy nor the post-deploy
/// hooks, whatever the other two settings say; skipping none runs both.
pub proof fn lemma_skip_all_runs_no_hooks(c: HookExecutionConfig)
    ensures
        c.skip_all ==> !runs_pre_hooks(c) && !runs_post_hooks(c),
        (!c.skip_all && !c.skip_pre && !c.skip_post) ==> runs_pre_hooks(c) && runs_post_hooks(c),
{
}

/// A step of a deployment run, in the order the steps run.
#[derive(Debug, Clone, Copy, PartialEq, Eq, Structural)]
pub enum ExecutionStep {
    PreHooks,
    AppDeployment,
    HealthCheck,
    PostHooks,
}

/// The phase a step belongs to.
pub open spec fn step_phase(s: ExecutionStep) -> DeploymentPhase {
    match s {
        ExecutionStep::PreHooks => DeploymentPhase::PreHooks,
        ExecutionStep::AppDeployment => DeploymentPhase::AppDeployment,
        ExecutionStep::HealthCheck => DeploymentPhase::HealthCheck,
        ExecutionStep::PostHooks => DeploymentPhase::PostHooks,
    }
}

/// The phase recorded once a step has succeeded.
pub open spec fn phase_after_step(s: ExecutionStep) -> DeploymentPhase {
    match s {
        ExecutionStep::PreHooks => DeploymentPhase::AppDeployment,
        ExecutionStep::AppDeployment => DeploymentPhase::HealthCheck,
        ExecutionStep::HealthCheck => DeploymentPhase::PostHooks,
        ExecutionStep::PostHooks => DeploymentPhase::Completed,
    }
}

/// The steps a deployment starting (or resuming) at `start` runs: the
/// pre-deploy hooks only from the very start, then every step whose phase
/// is not before `start`.
pub open spec fn planned_steps(start: DeploymentPhase) -> Seq<ExecutionStep> {
    match start {
        DeploymentPhase::PreHooks => seq![
            ExecutionStep::PreHooks,
            ExecutionStep::AppDeployment,
            ExecutionStep::HealthCheck,
            ExecutionStep::PostHooks,
        ],
        DeploymentPhase::InfrastructureProvisioning | DeploymentPhase::AppDeployment => seq![
            ExecutionStep::AppDeployment,
            ExecutionStep::HealthCheck,
            ExecutionStep::PostHooks,
        ],
        DeploymentPhase::HealthCheck => seq![ExecutionStep::HealthCheck, ExecutionStep::PostHooks],
        DeploymentPhase::PostHooks => seq![ExecutionStep::PostHooks],
        DeploymentPhase::Completed => seq![],
    }
}

/// The steps a deployment starting at `starting` runs, in order.
pub fn plan_steps(starting: DeploymentPhase) -> (r: Vec<ExecutionStep>)
    ensures
        r@ == planned_steps(starting),
{
    let mut steps: Vec<ExecutionStep> = Vec::new();
    let start = starting.ordinal();
    if starting == DeploymentPhase::PreHooks {
        steps.push(ExecutionStep::PreHooks);
    }
    if start <= DeploymentPhase::AppDeployment.ordinal() {
        steps.push(ExecutionStep::AppDeployment);
    }
    if start <= DeploymentPhase::HealthCheck.ordinal() {
        steps.push(ExecutionStep::HealthCheck);
    }
    if start <= DeploymentPhase::PostHooks.ordinal() {
        steps.push(ExecutionStep::PostHooks);
    }
    assert(steps@ =~= planned_steps(starting));
    steps
}

/// The phase to record once `step` has succeeded.
pub fn phase_after(step: ExecutionStep) -> (r: DeploymentPhase)
    ensures
        r == phase_after_step(step),
{
    match step {
        ExecutionStep::PreHooks => DeploymentPhase::AppDeployment,
        ExecutionStep::AppDeployment => DeploymentPhase::HealthCheck,
        ExecutionStep::HealthCheck => DeploymentPhase::PostHooks,
        ExecutionStep::PostHooks => DeploymentPhase::Completed,
    }
}

/// A resumed deployment never runs a step of a phase before the one it
/// resumes at; each step starts at the phase the previous one recorded;
/// and a deployment that has anything left to do ends by recording
/// `Completed`.
pub proof fn lemma_plan_resumes_in_order(start: DeploymentPhase)
    ensures
        forall|i: int| 0 <= i < planned_steps(start).len()
            ==> phase_ordinal(start) <= phase_ordinal(step_phase(#[trigger] planned_steps(start)[i])),
        forall|i: int| 0 <= i < planned_steps(start).len() - 1
            ==> phase_after_step(#[trigger] planned_steps(start)[i]) == step_phase(planned_steps(start)[i + 1]),
        start != DeploymentPhase::Completed ==> planned_steps(start).len() > 0
            && phase_after_step(planned_steps(start).last()) == DeploymentPhase::Completed,
        start == DeploymentPhase::Completed ==> planned_steps(start).len() == 0,
{
}

/// The positions, in order, of the hooks among the first `n` that are not
/// in the list of completed hook names.
pub open spec fn pending_upto(hooks: Seq<HookConfig>, completed: Seq<String>, n: nat) -> Seq<usize>
    decreases n,
{
    if n == 0 {
        seq![]
    } else {
        let prev = pending_upto(hooks, completed, (n - 1) as nat);
        if seq_views(completed).contains(hooks[n - 1].name@) {
            prev
        } else {
            prev.push((n - 1) as usize)
        }
    }
}

fn name_listed(names: &Vec<String>, name: &String) -> (r: bool)
    ensures
        r == seq_views(names@).contains(name@),
{
    let mut i: usize = 0;
    while i < names.len()
        invariant
            i <= names@.len(),
            forall|k: int| 0 <= k < i ==> names@[k]@ != name@,
        decreases names.len() - i,
    {
        if names[i] == *name {
            assert(seq_views(names@)[i as int] == name@);
            return true;
        }
        i = i + 1;
    }
    assert forall|k: int| 0 <= k < seq_views(names@).len() implies seq_views(names@)[k] != name@ by {}
    false
}

/// Positions of the hooks that still have to run: those whose name is not
/// among the hooks already completed, in their configured order.
pub fn pending_hooks(hooks: &Vec<HookConfig>, completed: &Vec<String>) -> (r: Vec<usize>)
    ensures
        r@ == pending_upto(hooks@, completed@, hooks@.len() as nat),
{
    let mut r: Vec<usize> = Vec::new();
    let mut i: usize = 0;
    while i < hooks.len()
        invariant
            i <= hooks@.len(),
            r@ == pending_upto(hooks@, completed@, i as nat),
        decreases hooks.len() - i,
    {
        if !name_listed(completed, &hooks[i].name) {
            r.push(i);
        }
        i = i + 1;
    }
    r
}

/// The message of a hook failure that stops a deployment.
pub open spec fn phase_hook_failure_text(pre: bool, name: Seq<char>, error: Seq<char>) -> Seq<char> {
    (if pre { "Pre-deploy hook '"@ } else { "Post-deploy hook '"@ }) + name + "' failed: "@ + error
}

/// What the result of one hook means for the deployment: a failed hook
/// that is marked `fail_on_error` stops it with a message; anything else
/// lets it go on.
pub fn check_hook_result(pre: bool, hook: &HookConfig, result: &HookResult) -> (r: Result<(), String>)
    ensures
        match r {
            Ok(()) => result.success || !hook.fail_on_error,
            Err(m) => !result.success && hook.fail_on_error
                && m@ == phase_hook_failure_text(pre, hook.name@, opt_view_or_empty(result.error)),
        },
{
    if !result.success && hook.fail_on_error {
        let mut m = if pre {
            to_owned_string("Pre-deploy hook '")
        } else {
            to_owned_string("Post-deploy hook '")
        };
        push_str(&mut m, hook.name.as_str());
        push_str(&mut m, "' failed: ");
        match &result.error {
            Some(e) => push_str(&mut m, e.as_str()),
            None => {},
        }
        Err(m)
    } else {
        Ok(())
    }
}

/// The message of a deployment that ran all its steps.
pub open spec fn completion_message(env_name: Seq<char>) -> Seq<char> {
    "Deployment to '"@ + env_name + "' completed successfully"@
}

/// The result of a deployment that ran all its steps: a success that
/// names the environment and carries the environment's image as version.
pub fn completed_result(env_name: &str, env: &EnvironmentConfig) -> (r: DeploymentResult)
    ensures
        r.success,
        r.message@ == completion_message(env_name@),
        opt_view(r.version) == opt_view(env.image),
        r.rollback_version is None,
{
    let mut m = to_owned_string("Deployment to '");
    push_str(&mut m, env_name);
    push_str(&mut m, "' completed successfully");
    DeploymentResult {
        success: true,
        message: m,
        version: clone_opt_string(&env.image),
        rollback_version: None,
    }
}

/// The identifier of a deployment of `env_name` started `millis`
/// milliseconds after the Unix epoch.
pub open spec fn deployment_id_text(env_name: Seq<char>, millis: nat) -> Seq<char> {
    "dep_"@ + env_name + "_"@ + decimal(millis)
}

/// `dep_{env_name}_{millis}`.
pub fn deployment_id_at(env_name: &str, millis: u128) -> (r: String)
    ensures
        r@ == deployment_id_text(env_name@, millis as nat),
{
    let mut r = to_owned_string("dep_");
    push_str(&mut r, env_name);
    push_str(&mut r, "_");
    let n = u128_to_string(millis);
    push_str(&mut r, n.as_str());
    r
}

/// A new deployment identifier, `dep_{env_name}_{millis}`, from the current
/// time in milliseconds since the Unix epoch (0 if the clock reads earlier).
pub fn generate_deployment_id(env_name: &str) -> (r: String)
    ensures
        exists|millis: nat| r@ == deployment_id_text(env_name@, millis),
{
    let millis = unix_millis();
    deployment_id_at(env_name, millis)
}

/// The context stored with a new checkpoint: the JSON object of the
/// deploy mode, the dry-run flag and the environment (keys in order).
pub open spec fn checkpoint_context_text(env_name: Seq<char>, mode: DeployMode, dry_run: bool) -> Seq<char> {
    "{\"deploy_mode\":"@ + json_string_literal(if mode == DeployMode::Full { "full"@ } else { "app-only"@ })
        + ",\"dry_run\":"@ + (if dry_run { "true"@ } else { "false"@ })
        + ",\"environment\":"@ + json_string_literal(env_name) + "}"@
}

/// The context stored with a new checkpoint.
pub fn checkpoint_context(env_name: &str, mode: DeployMode, dry_run: bool) -> (r: String)
    ensures
        r@ == checkpoint_context_text(env_name@, mode, dry_run),
{
    let mut s = to_owned_string("{\"deploy_mode\":");
    let m = json_quote(mode.as_str());
    push_str(&mut s, m.as_str());
    push_str(&mut s, ",\"dry_run\":");
    push_str(&mut s, if dry_run { "true" } else { "false" });
    push_str(&mut s, ",\"environment\":");
    let e = json_quote(env_name);
    push_str(&mut s, e.as_str());
    push_str(&mut s, "}");
    s
}

/// How a resumed deployment runs: the deploy mode and environment stored
/// in the checkpoint's context; without a context (or a readable field)
/// the full mode and the deployment's identifier as the environment.
pub open spec fn resumed_settings(deployment_id: Seq<char>, context: Option<Seq<char>>) -> (DeployMode, Seq<char>) {
    match context {
        None => (DeployMode::Full, deployment_id),
        Some(c) => (
            match json_string_field(c, "deploy_mode"@) {
                Some(m) => if app_only_spelling(lowercase_of(m)) { DeployMode::AppOnly } else { DeployMode::Full },
                None => DeployMode::Full,
            },
            match json_string_field(c, "environment"@) {
                Some(e) => e,
                None => deployment_id,
            },
        ),
    }
}

/// How a resumed deployment runs.
pub fn resume_settings(deployment_id: &str, context: &Option<String>) -> (r: (DeployMode, String))
    ensures
        (r.0, r.1@) == resumed_settings(deployment_id@, opt_view(*context)),
{
    match context {
        None => (DeployMode::Full, to_owned_string(deployment_id)),
        Some(c) => {
            let mode = match read_json_string_field(c.as_str(), "deploy_mode") {
                Some(m) => DeployMode::from_str(m.as_str()),
                None => DeployMode::Full,
            };
            let name = match read_json_string_field(c.as_str(), "environment") {
                Some(e) => e,
                None => to_owned_string(deployment_id),
            };
            (mode, name)
        },
    }
}

} // verus!

verus! {

/// The rollback setting of a strategy is the environment's: when the first
/// `rollback_on_failure` entry of its settings holds a boolean, that boolean
/// decides whether a failed batch is rolled back; without such a boolean,
/// failures roll back.
pub proof fn lemma_rollback_setting_followed(env: EnvironmentConfig, i: int, b: bool)
    ensures
        first_key_at(env.config@, "rollback_on_failure"@, i) && env.config@[i].1 == ConfigValue::Bool(b)
            ==> strategy_config_for(env).rollback_on_failure == b,
        !(exists|j: int| 0 <= j < env.config@.len() && env.config@[j].0@ == "rollback_on_failure"@)
            ==> strategy_config_for(env).rollback_on_failure,
{
    if first_key_at(env.config@, "rollback_on_failure"@, i) && env.config@[i].1 == ConfigValue::Bool(b) {
        let j = choose|j: int| first_key_at(env.config@, "rollback_on_failure"@, j);
        crate::keyed::lemma_first_key_unique(env.config@, "rollback_on_failure"@, i, j);
        assert(key_value(env.config@, "rollback_on_failure"@) == Some(ConfigValue::Bool(b)));
    }
    if !(exists|j: int| 0 <= j < env.config@.len() && env.config@[j].0@ == "rollback_on_failure"@) {
        assert(!(exists|j: int| first_key_at(env.config@, "rollback_on_failure"@, j)));
    }
}

/// The other strategy settings follow the environment too: an all-in
/// deployment runs one batch of 100%; otherwise the batch size is the
/// first `batch_size` entry when it holds a number (25% without one); the
/// health check timeout is the first `health_check_timeout_secs` entry when
/// it holds a number (300 seconds without one).
pub proof fn lemma_strategy_settings_followed(env: EnvironmentConfig, n: u64)
    ensures
        parse_deployment_type(env.deployment_type@) == Some(DeploymentType::AllIn)
            ==> strategy_config_for(env).batch_size == Some(100u32),
        parse_deployment_type(env.deployment_type@) != Some(DeploymentType::AllIn)
            && key_value(env.config@, "batch_size"@) == Some(ConfigValue::Unsigned(n)) && n <= u32::MAX
            ==> strategy_config_for(env).batch_size == Some(n as u32),
        parse_deployment_type(env.deployment_type@) != Some(DeploymentType::AllIn)
            && key_value(env.config@, "batch_size"@) is None
            ==> strategy_config_for(env).batch_size == Some(25u32),
        key_value(env.config@, "health_check_timeout_secs"@) == Some(ConfigValue::Unsigned(n))
            ==> strategy_config_for(env).health_check_timeout_secs == Some(n),
        key_value(env.config@, "health_check_timeout_secs"@) is None
            ==> strategy_config_for(env).health_check_timeout_secs == Some(300u64),
        strategy_config_for(env).deployment_type == (match parse_deployment_type(env.deployment_type@) {
            Some(t) => t,
            None => DeploymentType::RollingUpdate,
        }),
{
}

} // verus!

