//! Hook results, the context hooks run in, and the decisions of the hook
//! runner: what a dry run reports, how a timeout or an executor error is
//! recorded, and when a hook's failure stops the deployment.

use vstd::prelude::*;
use core::time::Duration;
use crate::clock::{duration_nanos, whole_seconds};
use crate::error::{DeploymentError, Error};
use crate::infrastructure::provider::DeploymentContext;
use crate::text::{decimal, opt_view, push_str, to_owned_string, u64_to_string};
use super::types::{hook_type_name, HookConfig, HookType, HooksConfig};

verus! {

/// `Duration::new`. Trusted: it does not panic when `nanos` is below one
/// second (no carry into `secs`), and the duration it returns spans `secs`
/// whole seconds and `nanos` nanoseconds, as std documents.
pub assume_specification[ Duration::new ](secs: u64, nanos: u32) -> (r: Duration)
    requires
        nanos < 1_000_000_000,
    ensures
        whole_seconds(r) == secs,
        duration_nanos(r) == secs * 1_000_000_000 + nanos,
;

/// `Duration::clone`. Trusted: a duration is a plain value and its clone
/// is equal to it.
pub assume_specification[ <Duration as Clone>::clone ](d: &Duration) -> (r: Duration)
    ensures
        r == *d,
;

/// Result of a hook execution.
#[derive(Debug, Clone)]
pub struct HookResult {
    pub name: String,
    pub success: bool,
    pub exit_code: Option<i32>,
    /// Output or logs of the hook.
    pub output: String,
    /// Error message, when the hook failed.
    pub error: Option<String>,
    pub duration: Duration,
}

impl HookResult {
    pub fn success(name: &str, output: String, duration: Duration) -> (r: Self)
        ensures
            r.name@ == name@,
            r.success,
            r.exit_code == Some(0i32),
            r.output == output,
            r.error is None,
            r.duration == duration,
    {
        HookResult { name: to_owned_string(name), success: true, exit_code: Some(0), output, error: None, duration }
    }

    pub fn failure(name: &str, error: String, duration: Duration) -> (r: Self)
        ensures
            r.name@ == name@,
            !r.success,
            r.exit_code is None,
            r.output@.len() == 0,
            r.error == Some(error),
            r.duration == duration,
    {
        HookResult { name: to_owned_string(name), success: false, exit_code: None, output: String::new(), error: Some(error), duration }
    }

    pub fn with_exit_code(self, code: i32) -> (r: Self)
        ensures
            r.exit_code == Some(code),
            r.name == self.name && r.success == self.success && r.output == self.output,
            r.error == self.error && r.duration == self.duration,
    {
        HookResult { exit_code: Some(code), ..self }
    }

    pub fn with_output(self, output: String) -> (r: Self)
        ensures
            r.output == output,
            r.name == self.name && r.success == self.success && r.exit_code == self.exit_code,
            r.error == self.error && r.duration == self.duration,
    {
        HookResult { output, ..self }
    }
}

/// Context a hook runs in.
#[derive(Debug, Clone)]
pub struct HookContext {
    pub environment: String,
    pub infrastructure_type: String,
    pub image: Option<String>,
    pub previous_image: Option<String>,
    pub deployment_context: Option<DeploymentContext>,
    pub aws_region: Option<String>,
    pub k8s_namespace: Option<String>,
    pub ecs_cluster: Option<String>,
    pub lambda_function: Option<String>,
    pub dry_run: bool,
}

impl Default for HookContext {
    fn default() -> (r: Self)
        ensures
            r.environment@.len() == 0 && r.infrastructure_type@.len() == 0,
            r.image is None && r.previous_image is None && r.deployment_context is None,
            r.aws_region is None && r.k8s_namespace is None && r.ecs_cluster is None,
            r.lambda_function is None && !r.dry_run,
    {
        HookContext {
            environment: String::new(),
            infrastructure_type: String::new(),
            image: None,
            previous_image: None,
            deployment_context: None,
            aws_region: None,
            k8s_namespace: None,
            ecs_cluster: None,
            lambda_function: None,
            dry_run: false,
        }
    }
}

impl HookContext {
    pub fn new(environment: &str, infrastructure_type: &str) -> (r: Self)
        ensures
            r.environment@ == environment@ && r.infrastructure_type@ == infrastructure_type@,
            r.image is None && r.previous_image is None && r.deployment_context is None,
            r.aws_region is None && r.k8s_namespace is None && r.ecs_cluster is None,
            r.lambda_function is None && !r.dry_run,
    {
        HookContext {
            environment: to_owned_string(environment),
            infrastructure_type: to_owned_string(infrastructure_type),
            ..Default::default()
        }
    }

    pub fn with_image(self, image: &str) -> (r: Self)
        ensures
            opt_view(r.image) == Some(image@),
            r.environment == self.environment && r.aws_region == self.aws_region,
            r.ecs_cluster == self.ecs_cluster && r.dry_run == self.dry_run,
            r.lambda_function == self.lambda_function && r.k8s_namespace == self.k8s_namespace,
    {
        HookContext { image: Some(to_owned_string(image)), ..self }
    }

    pub fn with_deployment_context(self, ctx: DeploymentContext) -> (r: Self)
        ensures
            r.deployment_context == Some(ctx),
            r.environment == self.environment && r.image == self.image && r.dry_run == self.dry_run,
    {
        HookContext { deployment_context: Some(ctx), ..self }
    }

    pub fn with_aws_region(self, region: &str) -> (r: Self)
        ensures
            opt_view(r.aws_region) == Some(region@),
            r.environment == self.environment && r.image == self.image,
            r.ecs_cluster == self.ecs_cluster && r.dry_run == self.dry_run,
    {
        HookContext { aws_region: Some(to_owned_string(region)), ..self }
    }

    pub fn with_k8s_namespace(self, namespace: &str) -> (r: Self)
        ensures
            opt_view(r.k8s_namespace) == Some(namespace@),
            r.environment == self.environment && r.image == self.image && r.dry_run == self.dry_run,
    {
        HookContext { k8s_namespace: Some(to_owned_string(namespace)), ..self }
    }

    pub fn with_ecs_cluster(self, cluster: &str) -> (r: Self)
        ensures
            opt_view(r.ecs_cluster) == Some(cluster@),
            r.environment == self.environment && r.image == self.image,
            r.aws_region == self.aws_region && r.dry_run == self.dry_run,
    {
        HookContext { ecs_cluster: Some(to_owned_string(cluster)), ..self }
    }

    pub fn with_lambda_function(self, function: &str) -> (r: Self)
        ensures
            opt_view(r.lambda_function) == Some(function@),
            r.environment == self.environment && r.image == self.image && r.dry_run == self.dry_run,
    {
        HookContext { lambda_function: Some(to_owned_string(function)), ..self }
    }

    pub fn with_dry_run(self, dry_run: bool) -> (r: Self)
        ensures
            r.dry_run == dry_run,
            r.environment == self.environment && r.image == self.image,
            r.aws_region == self.aws_region && r.ecs_cluster == self.ecs_cluster,
    {
        HookContext { dry_run, ..self }
    }
}

/// What a dry run reports for a hook: success, without running it.
pub fn dry_run_result(hook: &HookConfig) -> (r: HookResult)
    ensures
        r.name@ == hook.name@,
        r.success,
        r.exit_code == Some(0i32),
        r.output@ == "Dry-run: skipped"@,
        r.error is None,
        duration_nanos(r.duration) == 0,
{
    HookResult::success(hook.name.as_str(), to_owned_string("Dry-run: skipped"), Duration::new(0, 0))
}

/// What is recorded when a hook runs past its timeout.
pub fn timeout_result(hook: &HookConfig, elapsed: Duration) -> (r: HookResult)
    ensures
        r.name@ == hook.name@,
        !r.success,
        r.exit_code is None,
        r.error matches Some(e) && e@ == "Timeout after "@ + decimal(hook.timeout_secs as nat) + " seconds"@,
        r.duration == elapsed,
{
    let mut msg = to_owned_string("Timeout after ");
    let t = u64_to_string(hook.timeout_secs as u64);
    push_str(&mut msg, t.as_str());
    push_str(&mut msg, " seconds");
    HookResult::failure(hook.name.as_str(), msg, elapsed)
}

/// What is recorded when the executor of a hook returns an error.
pub fn executor_error_result(hook: &HookConfig, error_text: &str, elapsed: Duration) -> (r: HookResult)
    ensures
        r.name@ == hook.name@,
        !r.success,
        r.exit_code is None,
        r.error matches Some(e) && e@ == error_text@,
        r.duration == elapsed,
{
    HookResult::failure(hook.name.as_str(), to_owned_string(error_text), elapsed)
}

/// The error when no executor handles the type of a hook.
pub fn missing_executor_error(hook: &HookConfig) -> (r: Error)
    ensures
        r matches Error::Deployment(DeploymentError::HookFailed { hook_name, message })
            && hook_name@ == hook.name@
            && message@ == "No executor found for hook type: "@ + hook_type_name(hook.hook_type),
{
    let mut msg = to_owned_string("No executor found for hook type: ");
    push_str(&mut msg, hook.hook_type.as_str());
    Error::Deployment(DeploymentError::HookFailed { hook_name: hook.name.clone(), message: msg })
}

/// Whether the result of a hook stops the deployment: it failed and the
/// hook fails the deployment on error. The error carries the hook's error
/// message ("Unknown error" when it has none).
pub fn hook_failure_error(hook: &HookConfig, result: &HookResult) -> (r: Option<Error>)
    ensures
        (r is Some) == (!result.success && hook.fail_on_error),
        r matches Some(Error::Deployment(DeploymentError::HookFailed { hook_name, message })) ==> {
            &&& hook_name@ == hook.name@
            &&& message@ == (match result.error { Some(e) => e@, None => "Unknown error"@ })
        },
        r matches Some(e) ==> e is Deployment && e->Deployment_0 is HookFailed,
{
    if !result.success && hook.fail_on_error {
        let message = match &result.error {
            Some(e) => e.clone(),
            None => to_owned_string("Unknown error"),
        };
        Some(Error::Deployment(DeploymentError::HookFailed { hook_name: hook.name.clone(), message }))
    } else {
        None
    }
}

/// All hooks of a configuration, in the order they are searched by name:
/// pre-deploy, post-deploy, on-failure, on-success.
pub open spec fn all_hooks(c: HooksConfig) -> Seq<HookConfig> {
    c.pre_deploy@ + c.post_deploy@ + c.on_failure@ + c.on_success@
}

fn find_in<'a>(hooks: &'a Vec<HookConfig>, name: &str) -> (r: Option<&'a HookConfig>)
    ensures
        r matches Some(h) ==> exists|i: int| 0 <= i < hooks@.len() && hooks@[i] == *h
            && h.name@ == name@ && forall|j: int| 0 <= j < i ==> hooks@[j].name@ != name@,
        r is None ==> forall|j: int| 0 <= j < hooks@.len() ==> hooks@[j].name@ != name@,
{
    let n = to_owned_string(name);
    let mut i: usize = 0;
    while i < hooks.len()
        invariant
            n@ == name@,
            i <= hooks@.len(),
            forall|j: int| 0 <= j < i ==> hooks@[j].name@ != name@,
        decreases hooks.len() - i,
    {
        if hooks[i].name == n {
            return Some(&hooks[i]);
        }
        i = i + 1;
    }
    None
}

/// Finds the first hook named `name`, searching pre-deploy, post-deploy,
/// on-failure and on-success hooks in that order.
pub fn find_hook<'a>(config: &'a HooksConfig, name: &str) -> (r: Option<&'a HookConfig>)
    ensures
        r matches Some(h) ==> exists|i: int| 0 <= i < all_hooks(*config).len()
            && all_hooks(*config)[i] == *h && h.name@ == name@
            && forall|j: int| 0 <= j < i ==> all_hooks(*config)[j].name@ != name@,
        r is None ==> forall|j: int| 0 <= j < all_hooks(*config).len() ==> all_hooks(*config)[j].name@ != name@,
{
    let ghost a = config.pre_deploy@;
    let ghost b = config.post_deploy@;
    let ghost c = config.on_failure@;
    let ghost d = config.on_success@;
    let ghost all = all_hooks(*config);
    assert(all =~= a + b + c + d);
    if let Some(h) = find_in(&config.pre_deploy, name) {
        proof {
            let i = choose|i: int| 0 <= i < a.len() && a[i] == *h && h.name@ == name@
                && forall|j: int| 0 <= j < i ==> a[j].name@ != name@;
            assert(all[i] == a[i]);
            assert forall|j: int| 0 <= j < i implies all[j].name@ != name@ by { assert(all[j] == a[j]); }
        }
        return Some(h);
    }
    if let Some(h) = find_in(&config.post_deploy, name) {
        proof {
            let i = choose|i: int| 0 <= i < b.len() && b[i] == *h && h.name@ == name@
                && forall|j: int| 0 <= j < i ==> b[j].name@ != name@;
            assert(all[a.len() + i] == b[i]);
            assert forall|j: int| 0 <= j < a.len() + i implies all[j].name@ != name@ by {
                if j < a.len() { assert(all[j] == a[j]); } else { assert(all[j] == b[j - a.len()]); }
            }
        }
        return Some(h);
    }
    if let Some(h) = find_in(&config.on_failure, name) {
        proof {
            let i = choose|i: int| 0 <= i < c.len() && c[i] == *h && h.name@ == name@
                && forall|j: int| 0 <= j < i ==> c[j].name@ != name@;
            assert(all[a.len() + b.len() + i] == c[i]);
            assert forall|j: int| 0 <= j < a.len() + b.len() + i implies all[j].name@ != name@ by {
                if j < a.len() { assert(all[j] == a[j]); }
                else if j < a.len() + b.len() { assert(all[j] == b[j - a.len()]); }
                else { assert(all[j] == c[j - a.len() - b.len()]); }
            }
        }
        return Some(h);
    }
    let r = find_in(&config.on_success, name);
    proof {
        match r {
            Some(h) => {
                let i = choose|i: int| 0 <= i < d.len() && d[i] == *h && h.name@ == name@
                    && forall|j: int| 0 <= j < i ==> d[j].name@ != name@;
                assert(all[a.len() + b.len() + c.len() + i] == d[i]);
                assert forall|j: int| 0 <= j < a.len() + b.len() + c.len() + i implies all[j].name@ != name@ by {
                    if j < a.len() { assert(all[j] == a[j]); }
                    else if j < a.len() + b.len() { assert(all[j] == b[j - a.len()]); }
                    else if j < a.len() + b.len() + c.len() { assert(all[j] == c[j - a.len() - b.len()]); }
                    else { assert(all[j] == d[j - a.len() - b.len() - c.len()]); }
                }
            },
            None => {
                assert forall|j: int| 0 <= j < all.len() implies all[j].name@ != name@ by {
                    if j < a.len() { assert(all[j] == a[j]); }
                    else if j < a.len() + b.len() { assert(all[j] == b[j - a.len()]); }
                    else if j < a.len() + b.len() + c.len() { assert(all[j] == c[j - a.len() - b.len()]); }
                    else { assert(all[j] == d[j - a.len() - b.len() - c.len()]); }
                }
            },
        }
    }
    r
}

/// The error when no hook has the requested name.
pub fn hook_not_found_error(name: &str) -> (r: Error)
    ensures
        r matches Error::Deployment(DeploymentError::HookFailed { hook_name, message })
            && hook_name@ == name@ && message@ == "Hook '"@ + name@ + "' not found"@,
{
    let mut msg = to_owned_string("Hook '");
    push_str(&mut msg, name);
    push_str(&mut msg, "' not found");
    Error::Deployment(DeploymentError::HookFailed { hook_name: to_owned_string(name), message: msg })
}

/// `r` is the error of a hook named `name` that failed with `message`.
pub open spec fn is_hook_failed(r: Error, name: Seq<char>, message: Seq<char>) -> bool {
    r matches Error::Deployment(DeploymentError::HookFailed { hook_name, message: m })
        && hook_name@ == name && m@ == message
}

/// The error of a hook named `hook_name` that failed with `message`.
pub fn hook_failed(hook_name: &str, message: &str) -> (r: Error)
    ensures
        is_hook_failed(r, hook_name@, message@),
{
    Error::Deployment(DeploymentError::HookFailed {
        hook_name: to_owned_string(hook_name),
        message: to_owned_string(message),
    })
}

/// Whether `elapsed_nanos` nanoseconds are more than `timeout_secs` seconds.
pub fn past_timeout(elapsed_nanos: u128, timeout_secs: u32) -> (r: bool)
    ensures
        r == (elapsed_nanos > timeout_secs as int * 1_000_000_000),
{
    elapsed_nanos > (timeout_secs as u128) * 1_000_000_000
}

/// How a hook ended, before its duration is attached.
#[derive(Debug, Clone)]
pub enum HookOutcome {
    Succeeded { output: String, exit_code: Option<i32> },
    Failed { error: String, exit_code: Option<i32> },
}

/// `r` records `outcome` for the hook `name` over `duration`: a success
/// has exit code 0 unless the outcome gives one; a failure has no exit
/// code unless the outcome gives one.
pub open spec fn records_outcome(r: HookResult, name: Seq<char>, outcome: HookOutcome, duration: Duration) -> bool {
    &&& r.name@ == name
    &&& r.duration == duration
    &&& match outcome {
        HookOutcome::Succeeded { output, exit_code } => {
            &&& r.success
            &&& r.output@ == output@
            &&& r.error is None
            &&& r.exit_code == (match exit_code { Some(c) => Some(c), None => Some(0i32) })
        },
        HookOutcome::Failed { error, exit_code } => {
            &&& !r.success
            &&& r.output@.len() == 0
            &&& opt_view(r.error) == Some(error@)
            &&& r.exit_code == exit_code
        },
    }
}

impl HookOutcome {
    /// The result of the hook `name` that ended this way after `duration`.
    pub fn into_result(self, name: &str, duration: Duration) -> (r: HookResult)
        ensures
            records_outcome(r, name@, self, duration),
    {
        match self {
            HookOutcome::Succeeded { output, exit_code } => {
                let r = HookResult::success(name, output, duration);
                match exit_code {
                    Some(c) => r.with_exit_code(c),
                    None => r,
                }
            },
            HookOutcome::Failed { error, exit_code } => {
                let r = HookResult::failure(name, error, duration);
                match exit_code {
                    Some(c) => r.with_exit_code(c),
                    None => r,
                }
            },
        }
    }
}

/// What executes hooks of one type. Running a hook is the caller's work;
/// the library knows which type each executor handles.
pub trait HookExecutor {
    fn hook_type(&self) -> HookType;
}

/// The registered hook executors, by the hook type each handles, in the
/// order they were registered.
#[derive(Debug, Clone)]
pub struct HookRunner {
    pub executors: Vec<HookType>,
}

/// How the runner starts a hook: report a dry run without running it, or
/// run it with the executor at the given position.
#[derive(Debug, Clone)]
pub enum HookStart {
    DryRun(HookResult),
    Execute(usize),
}

impl Default for HookRunner {
    fn default() -> (r: Self)
        ensures
            r.executors@.len() == 0,
    {
        HookRunner { executors: Vec::new() }
    }
}

impl HookRunner {
    pub fn new() -> (r: Self)
        ensures
            r.executors@.len() == 0,
    {
        HookRunner { executors: Vec::new() }
    }

    /// Registers an executor for hooks of `hook_type`.
    pub fn register(&mut self, hook_type: HookType)
        ensures
            final(self).executors@ == old(self).executors@.push(hook_type),
    {
        self.executors.push(hook_type);
    }

    /// Position of the first executor registered for `hook_type`.
    pub fn find_executor(&self, hook_type: &HookType) -> (r: Option<usize>)
        ensures
            match r {
                Some(i) => i < self.executors@.len() && self.executors@[i as int] == *hook_type
                    && forall|j: int| 0 <= j < i ==> self.executors@[j] != *hook_type,
                None => forall|j: int| 0 <= j < self.executors@.len() ==> self.executors@[j] != *hook_type,
            },
    {
        let mut i: usize = 0;
        while i < self.executors.len()
            invariant
                i <= self.executors@.len(),
                forall|j: int| 0 <= j < i ==> self.executors@[j] != *hook_type,
            decreases self.executors.len() - i,
        {
            if self.executors[i] == *hook_type {
                return Some(i);
            }
            i = i + 1;
        }
        None
    }

    /// How to start `hook`: an error when no executor handles its type; a
    /// successful "skipped" result in a dry run; otherwise the executor
    /// to run it with.
    pub fn start_hook(&self, hook: &HookConfig, context: &HookContext) -> (r: Result<HookStart, Error>)
        ensures
            match r {
                Err(e) => (forall|j: int| 0 <= j < self.executors@.len() ==> self.executors@[j] != hook.hook_type)
                    && is_hook_failed(e, hook.name@, "No executor found for hook type: "@ + hook_type_name(hook.hook_type)),
                Ok(HookStart::DryRun(res)) => context.dry_run
                    && (exists|j: int| 0 <= j < self.executors@.len() && self.executors@[j] == hook.hook_type)
                    && res.name@ == hook.name@ && res.success && res.exit_code == Some(0i32)
                    && res.output@ == "Dry-run: skipped"@ && res.error is None,
                Ok(HookStart::Execute(i)) => !context.dry_run && i < self.executors@.len()
                    && self.executors@[i as int] == hook.hook_type
                    && forall|j: int| 0 <= j < i ==> self.executors@[j] != hook.hook_type,
            },
    {
        match self.find_executor(&hook.hook_type) {
            None => Err(missing_executor_error(hook)),
            Some(i) => {
                if context.dry_run {
                    Ok(HookStart::DryRun(dry_run_result(hook)))
                } else {
                    Ok(HookStart::Execute(i))
                }
            },
        }
    }
}

} // verus!
