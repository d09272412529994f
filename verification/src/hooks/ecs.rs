//! Hooks run as one-shot ECS tasks: the task a hook's settings start, and
//! how the task's observed state is read while waiting for it.

use vstd::prelude::*;
use crate::error::Error;
use crate::keyed::text_entries;
use crate::text::{
    clone_opt_string, clone_strings, decimal, opt_view, push_str, seq_views, signed_decimal,
    i64_to_string, str_eq, to_owned_string, u64_to_string,
};
use super::executor::{hook_failed, is_hook_failed, HookContext, HookExecutor, HookOutcome};
use super::types::{literal_env, literal_env_pairs, EcsTaskHookConfig, HookConfig, HookType};

verus! {

/// Runs hooks as one-shot ECS tasks.
#[derive(Debug, Clone, Copy)]
pub struct EcsTaskHookExecutor;

/// VPC settings of a hook task.
#[derive(Debug, Clone)]
pub struct EcsTaskNetwork {
    pub subnets: Vec<String>,
    pub security_groups: Vec<String>,
    pub assign_public_ip: bool,
}

/// The task a hook starts.
#[derive(Debug, Clone)]
pub struct EcsTaskRun {
    /// Region of the hook, else of the context.
    pub region: Option<String>,
    pub cluster: String,
    /// Task definition family, `{cluster}-hook-{hook name}`.
    pub task_definition: String,
    /// Container whose settings are overridden.
    pub container_name: String,
    /// Command override, when one is configured.
    pub command: Option<Vec<String>>,
    /// Literal environment variables of the hook.
    pub environment: Vec<(String, String)>,
    pub cpu: Option<String>,
    pub memory: Option<String>,
    pub task_role_arn: Option<String>,
    pub execution_role_arn: Option<String>,
    /// VPC settings, when subnets are configured.
    pub network: Option<EcsTaskNetwork>,
    pub launch_type: String,
}

/// What is observed of a started task.
#[derive(Debug, Clone)]
pub struct EcsTaskObservation {
    pub last_status: Option<String>,
    pub stop_code: Option<String>,
    pub stopped_reason: Option<String>,
    /// Exit code of the task's first container.
    pub exit_code: Option<i32>,
}

/// The cluster a hook task runs in: the hook's, else the context's.
pub open spec fn hook_cluster(c: EcsTaskHookConfig, context: HookContext) -> Option<Seq<char>> {
    if c.cluster is Some { opt_view(c.cluster) } else { opt_view(context.ecs_cluster) }
}

/// `run` is the task that the settings `c` of hook `name` start in `cluster`.
pub open spec fn is_task_run(run: EcsTaskRun, c: EcsTaskHookConfig, name: Seq<char>, cluster: Seq<char>, context: HookContext) -> bool {
    &&& opt_view(run.region) == (if c.region is Some { opt_view(c.region) } else { opt_view(context.aws_region) })
    &&& run.cluster@ == cluster
    &&& run.task_definition@ == cluster + "-hook-"@ + name
    &&& run.container_name@ == "main"@
    &&& (if c.command@.len() == 0 { run.command is None } else {
            run.command matches Some(cmd) && seq_views(cmd@) == seq_views(c.command@)
        })
    &&& text_entries(run.environment@) == literal_env(c.environment@)
    &&& opt_view(run.cpu) == opt_view(c.cpu) && opt_view(run.memory) == opt_view(c.memory)
    &&& opt_view(run.task_role_arn) == opt_view(c.task_role_arn)
    &&& opt_view(run.execution_role_arn) == opt_view(c.execution_role_arn)
    &&& (if c.subnets@.len() == 0 { run.network is None } else {
            run.network matches Some(n) && seq_views(n.subnets@) == seq_views(c.subnets@)
                && seq_views(n.security_groups@) == seq_views(c.security_groups@)
                && n.assign_public_ip == c.assign_public_ip
        })
    &&& run.launch_type@ == c.launch_type@
}

/// The text of the stop code or reason, or the fallback when unknown.
pub open spec fn or_text(o: Option<String>, fallback: Seq<char>) -> Seq<char> {
    match o {
        Some(s) => s@,
        None => fallback,
    }
}

/// The exit code of the task's first container, -1 when unknown.
pub open spec fn task_exit_code(obs: EcsTaskObservation) -> i32 {
    match obs.exit_code {
        Some(c) => c,
        None => -1i32,
    }
}

impl Default for EcsTaskHookExecutor {
    fn default() -> (r: Self) {
        EcsTaskHookExecutor
    }
}

impl HookExecutor for EcsTaskHookExecutor {
    fn hook_type(&self) -> (r: HookType)
        ensures
            r == HookType::EcsTask,
    {
        HookType::EcsTask
    }
}

impl EcsTaskHookExecutor {
    pub fn new() -> (r: Self) {
        EcsTaskHookExecutor
    }

    pub fn get_ecs_config(hook: &HookConfig) -> (r: Option<&EcsTaskHookConfig>)
        ensures
            match r {
                Some(c) => hook.config.ecs_task == Some(*c),
                None => hook.config.ecs_task is None,
            },
    {
        hook.config.ecs_task.as_ref()
    }

    /// The task a hook starts: an error when the hook has no ECS settings
    /// or neither the hook nor the context names a cluster.
    pub fn prepare(hook: &HookConfig, context: &HookContext) -> (r: Result<EcsTaskRun, Error>)
        ensures
            match r {
                Ok(run) => hook.config.ecs_task matches Some(c) && hook_cluster(c, *context) matches Some(cl)
                    && is_task_run(run, c, hook.name@, cl, *context),
                Err(e) => match hook.config.ecs_task {
                    None => is_hook_failed(e, hook.name@, "ECS task hook configuration not found"@),
                    Some(c) => hook_cluster(c, *context) is None
                        && is_hook_failed(e, hook.name@, "ECS cluster not specified"@),
                },
            },
    {
        let c = match Self::get_ecs_config(hook) {
            None => return Err(hook_failed(hook.name.as_str(), "ECS task hook configuration not found")),
            Some(c) => c,
        };
        let region = if c.region.is_some() {
            clone_opt_string(&c.region)
        } else {
            clone_opt_string(&context.aws_region)
        };
        let cluster = match &c.cluster {
            Some(cl) => cl.clone(),
            None => match &context.ecs_cluster {
                Some(cl) => cl.clone(),
                None => return Err(hook_failed(hook.name.as_str(), "ECS cluster not specified")),
            },
        };
        let mut task_definition = cluster.clone();
        push_str(&mut task_definition, "-hook-");
        push_str(&mut task_definition, hook.name.as_str());
        let command = if c.command.len() == 0 { None } else { Some(clone_strings(&c.command)) };
        let network = if c.subnets.len() == 0 {
            None
        } else {
            Some(EcsTaskNetwork {
                subnets: clone_strings(&c.subnets),
                security_groups: clone_strings(&c.security_groups),
                assign_public_ip: c.assign_public_ip,
            })
        };
        Ok(EcsTaskRun {
            region,
            cluster,
            task_definition,
            container_name: to_owned_string("main"),
            command,
            environment: literal_env_pairs(&c.environment),
            cpu: clone_opt_string(&c.cpu),
            memory: clone_opt_string(&c.memory),
            task_role_arn: clone_opt_string(&c.task_role_arn),
            execution_role_arn: clone_opt_string(&c.execution_role_arn),
            network,
            launch_type: c.launch_type.clone(),
        })
    }

    /// How a hook task that ran past its timeout is recorded.
    pub fn timeout_outcome(timeout_secs: u32) -> (r: HookOutcome)
        ensures
            r matches HookOutcome::Failed { error, exit_code: None }
                && error@ == "ECS task timed out after "@ + decimal(timeout_secs as nat) + " seconds"@,
    {
        let mut e = to_owned_string("ECS task timed out after ");
        let t = u64_to_string(timeout_secs as u64);
        push_str(&mut e, t.as_str());
        push_str(&mut e, " seconds");
        HookOutcome::Failed { error: e, exit_code: None }
    }

    /// What an observation of the task means: nothing until the task has
    /// stopped; then success when its container exited with 0, and failure
    /// otherwise, reporting the stop code ("Unknown" when missing) and
    /// reason ("No reason provided" when missing).
    pub fn task_outcome(obs: &EcsTaskObservation) -> (r: Option<HookOutcome>)
        ensures
            !(obs.last_status matches Some(s) && s@ == "STOPPED"@) ==> r is None,
            (obs.last_status matches Some(s) && s@ == "STOPPED"@) ==> {
                let code = or_text(obs.stop_code, "Unknown"@);
                let reason = or_text(obs.stopped_reason, "No reason provided"@);
                let exit = task_exit_code(*obs);
                if exit == 0 {
                    r matches Some(HookOutcome::Succeeded { output, exit_code: Some(0i32) })
                        && output@ == "Task completed: "@ + code + " - "@ + reason
                } else {
                    r matches Some(HookOutcome::Failed { error, exit_code: Some(e) }) && e == exit
                        && error@ == "Task failed with exit code "@ + signed_decimal(exit as int) + ": "@
                            + code + " - "@ + reason
                }
            },
    {
        let stopped = match &obs.last_status {
            Some(s) => str_eq(s.as_str(), "STOPPED"),
            None => false,
        };
        if !stopped {
            return None;
        }
        let code = match &obs.stop_code {
            Some(s) => s.clone(),
            None => to_owned_string("Unknown"),
        };
        let reason = match &obs.stopped_reason {
            Some(s) => s.clone(),
            None => to_owned_string("No reason provided"),
        };
        let exit: i32 = match obs.exit_code {
            Some(c) => c,
            None => -1,
        };
        if exit == 0 {
            let mut out = to_owned_string("Task completed: ");
            push_str(&mut out, code.as_str());
            push_str(&mut out, " - ");
            push_str(&mut out, reason.as_str());
            Some(HookOutcome::Succeeded { output: out, exit_code: Some(0) })
        } else {
            let mut e = to_owned_string("Task failed with exit code ");
            let x = i64_to_string(exit as i64);
            push_str(&mut e, x.as_str());
            push_str(&mut e, ": ");
            push_str(&mut e, code.as_str());
            push_str(&mut e, " - ");
            push_str(&mut e, reason.as_str());
            Some(HookOutcome::Failed { error: e, exit_code: Some(exit) })
        }
    }
}

} // verus!
