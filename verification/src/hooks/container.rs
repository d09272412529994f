//! Hooks run as Docker containers: the `docker run` arguments a hook's
//! settings give, and how the container's exit is recorded.

use vstd::prelude::*;
use core::time::Duration;
use crate::cmdline::{flag_pairs, pair_flags, push_all, push_arg, push_flag, push_flag_values, push_pair_flags};
use crate::error::Error;
use crate::keyed::text_entries;
use crate::text::{
    join_seqs, join_strings, opt_view, push_str, seq_views, signed_decimal, i64_to_string,
    str_is_empty, to_owned_string,
};
use super::executor::{hook_failed, is_hook_failed, HookExecutor, HookOutcome, HookResult};
use super::types::{literal_env, literal_env_pairs, ContainerHookConfig, HookConfig, HookType};

verus! {

/// Runs hooks as Docker containers.
#[derive(Debug, Clone, Copy)]
pub struct ContainerHookExecutor;

/// The `docker run` arguments of a container hook: `--rm` when it cleans
/// up, working directory, network, volumes, literal environment variables,
/// entrypoint (its words joined by spaces), then the image and command.
pub open spec fn docker_run_args(c: ContainerHookConfig) -> Seq<Seq<char>> {
    seq!["run"@]
        + (if c.cleanup { seq!["--rm"@] } else { seq![] })
        + (match c.working_dir { Some(w) => seq!["-w"@, w@], None => seq![] })
        + (match c.network { Some(n) => seq!["--network"@, n@], None => seq![] })
        + flag_pairs("-v"@, seq_views(c.volumes@))
        + pair_flags("-e"@, literal_env(c.env@))
        + (match c.entrypoint {
            Some(e) => seq!["--entrypoint"@, join_seqs(seq_views(e@), " "@)],
            None => seq![],
        })
        + seq![c.image@]
        + seq_views(c.command@)
}

/// The exit code of a process, -1 when it has none (killed by a signal).
pub open spec fn exit_or_unknown(exit_code: Option<i32>) -> i32 {
    match exit_code {
        Some(c) => c,
        None => -1i32,
    }
}

/// The error of a container that exited unsuccessfully.
pub open spec fn container_failure_text(code: i32, stdout: Seq<char>, stderr: Seq<char>) -> Seq<char> {
    "Container exited with code "@ + signed_decimal(code as int) + ": "@ + combined_output(stdout, stderr)
}

/// The text a container hook reports: standard output, followed by a
/// newline and standard error when there is any.
pub open spec fn combined_output(stdout: Seq<char>, stderr: Seq<char>) -> Seq<char> {
    if stderr.len() == 0 { stdout } else { stdout + "\n"@ + stderr }
}

impl Default for ContainerHookExecutor {
    fn default() -> (r: Self) {
        ContainerHookExecutor
    }
}

impl HookExecutor for ContainerHookExecutor {
    fn hook_type(&self) -> (r: HookType)
        ensures
            r == HookType::Container,
    {
        HookType::Container
    }
}

impl ContainerHookExecutor {
    pub fn new() -> (r: Self) {
        ContainerHookExecutor
    }

    pub fn get_container_config(hook: &HookConfig) -> (r: Option<&ContainerHookConfig>)
        ensures
            match r {
                Some(c) => hook.config.container == Some(*c),
                None => hook.config.container is None,
            },
    {
        hook.config.container.as_ref()
    }

    /// The `docker run` arguments of a container hook.
    pub fn docker_args(config: &ContainerHookConfig) -> (r: Vec<String>)
        ensures
            seq_views(r@) == docker_run_args(*config),
    {
        let mut args: Vec<String> = Vec::new();
        push_arg(&mut args, "run");
        if config.cleanup {
            push_arg(&mut args, "--rm");
        }
        if let Some(w) = &config.working_dir {
            push_flag(&mut args, "-w", w.as_str());
        }
        if let Some(n) = &config.network {
            push_flag(&mut args, "--network", n.as_str());
        }
        push_flag_values(&mut args, "-v", &config.volumes);
        let vars = literal_env_pairs(&config.env);
        push_pair_flags(&mut args, "-e", &vars);
        if let Some(e) = &config.entrypoint {
            let joined = join_strings(e, " ");
            push_flag(&mut args, "--entrypoint", joined.as_str());
        }
        push_arg(&mut args, config.image.as_str());
        push_all(&mut args, &config.command);
        args
    }

    /// The arguments to run `hook`: an error when it has no container
    /// settings or no image.
    pub fn prepare(hook: &HookConfig) -> (r: Result<Vec<String>, Error>)
        ensures
            match r {
                Ok(args) => hook.config.container matches Some(c) && c.image@.len() > 0
                    && seq_views(args@) == docker_run_args(c),
                Err(e) => match hook.config.container {
                    None => is_hook_failed(e, hook.name@, "Container hook configuration not found"@),
                    Some(c) => c.image@.len() == 0 && is_hook_failed(e, hook.name@, "Container image is required"@),
                },
            },
    {
        match Self::get_container_config(hook) {
            None => Err(hook_failed(hook.name.as_str(), "Container hook configuration not found")),
            Some(c) => {
                if str_is_empty(c.image.as_str()) {
                    Err(hook_failed(hook.name.as_str(), "Container image is required"))
                } else {
                    Ok(Self::docker_args(c))
                }
            },
        }
    }

    /// How a finished container is recorded.
    fn outcome(succeeded: bool, exit_code: Option<i32>, stdout: &str, stderr: &str) -> (r: HookOutcome)
        ensures
            succeeded ==> (r matches HookOutcome::Succeeded { output, exit_code: None }
                && output@ == combined_output(stdout@, stderr@)),
            !succeeded ==> (r matches HookOutcome::Failed { error, exit_code: Some(c) }
                && c == exit_or_unknown(exit_code)
                && error@ == container_failure_text(exit_or_unknown(exit_code), stdout@, stderr@)),
    {
        let mut combined = to_owned_string(stdout);
        if !str_is_empty(stderr) {
            push_str(&mut combined, "\n");
            push_str(&mut combined, stderr);
        }
        proof {
            if stderr@.len() == 0 {
                assert(stderr@ =~= seq![]);
            }
        }
        if succeeded {
            HookOutcome::Succeeded { output: combined, exit_code: None }
        } else {
            let code: i32 = match exit_code {
                Some(c) => c,
                None => -1,
            };
            let mut error = to_owned_string("Container exited with code ");
            let c = i64_to_string(code as i64);
            push_str(&mut error, c.as_str());
            push_str(&mut error, ": ");
            push_str(&mut error, combined.as_str());
            HookOutcome::Failed { error, exit_code: Some(code) }
        }
    }

    /// The result of a finished container hook: success with the combined
    /// output when the container exited successfully; otherwise a failure
    /// that gives the exit code (-1 when the process had none) and the
    /// combined output.
    pub fn container_result(
        hook_name: &str,
        succeeded: bool,
        exit_code: Option<i32>,
        stdout: &str,
        stderr: &str,
        duration: Duration,
    ) -> (r: HookResult)
        ensures
            r.name@ == hook_name@,
            r.duration == duration,
            r.success == succeeded,
            succeeded ==> r.output@ == combined_output(stdout@, stderr@) && r.error is None
                && r.exit_code == Some(0i32),
            !succeeded ==> r.output@.len() == 0 && r.exit_code == Some(exit_or_unknown(exit_code))
                && opt_view(r.error) == Some(container_failure_text(exit_or_unknown(exit_code), stdout@, stderr@)),
    {
        let o = Self::outcome(succeeded, exit_code, stdout, stderr);
        o.into_result(hook_name, duration)
    }
}

} // verus!
