//! Hooks run as one-shot Kubernetes Jobs: the Job a hook's settings give,
//! and how the Job's status is read while waiting for it.

use vstd::prelude::*;
use crate::clock::unix_secs;
use crate::error::Error;
use crate::keyed::{clone_text_entries, insert_text, text_entries, text_insert};
use crate::text::{
    before_first, clone_opt_string, clone_strings, decimal, lowercase_of, opt_view, prefix_before,
    push_str, replace_char, replace_char_seq, seq_views, signed_decimal, i64_to_string,
    str_is_empty, to_lowercase, to_owned_string, u64_to_string,
};
use super::executor::{hook_failed, is_hook_failed, HookContext, HookExecutor, HookOutcome};
use super::types::{
    literal_env, literal_env_pairs, EnvFromSource, HookConfig, HookType, K8sJobHookConfig,
    K8sResourceConfig, K8sResources,
};

verus! {

/// Runs hooks as one-shot Kubernetes Jobs.
#[derive(Debug, Clone, Copy)]
pub struct K8sJobHookExecutor;

/// Resource requests and limits of the hook container, each a list of
/// (resource, quantity) pairs; a side is `None` when it names nothing.
#[derive(Debug, Clone)]
pub struct JobResources {
    pub requests: Option<Vec<(String, String)>>,
    pub limits: Option<Vec<(String, String)>>,
}

/// The Job a hook creates.
#[derive(Debug, Clone)]
pub struct HookJob {
    pub name: String,
    pub namespace: String,
    pub labels: Vec<(String, String)>,
    pub annotations: Option<Vec<(String, String)>>,
    /// Labels of the Job's pod template.
    pub pod_labels: Vec<(String, String)>,
    pub container_name: String,
    pub image: String,
    pub command: Option<Vec<String>>,
    pub args: Option<Vec<String>>,
    pub env: Option<Vec<(String, String)>>,
    pub env_from: Option<Vec<EnvFromSource>>,
    pub resources: Option<JobResources>,
    pub restart_policy: String,
    pub service_account: Option<String>,
    pub backoff_limit: i32,
    pub active_deadline_seconds: Option<i64>,
    pub ttl_seconds_after_finished: Option<i32>,
}

/// The name of a hook's Job: the hook name in lower case with `_` turned
/// into `-`, between `hook-` and the creation time in seconds.
pub open spec fn job_name(hook_name: Seq<char>, timestamp: u64) -> Seq<char> {
    "hook-"@ + replace_char_seq(lowercase_of(hook_name), '_', '-') + "-"@ + decimal(timestamp as nat)
}

/// The image a hook runs: with a tag override, the image up to its first
/// `:` followed by `:` and the tag; otherwise the image as configured.
pub open spec fn job_image(image: Seq<char>, tag: Option<Seq<char>>) -> Seq<char> {
    match tag {
        Some(t) => before_first(image, ':') + ":"@ + t,
        None => image,
    }
}

/// The namespace of a hook's Job: the hook's, else the context's, else
/// "default".
pub open spec fn job_namespace(c: K8sJobHookConfig, context: HookContext) -> Seq<char> {
    match c.namespace {
        Some(n) => n@,
        None => match context.k8s_namespace {
            Some(n) => n@,
            None => "default"@,
        },
    }
}

/// The (resource, quantity) pairs of one side of the resource settings.
pub open spec fn resource_pairs(r: K8sResources) -> Seq<(Seq<char>, Seq<char>)> {
    (match r.cpu { Some(c) => seq![("cpu"@, c@)], None => seq![] })
        + (match r.memory { Some(m) => seq![("memory"@, m@)], None => seq![] })
}

/// `side` holds the pairs of `r`, or nothing when there are none.
pub open spec fn is_resource_side(side: Option<Vec<(String, String)>>, r: Option<K8sResources>) -> bool {
    match r {
        Some(res) if resource_pairs(res).len() > 0 =>
            side matches Some(v) && text_entries(v@) == resource_pairs(res),
        _ => side is None,
    }
}

/// The labels of a hook's Job: the configured labels, with the manager,
/// hook name and environment labels set.
pub open spec fn job_labels(c: K8sJobHookConfig, hook_name: Seq<char>, environment: Seq<char>) -> Seq<(Seq<char>, Seq<char>)> {
    text_insert(
        text_insert(
            text_insert(text_entries(c.labels@), "app.kubernetes.io/managed-by"@, "pmp-deploy"@),
            "pmp-deploy/hook-name"@,
            hook_name,
        ),
        "pmp-deploy/environment"@,
        environment,
    )
}

/// What an environment source reads: whether it is a Secret (else a
/// ConfigMap), and the name of the object.
pub open spec fn env_source_view(e: EnvFromSource) -> (bool, Seq<char>) {
    match e {
        EnvFromSource::ConfigMap(n) => (false, n@),
        EnvFromSource::Secret(n) => (true, n@),
    }
}

/// The environment sources of a list, in order.
pub open spec fn env_sources(v: Seq<EnvFromSource>) -> Seq<(bool, Seq<char>)> {
    v.map_values(|e: EnvFromSource| env_source_view(e))
}

/// `job` is the Job that the settings `c` of hook `name` give, created at
/// `timestamp` seconds, in `context`.
pub open spec fn is_hook_job(job: HookJob, c: K8sJobHookConfig, name: Seq<char>, context: HookContext, timestamp: u64) -> bool {
    &&& job.name@ == job_name(name, timestamp)
    &&& job.namespace@ == job_namespace(c, context)
    &&& text_entries(job.labels@) == job_labels(c, name, context.environment@)
    &&& (if c.annotations@.len() == 0 { job.annotations is None } else {
            job.annotations matches Some(a) && text_entries(a@) == text_entries(c.annotations@)
        })
    &&& text_entries(job.pod_labels@) == seq![("pmp-deploy/hook-name"@, name)]
    &&& job.container_name@ == "hook"@
    &&& job.image@ == job_image(c.image@, opt_view(c.image_tag))
    &&& (if c.command@.len() == 0 { job.command is None } else {
            job.command matches Some(v) && seq_views(v@) == seq_views(c.command@)
        })
    &&& (if c.args@.len() == 0 { job.args is None } else {
            job.args matches Some(v) && seq_views(v@) == seq_views(c.args@)
        })
    &&& (if literal_env(c.env@).len() == 0 { job.env is None } else {
            job.env matches Some(v) && text_entries(v@) == literal_env(c.env@)
        })
    &&& (if c.env_from@.len() == 0 { job.env_from is None } else {
            job.env_from matches Some(v) && env_sources(v@) == env_sources(c.env_from@)
        })
    &&& match c.resources {
        None => job.resources is None,
        Some(rc) => job.resources matches Some(jr) && is_resource_side(jr.requests, rc.requests)
            && is_resource_side(jr.limits, rc.limits),
    }
    &&& job.restart_policy@ == c.restart_policy@
    &&& opt_view(job.service_account) == opt_view(c.service_account)
    &&& job.backoff_limit == c.backoff_limit as i32
    &&& job.active_deadline_seconds == (match c.active_deadline_seconds { Some(s) => Some(s as i64), None => None })
    &&& job.ttl_seconds_after_finished == (match c.ttl_seconds_after_finished { Some(s) => Some(s as i32), None => None })
}

fn side_pairs(r: &Option<K8sResources>) -> (side: Option<Vec<(String, String)>>)
    ensures
        is_resource_side(side, *r),
{
    match r {
        None => None,
        Some(res) => {
            let mut v: Vec<(String, String)> = Vec::new();
            if let Some(c) = &res.cpu {
                v.push((to_owned_string("cpu"), c.clone()));
            }
            if let Some(m) = &res.memory {
                v.push((to_owned_string("memory"), m.clone()));
            }
            assert(text_entries(v@) =~= resource_pairs(*res));
            if v.len() == 0 { None } else { Some(v) }
        },
    }
}

fn clone_env_from(v: &Vec<EnvFromSource>) -> (r: Vec<EnvFromSource>)
    ensures
        env_sources(r@) == env_sources(v@),
{
    let mut r: Vec<EnvFromSource> = Vec::new();
    let mut i: usize = 0;
    while i < v.len()
        invariant
            i <= v@.len(),
            env_sources(r@) == env_sources(v@).take(i as int),
        decreases v.len() - i,
    {
        let s = match &v[i] {
            EnvFromSource::ConfigMap(n) => EnvFromSource::ConfigMap(n.clone()),
            EnvFromSource::Secret(n) => EnvFromSource::Secret(n.clone()),
        };
        let ghost before = r@;
        r.push(s);
        proof {
            assert(env_source_view(s) == env_source_view(v@[i as int]));
            assert(env_sources(r@) =~= env_sources(before).push(env_source_view(s)));
            assert(env_sources(v@).take(i + 1) =~= env_sources(v@).take(i as int).push(env_source_view(v@[i as int])));
        }
        i = i + 1;
    }
    assert(env_sources(v@).take(v@.len() as int) =~= env_sources(v@));
    r
}

impl Default for K8sJobHookExecutor {
    fn default() -> (r: Self) {
        K8sJobHookExecutor
    }
}

impl HookExecutor for K8sJobHookExecutor {
    fn hook_type(&self) -> (r: HookType)
        ensures
            r == HookType::K8sJob,
    {
        HookType::K8sJob
    }
}

impl K8sJobHookExecutor {
    pub fn new() -> (r: Self) {
        K8sJobHookExecutor
    }

    pub fn get_k8s_config(hook: &HookConfig) -> (r: Option<&K8sJobHookConfig>)
        ensures
            match r {
                Some(c) => hook.config.k8s_job == Some(*c),
                None => hook.config.k8s_job is None,
            },
    {
        hook.config.k8s_job.as_ref()
    }

    /// The namespace a hook's Job runs in.
    pub fn namespace(config: &K8sJobHookConfig, context: &HookContext) -> (r: String)
        ensures
            r@ == job_namespace(*config, *context),
    {
        match &config.namespace {
            Some(n) => n.clone(),
            None => match &context.k8s_namespace {
                Some(n) => n.clone(),
                None => to_owned_string("default"),
            },
        }
    }

    /// The Job of a hook created at `timestamp` seconds after the epoch.
    pub fn build_job_at(config: &K8sJobHookConfig, hook_name: &str, context: &HookContext, timestamp: u64) -> (r: HookJob)
        ensures
            is_hook_job(r, *config, hook_name@, *context, timestamp),
    {
        let lower = to_lowercase(hook_name);
        let dashed = replace_char(lower.as_str(), '_', '-');
        let mut name = to_owned_string("hook-");
        push_str(&mut name, dashed.as_str());
        push_str(&mut name, "-");
        let ts = u64_to_string(timestamp);
        push_str(&mut name, ts.as_str());

        let image = match &config.image_tag {
            Some(tag) => {
                let mut i = prefix_before(config.image.as_str(), ':');
                push_str(&mut i, ":");
                push_str(&mut i, tag.as_str());
                i
            },
            None => config.image.clone(),
        };

        let vars = literal_env_pairs(&config.env);
        let env = if vars.len() == 0 { None } else { Some(vars) };
        let env_from = if config.env_from.len() == 0 { None } else { Some(clone_env_from(&config.env_from)) };
        let resources = match &config.resources {
            None => None,
            Some(rc) => Some(JobResources { requests: side_pairs(&rc.requests), limits: side_pairs(&rc.limits) }),
        };

        let mut labels = clone_text_entries(&config.labels);
        insert_text(&mut labels, to_owned_string("app.kubernetes.io/managed-by"), to_owned_string("pmp-deploy"));
        insert_text(&mut labels, to_owned_string("pmp-deploy/hook-name"), to_owned_string(hook_name));
        insert_text(&mut labels, to_owned_string("pmp-deploy/environment"), context.environment.clone());

        let annotations = if config.annotations.len() == 0 {
            None
        } else {
            Some(clone_text_entries(&config.annotations))
        };
        let mut pod_labels: Vec<(String, String)> = Vec::new();
        pod_labels.push((to_owned_string("pmp-deploy/hook-name"), to_owned_string(hook_name)));
        assert(text_entries(pod_labels@) =~= seq![("pmp-deploy/hook-name"@, hook_name@)]);

        #[verifier::truncate]
        let backoff_limit = config.backoff_limit as i32;
        let active_deadline_seconds = match config.active_deadline_seconds {
            Some(s) => Some(s as i64),
            None => None,
        };
        let ttl_seconds_after_finished = match config.ttl_seconds_after_finished {
            Some(s) => {
                #[verifier::truncate]
                let t = s as i32;
                Some(t)
            },
            None => None,
        };

        HookJob {
            name,
            namespace: Self::namespace(config, context),
            labels,
            annotations,
            pod_labels,
            container_name: to_owned_string("hook"),
            image,
            command: if config.command.len() == 0 { None } else { Some(clone_strings(&config.command)) },
            args: if config.args.len() == 0 { None } else { Some(clone_strings(&config.args)) },
            env,
            env_from,
            resources,
            restart_policy: config.restart_policy.clone(),
            service_account: clone_opt_string(&config.service_account),
            backoff_limit,
            active_deadline_seconds,
            ttl_seconds_after_finished,
        }
    }

    /// The Job of a hook, named after the current time.
    pub fn build_job(&self, config: &K8sJobHookConfig, hook_name: &str, context: &HookContext) -> (r: HookJob)
        ensures
            exists|t: u64| is_hook_job(r, *config, hook_name@, *context, t),
    {
        let t = unix_secs();
        Self::build_job_at(config, hook_name, context, t)
    }

    /// The Job settings of a hook: an error when it has no Job settings or
    /// no image.
    pub fn prepare<'a>(hook: &'a HookConfig) -> (r: Result<&'a K8sJobHookConfig, Error>)
        ensures
            match r {
                Ok(c) => hook.config.k8s_job == Some(*c) && c.image@.len() > 0,
                Err(e) => match hook.config.k8s_job {
                    None => is_hook_failed(e, hook.name@, "Kubernetes Job hook configuration not found"@),
                    Some(c) => c.image@.len() == 0 && is_hook_failed(e, hook.name@, "Container image is required"@),
                },
            },
    {
        match Self::get_k8s_config(hook) {
            None => Err(hook_failed(hook.name.as_str(), "Kubernetes Job hook configuration not found")),
            Some(c) => {
                if str_is_empty(c.image.as_str()) {
                    Err(hook_failed(hook.name.as_str(), "Container image is required"))
                } else {
                    Ok(c)
                }
            },
        }
    }

    /// How a Job that ran past its timeout is recorded.
    pub fn timeout_outcome(timeout_secs: u32) -> (r: HookOutcome)
        ensures
            r matches HookOutcome::Failed { error, exit_code: None }
                && error@ == "Kubernetes Job timed out after "@ + decimal(timeout_secs as nat) + " seconds"@,
    {
        let mut e = to_owned_string("Kubernetes Job timed out after ");
        let t = u64_to_string(timeout_secs as u64);
        push_str(&mut e, t.as_str());
        push_str(&mut e, " seconds");
        HookOutcome::Failed { error: e, exit_code: None }
    }

    /// What a Job status means: success once a pod succeeded; failure once
    /// more pods failed than the retries allow; otherwise nothing yet.
    /// Missing counts are zero.
    pub fn status_outcome(succeeded: Option<i32>, failed: Option<i32>, backoff_limit: u32) -> (r: Option<HookOutcome>)
        ensures
            ({
                let s: i32 = match succeeded { Some(n) => n, None => 0i32 };
                let f: i32 = match failed { Some(n) => n, None => 0i32 };
                if s > 0 {
                    r matches Some(HookOutcome::Succeeded { output, exit_code: Some(0i32) })
                        && output@ == "Job completed successfully"@
                } else if f > 0 && f >= (backoff_limit as i32) as int + 1 {
                    r matches Some(HookOutcome::Failed { error, exit_code: Some(1i32) })
                        && error@ == "Job failed after "@ + signed_decimal(f as int) + " attempts"@
                } else {
                    r is None
                }
            }),
    {
        let s: i32 = match succeeded {
            Some(n) => n,
            None => 0,
        };
        let f: i32 = match failed {
            Some(n) => n,
            None => 0,
        };
        #[verifier::truncate]
        let limit = backoff_limit as i32;
        if s > 0 {
            Some(HookOutcome::Succeeded { output: to_owned_string("Job completed successfully"), exit_code: Some(0) })
        } else if f > 0 && (f as i64) >= (limit as i64) + 1 {
            let mut e = to_owned_string("Job failed after ");
            let n = i64_to_string(f as i64);
            push_str(&mut e, n.as_str());
            push_str(&mut e, " attempts");
            Some(HookOutcome::Failed { error: e, exit_code: Some(1) })
        } else {
            None
        }
    }
}

} // verus!
