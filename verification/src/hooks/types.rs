//! Hook definitions: when hooks run, what kind they are, and their settings.

use vstd::prelude::*;
use crate::config::env_vars::EnvVarConfig;
use crate::keyed::text_entries;
use crate::text::to_owned_string;

verus! {

/// When a hook runs relative to a deployment.
#[derive(Debug, Clone, Copy, PartialEq, Eq, Structural)]
pub enum HookTiming {
    /// Before the deployment starts.
    PreDeploy,
    /// After a successful deployment.
    PostDeploy,
    /// When the deployment fails.
    OnFailure,
    /// On successful deployment (runs the post-deploy hooks).
    OnSuccess,
}

pub open spec fn hook_timing_name(t: HookTiming) -> Seq<char> {
    match t {
        HookTiming::PreDeploy => "pre_deploy"@,
        HookTiming::PostDeploy => "post_deploy"@,
        HookTiming::OnFailure => "on_failure"@,
        HookTiming::OnSuccess => "on_success"@,
    }
}

impl HookTiming {
    pub fn as_str(&self) -> (r: &'static str)
        ensures
            r@ == hook_timing_name(*self),
    {
        match self {
            HookTiming::PreDeploy => "pre_deploy",
            HookTiming::PostDeploy => "post_deploy",
            HookTiming::OnFailure => "on_failure",
            HookTiming::OnSuccess => "on_success",
        }
    }
}

/// Kind of hook.
#[derive(Debug, Clone, Copy, PartialEq, Eq, Structural)]
pub enum HookType {
    /// Run a container (Docker).
    Container,
    /// Make an HTTP request.
    Http,
    /// Run a one-shot ECS task.
    EcsTask,
    /// Run a one-shot Kubernetes Job.
    K8sJob,
    /// Invoke a Lambda function.
    Lambda,
}

pub open spec fn hook_type_name(t: HookType) -> Seq<char> {
    match t {
        HookType::Container => "container"@,
        HookType::Http => "http"@,
        HookType::EcsTask => "ecs_task"@,
        HookType::K8sJob => "k8s_job"@,
        HookType::Lambda => "lambda"@,
    }
}

impl HookType {
    pub fn as_str(&self) -> (r: &'static str)
        ensures
            r@ == hook_type_name(*self),
    {
        match self {
            HookType::Container => "container",
            HookType::Http => "http",
            HookType::EcsTask => "ecs_task",
            HookType::K8sJob => "k8s_job",
            HookType::Lambda => "lambda",
        }
    }
}

/// The hooks of an environment, by timing.
#[derive(Debug, Clone)]
pub struct HooksConfig {
    pub pre_deploy: Vec<HookConfig>,
    pub post_deploy: Vec<HookConfig>,
    pub on_failure: Vec<HookConfig>,
    pub on_success: Vec<HookConfig>,
}

/// The hooks that run at `timing` (on success runs the post-deploy hooks).
pub open spec fn hooks_for(c: HooksConfig, timing: HookTiming) -> Seq<HookConfig> {
    match timing {
        HookTiming::PreDeploy => c.pre_deploy@,
        HookTiming::PostDeploy | HookTiming::OnSuccess => c.post_deploy@,
        HookTiming::OnFailure => c.on_failure@,
    }
}

impl Default for HooksConfig {
    fn default() -> (r: Self)
        ensures
            r.pre_deploy@.len() == 0,
            r.post_deploy@.len() == 0,
            r.on_failure@.len() == 0,
            r.on_success@.len() == 0,
    {
        HooksConfig {
            pre_deploy: Vec::new(),
            post_deploy: Vec::new(),
            on_failure: Vec::new(),
            on_success: Vec::new(),
        }
    }
}

impl HooksConfig {
    pub fn get_hooks(&self, timing: HookTiming) -> (r: &[HookConfig])
        ensures
            r@ == hooks_for(*self, timing),
    {
        match timing {
            HookTiming::PreDeploy => self.pre_deploy.as_slice(),
            HookTiming::PostDeploy | HookTiming::OnSuccess => self.post_deploy.as_slice(),
            HookTiming::OnFailure => self.on_failure.as_slice(),
        }
    }

    pub fn has_hooks(&self, timing: HookTiming) -> (r: bool)
        ensures
            r == (hooks_for(*self, timing).len() > 0),
    {
        self.get_hooks(timing).len() > 0
    }

    pub fn is_empty(&self) -> (r: bool)
        ensures
            r == (self.pre_deploy@.len() == 0 && self.post_deploy@.len() == 0
                && self.on_failure@.len() == 0 && self.on_success@.len() == 0),
    {
        self.pre_deploy.len() == 0 && self.post_deploy.len() == 0 && self.on_failure.len() == 0
            && self.on_success.len() == 0
    }
}

/// Hooks requested on success are the post-deploy hooks.
pub proof fn lemma_on_success_runs_post_deploy(c: HooksConfig)
    ensures
        hooks_for(c, HookTiming::OnSuccess) == hooks_for(c, HookTiming::PostDeploy),
{
}

/// Configuration of a single hook.
#[derive(Debug, Clone)]
pub struct HookConfig {
    pub name: String,
    pub hook_type: HookType,
    /// Type-specific configuration.
    pub config: HookTypeConfig,
    /// Maximum execution time, in seconds.
    pub timeout_secs: u32,
    /// Whether a failure of the hook fails the deployment.
    pub fail_on_error: bool,
    pub description: Option<String>,
}

/// Default hook timeout, in seconds.
pub fn default_timeout() -> (r: u32)
    ensures
        r == 300,
{
    300
}

/// By default a failing hook fails the deployment.
pub fn default_fail_on_error() -> (r: bool)
    ensures
        r,
{
    true
}

/// Type-specific hook configuration.
#[derive(Debug, Clone)]
pub struct HookTypeConfig {
    pub container: Option<ContainerHookConfig>,
    pub http: Option<HttpHookConfig>,
    pub ecs_task: Option<EcsTaskHookConfig>,
    pub k8s_job: Option<K8sJobHookConfig>,
    pub lambda: Option<LambdaHookConfig>,
}

impl Default for HookTypeConfig {
    fn default() -> (r: Self)
        ensures
            r.container is None && r.http is None && r.ecs_task is None,
            r.k8s_job is None && r.lambda is None,
    {
        HookTypeConfig { container: None, http: None, ecs_task: None, k8s_job: None, lambda: None }
    }
}

/// Container (Docker) hook settings.
#[derive(Debug, Clone)]
pub struct ContainerHookConfig {
    pub image: String,
    pub command: Vec<String>,
    pub entrypoint: Option<Vec<String>>,
    /// Environment variables, by distinct name.
    pub env: Vec<(String, EnvVarConfig)>,
    pub working_dir: Option<String>,
    /// Network mode (host, bridge, none).
    pub network: Option<String>,
    /// Volume mounts (host:container).
    pub volumes: Vec<String>,
    /// Whether to remove the container afterwards.
    pub cleanup: bool,
}

/// By default hook containers and jobs are removed afterwards.
pub fn default_cleanup() -> (r: bool)
    ensures
        r,
{
    true
}

impl Default for ContainerHookConfig {
    fn default() -> (r: Self)
        ensures
            r.image@.len() == 0,
            r.command@.len() == 0,
            r.entrypoint is None,
            r.env@.len() == 0,
            r.working_dir is None,
            r.network is None,
            r.volumes@.len() == 0,
            r.cleanup,
    {
        ContainerHookConfig {
            image: String::new(),
            command: Vec::new(),
            entrypoint: None,
            env: Vec::new(),
            working_dir: None,
            network: None,
            volumes: Vec::new(),
            cleanup: true,
        }
    }
}

/// HTTP webhook hook settings.
#[derive(Debug, Clone)]
pub struct HttpHookConfig {
    pub url: String,
    /// HTTP method (GET, POST, PUT, DELETE, PATCH).
    pub method: String,
    /// Request headers, by distinct name.
    pub headers: Vec<(String, String)>,
    pub body: Option<String>,
    pub content_type: String,
    /// Status codes counted as success (any 2xx when empty).
    pub expected_status: Vec<u16>,
    /// Whether to ignore TLS certificate errors.
    pub insecure: bool,
}

/// Default HTTP method.
pub fn default_http_method() -> (r: String)
    ensures
        r@ == "POST"@,
{
    to_owned_string("POST")
}

/// Default content type.
pub fn default_content_type() -> (r: String)
    ensures
        r@ == "application/json"@,
{
    to_owned_string("application/json")
}

impl Default for HttpHookConfig {
    fn default() -> (r: Self)
        ensures
            r.url@.len() == 0,
            r.method@ == "POST"@,
            r.headers@.len() == 0,
            r.body is None,
            r.content_type@ == "application/json"@,
            r.expected_status@.len() == 0,
            !r.insecure,
    {
        HttpHookConfig {
            url: String::new(),
            method: default_http_method(),
            headers: Vec::new(),
            body: None,
            content_type: default_content_type(),
            expected_status: Vec::new(),
            insecure: false,
        }
    }
}

/// Whether an HTTP status counts as success: one of the expected statuses,
/// or any 2xx status when none are listed.
pub open spec fn status_is_success(expected: Seq<u16>, status: u16) -> bool {
    if expected.len() == 0 {
        200 <= status < 300
    } else {
        expected.contains(status)
    }
}

impl HttpHookConfig {
    pub fn is_success_status(&self, status: u16) -> (r: bool)
        ensures
            r == status_is_success(self.expected_status@, status),
    {
        if self.expected_status.len() == 0 {
            return 200 <= status && status < 300;
        }
        let mut i: usize = 0;
        while i < self.expected_status.len()
            invariant
                i <= self.expected_status@.len(),
                forall|k: int| 0 <= k < i ==> self.expected_status@[k] != status,
            decreases self.expected_status.len() - i,
        {
            if self.expected_status[i] == status {
                assert(self.expected_status@[i as int] == status);
                return true;
            }
            i = i + 1;
        }
        false
    }
}

/// One-shot ECS task hook settings.
#[derive(Debug, Clone)]
pub struct EcsTaskHookConfig {
    pub image: Option<String>,
    pub image_tag: Option<String>,
    pub command: Vec<String>,
    pub entrypoint: Option<Vec<String>>,
    pub cpu: Option<String>,
    pub memory: Option<String>,
    pub environment: Vec<(String, EnvVarConfig)>,
    pub task_role_arn: Option<String>,
    pub execution_role_arn: Option<String>,
    pub subnets: Vec<String>,
    pub security_groups: Vec<String>,
    pub assign_public_ip: bool,
    pub cluster: Option<String>,
    /// Launch type (FARGATE or EC2).
    pub launch_type: String,
    pub capacity_provider_strategy: Vec<CapacityProviderStrategyItem>,
    pub region: Option<String>,
}

/// Default launch type of hook tasks.
pub fn default_launch_type() -> (r: String)
    ensures
        r@ == "FARGATE"@,
{
    to_owned_string("FARGATE")
}

impl Default for EcsTaskHookConfig {
    fn default() -> (r: Self)
        ensures
            r.image is None && r.image_tag is None && r.command@.len() == 0,
            r.entrypoint is None && r.cpu is None && r.memory is None,
            r.environment@.len() == 0 && r.task_role_arn is None && r.execution_role_arn is None,
            r.subnets@.len() == 0 && r.security_groups@.len() == 0 && !r.assign_public_ip,
            r.cluster is None && r.launch_type@ == "FARGATE"@,
            r.capacity_provider_strategy@.len() == 0 && r.region is None,
    {
        EcsTaskHookConfig {
            image: None,
            image_tag: None,
            command: Vec::new(),
            entrypoint: None,
            cpu: None,
            memory: None,
            environment: Vec::new(),
            task_role_arn: None,
            execution_role_arn: None,
            subnets: Vec::new(),
            security_groups: Vec::new(),
            assign_public_ip: false,
            cluster: None,
            launch_type: default_launch_type(),
            capacity_provider_strategy: Vec::new(),
            region: None,
        }
    }
}

/// ECS capacity provider strategy item.
#[derive(Debug, Clone)]
pub struct CapacityProviderStrategyItem {
    pub capacity_provider: String,
    pub weight: u32,
    pub base: u32,
}

/// One-shot Kubernetes Job hook settings.
#[derive(Debug, Clone)]
pub struct K8sJobHookConfig {
    pub image: String,
    pub image_tag: Option<String>,
    pub command: Vec<String>,
    pub args: Vec<String>,
    pub env: Vec<(String, EnvVarConfig)>,
    pub env_from: Vec<EnvFromSource>,
    pub resources: Option<K8sResourceConfig>,
    pub service_account: Option<String>,
    pub namespace: Option<String>,
    pub cleanup: bool,
    pub backoff_limit: u32,
    /// Restart policy (Never or OnFailure).
    pub restart_policy: String,
    pub active_deadline_seconds: Option<u32>,
    pub ttl_seconds_after_finished: Option<u32>,
    pub labels: Vec<(String, String)>,
    pub annotations: Vec<(String, String)>,
}

/// Default number of retries of a hook Job.
pub fn default_backoff_limit() -> (r: u32)
    ensures
        r == 2,
{
    2
}

/// Default restart policy of a hook Job.
pub fn default_restart_policy() -> (r: String)
    ensures
        r@ == "Never"@,
{
    to_owned_string("Never")
}

impl Default for K8sJobHookConfig {
    fn default() -> (r: Self)
        ensures
            r.image@.len() == 0 && r.image_tag is None && r.command@.len() == 0,
            r.args@.len() == 0 && r.env@.len() == 0 && r.env_from@.len() == 0,
            r.resources is None && r.service_account is None && r.namespace is None,
            r.cleanup && r.backoff_limit == 2 && r.restart_policy@ == "Never"@,
            r.active_deadline_seconds is None && r.ttl_seconds_after_finished is None,
            r.labels@.len() == 0 && r.annotations@.len() == 0,
    {
        K8sJobHookConfig {
            image: String::new(),
            image_tag: None,
            command: Vec::new(),
            args: Vec::new(),
            env: Vec::new(),
            env_from: Vec::new(),
            resources: None,
            service_account: None,
            namespace: None,
            cleanup: true,
            backoff_limit: default_backoff_limit(),
            restart_policy: default_restart_policy(),
            active_deadline_seconds: None,
            ttl_seconds_after_finished: None,
            labels: Vec::new(),
            annotations: Vec::new(),
        }
    }
}

/// Source of environment variables from a ConfigMap or a Secret.
#[derive(Debug, Clone)]
pub enum EnvFromSource {
    ConfigMap(String),
    Secret(String),
}

/// Kubernetes resource requests and limits.
#[derive(Debug, Clone)]
pub struct K8sResourceConfig {
    pub requests: Option<K8sResources>,
    pub limits: Option<K8sResources>,
}

/// Kubernetes resource values.
#[derive(Debug, Clone)]
pub struct K8sResources {
    pub cpu: Option<String>,
    pub memory: Option<String>,
}

/// Lambda invocation hook settings.
#[derive(Debug, Clone)]
pub struct LambdaHookConfig {
    pub function_arn: Option<String>,
    /// Whether to invoke the deployed function itself.
    pub invoke_self: bool,
    pub payload: Option<String>,
    /// Invocation type (RequestResponse or Event).
    pub invocation_type: String,
    pub qualifier: Option<String>,
    pub region: Option<String>,
}

/// Default invocation type.
pub fn default_invocation_type() -> (r: String)
    ensures
        r@ == "RequestResponse"@,
{
    to_owned_string("RequestResponse")
}

impl Default for LambdaHookConfig {
    fn default() -> (r: Self)
        ensures
            r.function_arn is None && !r.invoke_self && r.payload is None,
            r.invocation_type@ == "RequestResponse"@,
            r.qualifier is None && r.region is None,
    {
        LambdaHookConfig {
            function_arn: None,
            invoke_self: false,
            payload: None,
            invocation_type: default_invocation_type(),
            qualifier: None,
            region: None,
        }
    }
}

/// The variables among `entries` that hold a literal value, as
/// (name, value) pairs in order; variables read from elsewhere are left out.
pub open spec fn literal_env(entries: Seq<(String, EnvVarConfig)>) -> Seq<(Seq<char>, Seq<char>)>
    decreases entries.len(),
{
    if entries.len() == 0 {
        seq![]
    } else {
        let prev = literal_env(entries.drop_last());
        match entries.last().1.value {
            Some(v) => prev.push((entries.last().0@, v@)),
            None => prev,
        }
    }
}

/// The (name, value) pairs of the variables that hold a literal value.
pub fn literal_env_pairs(entries: &Vec<(String, EnvVarConfig)>) -> (r: Vec<(String, String)>)
    ensures
        text_entries(r@) == literal_env(entries@),
{
    let mut r: Vec<(String, String)> = Vec::new();
    let mut i: usize = 0;
    while i < entries.len()
        invariant
            i <= entries@.len(),
            text_entries(r@) == literal_env(entries@.subrange(0, i as int)),
        decreases entries.len() - i,
    {
        let ghost prev = r@;
        let ghost sub = entries@.subrange(0, i + 1);
        assert(sub.drop_last() =~= entries@.subrange(0, i as int));
        assert(sub.last() == entries@[i as int]);
        match &entries[i].1.value {
            Some(v) => {
                r.push((entries[i].0.clone(), v.clone()));
                assert(text_entries(r@) =~= text_entries(prev).push((entries@[i as int].0@, v@)));
            },
            None => {},
        }
        i = i + 1;
    }
    assert(entries@.subrange(0, entries@.len() as int) =~= entries@);
    r
}

} // verus!
