//! Kubernetes: the settings of the Kubernetes provider and the decisions
//! it takes around the cluster calls that the caller makes: which method
//! deploys, how infrastructure settings and environment overrides merge,
//! what image a release is given, when a rollout has finished, and what
//! is reported.

use vstd::prelude::*;
use crate::config::schema::{config_get_str, config_text, ConfigValue, EnvironmentConfig, InfrastructureConfig};
use crate::deployment::strategy::{DeploymentResult, DeploymentType};
use crate::keyed::{contains_key, get_value, has_key, insert_text, key_value, text_entries, text_insert};
use crate::text::{
    clone_opt_string, join_seqs, join_strings, lowercase_of, opt_view, push_str, seq_views,
    signed_decimal, i64_to_string, str_eq, to_lowercase, to_owned_string,
};
use super::helm::{helm_merged, HelmConfig};
use super::k8s_resources::{HpaConfig, K8sConfigMapSpec, K8sSecretSpec, RawManifestConfig};
use super::kustomize::{apply_image, image_views, kustomize_merged, with_image, ImageView, KustomizeConfig, KustomizeImage};
use super::manifest::ManifestTemplateConfig;
use super::provider::{DeploymentContext, InfrastructureType};

verus! {

/// How an environment is deployed to a cluster.
#[derive(Debug, Clone, Copy, PartialEq, Eq, Structural)]
pub enum DeploymentMethod {
    /// The image of an existing deployment is replaced.
    Direct,
    Helm,
    Kustomize,
    /// Manifest templates are rendered and applied.
    Template,
    RawManifest,
}

impl Default for DeploymentMethod {
    fn default() -> (r: Self)
        ensures
            r == DeploymentMethod::Direct,
    {
        DeploymentMethod::Direct
    }
}

/// The method a `deployment_method` text names, ignoring case:
/// "helm", "kustomize", "template", "rawmanifest" or "raw_manifest".
pub open spec fn method_named(s: Seq<char>) -> Option<DeploymentMethod> {
    let l = lowercase_of(s);
    if l == "helm"@ {
        Some(DeploymentMethod::Helm)
    } else if l == "kustomize"@ {
        Some(DeploymentMethod::Kustomize)
    } else if l == "template"@ {
        Some(DeploymentMethod::Template)
    } else if l == "rawmanifest"@ || l == "raw_manifest"@ {
        Some(DeploymentMethod::RawManifest)
    } else {
        None
    }
}

/// Reads a `deployment_method` text.
pub fn method_from_text(s: &str) -> (r: Option<DeploymentMethod>)
    ensures
        r == method_named(s@),
{
    let l = to_lowercase(s);
    if str_eq(l.as_str(), "helm") {
        Some(DeploymentMethod::Helm)
    } else if str_eq(l.as_str(), "kustomize") {
        Some(DeploymentMethod::Kustomize)
    } else if str_eq(l.as_str(), "template") {
        Some(DeploymentMethod::Template)
    } else if str_eq(l.as_str(), "rawmanifest") || str_eq(l.as_str(), "raw_manifest") {
        Some(DeploymentMethod::RawManifest)
    } else {
        None
    }
}

/// What the Kubernetes provider reports when it cannot go on.
#[derive(Debug, Clone)]
pub enum K8sError {
    NoImage,
    DeploymentMissing { name: String, namespace: String },
    RolloutTimedOut(u64),
    HelmConfigForDeploy,
    HelmConfigForRollback,
    HelmConfigForStatus,
    ReleaseNameForRollback,
    ReleaseNameForStatus,
    KustomizeConfigMissing,
    TemplateConfigMissing,
    RawManifestConfigMissing,
    RollbackFailed(String),
    DeploymentNotFound(String),
    PodWithoutName,
}

/// The message of a Kubernetes provider error.
pub open spec fn k8s_error_text(e: K8sError) -> Seq<char> {
    match e {
        K8sError::NoImage => "No image specified for deployment"@,
        K8sError::DeploymentMissing { name, namespace } =>
            "Deployment '"@ + name@ + "' not found in namespace '"@ + namespace@
                + "'. Please create the deployment first or use Helm/Kustomize."@,
        K8sError::RolloutTimedOut(t) =>
            "Deployment rollout timed out after "@ + crate::text::decimal(t as nat) + " seconds"@,
        K8sError::HelmConfigForDeploy => "Helm configuration is required for helm deployment"@,
        K8sError::HelmConfigForRollback => "Helm configuration is required for helm rollback"@,
        K8sError::HelmConfigForStatus => "Helm configuration is required for helm status"@,
        K8sError::ReleaseNameForRollback => "release_name is required for Helm rollback"@,
        K8sError::ReleaseNameForStatus => "release_name is required for Helm status"@,
        K8sError::KustomizeConfigMissing => "Kustomize configuration is required for kustomize deployment"@,
        K8sError::TemplateConfigMissing => "Manifest template configuration is required for template deployment"@,
        K8sError::RawManifestConfigMissing => "Raw manifests configuration is required for raw manifest deployment"@,
        K8sError::RollbackFailed(stderr) => "Rollback failed: "@ + stderr@,
        K8sError::DeploymentNotFound(name) => "Deployment '"@ + name@ + "' not found"@,
        K8sError::PodWithoutName => "Pod has no name"@,
    }
}

impl K8sError {
    pub fn to_string(&self) -> (r: String)
        ensures
            r@ == k8s_error_text(*self),
    {
        match self {
            K8sError::NoImage => to_owned_string("No image specified for deployment"),
            K8sError::DeploymentMissing { name, namespace } => {
                let mut m = to_owned_string("Deployment '");
                push_str(&mut m, name.as_str());
                push_str(&mut m, "' not found in namespace '");
                push_str(&mut m, namespace.as_str());
                push_str(&mut m, "'. Please create the deployment first or use Helm/Kustomize.");
                m
            },
            K8sError::RolloutTimedOut(t) => {
                let mut m = to_owned_string("Deployment rollout timed out after ");
                let s = crate::text::u64_to_string(*t);
                push_str(&mut m, s.as_str());
                push_str(&mut m, " seconds");
                m
            },
            K8sError::HelmConfigForDeploy => to_owned_string("Helm configuration is required for helm deployment"),
            K8sError::HelmConfigForRollback => to_owned_string("Helm configuration is required for helm rollback"),
            K8sError::HelmConfigForStatus => to_owned_string("Helm configuration is required for helm status"),
            K8sError::ReleaseNameForRollback => to_owned_string("release_name is required for Helm rollback"),
            K8sError::ReleaseNameForStatus => to_owned_string("release_name is required for Helm status"),
            K8sError::KustomizeConfigMissing => to_owned_string("Kustomize configuration is required for kustomize deployment"),
            K8sError::TemplateConfigMissing => to_owned_string("Manifest template configuration is required for template deployment"),
            K8sError::RawManifestConfigMissing => to_owned_string("Raw manifests configuration is required for raw manifest deployment"),
            K8sError::RollbackFailed(stderr) => {
                let mut m = to_owned_string("Rollback failed: ");
                push_str(&mut m, stderr.as_str());
                m
            },
            K8sError::DeploymentNotFound(name) => {
                let mut m = to_owned_string("Deployment '");
                push_str(&mut m, name.as_str());
                push_str(&mut m, "' not found");
                m
            },
            K8sError::PodWithoutName => to_owned_string("Pod has no name"),
        }
    }
}

/// The settings of the Kubernetes provider: the namespace and context it
/// deploys to and the infrastructure-wide deployment settings, which an
/// environment may override. The cluster client is the caller's.
#[derive(Debug, Clone)]
pub struct KubernetesProvider {
    pub namespace: String,
    pub context: Option<String>,
    pub helm_config: Option<HelmConfig>,
    pub kustomize_config: Option<KustomizeConfig>,
    pub manifest_template_config: Option<ManifestTemplateConfig>,
    pub raw_manifest_config: Option<RawManifestConfig>,
    pub config_maps: Vec<K8sConfigMapSpec>,
    pub secrets: Vec<K8sSecretSpec>,
    pub hpa_config: Option<HpaConfig>,
}

/// The replica counts of a deployment as the cluster reports them.
#[derive(Debug, Clone, Copy)]
pub struct ReplicaCounts {
    pub replicas: Option<i32>,
    pub ready_replicas: Option<i32>,
    pub updated_replicas: Option<i32>,
    pub available_replicas: Option<i32>,
}

/// A reported count, zero when missing.
pub open spec fn count_or_zero(c: Option<i32>) -> i32 {
    match c {
        Some(n) => n,
        None => 0i32,
    }
}

fn or_zero(c: Option<i32>) -> (r: i32)
    ensures
        r == count_or_zero(c),
{
    match c {
        Some(n) => n,
        None => 0,
    }
}

/// The method an environment is deployed with: its `deployment_method`
/// text when it names one; else templates, raw manifests, Helm or
/// Kustomize, the first that the environment or the provider configures;
/// else a direct image update.
pub open spec fn k8s_method(p: KubernetesProvider, env: EnvironmentConfig) -> DeploymentMethod {
    let named = match config_text(env.config@, "deployment_method"@) {
        Some(t) => method_named(t),
        None => None,
    };
    match named {
        Some(m) => m,
        None => if has_key(env.config@, "manifest_template"@) || p.manifest_template_config is Some {
            DeploymentMethod::Template
        } else if has_key(env.config@, "raw_manifests"@) || p.raw_manifest_config is Some {
            DeploymentMethod::RawManifest
        } else if has_key(env.config@, "helm"@) || p.helm_config is Some {
            DeploymentMethod::Helm
        } else if has_key(env.config@, "kustomize"@) || p.kustomize_config is Some {
            DeploymentMethod::Kustomize
        } else {
            DeploymentMethod::Direct
        },
    }
}

/// The deployment an environment updates: its `deployment_name` text,
/// else "app".
pub open spec fn k8s_deployment_name(env: EnvironmentConfig) -> Seq<char> {
    match config_text(env.config@, "deployment_name"@) {
        Some(d) => d,
        None => "app"@,
    }
}

/// The settings of an infrastructure-wide setting and its environment
/// override combined: the override replaces the setting.
pub open spec fn overridden<T>(base: Option<T>, over: Option<T>) -> Option<T> {
    if over is Some { over } else { base }
}

impl KubernetesProvider {
    /// A provider of `namespace` (and `context`) with no deployment settings yet.
    pub fn new(namespace: &str, context: Option<&str>) -> (r: Self)
        ensures
            r.namespace@ == namespace@,
            match context {
                Some(c) => r.context matches Some(s) && s@ == c@,
                None => r.context is None,
            },
            r.helm_config is None && r.kustomize_config is None,
            r.manifest_template_config is None && r.raw_manifest_config is None,
            r.config_maps@.len() == 0 && r.secrets@.len() == 0 && r.hpa_config is None,
    {
        KubernetesProvider {
            namespace: to_owned_string(namespace),
            context: match context {
                Some(c) => Some(to_owned_string(c)),
                None => None,
            },
            helm_config: None,
            kustomize_config: None,
            manifest_template_config: None,
            raw_manifest_config: None,
            config_maps: Vec::new(),
            secrets: Vec::new(),
            hpa_config: None,
        }
    }

    /// The namespace an infrastructure names (else "default") and its
    /// context, if it names one.
    pub fn settings_of(config: &InfrastructureConfig) -> (r: (String, Option<String>))
        ensures
            r.0@ == (match config_text(config.config@, "namespace"@) {
                Some(n) => n,
                None => "default"@,
            }),
            opt_view(r.1) == config_text(config.config@, "context"@),
    {
        let namespace = match config_get_str(&config.config, "namespace") {
            Some(n) => to_owned_string(n),
            None => to_owned_string("default"),
        };
        let context = match config_get_str(&config.config, "context") {
            Some(c) => Some(to_owned_string(c)),
            None => None,
        };
        (namespace, context)
    }

    pub fn infrastructure_type(&self) -> (r: InfrastructureType)
        ensures
            r == InfrastructureType::Kubernetes,
    {
        InfrastructureType::Kubernetes
    }

    pub fn supported_deployment_types(&self) -> (r: Vec<DeploymentType>)
        ensures
            r@ == seq![DeploymentType::RollingUpdate, DeploymentType::AllIn],
    {
        let mut v: Vec<DeploymentType> = Vec::new();
        v.push(DeploymentType::RollingUpdate);
        v.push(DeploymentType::AllIn);
        assert(v@ =~= seq![DeploymentType::RollingUpdate, DeploymentType::AllIn]);
        v
    }

    /// The method an environment is deployed with.
    pub fn get_deployment_method(&self, ctx: &DeploymentContext) -> (r: DeploymentMethod)
        ensures
            r == k8s_method(*self, ctx.environment),
    {
        let env = &ctx.environment.config;
        let named = match config_get_str(env, "deployment_method") {
            Some(t) => method_from_text(t),
            None => None,
        };
        match named {
            Some(m) => m,
            None => if contains_key(env, "manifest_template") || self.manifest_template_config.is_some() {
                DeploymentMethod::Template
            } else if contains_key(env, "raw_manifests") || self.raw_manifest_config.is_some() {
                DeploymentMethod::RawManifest
            } else if contains_key(env, "helm") || self.helm_config.is_some() {
                DeploymentMethod::Helm
            } else if contains_key(env, "kustomize") || self.kustomize_config.is_some() {
                DeploymentMethod::Kustomize
            } else {
                DeploymentMethod::Direct
            },
        }
    }

    /// The method a deployment runs with: in app-only mode always a direct
    /// image update, so that no infrastructure is touched.
    pub fn deploy_method(&self, ctx: &DeploymentContext) -> (r: DeploymentMethod)
        ensures
            r == (if ctx.deploy_mode == super::provider::DeployMode::AppOnly {
                DeploymentMethod::Direct
            } else {
                k8s_method(*self, ctx.environment)
            }),
    {
        if ctx.deploy_mode.is_app_only() {
            DeploymentMethod::Direct
        } else {
            self.get_deployment_method(ctx)
        }
    }

    /// The Helm settings of a deployment: the provider's merged with the
    /// environment's overrides.
    pub fn merge_helm_configs(base: Option<HelmConfig>, overrides: Option<HelmConfig>) -> (r: Option<HelmConfig>)
        ensures
            match (base, overrides) {
                (Some(b), Some(o)) => r matches Some(m) && helm_merged(b, o, m),
                (Some(b), None) => r == Some(b),
                (None, Some(o)) => r == Some(o),
                (None, None) => r is None,
            },
    {
        match (base, overrides) {
            (Some(b), Some(o)) => Some(b.merge(&o)),
            (Some(b), None) => Some(b),
            (None, Some(o)) => Some(o),
            (None, None) => None,
        }
    }

    /// The Kustomize settings of a deployment: the provider's merged with
    /// the environment's overrides.
    pub fn merge_kustomize_configs(base: Option<KustomizeConfig>, overrides: Option<KustomizeConfig>) -> (r: Option<KustomizeConfig>)
        ensures
            match (base, overrides) {
                (Some(b), Some(o)) => r matches Some(m) && kustomize_merged(b, o, m),
                (Some(b), None) => r == Some(b),
                (None, Some(o)) => r == Some(o),
                (None, None) => r is None,
            },
    {
        match (base, overrides) {
            (Some(b), Some(o)) => Some(b.merge(&o)),
            (Some(b), None) => Some(b),
            (None, Some(o)) => Some(o),
            (None, None) => None,
        }
    }

    /// A setting that an environment replaces as a whole (templates, raw
    /// manifests, the autoscaler): the environment's when it has one.
    pub fn override_config<T>(base: Option<T>, overrides: Option<T>) -> (r: Option<T>)
        ensures
            r == overridden(base, overrides),
    {
        match overrides {
            Some(o) => Some(o),
            None => base,
        }
    }

    /// ConfigMaps or Secrets of a deployment: the environment's when it
    /// lists any, else the provider's.
    pub fn override_list<T>(base: Vec<T>, overrides: Vec<T>) -> (r: Vec<T>)
        ensures
            r@ == (if overrides@.len() == 0 { base@ } else { overrides@ }),
    {
        if overrides.len() == 0 { base } else { overrides }
    }

    /// The deployment an environment updates.
    pub fn deployment_name(env: &EnvironmentConfig) -> (r: String)
        ensures
            r@ == k8s_deployment_name(*env),
    {
        match config_get_str(&env.config, "deployment_name") {
            Some(d) => to_owned_string(d),
            None => to_owned_string("app"),
        }
    }

    /// The Kubernetes strategy of a deployment type.
    pub fn determine_strategy(&self, deployment_type: &DeploymentType) -> (r: &'static str)
        ensures
            r@ == (match *deployment_type {
                DeploymentType::RollingUpdate => "RollingUpdate"@,
                DeploymentType::AllIn => "Recreate"@,
            }),
    {
        match deployment_type {
            DeploymentType::RollingUpdate => "RollingUpdate",
            DeploymentType::AllIn => "Recreate",
        }
    }

    /// The Helm settings a release is installed with: the merged settings,
    /// which are required, with `image.tag` set to the environment's image.
    pub fn helm_release_config(merged: Option<HelmConfig>, image: Option<&str>) -> (r: Result<HelmConfig, K8sError>)
        ensures
            match merged {
                None => r matches Err(K8sError::HelmConfigForDeploy),
                Some(c) => r matches Ok(d) && d.chart == c.chart && d.repo == c.repo
                    && d.repo_name == c.repo_name && d.version == c.version
                    && d.release_name == c.release_name && d.values_files == c.values_files
                    && d.set_string == c.set_string && d.create_namespace == c.create_namespace
                    && d.wait == c.wait && d.timeout == c.timeout && d.atomic == c.atomic
                    && d.skip_crds == c.skip_crds
                    && text_entries(d.set@) == (match image {
                        Some(i) => text_insert(text_entries(c.set@), "image.tag"@, i@),
                        None => text_entries(c.set@),
                    }),
            },
    {
        match merged {
            None => Err(K8sError::HelmConfigForDeploy),
            Some(mut c) => {
                if let Some(i) = image {
                    insert_text(&mut c.set, to_owned_string("image.tag"), to_owned_string(i));
                }
                Ok(c)
            },
        }
    }

    /// The Kustomize settings a deployment is applied with: the merged
    /// settings, which are required, with the environment's image as the
    /// new tag of the image named like the deployment (added when missing).
    pub fn kustomize_release_config(merged: Option<KustomizeConfig>, deployment_name: &str, image: Option<&str>) -> (r: Result<KustomizeConfig, K8sError>)
        ensures
            match merged {
                None => r matches Err(K8sError::KustomizeConfigMissing),
                Some(c) => r matches Ok(d) && d.path == c.path && d.replicas == c.replicas
                    && d.labels == c.labels && d.annotations == c.annotations
                    && d.name_prefix == c.name_prefix && d.name_suffix == c.name_suffix
                    && d.namespace == c.namespace && d.enable_helm == c.enable_helm
                    && d.load_restrictor == c.load_restrictor && d.prune == c.prune
                    && d.prune_whitelist == c.prune_whitelist
                    && image_views(d.images@) == (match image {
                        Some(i) => with_image(image_views(c.images@), ImageView {
                            name: deployment_name@,
                            new_name: None,
                            new_tag: Some(i@),
                            digest: None,
                        }),
                        None => image_views(c.images@),
                    }),
            },
    {
        match merged {
            None => Err(K8sError::KustomizeConfigMissing),
            Some(mut c) => {
                if let Some(i) = image {
                    let o = KustomizeImage {
                        name: to_owned_string(deployment_name),
                        new_name: None,
                        new_tag: Some(to_owned_string(i)),
                        digest: None,
                    };
                    apply_image(&mut c.images, &o);
                }
                Ok(c)
            },
        }
    }

    /// The settings templates are rendered with: required for a template
    /// deployment.
    pub fn template_config(merged: Option<ManifestTemplateConfig>) -> (r: Result<ManifestTemplateConfig, K8sError>)
        ensures
            match merged {
                Some(c) => r == Ok::<ManifestTemplateConfig, K8sError>(c),
                None => r matches Err(K8sError::TemplateConfigMissing),
            },
    {
        match merged {
            Some(c) => Ok(c),
            None => Err(K8sError::TemplateConfigMissing),
        }
    }

    /// The raw manifests applied: required for a raw manifest deployment.
    pub fn raw_manifest_config(merged: Option<RawManifestConfig>) -> (r: Result<RawManifestConfig, K8sError>)
        ensures
            match merged {
                Some(c) => r == Ok::<RawManifestConfig, K8sError>(c),
                None => r matches Err(K8sError::RawManifestConfigMissing),
            },
    {
        match merged {
            Some(c) => Ok(c),
            None => Err(K8sError::RawManifestConfigMissing),
        }
    }

    /// The release a Helm rollback (or, with `for_status`, a status
    /// query) is about: the merged settings and their release name are required.
    pub fn helm_release_name(merged: &Option<HelmConfig>, for_status: bool) -> (r: Result<String, K8sError>)
        ensures
            match *merged {
                None => if for_status {
                    r matches Err(K8sError::HelmConfigForStatus)
                } else {
                    r matches Err(K8sError::HelmConfigForRollback)
                },
                Some(c) => match c.release_name {
                    Some(n) => r matches Ok(s) && s@ == n@,
                    None => if for_status {
                        r matches Err(K8sError::ReleaseNameForStatus)
                    } else {
                        r matches Err(K8sError::ReleaseNameForRollback)
                    },
                },
            },
    {
        match merged {
            None => if for_status { Err(K8sError::HelmConfigForStatus) } else { Err(K8sError::HelmConfigForRollback) },
            Some(c) => match &c.release_name {
                Some(n) => Ok(n.clone()),
                None => if for_status {
                    Err(K8sError::ReleaseNameForStatus)
                } else {
                    Err(K8sError::ReleaseNameForRollback)
                },
            },
        }
    }

    /// The image of a direct deployment: an error when the environment names none.
    pub fn direct_image(ctx: &DeploymentContext) -> (r: Result<String, K8sError>)
        ensures
            match ctx.environment.image {
                Some(i) => r matches Ok(s) && s@ == i@,
                None => r matches Err(K8sError::NoImage),
            },
    {
        match &ctx.environment.image {
            Some(i) => Ok(i.clone()),
            None => Err(K8sError::NoImage),
        }
    }

    /// The message of a dry run of a direct deployment.
    pub fn direct_dry_run_message(&self, image: &str, deployment_name: &str) -> (r: String)
        ensures
            r@ == "Would deploy "@ + image@ + " to deployment/"@ + deployment_name@ + " in namespace "@ + self.namespace@,
    {
        let mut m = to_owned_string("Would deploy ");
        push_str(&mut m, image);
        push_str(&mut m, " to deployment/");
        push_str(&mut m, deployment_name);
        push_str(&mut m, " in namespace ");
        push_str(&mut m, self.namespace.as_str());
        m
    }

    /// Checks that the deployment a direct update replaces exists.
    pub fn check_deployment_exists(&self, deployment_name: &str, exists: bool) -> (r: Result<(), K8sError>)
        ensures
            exists ==> r is Ok,
            !exists ==> (r matches Err(K8sError::DeploymentMissing { name, namespace })
                && name@ == deployment_name@ && namespace@ == self.namespace@),
    {
        if exists {
            Ok(())
        } else {
            Err(K8sError::DeploymentMissing {
                name: to_owned_string(deployment_name),
                namespace: self.namespace.clone(),
            })
        }
    }

    /// How long a rollout may take: the environment's
    /// `rollout_timeout_secs`, else 300 seconds.
    pub fn rollout_timeout(env: &EnvironmentConfig) -> (r: u64)
        ensures
            r == match key_value(env.config@, "rollout_timeout_secs"@) {
                Some(ConfigValue::Unsigned(n)) => n,
                _ => 300u64,
            },
    {
        match get_value(&env.config, "rollout_timeout_secs") {
            Some(v) => match v.as_u64() {
                Some(n) => n,
                None => 300,
            },
            None => 300,
        }
    }

    /// Whether a rollout may go on waiting: an error once more seconds
    /// than the timeout have passed.
    pub fn rollout_time_check(elapsed_secs: u64, timeout_secs: u64) -> (r: Result<(), K8sError>)
        ensures
            elapsed_secs > timeout_secs ==> (r matches Err(K8sError::RolloutTimedOut(t)) && t == timeout_secs),
            elapsed_secs <= timeout_secs ==> r is Ok,
    {
        if elapsed_secs > timeout_secs {
            Err(K8sError::RolloutTimedOut(timeout_secs))
        } else {
            Ok(())
        }
    }

    /// Whether a rollout has finished: there is at least one replica and
    /// every replica is ready and updated. Missing counts are zero.
    pub fn rollout_complete(counts: &ReplicaCounts) -> (r: bool)
        ensures
            r == ({
                let n = count_or_zero(counts.replicas);
                &&& count_or_zero(counts.ready_replicas) == n
                &&& count_or_zero(counts.updated_replicas) == n
                &&& n > 0
            }),
    {
        let n = or_zero(counts.replicas);
        or_zero(counts.ready_replicas) == n && or_zero(counts.updated_replicas) == n && n > 0
    }

    /// The result of a direct deployment.
    pub fn direct_result(image: &str, deployment_name: &str) -> (r: DeploymentResult)
        ensures
            r.success,
            r.message@ == "Deployed "@ + image@ + " to "@ + deployment_name@,
            opt_view(r.version) == Some(image@),
            r.rollback_version is None,
    {
        let mut m = to_owned_string("Deployed ");
        push_str(&mut m, image);
        push_str(&mut m, " to ");
        push_str(&mut m, deployment_name);
        DeploymentResult::success(m.as_str()).with_version(image)
    }

    /// The message of raw manifests: what a dry run would apply, or what
    /// was applied.
    pub fn raw_manifest_message(config: &RawManifestConfig, dry_run: bool) -> (r: String)
        ensures
            r@ == (if dry_run { "Would apply raw manifests: "@ } else { "Applied raw manifests: "@ })
                + join_seqs(seq_views(config.files@), ", "@),
    {
        let mut m = if dry_run {
            to_owned_string("Would apply raw manifests: ")
        } else {
            to_owned_string("Applied raw manifests: ")
        };
        let files = join_strings(&config.files, ", ");
        push_str(&mut m, files.as_str());
        m
    }

    /// The version a template or raw manifest deployment reports: the
    /// environment's image, else empty.
    pub fn reported_version(ctx: &DeploymentContext) -> (r: String)
        ensures
            r@ == (match ctx.environment.image {
                Some(i) => i@,
                None => Seq::<char>::empty(),
            }),
    {
        match &ctx.environment.image {
            Some(i) => i.clone(),
            None => String::new(),
        }
    }

    /// The arguments of `kubectl` that undo the last rollout.
    pub fn rollback_args(&self, deployment_name: &str) -> (r: Vec<String>)
        ensures
            seq_views(r@) == seq!["rollout"@, "undo"@, "deployment/"@ + deployment_name@, "-n"@, self.namespace@],
    {
        let mut target = to_owned_string("deployment/");
        push_str(&mut target, deployment_name);
        let mut a: Vec<String> = Vec::new();
        a.push(to_owned_string("rollout"));
        a.push(to_owned_string("undo"));
        a.push(target);
        a.push(to_owned_string("-n"));
        a.push(self.namespace.clone());
        assert(seq_views(a@) =~= seq!["rollout"@, "undo"@, "deployment/"@ + deployment_name@, "-n"@, self.namespace@]);
        a
    }

    /// What undoing a rollout gave: an error with its standard error when
    /// `kubectl` failed.
    pub fn rollback_outcome(success: bool, stderr: &str) -> (r: Result<(), K8sError>)
        ensures
            success ==> r is Ok,
            !success ==> (r matches Err(K8sError::RollbackFailed(s)) && s@ == stderr@),
    {
        if success { Ok(()) } else { Err(K8sError::RollbackFailed(to_owned_string(stderr))) }
    }

    /// The message of a direct rollback: what a dry run would do, or what was done.
    pub fn rollback_message(dry_run: bool, deployment_name: &str) -> (r: String)
        ensures
            r@ == (if dry_run { "Would rollback deployment/"@ } else { "Rolled back deployment/"@ })
                + deployment_name@,
    {
        let mut m = if dry_run {
            to_owned_string("Would rollback deployment/")
        } else {
            to_owned_string("Rolled back deployment/")
        };
        push_str(&mut m, deployment_name);
        m
    }

    /// The status report of a Helm release.
    pub fn helm_status_text(status: &str, history: &str) -> (r: String)
        ensures
            r@ == status@ + "\n\nRelease History:\n"@ + history@,
    {
        let mut m = to_owned_string(status);
        push_str(&mut m, "\n\nRelease History:\n");
        push_str(&mut m, history);
        m
    }

    /// The status report of a deployment, or an error when it was not found.
    pub fn direct_status_text(&self, deployment_name: &str, found: Option<ReplicaCounts>) -> (r: Result<String, K8sError>)
        ensures
            match found {
                None => r matches Err(K8sError::DeploymentNotFound(n)) && n@ == deployment_name@,
                Some(c) => r matches Ok(s) && s@ == "Deployment: "@ + deployment_name@ + "\nNamespace: "@ + self.namespace@
                    + "\nReplicas: "@ + signed_decimal(count_or_zero(c.ready_replicas) as int) + "/"@
                    + signed_decimal(count_or_zero(c.replicas) as int) + " ready\nUpdated: "@
                    + signed_decimal(count_or_zero(c.updated_replicas) as int) + "\nAvailable: "@
                    + signed_decimal(count_or_zero(c.available_replicas) as int),
            },
    {
        let c = match found {
            Some(c) => c,
            None => return Err(K8sError::DeploymentNotFound(to_owned_string(deployment_name))),
        };
        let mut o = to_owned_string("Deployment: ");
        push_str(&mut o, deployment_name);
        push_str(&mut o, "\nNamespace: ");
        push_str(&mut o, self.namespace.as_str());
        push_str(&mut o, "\nReplicas: ");
        let t = i64_to_string(or_zero(c.ready_replicas) as i64);
        push_str(&mut o, t.as_str());
        push_str(&mut o, "/");
        let t = i64_to_string(or_zero(c.replicas) as i64);
        push_str(&mut o, t.as_str());
        push_str(&mut o, " ready\nUpdated: ");
        let t = i64_to_string(or_zero(c.updated_replicas) as i64);
        push_str(&mut o, t.as_str());
        push_str(&mut o, "\nAvailable: ");
        let t = i64_to_string(or_zero(c.available_replicas) as i64);
        push_str(&mut o, t.as_str());
        Ok(o)
    }

    /// The label selector of a deployment's pods.
    pub fn pod_selector(deployment_name: &str) -> (r: String)
        ensures
            r@ == "app="@ + deployment_name@,
    {
        let mut s = to_owned_string("app=");
        push_str(&mut s, deployment_name);
        s
    }

    /// What is printed when a deployment has no pods.
    pub fn no_pods_message(deployment_name: &str) -> (r: String)
        ensures
            r@ == "No pods found for deployment/"@ + deployment_name@,
    {
        let mut s = to_owned_string("No pods found for deployment/");
        push_str(&mut s, deployment_name);
        s
    }

    /// The arguments of `kubectl` that print (or follow) the logs of the
    /// first pod; an error when the pod has no name.
    pub fn logs_args(&self, pod_name: &Option<String>, follow: bool) -> (r: Result<Vec<String>, K8sError>)
        ensures
            match *pod_name {
                None => r matches Err(K8sError::PodWithoutName),
                Some(p) => r matches Ok(a) && seq_views(a@) == seq!["logs"@, p@, "-n"@, self.namespace@]
                    + (if follow { seq!["-f"@] } else { seq!["--tail=100"@] }),
            },
    {
        let pod = match pod_name {
            Some(p) => p,
            None => return Err(K8sError::PodWithoutName),
        };
        let mut a: Vec<String> = Vec::new();
        a.push(to_owned_string("logs"));
        a.push(pod.clone());
        a.push(to_owned_string("-n"));
        a.push(self.namespace.clone());
        if follow {
            a.push(to_owned_string("-f"));
        } else {
            a.push(to_owned_string("--tail=100"));
        }
        assert(seq_views(a@) =~= seq!["logs"@, pod@, "-n"@, self.namespace@]
            + (if follow { seq!["-f"@] } else { seq!["--tail=100"@] }));
        Ok(a)
    }
}

} // verus!
