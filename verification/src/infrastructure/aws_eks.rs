//! AWS EKS: the settings of the EKS provider and the decisions it takes
//! around the AWS and Kubernetes calls that the caller makes.

use vstd::prelude::*;
use crate::config::schema::{config_get_str, config_text, ConfigValue, EnvironmentConfig, InfrastructureConfig};
use crate::json::{json_quote, json_string_literal};
use crate::keyed::{get_value, key_value};
use crate::text::{
    contains_seq, push_str, seq_views, signed_decimal, i64_to_string, str_contains, str_eq,
    to_owned_string,
};
use super::provider::{DeploymentContext, InfrastructureType};
use crate::deployment::strategy::DeploymentType;

verus! {

/// What the EKS provider reports when it cannot go on.
#[derive(Debug, Clone)]
pub enum EksError {
    ClusterNameRequired,
    RegionRequired,
    ClusterNotFound(String),
    NoEndpoint,
    NoCertificateAuthority,
    KubeconfigUpdateFailed(String),
    NotActive { cluster: String, status: String },
    NoImage,
    RolloutTimedOut,
    RollbackFailed(String),
}

/// The message of an EKS provider error.
pub open spec fn eks_error_text(e: EksError) -> Seq<char> {
    match e {
        EksError::ClusterNameRequired => "cluster_name is required for aws-eks"@,
        EksError::RegionRequired => "region is required for aws-eks"@,
        EksError::ClusterNotFound(c) => "Cluster "@ + c@ + " not found"@,
        EksError::NoEndpoint => "Cluster has no endpoint"@,
        EksError::NoCertificateAuthority => "Cluster has no CA data"@,
        EksError::KubeconfigUpdateFailed(stderr) => "Failed to configure kubectl for EKS cluster. Ensure AWS CLI is configured with access to the cluster.\n"@ + stderr@,
        EksError::NotActive { cluster, status } =>
            "EKS cluster "@ + cluster@ + " is not active (status: "@ + status@ + ")"@,
        EksError::NoImage => "No image specified for deployment"@,
        EksError::RolloutTimedOut => "Deployment rollout timed out"@,
        EksError::RollbackFailed(stderr) => "Rollback failed: "@ + stderr@,
    }
}

impl EksError {
    pub fn to_string(&self) -> (r: String)
        ensures
            r@ == eks_error_text(*self),
    {
        match self {
            EksError::ClusterNameRequired => to_owned_string("cluster_name is required for aws-eks"),
            EksError::RegionRequired => to_owned_string("region is required for aws-eks"),
            EksError::ClusterNotFound(c) => {
                let mut m = to_owned_string("Cluster ");
                push_str(&mut m, c.as_str());
                push_str(&mut m, " not found");
                m
            },
            EksError::NoEndpoint => to_owned_string("Cluster has no endpoint"),
            EksError::NoCertificateAuthority => to_owned_string("Cluster has no CA data"),
            EksError::KubeconfigUpdateFailed(stderr) => {
                let mut m = to_owned_string(
                    "Failed to configure kubectl for EKS cluster. Ensure AWS CLI is configured with access to the cluster.\n",
                );
                push_str(&mut m, stderr.as_str());
                m
            },
            EksError::NotActive { cluster, status } => {
                let mut m = to_owned_string("EKS cluster ");
                push_str(&mut m, cluster.as_str());
                push_str(&mut m, " is not active (status: ");
                push_str(&mut m, status.as_str());
                push_str(&mut m, ")");
                m
            },
            EksError::NoImage => to_owned_string("No image specified for deployment"),
            EksError::RolloutTimedOut => to_owned_string("Deployment rollout timed out"),
            EksError::RollbackFailed(stderr) => {
                let mut m = to_owned_string("Rollback failed: ");
                push_str(&mut m, stderr.as_str());
                m
            },
        }
    }
}

/// The settings of the EKS provider. The AWS and Kubernetes clients are
/// the caller's.
#[derive(Debug, Clone)]
pub struct AwsEksProvider {
    pub cluster_name: String,
    pub region: String,
    pub namespace: String,
}

/// The deployment an environment updates: its `deployment_name` text,
/// else "app".
pub open spec fn eks_deployment_name(env: EnvironmentConfig) -> Seq<char> {
    match config_text(env.config@, "deployment_name"@) {
        Some(d) => d,
        None => "app"@,
    }
}

/// `i` is the first kubeconfig context whose name contains `cluster`.
pub open spec fn first_matching_context(names: Seq<String>, cluster: Seq<char>, i: int) -> bool {
    0 <= i < names.len() && contains_seq(names[i]@, cluster)
        && forall|j: int| 0 <= j < i ==> !contains_seq(names[j]@, cluster)
}

impl AwsEksProvider {
    pub fn infrastructure_type(&self) -> (r: InfrastructureType)
        ensures
            r == InfrastructureType::AwsEks,
    {
        InfrastructureType::AwsEks
    }

    /// The deployment types the provider supports.
    pub fn supported_deployment_types(&self) -> (r: Vec<DeploymentType>)
        ensures
            r@ == seq![DeploymentType::RollingUpdate, DeploymentType::AllIn],
    {
        let mut v: Vec<DeploymentType> = Vec::new();
        v.push(DeploymentType::RollingUpdate);
        v.push(DeploymentType::AllIn);
        assert(v@ =~= seq![DeploymentType::RollingUpdate, DeploymentType::AllIn]);
        v
    }

    pub fn new(cluster_name: &str, region: &str, namespace: &str) -> (r: Self)
        ensures
            r.cluster_name@ == cluster_name@ && r.region@ == region@ && r.namespace@ == namespace@,
    {
        AwsEksProvider {
            cluster_name: to_owned_string(cluster_name),
            region: to_owned_string(region),
            namespace: to_owned_string(namespace),
        }
    }

    /// The provider an infrastructure describes by its `cluster_name`,
    /// `region` and `namespace` (else "default") texts.
    pub fn from_settings(config: &InfrastructureConfig) -> (r: Result<Self, EksError>)
        ensures
            match r {
                Ok(p) => config_text(config.config@, "cluster_name"@) == Some(p.cluster_name@)
                    && config_text(config.config@, "region"@) == Some(p.region@)
                    && p.namespace@ == (match config_text(config.config@, "namespace"@) {
                        Some(n) => n,
                        None => "default"@,
                    }),
                Err(EksError::ClusterNameRequired) => config_text(config.config@, "cluster_name"@) is None,
                Err(EksError::RegionRequired) => config_text(config.config@, "cluster_name"@) is Some
                    && config_text(config.config@, "region"@) is None,
                Err(_) => false,
            },
    {
        let cluster = match config_get_str(&config.config, "cluster_name") {
            Some(c) => c,
            None => return Err(EksError::ClusterNameRequired),
        };
        let region = match config_get_str(&config.config, "region") {
            Some(r) => r,
            None => return Err(EksError::RegionRequired),
        };
        let namespace = match config_get_str(&config.config, "namespace") {
            Some(n) => n,
            None => "default",
        };
        Ok(Self::new(cluster, region, namespace))
    }

    /// Checks what describing the cluster returned: the cluster, its
    /// endpoint and its certificate authority must all be there.
    pub fn check_cluster_info(cluster_name: &str, found: bool, has_endpoint: bool, has_ca: bool) -> (r: Result<(), EksError>)
        ensures
            !found ==> (r matches Err(EksError::ClusterNotFound(c)) && c@ == cluster_name@),
            found && !has_endpoint ==> r matches Err(EksError::NoEndpoint),
            found && has_endpoint && !has_ca ==> r matches Err(EksError::NoCertificateAuthority),
            found && has_endpoint && has_ca ==> r is Ok,
    {
        if !found {
            Err(EksError::ClusterNotFound(to_owned_string(cluster_name)))
        } else if !has_endpoint {
            Err(EksError::NoEndpoint)
        } else if !has_ca {
            Err(EksError::NoCertificateAuthority)
        } else {
            Ok(())
        }
    }

    /// The kubeconfig context to use: the first whose name contains the
    /// cluster name.
    pub fn select_context(names: &Vec<String>, cluster_name: &str) -> (r: Option<usize>)
        ensures
            match r {
                Some(i) => first_matching_context(names@, cluster_name@, i as int),
                None => forall|j: int| 0 <= j < names@.len() ==> !contains_seq(names@[j]@, cluster_name@),
            },
    {
        let mut i: usize = 0;
        while i < names.len()
            invariant
                i <= names@.len(),
                forall|j: int| 0 <= j < i ==> !contains_seq(names@[j]@, cluster_name@),
            decreases names.len() - i,
        {
            if str_contains(names[i].as_str(), cluster_name) {
                return Some(i);
            }
            i = i + 1;
        }
        None
    }

    /// The arguments of `aws` that write the cluster into the kubeconfig.
    pub fn update_kubeconfig_args(&self) -> (r: Vec<String>)
        ensures
            seq_views(r@) == seq!["eks"@, "update-kubeconfig"@, "--name"@, self.cluster_name@, "--region"@, self.region@],
    {
        let mut a: Vec<String> = Vec::new();
        a.push(to_owned_string("eks"));
        a.push(to_owned_string("update-kubeconfig"));
        a.push(to_owned_string("--name"));
        a.push(self.cluster_name.clone());
        a.push(to_owned_string("--region"));
        a.push(self.region.clone());
        assert(seq_views(a@) =~= seq!["eks"@, "update-kubeconfig"@, "--name"@, self.cluster_name@, "--region"@, self.region@]);
        a
    }

    /// Checks the cluster status when validating.
    pub fn check_active(&self, status: &str) -> (r: Result<(), EksError>)
        ensures
            status@ == "ACTIVE"@ ==> r is Ok,
            status@ != "ACTIVE"@ ==> (r matches Err(EksError::NotActive { cluster, status: s })
                && cluster@ == self.cluster_name@ && s@ == status@),
    {
        if str_eq(status, "ACTIVE") {
            Ok(())
        } else {
            Err(EksError::NotActive { cluster: to_owned_string(self.cluster_name.as_str()), status: to_owned_string(status) })
        }
    }

    /// The deployment an environment updates.
    pub fn deployment_name(env: &EnvironmentConfig) -> (r: String)
        ensures
            r@ == eks_deployment_name(*env),
    {
        match config_get_str(&env.config, "deployment_name") {
            Some(d) => to_owned_string(d),
            None => to_owned_string("app"),
        }
    }

    /// The image a deployment rolls out: an error when the environment
    /// names none.
    pub fn deploy_image(ctx: &DeploymentContext) -> (r: Result<String, EksError>)
        ensures
            match ctx.environment.image {
                Some(i) => r matches Ok(s) && s@ == i@,
                None => r matches Err(EksError::NoImage),
            },
    {
        match &ctx.environment.image {
            Some(i) => Ok(i.clone()),
            None => Err(EksError::NoImage),
        }
    }

    /// How long a rollout may take: the environment's
    /// `rollout_timeout_secs`, else 300 seconds.
    pub fn rollout_timeout(env: &EnvironmentConfig) -> (r: u64)
        ensures
            r == match key_value(env.config@, "rollout_timeout_secs"@) {
                Some(ConfigValue::Unsigned(n)) => n,
                _ => 300u64,
            },
    {
        match get_value(&env.config, "rollout_timeout_secs") {
            Some(v) => match v.as_u64() {
                Some(n) => n,
                None => 300,
            },
            None => 300,
        }
    }

    /// The merge patch that sets the image of the deployment's container
    /// (the container named like the deployment).
    pub fn image_patch(deployment_name: &str, image: &str) -> (r: String)
        ensures
            r@ == "{\"spec\":{\"template\":{\"spec\":{\"containers\":[{\"image\":"@ + json_string_literal(image@)
                + ",\"name\":"@ + json_string_literal(deployment_name@) + "}]}}}}"@,
    {
        let mut p = to_owned_string("{\"spec\":{\"template\":{\"spec\":{\"containers\":[{\"image\":");
        let i = json_quote(image);
        push_str(&mut p, i.as_str());
        push_str(&mut p, ",\"name\":");
        let n = json_quote(deployment_name);
        push_str(&mut p, n.as_str());
        push_str(&mut p, "}]}}}}");
        p
    }

    /// Whether a rollout has finished: every replica is ready and there is
    /// at least one. Missing counts are zero.
    pub fn rollout_complete(replicas: Option<i32>, ready: Option<i32>) -> (r: bool)
        ensures
            r == ({
                let n: i32 = match replicas { Some(x) => x, None => 0i32 };
                let k: i32 = match ready { Some(x) => x, None => 0i32 };
                k == n && n > 0
            }),
    {
        let n: i32 = match replicas {
            Some(x) => x,
            None => 0,
        };
        let k: i32 = match ready {
            Some(x) => x,
            None => 0,
        };
        k == n && n > 0
    }

    /// The message of a deployment: what a dry run would do, or what was done.
    pub fn deploy_message(&self, dry_run: bool, image: &str, deployment_name: &str) -> (r: String)
        ensures
            r@ == (if dry_run {
                "Would deploy "@ + image@ + " to EKS cluster "@ + self.cluster_name@ + " (deployment/"@ + deployment_name@ + ")"@
            } else {
                "Deployed "@ + image@ + " to EKS cluster "@ + self.cluster_name@
            }),
    {
        let mut m = if dry_run { to_owned_string("Would deploy ") } else { to_owned_string("Deployed ") };
        push_str(&mut m, image);
        push_str(&mut m, " to EKS cluster ");
        push_str(&mut m, self.cluster_name.as_str());
        if dry_run {
            push_str(&mut m, " (deployment/");
            push_str(&mut m, deployment_name);
            push_str(&mut m, ")");
        }
        m
    }

    /// The arguments of `kubectl` that undo the last rollout.
    pub fn rollback_args(&self, deployment_name: &str) -> (r: Vec<String>)
        ensures
            seq_views(r@) == seq![
                "rollout"@, "undo"@, "deployment/"@ + deployment_name@, "-n"@, self.namespace@,
                "--context"@, "arn:aws:eks:"@ + self.region@ + ":*:"@ + self.cluster_name@,
            ],
    {
        let mut target = to_owned_string("deployment/");
        push_str(&mut target, deployment_name);
        let mut context = to_owned_string("arn:aws:eks:");
        push_str(&mut context, self.region.as_str());
        push_str(&mut context, ":*:");
        push_str(&mut context, self.cluster_name.as_str());
        let mut a: Vec<String> = Vec::new();
        a.push(to_owned_string("rollout"));
        a.push(to_owned_string("undo"));
        a.push(target);
        a.push(to_owned_string("-n"));
        a.push(self.namespace.clone());
        a.push(to_owned_string("--context"));
        a.push(context);
        assert(seq_views(a@) =~= seq![
            "rollout"@, "undo"@, "deployment/"@ + deployment_name@, "-n"@, self.namespace@,
            "--context"@, "arn:aws:eks:"@ + self.region@ + ":*:"@ + self.cluster_name@,
        ]);
        a
    }

    /// The message of a rollback: what a dry run would do, or what was done.
    pub fn rollback_message(&self, dry_run: bool, deployment_name: &str) -> (r: String)
        ensures
            r@ == (if dry_run { "Would rollback deployment/"@ } else { "Rolled back deployment/"@ })
                + deployment_name@ + " on EKS cluster "@ + self.cluster_name@,
    {
        let mut m = if dry_run {
            to_owned_string("Would rollback deployment/")
        } else {
            to_owned_string("Rolled back deployment/")
        };
        push_str(&mut m, deployment_name);
        push_str(&mut m, " on EKS cluster ");
        push_str(&mut m, self.cluster_name.as_str());
        m
    }

    /// The status report of the cluster and the deployment.
    pub fn status_text(&self, cluster_status: &str, deployment_name: &str, ready: Option<i32>, replicas: Option<i32>) -> (r: String)
        ensures
            r@ == "EKS Cluster: "@ + self.cluster_name@ + " ("@ + cluster_status@ + ")\nRegion: "@ + self.region@
                + "\nNamespace: "@ + self.namespace@ + "\nDeployment: "@ + deployment_name@
                + "\nReplicas: "@ + signed_decimal((match ready { Some(x) => x, None => 0i32 }) as int) + "/"@
                + signed_decimal((match replicas { Some(x) => x, None => 0i32 }) as int) + " ready"@,
    {
        let k: i32 = match ready {
            Some(x) => x,
            None => 0,
        };
        let n: i32 = match replicas {
            Some(x) => x,
            None => 0,
        };
        let mut o = to_owned_string("EKS Cluster: ");
        push_str(&mut o, self.cluster_name.as_str());
        push_str(&mut o, " (");
        push_str(&mut o, cluster_status);
        push_str(&mut o, ")\nRegion: ");
        push_str(&mut o, self.region.as_str());
        push_str(&mut o, "\nNamespace: ");
        push_str(&mut o, self.namespace.as_str());
        push_str(&mut o, "\nDeployment: ");
        push_str(&mut o, deployment_name);
        push_str(&mut o, "\nReplicas: ");
        let t = i64_to_string(k as i64);
        push_str(&mut o, t.as_str());
        push_str(&mut o, "/");
        let t = i64_to_string(n as i64);
        push_str(&mut o, t.as_str());
        push_str(&mut o, " ready");
        o
    }

    /// The arguments of `kubectl` that print (or follow) the deployment's logs.
    pub fn logs_args(&self, deployment_name: &str, follow: bool) -> (r: Vec<String>)
        ensures
            seq_views(r@) == seq!["logs"@, "-l"@, "app="@ + deployment_name@, "-n"@, self.namespace@]
                + (if follow { seq!["-f"@] } else { seq!["--tail=100"@] }),
    {
        let mut sel = to_owned_string("app=");
        push_str(&mut sel, deployment_name);
        let mut a: Vec<String> = Vec::new();
        a.push(to_owned_string("logs"));
        a.push(to_owned_string("-l"));
        a.push(sel);
        a.push(to_owned_string("-n"));
        a.push(self.namespace.clone());
        if follow {
            a.push(to_owned_string("-f"));
        } else {
            a.push(to_owned_string("--tail=100"));
        }
        assert(seq_views(a@) =~= seq!["logs"@, "-l"@, "app="@ + deployment_name@, "-n"@, self.namespace@]
            + (if follow { seq!["-f"@] } else { seq!["--tail=100"@] }));
        a
    }
}

} // verus!
