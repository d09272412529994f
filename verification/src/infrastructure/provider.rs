//! Infrastructure types and deployment modes.

use vstd::prelude::*;
use crate::deployment::strategy::{deployment_type_name, DeploymentType};
use crate::text::{
    ascii_lowercase, is_ascii_text, join_seqs, join_strings, lowercase_of, push_str, seq_views, str_eq,
    to_lowercase, to_owned_string,
};

verus! {

/// The kind of infrastructure an environment deploys to.
#[derive(Debug, Clone, PartialEq, Eq)]
pub enum InfrastructureType {
    AwsEks,
    AwsEcs,
    AwsLambda,
    Kubernetes,
    DockerCompose,
    Custom(String),
}

/// The names of the built-in infrastructure types.
pub open spec fn builtin_infrastructure_name(s: Seq<char>) -> bool {
    s == "aws-eks"@ || s == "aws-ecs"@ || s == "aws-lambda"@ || s == "kubernetes"@
        || s == "docker-compose"@
}

/// The infrastructure type a configuration name stands for: a built-in
/// name gives its type, anything else a custom type of that name.
pub open spec fn infrastructure_type_of(t: InfrastructureType, s: Seq<char>) -> bool {
    if s == "aws-eks"@ {
        t == InfrastructureType::AwsEks
    } else if s == "aws-ecs"@ {
        t == InfrastructureType::AwsEcs
    } else if s == "aws-lambda"@ {
        t == InfrastructureType::AwsLambda
    } else if s == "kubernetes"@ {
        t == InfrastructureType::Kubernetes
    } else if s == "docker-compose"@ {
        t == InfrastructureType::DockerCompose
    } else {
        t matches InfrastructureType::Custom(c) && c@ == s
    }
}

/// The configuration name of an infrastructure type.
pub open spec fn infrastructure_type_name(t: InfrastructureType) -> Seq<char> {
    match t {
        InfrastructureType::AwsEks => "aws-eks"@,
        InfrastructureType::AwsEcs => "aws-ecs"@,
        InfrastructureType::AwsLambda => "aws-lambda"@,
        InfrastructureType::Kubernetes => "kubernetes"@,
        InfrastructureType::DockerCompose => "docker-compose"@,
        InfrastructureType::Custom(c) => c@,
    }
}

impl InfrastructureType {
    pub fn from_str(s: &str) -> (r: InfrastructureType)
        ensures
            infrastructure_type_of(r, s@),
    {
        if str_eq(s, "aws-eks") {
            InfrastructureType::AwsEks
        } else if str_eq(s, "aws-ecs") {
            InfrastructureType::AwsEcs
        } else if str_eq(s, "aws-lambda") {
            InfrastructureType::AwsLambda
        } else if str_eq(s, "kubernetes") {
            InfrastructureType::Kubernetes
        } else if str_eq(s, "docker-compose") {
            InfrastructureType::DockerCompose
        } else {
            InfrastructureType::Custom(to_owned_string(s))
        }
    }

    pub fn as_str(&self) -> (r: &str)
        ensures
            r@ == infrastructure_type_name(*self),
    {
        match self {
            InfrastructureType::AwsEks => "aws-eks",
            InfrastructureType::AwsEcs => "aws-ecs",
            InfrastructureType::AwsLambda => "aws-lambda",
            InfrastructureType::Kubernetes => "kubernetes",
            InfrastructureType::DockerCompose => "docker-compose",
            InfrastructureType::Custom(c) => c.as_str(),
        }
    }
}

/// The message of a deployment type that a provider does not support.
pub open spec fn unsupported_type_text(infra: InfrastructureType, supported: Seq<DeploymentType>, t: DeploymentType) -> Seq<char> {
    "Deployment type '"@ + deployment_type_name(t) + "' is not supported by "@ + infrastructure_type_name(infra)
        + " infrastructure. Supported types: "@
        + join_seqs(supported.map_values(|d: DeploymentType| deployment_type_name(d)), ", "@)
}

/// Checks that a provider of type `infra`, which supports the deployment
/// types `supported`, supports `deployment_type`; else the message that
/// names the supported ones.
pub fn check_deployment_type(infra: &InfrastructureType, supported: &Vec<DeploymentType>, deployment_type: DeploymentType) -> (r: Result<(), String>)
    ensures
        supported@.contains(deployment_type) ==> r is Ok,
        !supported@.contains(deployment_type) ==> (r matches Err(m) && m@ == unsupported_type_text(*infra, supported@, deployment_type)),
{
    let mut names: Vec<String> = Vec::new();
    let mut i: usize = 0;
    while i < supported.len()
        invariant
            i <= supported@.len(),
            forall|k: int| 0 <= k < i ==> supported@[k] != deployment_type,
            seq_views(names@) == supported@.take(i as int).map_values(|d: DeploymentType| deployment_type_name(d)),
        decreases supported.len() - i,
    {
        if supported[i] == deployment_type {
            assert(supported@[i as int] == deployment_type);
            return Ok(());
        }
        let ghost before = names@;
        names.push(to_owned_string(supported[i].as_str()));
        assert(seq_views(names@) =~= seq_views(before).push(deployment_type_name(supported@[i as int])));
        assert(supported@.take(i + 1).map_values(|d: DeploymentType| deployment_type_name(d))
            =~= supported@.take(i as int).map_values(|d: DeploymentType| deployment_type_name(d)).push(deployment_type_name(supported@[i as int])));
        i = i + 1;
    }
    assert(supported@.take(supported@.len() as int) =~= supported@);
    assert(!supported@.contains(deployment_type));
    let mut m = to_owned_string("Deployment type '");
    push_str(&mut m, deployment_type.as_str());
    push_str(&mut m, "' is not supported by ");
    push_str(&mut m, infra.as_str());
    push_str(&mut m, " infrastructure. Supported types: ");
    let joined = join_strings(&names, ", ");
    push_str(&mut m, joined.as_str());
    Err(m)
}

/// Parsing the name of a type gives back that type; a custom type named
/// like a built-in one is read as the built-in type.
pub proof fn lemma_infrastructure_type_round_trip(t: InfrastructureType, r: InfrastructureType)
    requires
        infrastructure_type_of(r, infrastructure_type_name(t)),
        !(t is Custom) || !builtin_infrastructure_name(infrastructure_type_name(t)),
    ensures
        infrastructure_type_name(r) == infrastructure_type_name(t),
        !(t is Custom) ==> r == t,
{
    reveal_strlit("aws-eks");
    reveal_strlit("aws-ecs");
    reveal_strlit("aws-lambda");
    reveal_strlit("kubernetes");
    reveal_strlit("docker-compose");
    assert("aws-eks"@[5] != "aws-ecs"@[5]);
    assert("aws-eks"@.len() != "aws-lambda"@.len());
    assert("aws-eks"@.len() != "kubernetes"@.len());
    assert("aws-eks"@.len() != "docker-compose"@.len());
    assert("aws-ecs"@.len() != "aws-lambda"@.len());
    assert("aws-ecs"@.len() != "kubernetes"@.len());
    assert("aws-ecs"@.len() != "docker-compose"@.len());
    assert("aws-lambda"@[0] != "kubernetes"@[0]);
    assert("aws-lambda"@.len() != "docker-compose"@.len());
    assert("kubernetes"@.len() != "docker-compose"@.len());
}

/// What a deployment updates.
#[derive(Debug, Clone, Copy, PartialEq, Eq, Structural)]
pub enum DeployMode {
    /// Updates the application and the infrastructure settings.
    Full,
    /// Updates only the application image or version.
    AppOnly,
}

impl Default for DeployMode {
    fn default() -> (r: Self)
        ensures
            r == DeployMode::AppOnly,
    {
        DeployMode::AppOnly
    }
}

/// The lowercase spellings that select the app-only mode.
pub open spec fn app_only_spelling(s: Seq<char>) -> bool {
    s == "app-only"@ || s == "apponly"@ || s == "app"@ || s == "image-only"@
}

/// The mode a spelling selects, ignoring case (for ASCII text, the case
/// of 'A'..='Z').
pub open spec fn deploy_mode_named(s: Seq<char>) -> DeployMode {
    let l = if is_ascii_text(s) { ascii_lowercase(s) } else { lowercase_of(s) };
    if app_only_spelling(l) { DeployMode::AppOnly } else { DeployMode::Full }
}

/// The configuration spelling of a mode.
pub open spec fn deploy_mode_name(m: DeployMode) -> Seq<char> {
    match m {
        DeployMode::Full => "full"@,
        DeployMode::AppOnly => "app-only"@,
    }
}

/// Reading the spelling of a mode gives the mode back.
pub proof fn lemma_deploy_mode_round_trip(m: DeployMode)
    ensures
        deploy_mode_named(deploy_mode_name(m)) == m,
{
    reveal_strlit("full");
    reveal_strlit("app-only");
    reveal_strlit("apponly");
    reveal_strlit("app");
    reveal_strlit("image-only");
    let s = deploy_mode_name(m);
    assert(is_ascii_text(s));
    assert(ascii_lowercase(s) =~= s);
    assert("full"@.len() != "app-only"@.len());
    assert("full"@.len() != "apponly"@.len());
    assert("full"@.len() != "app"@.len());
    assert("full"@.len() != "image-only"@.len());
}

impl DeployMode {
    /// Reads a mode ignoring case: "app-only", "apponly", "app" and
    /// "image-only" select app-only, anything else the full mode.
    pub fn from_str(s: &str) -> (r: DeployMode)
        ensures
            r == (if app_only_spelling(lowercase_of(s@)) { DeployMode::AppOnly } else { DeployMode::Full }),
            r == deploy_mode_named(s@),
    {
        let lower = to_lowercase(s);
        let l = lower.as_str();
        if str_eq(l, "app-only") || str_eq(l, "apponly") || str_eq(l, "app") || str_eq(l, "image-only") {
            DeployMode::AppOnly
        } else {
            DeployMode::Full
        }
    }

    pub fn is_app_only(&self) -> (r: bool)
        ensures
            r == (*self == DeployMode::AppOnly),
    {
        match self {
            DeployMode::AppOnly => true,
            DeployMode::Full => false,
        }
    }

    /// The configuration spelling of the mode.
    pub fn as_str(&self) -> (r: &'static str)
        ensures
            r@ == deploy_mode_name(*self),
    {
        match self {
            DeployMode::Full => "full",
            DeployMode::AppOnly => "app-only",
        }
    }
}

} // verus!

verus! {

/// What a provider needs to know about a deployment.
#[derive(Debug, Clone)]
pub struct DeploymentContext {
    pub environment_name: String,
    pub environment: crate::config::schema::EnvironmentConfig,
    pub dry_run: bool,
    pub verbose: bool,
    pub deploy_mode: DeployMode,
}

} // verus!
