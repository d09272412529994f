//! Validation of a project configuration: the settings each built-in
//! infrastructure type needs, and the references and deployment types of
//! the environments.

use vstd::prelude::*;
use crate::deployment::strategy::{parse_deployment_type, DeploymentType};
use crate::keyed::{contains_key, has_key};
use crate::text::{push_str, str_eq, to_owned_string};
use super::schema::{Config, ConfigValue, EnvironmentConfig, InfrastructureConfig};

verus! {

/// A broken rule of a configuration: where, and what is wrong.
#[derive(Debug, Clone)]
pub struct ValidationError {
    pub field: String,
    pub message: String,
}

impl ValidationError {
    /// "{field}: {message}".
    pub fn to_string(&self) -> (r: String)
        ensures
            r@ == self.field@ + ": "@ + self.message@,
    {
        let mut m = self.field.clone();
        push_str(&mut m, ": ");
        push_str(&mut m, self.message.as_str());
        m
    }
}

/// The texts of a list of errors: (field, message).
pub open spec fn error_views(v: Seq<ValidationError>) -> Seq<(Seq<char>, Seq<char>)> {
    v.map_values(|e: ValidationError| (e.field@, e.message@))
}

/// The error of a setting that an infrastructure of type `kind` needs,
/// when it is missing.
pub open spec fn missing_setting(name: Seq<char>, infra: InfrastructureConfig, field: Seq<char>, kind: Seq<char>) -> Seq<(Seq<char>, Seq<char>)> {
    if has_key(infra.config@, field) {
        seq![]
    } else {
        seq![(
            "infrastructure."@ + name + ".config."@ + field,
            "Required field '"@ + field + "' is missing for "@ + kind,
        )]
    }
}

/// The errors of one infrastructure: EKS needs `cluster_name` and
/// `region`; ECS `cluster` and `region`; Lambda `region`; Kubernetes
/// `kubeconfig_path` or `context`; Docker Compose `compose_file`. Custom
/// types are left to their plugins.
pub open spec fn infrastructure_errors(name: Seq<char>, infra: InfrastructureConfig) -> Seq<(Seq<char>, Seq<char>)> {
    let t = infra.infrastructure_type@;
    if t == "aws-eks"@ {
        missing_setting(name, infra, "cluster_name"@, "aws-eks"@) + missing_setting(name, infra, "region"@, "aws-eks"@)
    } else if t == "aws-ecs"@ {
        missing_setting(name, infra, "cluster"@, "aws-ecs"@) + missing_setting(name, infra, "region"@, "aws-ecs"@)
    } else if t == "aws-lambda"@ {
        missing_setting(name, infra, "region"@, "aws-lambda"@)
    } else if t == "kubernetes"@ {
        if !has_key(infra.config@, "kubeconfig_path"@) && !has_key(infra.config@, "context"@) {
            seq![(
                "infrastructure."@ + name + ".config"@,
                "Kubernetes config requires either 'kubeconfig_path' or 'context'"@,
            )]
        } else {
            seq![]
        }
    } else if t == "docker-compose"@ {
        missing_setting(name, infra, "compose_file"@, "docker-compose"@)
    } else {
        seq![]
    }
}

/// The errors of one environment: an infrastructure that does not exist,
/// then a deployment type that is not known.
pub open spec fn environment_errors(name: Seq<char>, env: EnvironmentConfig, infrastructures: Seq<(String, InfrastructureConfig)>) -> Seq<(Seq<char>, Seq<char>)> {
    (if has_key(infrastructures, env.infrastructure@) {
        seq![]
    } else {
        seq![(
            "environments."@ + name + ".infrastructure"@,
            "Referenced infrastructure '"@ + env.infrastructure@ + "' does not exist"@,
        )]
    }) + (if parse_deployment_type(env.deployment_type@) is Some {
        seq![]
    } else {
        seq![(
            "environments."@ + name + ".deployment_type"@,
            "Invalid deployment type '"@ + env.deployment_type@ + "'. Valid options: rolling-update, all-in"@,
        )]
    })
}

/// The errors of the infrastructures, in order.
pub open spec fn all_infrastructure_errors(infras: Seq<(String, InfrastructureConfig)>) -> Seq<(Seq<char>, Seq<char>)>
    decreases infras.len(),
{
    if infras.len() == 0 {
        seq![]
    } else {
        all_infrastructure_errors(infras.drop_last()) + infrastructure_errors(infras.last().0@, infras.last().1)
    }
}

/// The errors of the environments, in order.
pub open spec fn all_environment_errors(envs: Seq<(String, EnvironmentConfig)>, infras: Seq<(String, InfrastructureConfig)>) -> Seq<(Seq<char>, Seq<char>)>
    decreases envs.len(),
{
    if envs.len() == 0 {
        seq![]
    } else {
        all_environment_errors(envs.drop_last(), infras) + environment_errors(envs.last().0@, envs.last().1, infras)
    }
}

/// All errors of a configuration: those of the infrastructures, then
/// those of the environments.
pub open spec fn config_errors(c: Config) -> Seq<(Seq<char>, Seq<char>)> {
    all_infrastructure_errors(c.infrastructure@) + all_environment_errors(c.environments@, c.infrastructure@)
}

fn push_error(errors: &mut Vec<ValidationError>, field: String, message: String)
    ensures
        error_views(final(errors)@) == error_views(old(errors)@).push((field@, message@)),
{
    errors.push(ValidationError { field, message });
    assert(error_views(errors@) =~= error_views(old(errors)@).push((field@, message@)));
}

fn require_setting(errors: &mut Vec<ValidationError>, name: &str, infra: &InfrastructureConfig, field: &str, kind: &str)
    ensures
        error_views(final(errors)@) == error_views(old(errors)@) + missing_setting(name@, *infra, field@, kind@),
{
    if !contains_key(&infra.config, field) {
        let mut f = to_owned_string("infrastructure.");
        push_str(&mut f, name);
        push_str(&mut f, ".config.");
        push_str(&mut f, field);
        let mut m = to_owned_string("Required field '");
        push_str(&mut m, field);
        push_str(&mut m, "' is missing for ");
        push_str(&mut m, kind);
        push_error(errors, f, m);
    } else {
        assert(error_views(errors@) =~= error_views(old(errors)@) + missing_setting(name@, *infra, field@, kind@));
    }
}

/// Checks configurations.
#[derive(Debug, Clone, Copy)]
pub struct ConfigValidator;

impl ConfigValidator {
    /// Accepts a configuration without errors; otherwise gives all of them.
    pub fn validate(config: &Config) -> (r: Result<(), Vec<ValidationError>>)
        ensures
            config_errors(*config).len() == 0 ==> r is Ok,
            config_errors(*config).len() > 0 ==> (r matches Err(e) && error_views(e@) == config_errors(*config)),
    {
        let mut errors: Vec<ValidationError> = Vec::new();
        Self::validate_infrastructures(config, &mut errors);
        Self::validate_environments(config, &mut errors);
        assert(error_views(errors@) =~= config_errors(*config));
        if errors.len() == 0 {
            Ok(())
        } else {
            Err(errors)
        }
    }

    fn validate_infrastructure(name: &str, infra: &InfrastructureConfig, errors: &mut Vec<ValidationError>)
        ensures
            error_views(final(errors)@) == error_views(old(errors)@) + infrastructure_errors(name@, *infra),
    {
        let t = infra.infrastructure_type.as_str();
        if str_eq(t, "aws-eks") {
            require_setting(errors, name, infra, "cluster_name", "aws-eks");
            require_setting(errors, name, infra, "region", "aws-eks");
        } else if str_eq(t, "aws-ecs") {
            require_setting(errors, name, infra, "cluster", "aws-ecs");
            require_setting(errors, name, infra, "region", "aws-ecs");
        } else if str_eq(t, "aws-lambda") {
            require_setting(errors, name, infra, "region", "aws-lambda");
        } else if str_eq(t, "kubernetes") {
            if !contains_key(&infra.config, "kubeconfig_path") && !contains_key(&infra.config, "context") {
                let mut f = to_owned_string("infrastructure.");
                push_str(&mut f, name);
                push_str(&mut f, ".config");
                push_error(errors, f, to_owned_string("Kubernetes config requires either 'kubeconfig_path' or 'context'"));
            }
        } else if str_eq(t, "docker-compose") {
            require_setting(errors, name, infra, "compose_file", "docker-compose");
        }
        assert(error_views(errors@) =~= error_views(old(errors)@) + infrastructure_errors(name@, *infra));
    }

    fn validate_infrastructures(config: &Config, errors: &mut Vec<ValidationError>)
        ensures
            error_views(final(errors)@) == error_views(old(errors)@) + all_infrastructure_errors(config.infrastructure@),
    {
        let ghost start = error_views(errors@);
        let mut i: usize = 0;
        assert(config.infrastructure@.take(0) =~= Seq::<(String, InfrastructureConfig)>::empty());
        while i < config.infrastructure.len()
            invariant
                start == error_views(old(errors)@),
                i <= config.infrastructure@.len(),
                error_views(errors@) == start + all_infrastructure_errors(config.infrastructure@.take(i as int)),
            decreases config.infrastructure.len() - i,
        {
            let entry = &config.infrastructure[i];
            Self::validate_infrastructure(entry.0.as_str(), &entry.1, errors);
            proof {
                let t = config.infrastructure@.take(i + 1);
                assert(t.drop_last() =~= config.infrastructure@.take(i as int));
                assert(t.last() == config.infrastructure@[i as int]);
            }
            i = i + 1;
        }
        assert(config.infrastructure@.take(config.infrastructure@.len() as int) =~= config.infrastructure@);
    }

    fn validate_environment(name: &str, env: &EnvironmentConfig, config: &Config, errors: &mut Vec<ValidationError>)
        ensures
            error_views(final(errors)@) == error_views(old(errors)@) + environment_errors(name@, *env, config.infrastructure@),
    {
        if !contains_key(&config.infrastructure, env.infrastructure.as_str()) {
            let mut f = to_owned_string("environments.");
            push_str(&mut f, name);
            push_str(&mut f, ".infrastructure");
            let mut m = to_owned_string("Referenced infrastructure '");
            push_str(&mut m, env.infrastructure.as_str());
            push_str(&mut m, "' does not exist");
            push_error(errors, f, m);
        }
        if DeploymentType::from_str(env.deployment_type.as_str()).is_none() {
            let mut f = to_owned_string("environments.");
            push_str(&mut f, name);
            push_str(&mut f, ".deployment_type");
            let mut m = to_owned_string("Invalid deployment type '");
            push_str(&mut m, env.deployment_type.as_str());
            push_str(&mut m, "'. Valid options: rolling-update, all-in");
            push_error(errors, f, m);
        }
        assert(error_views(errors@) =~= error_views(old(errors)@) + environment_errors(name@, *env, config.infrastructure@));
    }

    fn validate_environments(config: &Config, errors: &mut Vec<ValidationError>)
        ensures
            error_views(final(errors)@) == error_views(old(errors)@)
                + all_environment_errors(config.environments@, config.infrastructure@),
    {
        let ghost start = error_views(errors@);
        let mut i: usize = 0;
        assert(config.environments@.take(0) =~= Seq::<(String, EnvironmentConfig)>::empty());
        while i < config.environments.len()
            invariant
                start == error_views(old(errors)@),
                i <= config.environments@.len(),
                error_views(errors@) == start + all_environment_errors(config.environments@.take(i as int), config.infrastructure@),
            decreases config.environments.len() - i,
        {
            let entry = &config.environments[i];
            Self::validate_environment(entry.0.as_str(), &entry.1, config, errors);
            proof {
                let t = config.environments@.take(i + 1);
                assert(t.drop_last() =~= config.environments@.take(i as int));
                assert(t.last() == config.environments@[i as int]);
            }
            i = i + 1;
        }
        assert(config.environments@.take(config.environments@.len() as int) =~= config.environments@);
    }
}

} // verus!

verus! {

/// The error of a required setting that is missing.
pub open spec fn required_error(name: Seq<char>, field: Seq<char>, kind: Seq<char>) -> (Seq<char>, Seq<char>) {
    ("infrastructure."@ + name + ".config."@ + field, "Required field '"@ + field + "' is missing for "@ + kind)
}

/// An ECS infrastructure needs both a cluster and a region: its errors
/// report a missing region exactly when it has no `region` setting, a
/// missing cluster exactly when it has no `cluster` setting, and it has no
/// error exactly when both are set.
pub proof fn lemma_ecs_requires_cluster_and_region(name: Seq<char>, infra: InfrastructureConfig)
    requires
        infra.infrastructure_type@ == "aws-ecs"@,
    ensures
        infrastructure_errors(name, infra).contains(required_error(name, "region"@, "aws-ecs"@))
            <==> !has_key(infra.config@, "region"@),
        infrastructure_errors(name, infra).contains(required_error(name, "cluster"@, "aws-ecs"@))
            <==> !has_key(infra.config@, "cluster"@),
        infrastructure_errors(name, infra).len() == 0
            <==> has_key(infra.config@, "region"@) && has_key(infra.config@, "cluster"@),
{
    reveal_strlit("aws-ecs");
    reveal_strlit("aws-eks");
    reveal_strlit("region");
    reveal_strlit("cluster");
    let e = infrastructure_errors(name, infra);
    let rg = required_error(name, "region"@, "aws-ecs"@);
    let cl = required_error(name, "cluster"@, "aws-ecs"@);
    assert("region"@ != "cluster"@) by {
        assert("region"@[0] != "cluster"@[0]);
    }
    assert(rg != cl) by {
        let p = "infrastructure."@ + name + ".config."@;
        assert(rg.0 == p + "region"@);
        assert(cl.0 == p + "cluster"@);
        assert(rg.0[p.len() as int] == 'r');
        assert(cl.0[p.len() as int] == 'c');
    }
    assert("aws-ecs"@ != "aws-eks"@) by {
        assert("aws-ecs"@[5] != "aws-eks"@[5]);
    }
    let mc = missing_setting(name, infra, "cluster"@, "aws-ecs"@);
    let mr = missing_setting(name, infra, "region"@, "aws-ecs"@);
    assert(e == mc + mr);
    if !has_key(infra.config@, "region"@) {
        assert(mr == seq![rg]);
        assert(e[e.len() - 1] == rg);
    } else {
        assert(mr.len() == 0);
    }
    if !has_key(infra.config@, "cluster"@) {
        assert(mc == seq![cl]);
        assert(e[0] == cl);
    } else {
        assert(mc.len() == 0);
    }
    if e.contains(rg) {
        let j = choose|j: int| 0 <= j < e.len() && e[j] == rg;
        if has_key(infra.config@, "region"@) {
            assert(e == mc);
            if !has_key(infra.config@, "cluster"@) { assert(e[j] == cl); }
        }
    }
    if e.contains(cl) {
        let j = choose|j: int| 0 <= j < e.len() && e[j] == cl;
        if has_key(infra.config@, "cluster"@) {
            assert(e == mr);
            if !has_key(infra.config@, "region"@) { assert(e[j] == rg); }
        }
    }
}

/// The errors of every infrastructure are among the errors of the
/// configuration's infrastructures.
pub proof fn lemma_infrastructure_errors_kept(infras: Seq<(String, InfrastructureConfig)>, i: int, k: int)
    requires
        0 <= i < infras.len(),
        0 <= k < infrastructure_errors(infras[i].0@, infras[i].1).len(),
    ensures
        all_infrastructure_errors(infras).contains(infrastructure_errors(infras[i].0@, infras[i].1)[k]),
    decreases infras.len(),
{
    let all = all_infrastructure_errors(infras);
    let prefix = all_infrastructure_errors(infras.drop_last());
    let x = infrastructure_errors(infras[i].0@, infras[i].1)[k];
    if i == infras.len() - 1 {
        assert(all[prefix.len() + k] == x);
    } else {
        assert(infras.drop_last()[i] == infras[i]);
        lemma_infrastructure_errors_kept(infras.drop_last(), i, k);
        let j = choose|j: int| 0 <= j < prefix.len() && prefix[j] == x;
        assert(all[j] == x);
    }
}

/// A configuration with an ECS infrastructure that has no region is
/// refused, with the missing region among its errors.
pub proof fn lemma_ecs_without_region_refused(c: Config, i: int)
    requires
        0 <= i < c.infrastructure@.len(),
        c.infrastructure@[i].1.infrastructure_type@ == "aws-ecs"@,
        !has_key(c.infrastructure@[i].1.config@, "region"@),
    ensures
        config_errors(c).contains(required_error(c.infrastructure@[i].0@, "region"@, "aws-ecs"@)),
        config_errors(c).len() > 0,
{
    let name = c.infrastructure@[i].0@;
    let infra = c.infrastructure@[i].1;
    let x = required_error(name, "region"@, "aws-ecs"@);
    lemma_ecs_requires_cluster_and_region(name, infra);
    let k = choose|k: int| 0 <= k < infrastructure_errors(name, infra).len() && infrastructure_errors(name, infra)[k] == x;
    lemma_infrastructure_errors_kept(c.infrastructure@, i, k);
    let a = all_infrastructure_errors(c.infrastructure@);
    let j = choose|j: int| 0 <= j < a.len() && a[j] == x;
    assert(config_errors(c)[j] == x);
}

/// Each built-in infrastructure type passes validation exactly when the
/// settings it needs are present: EKS a cluster name and a region, Lambda a
/// region, Kubernetes a kubeconfig path or a context, Docker Compose a
/// compose file; any other type is left to its plugin and always passes.
pub proof fn lemma_required_settings(name: Seq<char>, infra: InfrastructureConfig)
    ensures
        infra.infrastructure_type@ == "aws-eks"@ ==> (infrastructure_errors(name, infra).len() == 0
            <==> has_key(infra.config@, "cluster_name"@) && has_key(infra.config@, "region"@)),
        infra.infrastructure_type@ == "aws-lambda"@ ==> (infrastructure_errors(name, infra).len() == 0
            <==> has_key(infra.config@, "region"@)),
        infra.infrastructure_type@ == "kubernetes"@ ==> (infrastructure_errors(name, infra).len() == 0
            <==> has_key(infra.config@, "kubeconfig_path"@) || has_key(infra.config@, "context"@)),
        infra.infrastructure_type@ == "docker-compose"@ ==> (infrastructure_errors(name, infra).len() == 0
            <==> has_key(infra.config@, "compose_file"@)),
        infra.infrastructure_type@ != "aws-eks"@ && infra.infrastructure_type@ != "aws-ecs"@
            && infra.infrastructure_type@ != "aws-lambda"@ && infra.infrastructure_type@ != "kubernetes"@
            && infra.infrastructure_type@ != "docker-compose"@ ==> infrastructure_errors(name, infra).len() == 0,
{
    reveal_strlit("aws-eks");
    reveal_strlit("aws-ecs");
    reveal_strlit("aws-lambda");
    reveal_strlit("kubernetes");
    reveal_strlit("docker-compose");
    assert("aws-ecs"@ != "aws-eks"@) by {
        assert("aws-ecs"@[5] != "aws-eks"@[5]);
    }
    assert("aws-lambda"@.len() != "aws-eks"@.len());
    assert("aws-lambda"@.len() != "aws-ecs"@.len());
    assert("kubernetes"@[0] != "aws-eks"@[0]);
    assert("kubernetes"@[0] != "aws-ecs"@[0]);
    assert("kubernetes"@[0] != "aws-lambda"@[0]);
    assert("docker-compose"@[0] != "aws-eks"@[0]);
    assert("docker-compose"@[0] != "aws-ecs"@[0]);
    assert("docker-compose"@[0] != "aws-lambda"@[0]);
    assert("docker-compose"@[0] != "kubernetes"@[0]);
}

} // verus!

