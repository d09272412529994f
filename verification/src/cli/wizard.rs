//! The init wizard: what can be selected, how the answers are read, and
//! the configuration text that the selections give. Asking the questions
//! is the caller's.

use vstd::prelude::*;
use crate::text::{push_str, split_pieces, split_text, to_owned_string, trim_text, trimmed, u64_to_string};

verus! {

/// The infrastructure an environment is set up on.
#[derive(Debug, Clone, Copy, PartialEq, Eq, Structural)]
pub enum InfrastructureTypeSelection {
    DockerCompose,
    AwsEks,
    AwsEcs,
    AwsLambda,
    Kubernetes,
}

/// The name of an infrastructure choice, as the configuration writes its type.
pub open spec fn selection_type_name(t: InfrastructureTypeSelection) -> Seq<char> {
    match t {
        InfrastructureTypeSelection::DockerCompose => "docker-compose"@,
        InfrastructureTypeSelection::AwsEks => "aws-eks"@,
        InfrastructureTypeSelection::AwsEcs => "aws-ecs"@,
        InfrastructureTypeSelection::AwsLambda => "aws-lambda"@,
        InfrastructureTypeSelection::Kubernetes => "kubernetes"@,
    }
}

/// The name of an infrastructure choice without its dashes.
pub open spec fn selection_tag(t: InfrastructureTypeSelection) -> Seq<char> {
    match t {
        InfrastructureTypeSelection::DockerCompose => "dockercompose"@,
        InfrastructureTypeSelection::AwsEks => "awseks"@,
        InfrastructureTypeSelection::AwsEcs => "awsecs"@,
        InfrastructureTypeSelection::AwsLambda => "awslambda"@,
        InfrastructureTypeSelection::Kubernetes => "kubernetes"@,
    }
}

/// The infrastructure choices, in the order they are offered.
pub open spec fn all_selections() -> Seq<InfrastructureTypeSelection> {
    seq![
        InfrastructureTypeSelection::DockerCompose,
        InfrastructureTypeSelection::AwsEks,
        InfrastructureTypeSelection::AwsEcs,
        InfrastructureTypeSelection::AwsLambda,
        InfrastructureTypeSelection::Kubernetes,
    ]
}

impl InfrastructureTypeSelection {
    /// The choices, in the order they are offered.
    pub fn all() -> (r: Vec<InfrastructureTypeSelection>)
        ensures
            r@ == all_selections(),
    {
        let mut v: Vec<InfrastructureTypeSelection> = Vec::new();
        v.push(InfrastructureTypeSelection::DockerCompose);
        v.push(InfrastructureTypeSelection::AwsEks);
        v.push(InfrastructureTypeSelection::AwsEcs);
        v.push(InfrastructureTypeSelection::AwsLambda);
        v.push(InfrastructureTypeSelection::Kubernetes);
        assert(v@ =~= all_selections());
        v
    }

    pub fn display_name(&self) -> (r: &'static str)
        ensures
            r@ == selection_type_name(*self),
    {
        match self {
            InfrastructureTypeSelection::DockerCompose => "docker-compose",
            InfrastructureTypeSelection::AwsEks => "aws-eks",
            InfrastructureTypeSelection::AwsEcs => "aws-ecs",
            InfrastructureTypeSelection::AwsLambda => "aws-lambda",
            InfrastructureTypeSelection::Kubernetes => "kubernetes",
        }
    }

    pub fn description(&self) -> (r: &'static str)
        ensures
            r@ == (match *self {
                InfrastructureTypeSelection::DockerCompose => "Local development with Docker Compose"@,
                InfrastructureTypeSelection::AwsEks => "AWS Elastic Kubernetes Service"@,
                InfrastructureTypeSelection::AwsEcs => "AWS Elastic Container Service"@,
                InfrastructureTypeSelection::AwsLambda => "AWS Lambda Functions"@,
                InfrastructureTypeSelection::Kubernetes => "Generic Kubernetes cluster"@,
            }),
    {
        match self {
            InfrastructureTypeSelection::DockerCompose => "Local development with Docker Compose",
            InfrastructureTypeSelection::AwsEks => "AWS Elastic Kubernetes Service",
            InfrastructureTypeSelection::AwsEcs => "AWS Elastic Container Service",
            InfrastructureTypeSelection::AwsLambda => "AWS Lambda Functions",
            InfrastructureTypeSelection::Kubernetes => "Generic Kubernetes cluster",
        }
    }

    /// The type the configuration writes for this choice.
    pub fn config_type(&self) -> (r: &'static str)
        ensures
            r@ == selection_type_name(*self),
    {
        match self {
            InfrastructureTypeSelection::DockerCompose => "docker-compose",
            InfrastructureTypeSelection::AwsEks => "aws-eks",
            InfrastructureTypeSelection::AwsEcs => "aws-ecs",
            InfrastructureTypeSelection::AwsLambda => "aws-lambda",
            InfrastructureTypeSelection::Kubernetes => "kubernetes",
        }
    }

    /// The display name without its dashes.
    pub fn tag(&self) -> (r: &'static str)
        ensures
            r@ == selection_tag(*self),
    {
        match self {
            InfrastructureTypeSelection::DockerCompose => "dockercompose",
            InfrastructureTypeSelection::AwsEks => "awseks",
            InfrastructureTypeSelection::AwsEcs => "awsecs",
            InfrastructureTypeSelection::AwsLambda => "awslambda",
            InfrastructureTypeSelection::Kubernetes => "kubernetes",
        }
    }
}

/// Whether the wizard provisions new infrastructure or connects to existing.
#[derive(Debug, Clone, Copy, PartialEq, Eq, Structural)]
pub enum DeployModeSelection {
    Full,
    AppOnly,
}

impl DeployModeSelection {
    pub fn display_name(&self) -> (r: &'static str)
        ensures
            r@ == (match *self {
                DeployModeSelection::Full => "Full"@,
                DeployModeSelection::AppOnly => "AppOnly"@,
            }),
    {
        match self {
            DeployModeSelection::Full => "Full",
            DeployModeSelection::AppOnly => "AppOnly",
        }
    }

    pub fn description(&self) -> (r: &'static str)
        ensures
            r@ == (match *self {
                DeployModeSelection::Full => "Create new infrastructure (pmp-deploy will provision resources)"@,
                DeployModeSelection::AppOnly => "Use existing infrastructure (provide connection details)"@,
            }),
    {
        match self {
            DeployModeSelection::Full => "Create new infrastructure (pmp-deploy will provision resources)",
            DeployModeSelection::AppOnly => "Use existing infrastructure (provide connection details)",
        }
    }

    /// The mode chosen by its position in the menu: the first is Full.
    pub fn from_index(index: usize) -> (r: Self)
        ensures
            r == (if index == 0 { DeployModeSelection::Full } else { DeployModeSelection::AppOnly }),
    {
        if index == 0 { DeployModeSelection::Full } else { DeployModeSelection::AppOnly }
    }
}

#[derive(Debug, Clone)]
pub struct DockerComposeDetails {
    pub compose_file: String,
    pub project_name: String,
}

#[derive(Debug, Clone)]
pub struct AwsEksDetails {
    pub cluster_name: String,
    pub region: String,
    pub namespace: String,
}

#[derive(Debug, Clone)]
pub struct AwsEcsDetails {
    pub cluster: String,
    pub region: String,
    pub launch_type: String,
}

#[derive(Debug, Clone)]
pub struct AwsLambdaDetails {
    pub region: String,
    pub function_name_prefix: String,
}

#[derive(Debug, Clone)]
pub struct KubernetesDetails {
    pub context: String,
    pub namespace: String,
}

/// How an existing infrastructure is reached.
#[derive(Debug, Clone)]
pub enum ConnectionDetails {
    DockerCompose(DockerComposeDetails),
    AwsEks(AwsEksDetails),
    AwsEcs(AwsEcsDetails),
    AwsLambda(AwsLambdaDetails),
    Kubernetes(KubernetesDetails),
}

/// The answers for one environment.
#[derive(Debug, Clone)]
pub struct EnvironmentSelection {
    pub name: String,
    pub infrastructure_type: InfrastructureTypeSelection,
    pub deploy_mode: DeployModeSelection,
    /// Given in app-only mode.
    pub connection_details: Option<ConnectionDetails>,
}

/// The environments offered before any custom one.
pub open spec fn predefined_environment_names() -> Seq<Seq<char>> {
    seq!["development"@, "staging"@, "production"@]
}

/// The environments offered before any custom one.
pub fn predefined_environments() -> (r: Vec<&'static str>)
    ensures
        r@.len() == 3,
        forall|i: int| 0 <= i < 3 ==> #[trigger] r@[i]@ == predefined_environment_names()[i],
{
    let mut v: Vec<&'static str> = Vec::new();
    v.push("development");
    v.push("staging");
    v.push("production");
    v
}

/// The environments chosen in the menu (the predefined ones, then "Add
/// custom environment..."): the predefined ones in the order of the
/// chosen positions, then the custom names when the last entry was chosen.
pub open spec fn chosen_environments(indices: Seq<usize>, custom: Seq<Seq<char>>) -> Seq<Seq<char>> {
    indices.filter(|i: usize| i < 3).map_values(|i: usize| predefined_environment_names()[i as int])
        + (if indices.contains(3usize) { custom } else { seq![] })
}

/// Reads the environment menu.
pub fn environment_names(indices: &Vec<usize>, custom: &Vec<String>) -> (r: Vec<String>)
    ensures
        crate::text::seq_views(r@) == chosen_environments(indices@, crate::text::seq_views(custom@)),
{
    let names = predefined_environments();
    let mut out: Vec<String> = Vec::new();
    let mut wants_custom = false;
    let mut i: usize = 0;
    proof {
        reveal(Seq::filter);
        assert(indices@.take(0).filter(|i: usize| i < 3) =~= Seq::<usize>::empty());
    }
    while i < indices.len()
        invariant
            names@.len() == 3,
            forall|k: int| 0 <= k < 3 ==> #[trigger] names@[k]@ == predefined_environment_names()[k],
            i <= indices@.len(),
            crate::text::seq_views(out@) == indices@.take(i as int).filter(|i: usize| i < 3)
                .map_values(|i: usize| predefined_environment_names()[i as int]),
            wants_custom == indices@.take(i as int).contains(3usize),
        decreases indices.len() - i,
    {
        let ghost before = out@;
        let k = indices[i];
        proof {
            reveal(Seq::filter);
            let t = indices@.take(i + 1);
            assert(t.drop_last() =~= indices@.take(i as int));
            assert(t.last() == k);
        }
        if k < 3 {
            out.push(to_owned_string(names[k]));
            assert(crate::text::seq_views(out@) =~= crate::text::seq_views(before).push(predefined_environment_names()[k as int]));
        }
        assert(crate::text::seq_views(out@) =~= indices@.take(i + 1).filter(|i: usize| i < 3)
            .map_values(|i: usize| predefined_environment_names()[i as int]));
        if k == 3 {
            wants_custom = true;
        }
        proof {
            let t = indices@.take(i + 1);
            if wants_custom {
                if k == 3 {
                    assert(t[i as int] == 3usize);
                } else {
                    let j = choose|j: int| 0 <= j < i && indices@.take(i as int)[j] == 3usize;
                    assert(t[j] == 3usize);
                }
            } else {
                assert forall|j: int| 0 <= j < t.len() implies t[j] != 3usize by {
                    if j < i {
                        assert(indices@.take(i as int)[j] == t[j]);
                    }
                }
            }
        }
        i = i + 1;
    }
    assert(indices@.take(indices@.len() as int) =~= indices@);
    if wants_custom {
        let ghost before = out@;
        let mut j: usize = 0;
        while j < custom.len()
            invariant
                j <= custom@.len(),
                crate::text::seq_views(out@) == crate::text::seq_views(before) + crate::text::seq_views(custom@).take(j as int),
            decreases custom.len() - j,
        {
            let ghost prev = out@;
            out.push(custom[j].clone());
            assert(crate::text::seq_views(out@) =~= crate::text::seq_views(prev).push(custom@[j as int]@));
            assert(crate::text::seq_views(custom@).take(j + 1) =~= crate::text::seq_views(custom@).take(j as int).push(custom@[j as int]@));
            j = j + 1;
        }
        assert(crate::text::seq_views(custom@).take(custom@.len() as int) =~= crate::text::seq_views(custom@));
    } else {
        assert(crate::text::seq_views(out@) =~= crate::text::seq_views(out@) + Seq::<Seq<char>>::empty());
    }
    out
}

/// The error of a wizard run that chose no environment.
pub fn no_environments_error() -> (r: String)
    ensures
        r@ == "No environments selected. At least one environment is required."@,
{
    to_owned_string("No environments selected. At least one environment is required.")
}

/// A menu line: a name, a dash, a description.
pub fn menu_option(name: &str, description: &str) -> (r: String)
    ensures
        r@ == name@ + " - "@ + description@,
{
    let mut m = to_owned_string(name);
    push_str(&mut m, " - ");
    push_str(&mut m, description);
    m
}

/// The name of the infrastructure an environment gets: the environment's
/// name, a dash, and the infrastructure type without dashes.
pub open spec fn infrastructure_name(s: EnvironmentSelection) -> Seq<char> {
    s.name@ + "-"@ + selection_tag(s.infrastructure_type)
}

/// The settings written for connection details.
pub open spec fn app_only_lines(d: ConnectionDetails) -> Seq<char> {
    match d {
        ConnectionDetails::DockerCompose(d) =>
            "      compose_file: "@ + d.compose_file@ + "\n      project_name: "@ + d.project_name@ + "\n"@,
        ConnectionDetails::AwsEks(d) =>
            "      cluster_name: "@ + d.cluster_name@ + "\n      region: "@ + d.region@ + "\n      namespace: "@
                + d.namespace@ + "\n"@,
        ConnectionDetails::AwsEcs(d) =>
            "      cluster: "@ + d.cluster@ + "\n      region: "@ + d.region@ + "\n      launch_type: "@
                + d.launch_type@ + "\n"@,
        ConnectionDetails::AwsLambda(d) =>
            "      region: "@ + d.region@ + "\n      function_name_prefix: "@ + d.function_name_prefix@ + "\n"@,
        ConnectionDetails::Kubernetes(d) =>
            "      context: "@ + d.context@ + "\n      namespace: "@ + d.namespace@ + "\n"@,
    }
}

/// The placeholder settings written for new infrastructure.
pub open spec fn full_mode_lines(t: InfrastructureTypeSelection) -> Seq<char> {
    match t {
        InfrastructureTypeSelection::DockerCompose =>
            "      compose_file: docker-compose.yml\n      project_name: my-app\n"@,
        InfrastructureTypeSelection::AwsEks =>
            "      cluster_name: my-cluster\n      region: us-east-1\n      namespace: default\n"@,
        InfrastructureTypeSelection::AwsEcs =>
            "      cluster: my-cluster\n      region: us-east-1\n      launch_type: FARGATE\n"@,
        InfrastructureTypeSelection::AwsLambda =>
            "      region: us-east-1\n      function_name_prefix: my-app\n"@,
        InfrastructureTypeSelection::Kubernetes =>
            "      context: my-context\n      namespace: default\n"@,
    }
}

/// The block of one infrastructure.
pub open spec fn infrastructure_block(s: EnvironmentSelection) -> Seq<char> {
    "  "@ + infrastructure_name(s) + ":\n    type: "@ + selection_type_name(s.infrastructure_type)
        + "\n    config:\n"@ + (match s.connection_details {
            Some(d) => app_only_lines(d),
            None => full_mode_lines(s.infrastructure_type),
        })
}

/// Whether selection `i` is the first one whose infrastructure has its name.
pub open spec fn first_of_its_infrastructure(sels: Seq<EnvironmentSelection>, i: int) -> bool {
    forall|j: int| 0 <= j < i ==> infrastructure_name(#[trigger] sels[j]) != infrastructure_name(sels[i])
}

/// The infrastructure blocks of the first `n` selections, one per
/// infrastructure name, in the order they first appear.
pub open spec fn infrastructure_blocks(sels: Seq<EnvironmentSelection>, n: int) -> Seq<char>
    decreases n,
{
    if n <= 0 {
        seq![]
    } else {
        infrastructure_blocks(sels, n - 1) + (if first_of_its_infrastructure(sels, n - 1) {
            infrastructure_block(sels[n - 1])
        } else {
            seq![]
        })
    }
}

/// The deployment type an environment gets: all at once on Docker
/// Compose, rolling elsewhere.
pub open spec fn selection_deployment_type(t: InfrastructureTypeSelection) -> Seq<char> {
    if t == InfrastructureTypeSelection::DockerCompose { "all-in"@ } else { "rolling-update"@ }
}

/// The block of one environment; clusters get two replicas.
pub open spec fn environment_block(s: EnvironmentSelection) -> Seq<char> {
    "  "@ + s.name@ + ":\n    infrastructure: "@ + infrastructure_name(s) + "\n    deployment_type: "@
        + selection_deployment_type(s.infrastructure_type) + "\n    image: my-app:latest\n"@
        + (if s.infrastructure_type == InfrastructureTypeSelection::AwsEks
            || s.infrastructure_type == InfrastructureTypeSelection::Kubernetes {
            "    replicas: 2\n"@
        } else {
            seq![]
        })
}

/// The environment blocks of the first `n` selections.
pub open spec fn environment_blocks(sels: Seq<EnvironmentSelection>, n: int) -> Seq<char>
    decreases n,
{
    if n <= 0 {
        seq![]
    } else {
        environment_blocks(sels, n - 1) + environment_block(sels[n - 1])
    }
}

/// The configuration text of the selections: a heading, the
/// infrastructures (each once), then the environments.
pub open spec fn generated_config(sels: Seq<EnvironmentSelection>) -> Seq<char> {
    "# pmp-deploy configuration\n\n"@ + "infrastructure:\n"@ + infrastructure_blocks(sels, sels.len() as int)
        + "\n"@ + "environments:\n"@ + environment_blocks(sels, sels.len() as int)
}

fn infrastructure_name_of(s: &EnvironmentSelection) -> (r: String)
    ensures
        r@ == infrastructure_name(*s),
{
    let mut n = s.name.clone();
    push_str(&mut n, "-");
    push_str(&mut n, s.infrastructure_type.tag());
    n
}

#[verifier::rlimit(50)]
fn append_infrastructure_block(out: &mut String, s: &EnvironmentSelection, name: &str)
    requires
        name@ == infrastructure_name(*s),
    ensures
        final(out)@ == old(out)@ + infrastructure_block(*s),
{
    push_str(out, "  ");
    push_str(out, name);
    push_str(out, ":\n    type: ");
    push_str(out, s.infrastructure_type.config_type());
    push_str(out, "\n    config:\n");
    match &s.connection_details {
        Some(d) => match d {
            ConnectionDetails::DockerCompose(d) => {
                push_str(out, "      compose_file: ");
                push_str(out, d.compose_file.as_str());
                push_str(out, "\n      project_name: ");
                push_str(out, d.project_name.as_str());
                push_str(out, "\n");
            },
            ConnectionDetails::AwsEks(d) => {
                push_str(out, "      cluster_name: ");
                push_str(out, d.cluster_name.as_str());
                push_str(out, "\n      region: ");
                push_str(out, d.region.as_str());
                push_str(out, "\n      namespace: ");
                push_str(out, d.namespace.as_str());
                push_str(out, "\n");
            },
            ConnectionDetails::AwsEcs(d) => {
                push_str(out, "      cluster: ");
                push_str(out, d.cluster.as_str());
                push_str(out, "\n      region: ");
                push_str(out, d.region.as_str());
                push_str(out, "\n      launch_type: ");
                push_str(out, d.launch_type.as_str());
                push_str(out, "\n");
            },
            ConnectionDetails::AwsLambda(d) => {
                push_str(out, "      region: ");
                push_str(out, d.region.as_str());
                push_str(out, "\n      function_name_prefix: ");
                push_str(out, d.function_name_prefix.as_str());
                push_str(out, "\n");
            },
            ConnectionDetails::Kubernetes(d) => {
                push_str(out, "      context: ");
                push_str(out, d.context.as_str());
                push_str(out, "\n      namespace: ");
                push_str(out, d.namespace.as_str());
                push_str(out, "\n");
            },
        },
        None => match s.infrastructure_type {
            InfrastructureTypeSelection::DockerCompose =>
                push_str(out, "      compose_file: docker-compose.yml\n      project_name: my-app\n"),
            InfrastructureTypeSelection::AwsEks =>
                push_str(out, "      cluster_name: my-cluster\n      region: us-east-1\n      namespace: default\n"),
            InfrastructureTypeSelection::AwsEcs =>
                push_str(out, "      cluster: my-cluster\n      region: us-east-1\n      launch_type: FARGATE\n"),
            InfrastructureTypeSelection::AwsLambda =>
                push_str(out, "      region: us-east-1\n      function_name_prefix: my-app\n"),
            InfrastructureTypeSelection::Kubernetes =>
                push_str(out, "      context: my-context\n      namespace: default\n"),
        },
    }
    assert(out@ =~= old(out)@ + infrastructure_block(*s));
}

fn append_environment_block(out: &mut String, s: &EnvironmentSelection)
    ensures
        final(out)@ == old(out)@ + environment_block(*s),
{
    let infra = infrastructure_name_of(s);
    push_str(out, "  ");
    push_str(out, s.name.as_str());
    push_str(out, ":\n    infrastructure: ");
    push_str(out, infra.as_str());
    push_str(out, "\n    deployment_type: ");
    if s.infrastructure_type == InfrastructureTypeSelection::DockerCompose {
        push_str(out, "all-in");
    } else {
        push_str(out, "rolling-update");
    }
    push_str(out, "\n    image: my-app:latest\n");
    if s.infrastructure_type == InfrastructureTypeSelection::AwsEks
        || s.infrastructure_type == InfrastructureTypeSelection::Kubernetes {
        push_str(out, "    replicas: ");
        let two = u64_to_string(2);
        proof {
            reveal_strlit("2");
            assert(crate::text::decimal(2) =~= "2"@);
        }
        push_str(out, two.as_str());
        push_str(out, "\n");
    }
    proof {
        reveal_strlit("    replicas: ");
        reveal_strlit("\n");
        reveal_strlit("    replicas: 2\n");
        reveal_strlit("2");
    }
    assert(out@ =~= old(out)@ + environment_block(*s));
}

/// Whether an infrastructure name is among `names`.
fn name_seen(names: &Vec<String>, name: &str) -> (r: bool)
    ensures
        r == exists|j: int| 0 <= j < names@.len() && names@[j]@ == name@,
{
    let mut j: usize = 0;
    while j < names.len()
        invariant
            j <= names@.len(),
            forall|k: int| 0 <= k < j ==> names@[k]@ != name@,
        decreases names.len() - j,
    {
        if crate::text::str_eq(names[j].as_str(), name) {
            return true;
        }
        j = j + 1;
    }
    false
}

/// The configuration text of the selections.
pub fn generate_config_from_selections(selections: &[EnvironmentSelection]) -> (r: String)
    ensures
        r@ == generated_config(selections@),
{
    let mut out = to_owned_string("# pmp-deploy configuration\n\n");
    push_str(&mut out, "infrastructure:\n");
    let ghost head = out@;
    let mut seen: Vec<String> = Vec::new();
    let mut i: usize = 0;
    while i < selections.len()
        invariant
            i <= selections@.len(),
            seen@.len() == i,
            forall|k: int| 0 <= k < i ==> #[trigger] seen@[k]@ == infrastructure_name(selections@[k]),
            out@ == head + infrastructure_blocks(selections@, i as int),
        decreases selections.len() - i,
    {
        let s = &selections[i];
        let name = infrastructure_name_of(s);
        let dup = name_seen(&seen, name.as_str());
        let ghost before = out@;
        if !dup {
            append_infrastructure_block(&mut out, s, name.as_str());
            assert(first_of_its_infrastructure(selections@, i as int)) by {
                assert forall|j: int| 0 <= j < i implies infrastructure_name(#[trigger] selections@[j]) != infrastructure_name(selections@[i as int]) by {
                    assert(seen@[j]@ == infrastructure_name(selections@[j]));
                }
            }
        } else {
            assert(!first_of_its_infrastructure(selections@, i as int)) by {
                let j = choose|j: int| 0 <= j < seen@.len() && seen@[j]@ == name@;
                assert(seen@[j]@ == infrastructure_name(selections@[j]));
            }
        }
        assert(out@ =~= head + infrastructure_blocks(selections@, i + 1));
        seen.push(name);
        i = i + 1;
    }
    push_str(&mut out, "\n");
    push_str(&mut out, "environments:\n");
    let ghost mid = out@;
    let mut i: usize = 0;
    while i < selections.len()
        invariant
            i <= selections@.len(),
            out@ == mid + environment_blocks(selections@, i as int),
        decreases selections.len() - i,
    {
        append_environment_block(&mut out, &selections[i]);
        assert(out@ =~= mid + environment_blocks(selections@, i + 1));
        i = i + 1;
    }
    assert(out@ =~= generated_config(selections@));
    out
}

/// The configuration written by `init` without the wizard, for an
/// infrastructure type; any unknown type gets the Docker Compose one.
pub open spec fn init_template_text(infra_type: Seq<char>) -> Seq<char> {
    if infra_type == "aws-eks"@ {
        "# pmp-deploy configuration\ninfrastructure:\n  aws-dev:\n    type: aws-eks\n    config:\n      cluster_name: my-cluster\n      region: us-east-1\n      namespace: default\n\nenvironments:\n  development:\n    infrastructure: aws-dev\n    deployment_type: rolling-update\n    image: my-app:latest\n    replicas: 2\n"@
    } else if infra_type == "aws-ecs"@ {
        "# pmp-deploy configuration\ninfrastructure:\n  aws-dev:\n    type: aws-ecs\n    config:\n      cluster: my-cluster\n      region: us-east-1\n      launch_type: FARGATE\n\nenvironments:\n  development:\n    infrastructure: aws-dev\n    deployment_type: rolling-update\n    image: my-app:latest\n"@
    } else if infra_type == "aws-lambda"@ {
        "# pmp-deploy configuration\ninfrastructure:\n  aws-dev:\n    type: aws-lambda\n    config:\n      region: us-east-1\n      function_name_prefix: my-app\n\nenvironments:\n  development:\n    infrastructure: aws-dev\n    deployment_type: all-in\n    image: my-app:latest\n"@
    } else if infra_type == "kubernetes"@ {
        "# pmp-deploy configuration\ninfrastructure:\n  k8s-local:\n    type: kubernetes\n    config:\n      context: my-context\n      namespace: default\n\nenvironments:\n  development:\n    infrastructure: k8s-local\n    deployment_type: rolling-update\n    image: my-app:latest\n    replicas: 2\n"@
    } else {
        "# pmp-deploy configuration\ninfrastructure:\n  local:\n    type: docker-compose\n    config:\n      compose_file: docker-compose.yml\n      project_name: my-app\n\nenvironments:\n  development:\n    infrastructure: local\n    deployment_type: all-in\n    image: my-app:latest\n"@
    }
}

/// The configuration written by `init` without the wizard.
pub fn init_template(infra_type: &str) -> (r: String)
    ensures
        r@ == init_template_text(infra_type@),
{
    if crate::text::str_eq(infra_type, "aws-eks") {
        to_owned_string("# pmp-deploy configuration\ninfrastructure:\n  aws-dev:\n    type: aws-eks\n    config:\n      cluster_name: my-cluster\n      region: us-east-1\n      namespace: default\n\nenvironments:\n  development:\n    infrastructure: aws-dev\n    deployment_type: rolling-update\n    image: my-app:latest\n    replicas: 2\n")
    } else if crate::text::str_eq(infra_type, "aws-ecs") {
        to_owned_string("# pmp-deploy configuration\ninfrastructure:\n  aws-dev:\n    type: aws-ecs\n    config:\n      cluster: my-cluster\n      region: us-east-1\n      launch_type: FARGATE\n\nenvironments:\n  development:\n    infrastructure: aws-dev\n    deployment_type: rolling-update\n    image: my-app:latest\n")
    } else if crate::text::str_eq(infra_type, "aws-lambda") {
        to_owned_string("# pmp-deploy configuration\ninfrastructure:\n  aws-dev:\n    type: aws-lambda\n    config:\n      region: us-east-1\n      function_name_prefix: my-app\n\nenvironments:\n  development:\n    infrastructure: aws-dev\n    deployment_type: all-in\n    image: my-app:latest\n")
    } else if crate::text::str_eq(infra_type, "kubernetes") {
        to_owned_string("# pmp-deploy configuration\ninfrastructure:\n  k8s-local:\n    type: kubernetes\n    config:\n      context: my-context\n      namespace: default\n\nenvironments:\n  development:\n    infrastructure: k8s-local\n    deployment_type: rolling-update\n    image: my-app:latest\n    replicas: 2\n")
    } else {
        to_owned_string("# pmp-deploy configuration\ninfrastructure:\n  local:\n    type: docker-compose\n    config:\n      compose_file: docker-compose.yml\n      project_name: my-app\n\nenvironments:\n  development:\n    infrastructure: local\n    deployment_type: all-in\n    image: my-app:latest\n")
    }
}

/// Checks that `init` may write the configuration file: an existing one
/// is only replaced when forced.
pub fn check_init_target(exists: bool, force: bool) -> (r: Result<(), String>)
    ensures
        (exists && !force) ==> (r matches Err(m) && m@ == "Configuration file already exists. Use --force to overwrite."@),
        !(exists && !force) ==> r is Ok,
{
    if exists && !force {
        Err(to_owned_string("Configuration file already exists. Use --force to overwrite."))
    } else {
        Ok(())
    }
}

/// The custom environments typed in: the comma-separated names, trimmed,
/// without the empty ones.
pub open spec fn custom_environment_names(input: Seq<char>) -> Seq<Seq<char>> {
    split_pieces(input, ',').map_values(|p: Seq<char>| trimmed(p)).filter(|p: Seq<char>| p.len() > 0)
}

/// Reads the custom environments typed in.
pub fn parse_custom_environments(input: &str) -> (r: Vec<String>)
    ensures
        crate::text::seq_views(r@) == custom_environment_names(input@),
{
    let pieces = split_text(input, ',');
    let ghost all = split_pieces(input@, ',').map_values(|p: Seq<char>| trimmed(p));
    let mut out: Vec<String> = Vec::new();
    let mut i: usize = 0;
    proof {
        reveal(Seq::filter);
        assert(all.take(0).filter(|p: Seq<char>| p.len() > 0) =~= Seq::<Seq<char>>::empty());
    }
    while i < pieces.len()
        invariant
            crate::text::seq_views(pieces@) == split_pieces(input@, ','),
            all == split_pieces(input@, ',').map_values(|p: Seq<char>| trimmed(p)),
            all.len() == pieces@.len(),
            i <= pieces@.len(),
            crate::text::seq_views(out@) == all.take(i as int).filter(|p: Seq<char>| p.len() > 0),
        decreases pieces.len() - i,
    {
        let name = trim_text(pieces[i].as_str());
        proof {
            reveal(Seq::filter);
            assert(crate::text::seq_views(pieces@)[i as int] == pieces@[i as int]@);
            assert(all[i as int] == trimmed(pieces@[i as int]@));
            let t = all.take(i + 1);
            assert(t.drop_last() =~= all.take(i as int));
            assert(t.last() == all[i as int]);
        }
        let ghost before = out@;
        if !crate::text::str_is_empty(name.as_str()) {
            out.push(name);
            assert(crate::text::seq_views(out@) =~= crate::text::seq_views(before).push(all[i as int]));
        }
        assert(crate::text::seq_views(out@) =~= all.take(i + 1).filter(|p: Seq<char>| p.len() > 0));
        i = i + 1;
    }
    assert(all.take(all.len() as int) =~= all);
    out
}

} // verus!
