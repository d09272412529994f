//! Docker Compose: the settings of the Compose provider, the commands it
//! runs (locally or over SSH), the order a deployment runs them in, and
//! what is reported. Running the commands is the caller's.

use vstd::prelude::*;
use crate::config::schema::{config_get_str, config_text, InfrastructureConfig};
use crate::deployment::strategy::{DeploymentResult, DeploymentType};
use crate::text::{opt_view, push_str, seq_views, to_owned_string};
use super::provider::{DeploymentContext, InfrastructureType};

verus! {

/// The settings of the Docker Compose provider.
#[derive(Debug, Clone)]
pub struct DockerComposeProvider {
    pub compose_file: String,
    pub project_name: Option<String>,
    /// Host the commands run on over SSH, if not locally.
    pub ssh_host: Option<String>,
    /// Directory the commands run in.
    pub working_dir: Option<String>,
}

/// What the Compose provider reports when it cannot go on.
#[derive(Debug, Clone)]
pub enum ComposeError {
    DockerNotInstalled,
    DaemonNotRunning,
    CommandFailed(String),
    InvalidConfiguration(String),
    NoImage,
}

/// The message of a Compose provider error.
pub open spec fn compose_error_text(e: ComposeError) -> Seq<char> {
    match e {
        ComposeError::DockerNotInstalled =>
            "Docker is not installed or not in PATH. Please install Docker: https://docs.docker.com/get-docker/"@,
        ComposeError::DaemonNotRunning =>
            "Docker daemon is not running. Please start Docker Desktop or the Docker service."@,
        ComposeError::CommandFailed(stderr) => "Docker Compose command failed: "@ + stderr@,
        ComposeError::InvalidConfiguration(stderr) => "Invalid Docker Compose configuration: "@ + stderr@,
        ComposeError::NoImage => "No image specified for deployment"@,
    }
}

impl ComposeError {
    pub fn to_string(&self) -> (r: String)
        ensures
            r@ == compose_error_text(*self),
    {
        match self {
            ComposeError::DockerNotInstalled => to_owned_string(
                "Docker is not installed or not in PATH. Please install Docker: https://docs.docker.com/get-docker/",
            ),
            ComposeError::DaemonNotRunning => to_owned_string(
                "Docker daemon is not running. Please start Docker Desktop or the Docker service.",
            ),
            ComposeError::CommandFailed(stderr) => {
                let mut m = to_owned_string("Docker Compose command failed: ");
                push_str(&mut m, stderr.as_str());
                m
            },
            ComposeError::InvalidConfiguration(stderr) => {
                let mut m = to_owned_string("Invalid Docker Compose configuration: ");
                push_str(&mut m, stderr.as_str());
                m
            },
            ComposeError::NoImage => to_owned_string("No image specified for deployment"),
        }
    }
}

/// One command of a deployment or rollback, as the arguments that follow
/// the base command.
#[derive(Debug, Clone)]
pub struct ComposeStep {
    pub args: Vec<String>,
    /// Whether a failure of the command is ignored.
    pub may_fail: bool,
}

/// The program and leading arguments of every Compose command:
/// `ssh {host} docker compose` or `docker compose`, then the compose file
/// and the project name when there is one.
pub open spec fn base_command_of(p: DockerComposeProvider) -> Seq<Seq<char>> {
    (match p.ssh_host {
        Some(h) => seq!["ssh"@, h@, "docker"@, "compose"@],
        None => seq!["docker"@, "compose"@],
    }) + seq!["-f"@, p.compose_file@] + (match p.project_name {
        Some(n) => seq!["-p"@, n@],
        None => seq![],
    })
}

/// The texts of a list of steps: their arguments and whether they may fail.
pub open spec fn step_views(steps: Seq<ComposeStep>) -> Seq<(Seq<Seq<char>>, bool)> {
    steps.map_values(|s: ComposeStep| (seq_views(s.args@), s.may_fail))
}

fn words(a: &str, b: &str, c: &str, n: usize) -> (r: Vec<String>)
    requires
        1 <= n <= 3,
    ensures
        seq_views(r@) == seq![a@, b@, c@].take(n as int),
{
    let mut v: Vec<String> = Vec::new();
    v.push(to_owned_string(a));
    if n >= 2 {
        v.push(to_owned_string(b));
    }
    if n >= 3 {
        v.push(to_owned_string(c));
    }
    assert(seq_views(v@) =~= seq![a@, b@, c@].take(n as int));
    v
}

impl DockerComposeProvider {
    pub fn new(compose_file: &str, project_name: Option<&str>) -> (r: Self)
        ensures
            r.compose_file@ == compose_file@,
            match project_name {
                Some(p) => r.project_name matches Some(s) && s@ == p@,
                None => r.project_name is None,
            },
            r.ssh_host is None,
            r.working_dir is None,
    {
        DockerComposeProvider {
            compose_file: to_owned_string(compose_file),
            project_name: match project_name {
                Some(p) => Some(to_owned_string(p)),
                None => None,
            },
            ssh_host: None,
            working_dir: None,
        }
    }

    pub fn with_ssh_host(self, host: &str) -> (r: Self)
        ensures
            opt_view(r.ssh_host) == Some(host@),
            r.compose_file == self.compose_file,
            r.project_name == self.project_name,
            r.working_dir == self.working_dir,
    {
        DockerComposeProvider { ssh_host: Some(to_owned_string(host)), ..self }
    }

    pub fn with_working_dir(self, dir: &str) -> (r: Self)
        ensures
            opt_view(r.working_dir) == Some(dir@),
            r.compose_file == self.compose_file,
            r.project_name == self.project_name,
            r.ssh_host == self.ssh_host,
    {
        DockerComposeProvider { working_dir: Some(to_owned_string(dir)), ..self }
    }

    /// The provider an infrastructure describes by its `compose_file`
    /// (else "docker-compose.yml"), `project_name`, `ssh_host` and
    /// `working_dir` texts.
    pub fn from_config(config: &InfrastructureConfig) -> (r: Self)
        ensures
            r.compose_file@ == (match config_text(config.config@, "compose_file"@) {
                Some(f) => f,
                None => "docker-compose.yml"@,
            }),
            opt_view(r.project_name) == config_text(config.config@, "project_name"@),
            opt_view(r.ssh_host) == config_text(config.config@, "ssh_host"@),
            opt_view(r.working_dir) == config_text(config.config@, "working_dir"@),
    {
        let compose_file = match config_get_str(&config.config, "compose_file") {
            Some(f) => to_owned_string(f),
            None => to_owned_string("docker-compose.yml"),
        };
        let project_name = match config_get_str(&config.config, "project_name") {
            Some(p) => Some(to_owned_string(p)),
            None => None,
        };
        let ssh_host = match config_get_str(&config.config, "ssh_host") {
            Some(h) => Some(to_owned_string(h)),
            None => None,
        };
        let working_dir = match config_get_str(&config.config, "working_dir") {
            Some(d) => Some(to_owned_string(d)),
            None => None,
        };
        DockerComposeProvider { compose_file, project_name, ssh_host, working_dir }
    }

    pub fn infrastructure_type(&self) -> (r: InfrastructureType)
        ensures
            r == InfrastructureType::DockerCompose,
    {
        InfrastructureType::DockerCompose
    }

    /// Compose stops and starts all containers together: no rolling updates.
    pub fn supported_deployment_types(&self) -> (r: Vec<DeploymentType>)
        ensures
            r@ == seq![DeploymentType::AllIn],
    {
        let mut v: Vec<DeploymentType> = Vec::new();
        v.push(DeploymentType::AllIn);
        assert(v@ =~= seq![DeploymentType::AllIn]);
        v
    }

    /// The program and leading arguments of every Compose command.
    pub fn base_command(&self) -> (r: Vec<String>)
        ensures
            seq_views(r@) == base_command_of(*self),
    {
        let mut a: Vec<String> = Vec::new();
        match &self.ssh_host {
            Some(h) => {
                a.push(to_owned_string("ssh"));
                a.push(h.clone());
                a.push(to_owned_string("docker"));
                a.push(to_owned_string("compose"));
            },
            None => {
                a.push(to_owned_string("docker"));
                a.push(to_owned_string("compose"));
            },
        }
        a.push(to_owned_string("-f"));
        a.push(self.compose_file.clone());
        if let Some(n) = &self.project_name {
            a.push(to_owned_string("-p"));
            a.push(n.clone());
        }
        assert(seq_views(a@) =~= base_command_of(*self));
        a
    }

    /// A full Compose command: the base command followed by `args`.
    pub fn command(&self, args: &Vec<String>) -> (r: Vec<String>)
        ensures
            seq_views(r@) == base_command_of(*self) + seq_views(args@),
    {
        let mut a = self.base_command();
        let ghost head = seq_views(a@);
        let mut i: usize = 0;
        while i < args.len()
            invariant
                head == base_command_of(*self),
                i <= args@.len(),
                seq_views(a@) == head + seq_views(args@).take(i as int),
            decreases args.len() - i,
        {
            let ghost prev = a@;
            a.push(args[i].clone());
            assert(seq_views(a@) =~= seq_views(prev).push(args@[i as int]@));
            assert(seq_views(args@).take(i + 1) =~= seq_views(args@).take(i as int).push(args@[i as int]@));
            i = i + 1;
        }
        assert(seq_views(args@).take(args@.len() as int) =~= seq_views(args@));
        a
    }

    /// What a command gave: its standard output, or an error with its
    /// standard error.
    pub fn command_outcome(success: bool, stdout: String, stderr: &str) -> (r: Result<String, ComposeError>)
        ensures
            success ==> r == Ok::<String, ComposeError>(stdout),
            !success ==> (r matches Err(ComposeError::CommandFailed(s)) && s@ == stderr@),
    {
        if success { Ok(stdout) } else { Err(ComposeError::CommandFailed(to_owned_string(stderr))) }
    }

    /// Whether Docker can be used: it must be installed and its daemon running.
    pub fn check_docker(installed: bool, daemon_running: bool) -> (r: Result<(), ComposeError>)
        ensures
            !installed ==> r matches Err(ComposeError::DockerNotInstalled),
            installed && !daemon_running ==> r matches Err(ComposeError::DaemonNotRunning),
            installed && daemon_running ==> r is Ok,
    {
        if !installed {
            Err(ComposeError::DockerNotInstalled)
        } else if !daemon_running {
            Err(ComposeError::DaemonNotRunning)
        } else {
            Ok(())
        }
    }

    /// The arguments that check the compose file.
    pub fn validate_args() -> (r: Vec<String>)
        ensures
            seq_views(r@) == seq!["config"@, "--quiet"@],
    {
        let r = words("config", "--quiet", "", 2);
        assert(seq!["config"@, "--quiet"@, ""@].take(2) =~= seq!["config"@, "--quiet"@]);
        r
    }

    /// What checking the compose file gave.
    pub fn validate_outcome(success: bool, stderr: &str) -> (r: Result<(), ComposeError>)
        ensures
            success ==> r is Ok,
            !success ==> (r matches Err(ComposeError::InvalidConfiguration(s)) && s@ == stderr@),
    {
        if success { Ok(()) } else { Err(ComposeError::InvalidConfiguration(to_owned_string(stderr))) }
    }

    /// The image a deployment rolls out: an error when the environment names none.
    pub fn deploy_image(ctx: &DeploymentContext) -> (r: Result<String, ComposeError>)
        ensures
            match ctx.environment.image {
                Some(i) => r matches Ok(s) && s@ == i@,
                None => r matches Err(ComposeError::NoImage),
            },
    {
        match &ctx.environment.image {
            Some(i) => Ok(i.clone()),
            None => Err(ComposeError::NoImage),
        }
    }

    /// The commands of a deployment, in order: pull the images, stop the
    /// containers (a failure is ignored), start them, then list them.
    pub fn deploy_steps() -> (r: Vec<ComposeStep>)
        ensures
            step_views(r@) == seq![
                (seq!["pull"@], false),
                (seq!["down"@, "--remove-orphans"@], true),
                (seq!["up"@, "-d"@, "--remove-orphans"@], false),
                (seq!["ps"@, "--format"@, "json"@], false),
            ],
    {
        let mut v: Vec<ComposeStep> = Vec::new();
        v.push(ComposeStep { args: words("pull", "", "", 1), may_fail: false });
        v.push(ComposeStep { args: words("down", "--remove-orphans", "", 2), may_fail: true });
        v.push(ComposeStep { args: words("up", "-d", "--remove-orphans", 3), may_fail: false });
        v.push(ComposeStep { args: words("ps", "--format", "json", 3), may_fail: false });
        assert(seq!["pull"@, ""@, ""@].take(1) =~= seq!["pull"@]);
        assert(seq!["down"@, "--remove-orphans"@, ""@].take(2) =~= seq!["down"@, "--remove-orphans"@]);
        assert(seq!["up"@, "-d"@, "--remove-orphans"@].take(3) =~= seq!["up"@, "-d"@, "--remove-orphans"@]);
        assert(seq!["ps"@, "--format"@, "json"@].take(3) =~= seq!["ps"@, "--format"@, "json"@]);
        assert(step_views(v@) =~= seq![
            (seq!["pull"@], false),
            (seq!["down"@, "--remove-orphans"@], true),
            (seq!["up"@, "-d"@, "--remove-orphans"@], false),
            (seq!["ps"@, "--format"@, "json"@], false),
        ]);
        v
    }

    /// Seconds a deployment waits for the containers before listing them.
    pub fn settle_secs() -> (r: u64)
        ensures
            r == 5,
    {
        5
    }

    /// The commands of a rollback, in order: stop the containers, then
    /// start them again.
    pub fn rollback_steps() -> (r: Vec<ComposeStep>)
        ensures
            step_views(r@) == seq![(seq!["down"@], false), (seq!["up"@, "-d"@], false)],
    {
        let mut v: Vec<ComposeStep> = Vec::new();
        v.push(ComposeStep { args: words("down", "", "", 1), may_fail: false });
        v.push(ComposeStep { args: words("up", "-d", "", 2), may_fail: false });
        assert(seq!["down"@, ""@, ""@].take(1) =~= seq!["down"@]);
        assert(seq!["up"@, "-d"@, ""@].take(2) =~= seq!["up"@, "-d"@]);
        assert(step_views(v@) =~= seq![(seq!["down"@], false), (seq!["up"@, "-d"@], false)]);
        v
    }

    /// The result of a deployment: what a dry run would do, or what was done.
    pub fn deploy_result(dry_run: bool, image: &str) -> (r: DeploymentResult)
        ensures
            r.success,
            r.message@ == (if dry_run {
                "Would deploy "@ + image@ + " using Docker Compose"@
            } else {
                "Deployed "@ + image@ + " successfully"@
            }),
            opt_view(r.version) == (if dry_run { None } else { Some(image@) }),
            r.rollback_version is None,
    {
        if dry_run {
            let mut m = to_owned_string("Would deploy ");
            push_str(&mut m, image);
            push_str(&mut m, " using Docker Compose");
            DeploymentResult::success(m.as_str())
        } else {
            let mut m = to_owned_string("Deployed ");
            push_str(&mut m, image);
            push_str(&mut m, " successfully");
            DeploymentResult::success(m.as_str()).with_version(image)
        }
    }

    /// The result of a rollback: Compose only restarts the containers.
    pub fn rollback_result(dry_run: bool) -> (r: DeploymentResult)
        ensures
            r.success,
            r.message@ == (if dry_run {
                "Would rollback Docker Compose deployment"@
            } else {
                "Restarted containers. Manual image version rollback may be required."@
            }),
            r.version is None,
            r.rollback_version is None,
    {
        if dry_run {
            DeploymentResult::success("Would rollback Docker Compose deployment")
        } else {
            DeploymentResult::success("Restarted containers. Manual image version rollback may be required.")
        }
    }

    /// The arguments that print (or follow) the containers' logs.
    pub fn logs_args(follow: bool) -> (r: Vec<String>)
        ensures
            seq_views(r@) == (if follow { seq!["logs"@, "-f"@] } else { seq!["logs"@, "--tail"@, "100"@] }),
    {
        if follow {
            let r = words("logs", "-f", "", 2);
            assert(seq!["logs"@, "-f"@, ""@].take(2) =~= seq!["logs"@, "-f"@]);
            r
        } else {
            let r = words("logs", "--tail", "100", 3);
            assert(seq!["logs"@, "--tail"@, "100"@].take(3) =~= seq!["logs"@, "--tail"@, "100"@]);
            r
        }
    }
}

} // verus!
