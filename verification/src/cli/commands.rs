//! The command line: the commands and their arguments, as values. Parsing
//! the command line is the caller's.

use vstd::prelude::*;

verus! {

/// The parsed command line.
#[derive(Debug, Clone)]
pub struct Cli {
    pub command: Option<Commands>,
    /// Path to the configuration file.
    pub file: Option<String>,
    pub verbose: bool,
    /// Only errors are printed.
    pub quiet: bool,
    pub output: OutputFormat,
}

/// How command output is printed.
#[derive(Debug, Clone, Copy, PartialEq, Eq, Structural)]
pub enum OutputFormat {
    Text,
    Json,
}

#[derive(Debug, Clone)]
pub enum Commands {
    Deploy(DeployArgs),
    Status(StatusArgs),
    Rollback(RollbackArgs),
    Logs(LogsArgs),
    List,
    Validate,
    Init(InitArgs),
    Provision(ProvisionArgs),
    Projects(ProjectsCommands),
    Hooks(HooksCommands),
    Ui(UiArgs),
}

#[derive(Debug, Clone)]
pub struct DeployArgs {
    pub environment: String,
    pub dry_run: bool,
    /// Skip the confirmation prompt.
    pub yes: bool,
    pub image: Option<String>,
    /// "app-only" (the default) or "full".
    pub deploy_mode: String,
    pub skip_hooks: bool,
    pub skip_pre_hooks: bool,
    pub skip_post_hooks: bool,
}

#[derive(Debug, Clone)]
pub struct StatusArgs {
    pub environment: String,
    pub watch: bool,
}

#[derive(Debug, Clone)]
pub struct RollbackArgs {
    pub environment: String,
    /// Version to return to, else the previous one.
    pub target_version: Option<String>,
    pub yes: bool,
}

#[derive(Debug, Clone)]
pub struct LogsArgs {
    pub environment: String,
    pub follow: bool,
    pub lines: usize,
}

#[derive(Debug, Clone)]
pub struct InitArgs {
    pub infrastructure: Option<String>,
    pub force: bool,
    /// Write a template instead of running the wizard.
    pub non_interactive: bool,
}

#[derive(Debug, Clone)]
pub enum ProjectsCommands {
    List,
    Add(ProjectAddArgs),
    Remove(ProjectRemoveArgs),
}

#[derive(Debug, Clone)]
pub struct ProjectAddArgs {
    pub path: String,
    pub name: Option<String>,
}

#[derive(Debug, Clone)]
pub struct ProjectRemoveArgs {
    /// Path or name of the project.
    pub project: String,
}

#[derive(Debug, Clone)]
pub struct UiArgs {
    pub port: u16,
    pub host: String,
    pub open: bool,
    pub tls_cert: Option<String>,
    pub tls_key: Option<String>,
    pub dev_tls: bool,
}

#[derive(Debug, Clone)]
pub enum HooksCommands {
    Run(HooksRunArgs),
    List(HooksListArgs),
}

#[derive(Debug, Clone)]
pub struct HooksRunArgs {
    pub environment: String,
    pub hook_name: String,
    pub dry_run: bool,
}

#[derive(Debug, Clone)]
pub struct HooksListArgs {
    pub environment: String,
}

#[derive(Debug, Clone)]
pub struct ProvisionArgs {
    pub environment: String,
    /// Show the planned changes only.
    pub plan: bool,
    pub dry_run: bool,
    pub yes: bool,
    pub image: Option<String>,
}

/// Arguments of `plugin new`.
#[derive(Debug, Clone)]
pub struct PluginNewArgs {
    pub name: String,
    pub output_dir: Option<String>,
    pub infrastructure_type: String,
    pub description: Option<String>,
}

/// Arguments of `resume`.
#[derive(Debug, Clone)]
pub struct ResumeArgs {
    pub deployment_id: Option<String>,
    pub list: bool,
    pub clear: bool,
    pub yes: bool,
}

/// What the init command writes: a template of the given (or the Docker
/// Compose) infrastructure when not interactive or a type is given,
/// otherwise the wizard's answers.
pub open spec fn init_uses_template(args: InitArgs) -> bool {
    args.non_interactive || args.infrastructure is Some
}

impl InitArgs {
    /// The infrastructure type whose template is written, when a template is.
    pub fn template_type(&self) -> (r: Option<String>)
        ensures
            init_uses_template(*self) ==> (r matches Some(t) && t@ == (match self.infrastructure {
                Some(i) => i@,
                None => "docker-compose"@,
            })),
            !init_uses_template(*self) ==> r is None,
    {
        match &self.infrastructure {
            Some(i) => Some(i.clone()),
            None => if self.non_interactive {
                Some(crate::text::to_owned_string("docker-compose"))
            } else {
                None
            },
        }
    }
}

/// What `resume` does.
#[derive(Debug, Clone, Copy, PartialEq, Eq, Structural)]
pub enum ResumeAction {
    List,
    Clear,
    Resume,
}

impl ResumeArgs {
    /// Listing when asked or without a deployment; else clearing when
    /// asked; else resuming.
    pub fn action(&self) -> (r: ResumeAction)
        ensures
            r == (if self.list || self.deployment_id is None {
                ResumeAction::List
            } else if self.clear {
                ResumeAction::Clear
            } else {
                ResumeAction::Resume
            }),
    {
        if self.list || self.deployment_id.is_none() {
            ResumeAction::List
        } else if self.clear {
            ResumeAction::Clear
        } else {
            ResumeAction::Resume
        }
    }
}

} // verus!
