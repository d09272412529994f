//! Helm: chart settings and how settings of an environment override those
//! of an infrastructure, the `helm` command lines of each operation, and
//! how each command's output is read. Running the commands is the caller's.

use vstd::prelude::*;
use crate::cmdline::{
    flag_pairs, pair_flags, push_arg, push_flag, push_flag_values, push_opt_flag, push_pair_flags,
    push_switch,
};
use crate::deployment::strategy::DeploymentResult;
use crate::json::{json_list_fields, read_json_list_fields};
use crate::keyed::{find_key, extend_text, clone_text_entries, lookup, last_lookup, lemma_extend_lookup, text_entries, text_extend};
use crate::text::{clone_opt_string, clone_strings, decimal, opt_view, push_str, seq_views, str_is_empty, to_owned_string, u64_to_string};

verus! {

/// A Helm chart and how it is installed.
#[derive(Debug, Clone)]
pub struct HelmConfig {
    pub chart: String,
    pub repo: Option<String>,
    pub repo_name: Option<String>,
    pub version: Option<String>,
    pub release_name: Option<String>,
    pub values_files: Vec<String>,
    /// `--set` values, by distinct name.
    pub set: Vec<(String, String)>,
    /// `--set-string` values, by distinct name.
    pub set_string: Vec<(String, String)>,
    pub create_namespace: bool,
    pub wait: bool,
    pub timeout: Option<String>,
    pub atomic: bool,
    pub skip_crds: bool,
}

/// The option of the overrides when it is set, else the base's.
pub open spec fn prefer(over: Option<String>, base: Option<String>) -> Option<Seq<char>> {
    if over is Some { opt_view(over) } else { opt_view(base) }
}

/// `m` is `base` with `over` applied: a non-empty chart and each set option
/// of `over` win; values files are those of `base` then those of `over`;
/// the values of `over` are inserted into those of `base`; a switch is on
/// when either has it on.
pub open spec fn helm_merged(base: HelmConfig, over: HelmConfig, m: HelmConfig) -> bool {
    &&& m.chart@ == (if over.chart@.len() == 0 { base.chart@ } else { over.chart@ })
    &&& opt_view(m.repo) == prefer(over.repo, base.repo)
    &&& opt_view(m.repo_name) == prefer(over.repo_name, base.repo_name)
    &&& opt_view(m.version) == prefer(over.version, base.version)
    &&& opt_view(m.release_name) == prefer(over.release_name, base.release_name)
    &&& seq_views(m.values_files@) == seq_views(base.values_files@) + seq_views(over.values_files@)
    &&& text_entries(m.set@) == text_extend(text_entries(base.set@), text_entries(over.set@))
    &&& text_entries(m.set_string@) == text_extend(text_entries(base.set_string@), text_entries(over.set_string@))
    &&& m.create_namespace == (over.create_namespace || base.create_namespace)
    &&& m.wait == (over.wait || base.wait)
    &&& opt_view(m.timeout) == prefer(over.timeout, base.timeout)
    &&& m.atomic == (over.atomic || base.atomic)
    &&& m.skip_crds == (over.skip_crds || base.skip_crds)
}

/// `a` and `b` hold the same settings.
pub open spec fn helm_same(a: HelmConfig, b: HelmConfig) -> bool {
    &&& a.chart@ == b.chart@
    &&& opt_view(a.repo) == opt_view(b.repo) && opt_view(a.repo_name) == opt_view(b.repo_name)
    &&& opt_view(a.version) == opt_view(b.version) && opt_view(a.release_name) == opt_view(b.release_name)
    &&& seq_views(a.values_files@) == seq_views(b.values_files@)
    &&& text_entries(a.set@) == text_entries(b.set@) && text_entries(a.set_string@) == text_entries(b.set_string@)
    &&& a.create_namespace == b.create_namespace && a.wait == b.wait
    &&& opt_view(a.timeout) == opt_view(b.timeout) && a.atomic == b.atomic && a.skip_crds == b.skip_crds
}

/// Overrides that change nothing: no chart, no options, no values, no switches.
pub open spec fn helm_empty(c: HelmConfig) -> bool {
    &&& c.chart@.len() == 0
    &&& c.repo is None && c.repo_name is None && c.version is None && c.release_name is None
    &&& c.values_files@.len() == 0 && c.set@.len() == 0 && c.set_string@.len() == 0
    &&& !c.create_namespace && !c.wait && c.timeout is None && !c.atomic && !c.skip_crds
}

fn prefer_opt(over: &Option<String>, base: &Option<String>) -> (r: Option<String>)
    ensures
        opt_view(r) == prefer(*over, *base),
{
    if over.is_some() { clone_opt_string(over) } else { clone_opt_string(base) }
}

impl HelmConfig {
    /// Applies environment overrides to infrastructure settings.
    pub fn merge(&self, overrides: &HelmConfig) -> (r: HelmConfig)
        ensures
            helm_merged(*self, *overrides, r),
    {
        let mut set = clone_text_entries(&self.set);
        extend_text(&mut set, &overrides.set);
        let mut set_string = clone_text_entries(&self.set_string);
        extend_text(&mut set_string, &overrides.set_string);
        let mut values_files = clone_strings(&self.values_files);
        let more = clone_strings(&overrides.values_files);
        let ghost a = seq_views(values_files@);
        let mut i: usize = 0;
        while i < more.len()
            invariant
                i <= more@.len(),
                seq_views(values_files@) == a + seq_views(more@).take(i as int),
            decreases more.len() - i,
        {
            let ghost prev = values_files@;
            values_files.push(more[i].clone());
            assert(seq_views(values_files@) =~= seq_views(prev).push(more@[i as int]@));
            assert(seq_views(more@).take(i + 1) =~= seq_views(more@).take(i as int).push(more@[i as int]@));
            assert(seq_views(values_files@) =~= a + seq_views(more@).take(i + 1));
            i = i + 1;
        }
        assert(seq_views(more@).take(more@.len() as int) =~= seq_views(more@));
        HelmConfig {
            chart: if str_is_empty(overrides.chart.as_str()) { self.chart.clone() } else { overrides.chart.clone() },
            repo: prefer_opt(&overrides.repo, &self.repo),
            repo_name: prefer_opt(&overrides.repo_name, &self.repo_name),
            version: prefer_opt(&overrides.version, &self.version),
            release_name: prefer_opt(&overrides.release_name, &self.release_name),
            values_files,
            set,
            set_string,
            create_namespace: overrides.create_namespace || self.create_namespace,
            wait: overrides.wait || self.wait,
            timeout: prefer_opt(&overrides.timeout, &self.timeout),
            atomic: overrides.atomic || self.atomic,
            skip_crds: overrides.skip_crds || self.skip_crds,
        }
    }
}

/// Merging overrides that change nothing keeps the settings as they are.
pub proof fn lemma_helm_merge_empty(base: HelmConfig, over: HelmConfig, m: HelmConfig)
    requires
        helm_merged(base, over, m),
        helm_empty(over),
    ensures
        helm_same(m, base),
{
    assert(seq_views(over.values_files@) =~= Seq::<Seq<char>>::empty());
    assert(seq_views(base.values_files@) + seq_views(over.values_files@) =~= seq_views(base.values_files@));
    assert(text_entries(over.set@) =~= Seq::<(Seq<char>, Seq<char>)>::empty());
    assert(text_entries(over.set_string@) =~= Seq::<(Seq<char>, Seq<char>)>::empty());
}

/// After merging, a value the overrides set wins, and any other value of
/// the base is kept.
pub proof fn lemma_helm_merge_values(base: HelmConfig, over: HelmConfig, m: HelmConfig, name: Seq<char>)
    requires
        helm_merged(base, over, m),
    ensures
        lookup(text_entries(m.set@), name) == (match last_lookup(text_entries(over.set@), name) {
            Some(v) => Some(v),
            None => lookup(text_entries(base.set@), name),
        }),
        lookup(text_entries(m.set_string@), name) == (match last_lookup(text_entries(over.set_string@), name) {
            Some(v) => Some(v),
            None => lookup(text_entries(base.set_string@), name),
        }),
{
    lemma_extend_lookup(text_entries(base.set@), text_entries(over.set@), name);
    lemma_extend_lookup(text_entries(base.set_string@), text_entries(over.set_string@), name);
}

/// The output of a command that was run.
#[derive(Debug, Clone)]
pub struct CommandOutput {
    pub success: bool,
    pub stdout: String,
    pub stderr: String,
}

/// What a Helm operation reports when it fails.
#[derive(Debug, Clone)]
pub enum HelmError {
    NotInstalled,
    ReleaseNameRequiredForDeploy,
    ReleaseNameRequired,
    RepoAddFailed(String),
    UpgradeFailed(String),
    RollbackFailed(String),
    StatusFailed(String),
    HistoryFailed(String),
    UninstallFailed(String),
    TemplateFailed(String),
    InvalidReleaseList(String),
}

/// The message of a Helm error.
pub open spec fn helm_error_text(e: HelmError) -> Seq<char> {
    match e {
        HelmError::NotInstalled =>
            "Helm is not installed or not in PATH. Please install Helm: https://helm.sh/docs/intro/install/"@,
        HelmError::ReleaseNameRequiredForDeploy => "release_name is required for Helm deployments"@,
        HelmError::ReleaseNameRequired => "release_name is required"@,
        HelmError::RepoAddFailed(s) => "Failed to add Helm repo: "@ + s@,
        HelmError::UpgradeFailed(s) => "Helm upgrade failed: "@ + s@,
        HelmError::RollbackFailed(s) => "Helm rollback failed: "@ + s@,
        HelmError::StatusFailed(s) => "Failed to get Helm release status: "@ + s@,
        HelmError::HistoryFailed(s) => "Failed to get Helm release history: "@ + s@,
        HelmError::UninstallFailed(s) => "Helm uninstall failed: "@ + s@,
        HelmError::TemplateFailed(s) => "Helm template failed: "@ + s@,
        HelmError::InvalidReleaseList(s) => s@,
    }
}

fn prefixed(prefix: &str, s: &String) -> (r: String)
    ensures
        r@ == prefix@ + s@,
{
    let mut m = to_owned_string(prefix);
    push_str(&mut m, s.as_str());
    m
}

impl HelmError {
    pub fn to_string(&self) -> (r: String)
        ensures
            r@ == helm_error_text(*self),
    {
        match self {
            HelmError::NotInstalled => to_owned_string(
                "Helm is not installed or not in PATH. Please install Helm: https://helm.sh/docs/intro/install/",
            ),
            HelmError::ReleaseNameRequiredForDeploy => to_owned_string("release_name is required for Helm deployments"),
            HelmError::ReleaseNameRequired => to_owned_string("release_name is required"),
            HelmError::RepoAddFailed(s) => prefixed("Failed to add Helm repo: ", s),
            HelmError::UpgradeFailed(s) => prefixed("Helm upgrade failed: ", s),
            HelmError::RollbackFailed(s) => prefixed("Helm rollback failed: ", s),
            HelmError::StatusFailed(s) => prefixed("Failed to get Helm release status: ", s),
            HelmError::HistoryFailed(s) => prefixed("Failed to get Helm release history: ", s),
            HelmError::UninstallFailed(s) => prefixed("Helm uninstall failed: ", s),
            HelmError::TemplateFailed(s) => prefixed("Helm template failed: ", s),
            HelmError::InvalidReleaseList(s) => s.clone(),
        }
    }
}

/// A `helm` command whose failure stops an operation.
#[derive(Debug, Clone, Copy, PartialEq, Eq, Structural)]
pub enum HelmCommand {
    Version,
    RepoAdd,
    Upgrade,
    Rollback,
    Status,
    History,
    Uninstall,
    Template,
}

/// The error of a failed command, carrying its standard error.
pub open spec fn helm_failure(cmd: HelmCommand, e: HelmError, stderr: Seq<char>) -> bool {
    match cmd {
        HelmCommand::Version => e is NotInstalled,
        HelmCommand::RepoAdd => e matches HelmError::RepoAddFailed(s) && s@ == stderr,
        HelmCommand::Upgrade => e matches HelmError::UpgradeFailed(s) && s@ == stderr,
        HelmCommand::Rollback => e matches HelmError::RollbackFailed(s) && s@ == stderr,
        HelmCommand::Status => e matches HelmError::StatusFailed(s) && s@ == stderr,
        HelmCommand::History => e matches HelmError::HistoryFailed(s) && s@ == stderr,
        HelmCommand::Uninstall => e matches HelmError::UninstallFailed(s) && s@ == stderr,
        HelmCommand::Template => e matches HelmError::TemplateFailed(s) && s@ == stderr,
    }
}

/// Runs Helm operations in a namespace (and kube context). The command
/// runner is the caller's.
#[derive(Debug, Clone)]
pub struct HelmDeployer {
    pub namespace: String,
    pub context: Option<String>,
    pub working_dir: Option<String>,
}

/// `--kube-context c` when a context is set.
pub open spec fn context_args(context: Option<String>) -> Seq<Seq<char>> {
    match context {
        Some(c) => seq!["--kube-context"@, c@],
        None => seq![],
    }
}

/// The `helm upgrade --install` arguments of a release.
pub open spec fn upgrade_args_of(d: HelmDeployer, c: HelmConfig, release: Seq<char>, dry_run: bool) -> Seq<Seq<char>> {
    seq!["upgrade"@, "--install"@, release, c.chart@, "--namespace"@, d.namespace@]
        + context_args(d.context)
        + (match c.version { Some(v) => seq!["--version"@, v@], None => seq![] })
        + flag_pairs("-f"@, seq_views(c.values_files@))
        + pair_flags("--set"@, text_entries(c.set@))
        + pair_flags("--set-string"@, text_entries(c.set_string@))
        + (if c.create_namespace { seq!["--create-namespace"@] } else { seq![] })
        + (if c.wait { seq!["--wait"@] } else { seq![] })
        + (match c.timeout { Some(t) => seq!["--timeout"@, t@], None => seq![] })
        + (if c.atomic { seq!["--atomic"@] } else { seq![] })
        + (if c.skip_crds { seq!["--skip-crds"@] } else { seq![] })
        + (if dry_run { seq!["--dry-run"@] } else { seq![] })
}

/// The `helm template` arguments of a release.
pub open spec fn template_args_of(d: HelmDeployer, c: HelmConfig, release: Seq<char>, output_dir: Option<Seq<char>>) -> Seq<Seq<char>> {
    seq!["template"@, release, c.chart@, "--namespace"@, d.namespace@]
        + (match c.version { Some(v) => seq!["--version"@, v@], None => seq![] })
        + flag_pairs("-f"@, seq_views(c.values_files@))
        + pair_flags("--set"@, text_entries(c.set@))
        + (match output_dir { Some(o) => seq!["--output-dir"@, o], None => seq![] })
}

fn push_context(args: &mut Vec<String>, context: &Option<String>)
    ensures
        seq_views(final(args)@) == seq_views(old(args)@) + context_args(*context),
{
    push_opt_flag(args, "--kube-context", context);
}

fn words(a: &str, b: &str) -> (r: Vec<String>)
    ensures
        seq_views(r@) == seq![a@, b@],
{
    let mut v: Vec<String> = Vec::new();
    v.push(to_owned_string(a));
    v.push(to_owned_string(b));
    assert(seq_views(v@) =~= seq![a@, b@]);
    v
}

impl HelmDeployer {
    pub fn new(namespace: &str, context: Option<&str>) -> (r: Self)
        ensures
            r.namespace@ == namespace@,
            opt_view(r.context) == (match context { Some(c) => Some(c@), None => None }),
            r.working_dir is None,
    {
        HelmDeployer {
            namespace: to_owned_string(namespace),
            context: match context {
                Some(c) => Some(to_owned_string(c)),
                None => None,
            },
            working_dir: None,
        }
    }

    pub fn with_working_dir(self, dir: String) -> (r: Self)
        ensures
            r.working_dir == Some(dir),
            r.namespace == self.namespace && r.context == self.context,
    {
        HelmDeployer { working_dir: Some(dir), ..self }
    }

    /// `helm version`, which tells whether Helm is installed.
    pub fn version_args() -> (r: Vec<String>)
        ensures
            seq_views(r@) == seq!["version"@],
    {
        let mut v: Vec<String> = Vec::new();
        push_arg(&mut v, "version");
        assert(seq_views(v@) =~= seq!["version"@]);
        v
    }

    /// How a command's output is read: its standard output on success,
    /// else the error of the failed command.
    pub fn command_result(cmd: HelmCommand, output: &CommandOutput) -> (r: Result<String, HelmError>)
        ensures
            output.success ==> (r matches Ok(s) && s@ == output.stdout@),
            !output.success ==> (r matches Err(e) && helm_failure(cmd, e, output.stderr@)),
    {
        if output.success {
            return Ok(output.stdout.clone());
        }
        let s = output.stderr.clone();
        Err(match cmd {
            HelmCommand::Version => HelmError::NotInstalled,
            HelmCommand::RepoAdd => HelmError::RepoAddFailed(s),
            HelmCommand::Upgrade => HelmError::UpgradeFailed(s),
            HelmCommand::Rollback => HelmError::RollbackFailed(s),
            HelmCommand::Status => HelmError::StatusFailed(s),
            HelmCommand::History => HelmError::HistoryFailed(s),
            HelmCommand::Uninstall => HelmError::UninstallFailed(s),
            HelmCommand::Template => HelmError::TemplateFailed(s),
        })
    }

    /// `helm repo add {name} {url} --force-update`.
    pub fn repo_add_args(name: &str, url: &str) -> (r: Vec<String>)
        ensures
            seq_views(r@) == seq!["repo"@, "add"@, name@, url@, "--force-update"@],
    {
        let mut v = words("repo", "add");
        push_arg(&mut v, name);
        push_arg(&mut v, url);
        push_arg(&mut v, "--force-update");
        v
    }

    /// `helm repo update`.
    pub fn repo_update_args() -> (r: Vec<String>)
        ensures
            seq_views(r@) == seq!["repo"@, "update"@],
    {
        words("repo", "update")
    }

    /// The repository to add before installing: its name and URL, when
    /// both are set.
    pub fn repo_to_add(config: &HelmConfig) -> (r: Option<(String, String)>)
        ensures
            match (config.repo_name, config.repo) {
                (Some(n), Some(u)) => r matches Some((a, b)) && a@ == n@ && b@ == u@,
                _ => r is None,
            },
    {
        match (&config.repo_name, &config.repo) {
            (Some(n), Some(u)) => Some((n.clone(), u.clone())),
            _ => None,
        }
    }

    /// The `helm upgrade --install` arguments: an error when the release
    /// has no name.
    pub fn upgrade_args(&self, config: &HelmConfig, dry_run: bool) -> (r: Result<Vec<String>, HelmError>)
        ensures
            match config.release_name {
                None => r matches Err(HelmError::ReleaseNameRequiredForDeploy),
                Some(n) => r matches Ok(a) && seq_views(a@) == upgrade_args_of(*self, *config, n@, dry_run),
            },
    {
        let release = match &config.release_name {
            None => return Err(HelmError::ReleaseNameRequiredForDeploy),
            Some(n) => n,
        };
        let mut a = words("upgrade", "--install");
        push_arg(&mut a, release.as_str());
        push_arg(&mut a, config.chart.as_str());
        push_flag(&mut a, "--namespace", self.namespace.as_str());
        assert(seq_views(a@) =~= seq!["upgrade"@, "--install"@, release@, config.chart@, "--namespace"@, self.namespace@]);
        push_context(&mut a, &self.context);
        push_opt_flag(&mut a, "--version", &config.version);
        push_flag_values(&mut a, "-f", &config.values_files);
        push_pair_flags(&mut a, "--set", &config.set);
        push_pair_flags(&mut a, "--set-string", &config.set_string);
        push_switch(&mut a, "--create-namespace", config.create_namespace);
        push_switch(&mut a, "--wait", config.wait);
        push_opt_flag(&mut a, "--timeout", &config.timeout);
        push_switch(&mut a, "--atomic", config.atomic);
        push_switch(&mut a, "--skip-crds", config.skip_crds);
        push_switch(&mut a, "--dry-run", dry_run);
        assert(seq_views(a@) == upgrade_args_of(*self, *config, release@, dry_run));
        Ok(a)
    }

    /// The `helm rollback` arguments, to the given revision or the previous one.
    pub fn rollback_args(&self, release_name: &str, revision: Option<u32>, dry_run: bool) -> (r: Vec<String>)
        ensures
            seq_views(r@) == seq!["rollback"@, release_name@]
                + (match revision { Some(n) => seq![decimal(n as nat)], None => seq![] })
                + seq!["--namespace"@, self.namespace@] + context_args(self.context) + seq!["--wait"@]
                + (if dry_run { seq!["--dry-run"@] } else { seq![] }),
    {
        let mut a = words("rollback", release_name);
        let ghost head = seq_views(a@);
        match revision {
            Some(n) => {
                let t = u64_to_string(n as u64);
                push_arg(&mut a, t.as_str());
            },
            None => {},
        }
        push_flag(&mut a, "--namespace", self.namespace.as_str());
        push_context(&mut a, &self.context);
        push_arg(&mut a, "--wait");
        push_switch(&mut a, "--dry-run", dry_run);
        assert(seq_views(a@) =~= seq!["rollback"@, release_name@]
            + (match revision { Some(n) => seq![decimal(n as nat)], None => seq![] })
            + seq!["--namespace"@, self.namespace@] + context_args(self.context) + seq!["--wait"@]
            + (if dry_run { seq!["--dry-run"@] } else { seq![] }));
        a
    }

    /// `helm {command} {release} --namespace {ns}` with the context, for
    /// the status and history commands.
    pub fn release_query_args(&self, command: &str, release_name: &str) -> (r: Vec<String>)
        ensures
            seq_views(r@) == seq![command@, release_name@, "--namespace"@, self.namespace@] + context_args(self.context),
    {
        let mut a = words(command, release_name);
        push_flag(&mut a, "--namespace", self.namespace.as_str());
        push_context(&mut a, &self.context);
        a
    }

    /// `helm list` of exactly this release, as JSON.
    pub fn list_args(&self, release_name: &str) -> (r: Vec<String>)
        ensures
            seq_views(r@) == seq!["list"@, "--filter"@, "^"@ + release_name@ + "$"@, "--namespace"@, self.namespace@, "-o"@, "json"@]
                + context_args(self.context),
    {
        let mut filter = to_owned_string("^");
        push_str(&mut filter, release_name);
        push_str(&mut filter, "$");
        let mut a = words("list", "--filter");
        push_arg(&mut a, filter.as_str());
        push_flag(&mut a, "--namespace", self.namespace.as_str());
        push_flag(&mut a, "-o", "json");
        push_context(&mut a, &self.context);
        a
    }

    /// The revision of a release from the output of `helm list`: "unknown"
    /// when the command failed or the list names none; an error when the
    /// output is not a JSON list.
    pub fn release_revision(output: &CommandOutput) -> (r: Result<String, HelmError>)
        ensures
            !output.success ==> (r matches Ok(s) && s@ == "unknown"@),
            output.success ==> match first_release_revision(output.stdout@) {
                Ok(Some(v)) => r matches Ok(s) && s@ == v,
                Ok(None) => r matches Ok(s) && s@ == "unknown"@,
                Err(m) => r matches Err(HelmError::InvalidReleaseList(e)) && e@ == m,
            },
    {
        if !output.success {
            return Ok(to_owned_string("unknown"));
        }
        match read_first_release_revision(output.stdout.as_str()) {
            Ok(Some(v)) => Ok(v),
            Ok(None) => Ok(to_owned_string("unknown")),
            Err(m) => Err(HelmError::InvalidReleaseList(m)),
        }
    }

    /// `helm uninstall` of a release.
    pub fn uninstall_args(&self, release_name: &str, dry_run: bool) -> (r: Vec<String>)
        ensures
            seq_views(r@) == seq!["uninstall"@, release_name@, "--namespace"@, self.namespace@] + context_args(self.context)
                + (if dry_run { seq!["--dry-run"@] } else { seq![] }),
    {
        let mut a = words("uninstall", release_name);
        push_flag(&mut a, "--namespace", self.namespace.as_str());
        push_context(&mut a, &self.context);
        push_switch(&mut a, "--dry-run", dry_run);
        a
    }

    /// The `helm template` arguments: an error when the release has no name.
    pub fn template_args(&self, config: &HelmConfig, output_dir: Option<&str>) -> (r: Result<Vec<String>, HelmError>)
        ensures
            match config.release_name {
                None => r matches Err(HelmError::ReleaseNameRequired),
                Some(n) => r matches Ok(a) && seq_views(a@) == template_args_of(*self, *config, n@,
                    match output_dir { Some(o) => Some(o@), None => None }),
            },
    {
        let release = match &config.release_name {
            None => return Err(HelmError::ReleaseNameRequired),
            Some(n) => n,
        };
        let mut a = words("template", release.as_str());
        push_arg(&mut a, config.chart.as_str());
        push_flag(&mut a, "--namespace", self.namespace.as_str());
        push_opt_flag(&mut a, "--version", &config.version);
        push_flag_values(&mut a, "-f", &config.values_files);
        push_pair_flags(&mut a, "--set", &config.set);
        let ghost before = seq_views(a@);
        match output_dir {
            Some(o) => push_flag(&mut a, "--output-dir", o),
            None => {},
        }
        assert(seq_views(a@) =~= template_args_of(*self, *config, release@,
            match output_dir { Some(o) => Some(o@), None => None }));
        Ok(a)
    }

    /// The result of an upgrade or a rollback that reached `revision`.
    pub fn release_result(release_name: &str, revision: String, rolled_back: bool) -> (r: DeploymentResult)
        ensures
            r.success,
            r.message@ == "Helm release "@ + release_name@
                + (if rolled_back { " rolled back to revision "@ } else { " upgraded to revision "@ }) + revision@,
            opt_view(r.version) == Some(revision@),
            r.rollback_version is None,
    {
        let mut m = to_owned_string("Helm release ");
        push_str(&mut m, release_name);
        if rolled_back {
            push_str(&mut m, " rolled back to revision ");
        } else {
            push_str(&mut m, " upgraded to revision ");
        }
        push_str(&mut m, revision.as_str());
        DeploymentResult { success: true, message: m, version: Some(revision), rollback_version: None }
    }
}

} // verus!

verus! {

/// What the output of `helm list -o json` gives as the revision of its
/// first release: the JSON text of that release's `revision` field (`None`
/// when the list is empty, the first release is not an object, or it has
/// no such field), or the message of the error when the output is not a
/// JSON list.
pub open spec fn first_release_revision(s: Seq<char>) -> Result<Option<Seq<char>>, Seq<char>> {
    match json_list_fields(s) {
        Err(m) => Err(m),
        Ok(items) => Ok(
            if items.len() == 0 {
                None
            } else {
                match items[0] {
                    None => None,
                    Some(fields) => lookup(fields, "revision"@),
                }
            },
        ),
    }
}

/// Reads the revision of the first release listed in `s`.
pub fn read_first_release_revision(s: &str) -> (r: Result<Option<String>, String>)
    ensures
        match (r, first_release_revision(s@)) {
            (Ok(None), Ok(None)) => true,
            (Ok(Some(a)), Ok(Some(b))) => a@ == b,
            (Err(a), Err(b)) => a@ == b,
            _ => false,
        },
{
    let items = match read_json_list_fields(s) {
        Err(m) => return Err(m),
        Ok(v) => v,
    };
    if items.len() == 0 {
        return Ok(None);
    }
    let fields = match &items[0] {
        None => return Ok(None),
        Some(f) => f,
    };
    let ghost t = text_entries(fields@);
    match find_key(fields, "revision") {
        None => {
            proof {
                reveal_strlit("revision");
                if exists|i: int| 0 <= i < t.len() && t[i].0 == "revision"@ {
                    let w = choose|i: int| 0 <= i < t.len() && t[i].0 == "revision"@;
                    assert(fields@[w].0@ == "revision"@);
                }
            }
            Ok(None)
        },
        Some(i) => {
            proof {
                assert(t[i as int].0 == "revision"@);
                let w = choose|w: int| 0 <= w < t.len() && t[w].0 == "revision"@
                    && forall|j: int| 0 <= j < w ==> t[j].0 != "revision"@;
                if w < i as int {
                    assert(fields@[w].0@ != "revision"@);
                } else if w > i as int {
                    assert(t[i as int].0 != "revision"@);
                }
            }
            Ok(Some(fields[i].1.clone()))
        },
    }
}

} // verus!

verus! {

/// A dry run asks for exactly the same upgrade as the real one, with
/// `--dry-run` added at the end: nothing else changes between the two.
pub proof fn lemma_dry_run_only_adds_flag(d: HelmDeployer, c: HelmConfig, release: Seq<char>)
    ensures
        upgrade_args_of(d, c, release, true) == upgrade_args_of(d, c, release, false).push("--dry-run"@),
        upgrade_args_of(d, c, release, true).last() == "--dry-run"@,
        upgrade_args_of(d, c, release, true).len() == upgrade_args_of(d, c, release, false).len() + 1,
{
    assert(upgrade_args_of(d, c, release, true) =~= upgrade_args_of(d, c, release, false).push("--dry-run"@));
}

} // verus!

