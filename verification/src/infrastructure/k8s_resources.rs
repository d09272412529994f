//! Kubernetes resources that support a deployment: ConfigMaps, Secrets,
//! Horizontal Pod Autoscalers and raw manifests. The objects to apply are
//! built here; applying them is the caller's.

use vstd::prelude::*;
use crate::cmdline::{push_arg, push_flag, push_opt_flag, push_switch};
use crate::codec::{base64_decode, base64_standard_decoding};
use crate::config::env_vars::EnvVarConfig;
use crate::keyed::{clone_text_entries, extend_text, text_entries, text_extend};
use crate::text::{clone_opt_string, opt_view, push_str, seq_views, str_is_empty, to_owned_string};

verus! {

/// Manifests applied from files.
#[derive(Debug, Clone)]
pub struct RawManifestConfig {
    /// Manifest files or directories.
    pub files: Vec<String>,
    /// Whether directories are searched recursively.
    pub recursive: bool,
    /// Whether resources missing from the manifests are pruned.
    pub prune: bool,
    /// Label selector of the resources to prune.
    pub prune_selector: Option<String>,
}

impl Default for RawManifestConfig {
    fn default() -> (r: Self)
        ensures
            r.files@.len() == 0 && !r.recursive && !r.prune && r.prune_selector is None,
    {
        RawManifestConfig { files: Vec::new(), recursive: false, prune: false, prune_selector: None }
    }
}

/// A ConfigMap to apply.
#[derive(Debug, Clone)]
pub struct K8sConfigMapSpec {
    pub name: String,
    /// Namespace, when not the manager's.
    pub namespace: Option<String>,
    pub data: Vec<(String, String)>,
    /// Binary entries, base64 encoded.
    pub binary_data: Vec<(String, String)>,
    /// Entries read from files: (key, path).
    pub data_from_files: Vec<(String, String)>,
    pub labels: Vec<(String, String)>,
    pub annotations: Vec<(String, String)>,
}

impl K8sConfigMapSpec {
    /// Adds the contents read from the files (key, contents), each
    /// replacing a data entry of the same key.
    pub fn load_file_contents(&mut self, loaded: &Vec<(String, String)>)
        ensures
            text_entries(final(self).data@) == text_extend(text_entries(old(self).data@), text_entries(loaded@)),
            final(self).name == old(self).name && final(self).namespace == old(self).namespace,
            final(self).binary_data == old(self).binary_data,
            final(self).data_from_files == old(self).data_from_files,
            final(self).labels == old(self).labels && final(self).annotations == old(self).annotations,
    {
        extend_text(&mut self.data, loaded);
    }

    /// The error of a file that could not be read.
    pub fn file_error(path: &str, error: &str) -> (r: String)
        ensures
            r@ == "Failed to read file '"@ + path@ + "': "@ + error@,
    {
        let mut m = to_owned_string("Failed to read file '");
        push_str(&mut m, path);
        push_str(&mut m, "': ");
        push_str(&mut m, error);
        m
    }
}

/// A Secret to apply.
#[derive(Debug, Clone)]
pub struct K8sSecretSpec {
    pub name: String,
    pub namespace: Option<String>,
    pub secret_type: String,
    /// Entries whose values are resolved from their sources.
    pub data: Vec<(String, EnvVarConfig)>,
    /// Entries given as plain text.
    pub string_data: Vec<(String, String)>,
    pub labels: Vec<(String, String)>,
    pub annotations: Vec<(String, String)>,
}

/// The type of a Secret when none is configured.
pub fn default_secret_type() -> (r: String)
    ensures
        r@ == "Opaque"@,
{
    to_owned_string("Opaque")
}

/// A Horizontal Pod Autoscaler to apply.
#[derive(Debug, Clone)]
pub struct HpaConfig {
    pub name: Option<String>,
    pub target_deployment: String,
    pub min_replicas: i32,
    pub max_replicas: i32,
    pub target_cpu_utilization: Option<i32>,
    pub target_memory_utilization: Option<i32>,
    pub custom_metrics: Vec<HpaCustomMetric>,
    pub scale_down_stabilization_secs: Option<i32>,
    pub scale_up_stabilization_secs: Option<i32>,
}

/// A custom metric of an autoscaler.
#[derive(Debug, Clone)]
pub struct HpaCustomMetric {
    pub name: String,
    /// "Resource", "Pods", "Object" or "External".
    pub metric_type: String,
    pub target_value: Option<String>,
    pub target_average_value: Option<String>,
    pub target_average_utilization: Option<i32>,
}

/// The metric type of a custom metric when none is configured.
pub fn default_metric_type() -> (r: String)
    ensures
        r@ == "Resource"@,
{
    to_owned_string("Resource")
}

/// The name of an autoscaler: the configured one, else `{deployment}-hpa`.
pub open spec fn hpa_name_of(c: HpaConfig) -> Seq<char> {
    match c.name {
        Some(n) => n@,
        None => c.target_deployment@ + "-hpa"@,
    }
}

impl HpaConfig {
    pub fn hpa_name(&self) -> (r: String)
        ensures
            r@ == hpa_name_of(*self),
    {
        match &self.name {
            Some(n) => n.clone(),
            None => {
                let mut r = self.target_deployment.clone();
                push_str(&mut r, "-hpa");
                r
            },
        }
    }
}

/// Some pairs, or nothing when there are none.
pub open spec fn some_if_any(v: Option<Vec<(String, String)>>, pairs: Seq<(Seq<char>, Seq<char>)>) -> bool {
    if pairs.len() == 0 { v is None } else { v matches Some(x) && text_entries(x@) == pairs }
}

fn nonempty_pairs(v: &Vec<(String, String)>) -> (r: Option<Vec<(String, String)>>)
    ensures
        some_if_any(r, text_entries(v@)),
{
    if v.len() == 0 {
        assert(text_entries(v@).len() == 0);
        None
    } else {
        Some(clone_text_entries(v))
    }
}

/// A ConfigMap object to apply.
#[derive(Debug, Clone)]
pub struct ConfigMapObject {
    pub name: String,
    pub namespace: String,
    pub labels: Option<Vec<(String, String)>>,
    pub annotations: Option<Vec<(String, String)>>,
    pub data: Option<Vec<(String, String)>>,
    /// Decoded binary entries.
    pub binary_data: Option<Vec<(String, Vec<u8>)>>,
}

/// A Secret object to apply.
#[derive(Debug, Clone)]
pub struct SecretObject {
    pub name: String,
    pub namespace: String,
    pub labels: Option<Vec<(String, String)>>,
    pub annotations: Option<Vec<(String, String)>>,
    pub secret_type: String,
    pub string_data: Option<Vec<(String, String)>>,
}

/// A resource utilization target of an autoscaler.
#[derive(Debug, Clone)]
pub struct UtilizationTarget {
    /// "cpu" or "memory".
    pub resource: String,
    pub average_utilization: i32,
}

/// An autoscaler object to apply.
#[derive(Debug, Clone)]
pub struct HpaObject {
    pub name: String,
    pub namespace: String,
    /// API version and kind of the scaled object.
    pub target_api_version: String,
    pub target_kind: String,
    pub target_name: String,
    pub min_replicas: i32,
    pub max_replicas: i32,
    /// Utilization targets; `None` when there are none.
    pub metrics: Option<Vec<UtilizationTarget>>,
    /// Stabilization windows (down, up); `None` when neither is set.
    pub behavior: Option<(Option<i32>, Option<i32>)>,
}

/// The decoded binary entries of a ConfigMap, or the message of the first
/// entry that is not valid base64.
pub open spec fn decoded_entries(entries: Seq<(String, String)>) -> Result<Seq<(Seq<char>, Seq<u8>)>, Seq<char>>
    decreases entries.len(),
{
    if entries.len() == 0 {
        Ok(seq![])
    } else {
        match decoded_entries(entries.drop_last()) {
            Err(e) => Err(e),
            Ok(prev) => match base64_standard_decoding(entries.last().1@) {
                Err(e) => Err(e),
                Ok(bytes) => Ok(prev.push((entries.last().0@, bytes))),
            },
        }
    }
}

/// The decoded entries as (key, bytes).
pub open spec fn byte_entries(v: Seq<(String, Vec<u8>)>) -> Seq<(Seq<char>, Seq<u8>)> {
    v.map_values(|e: (String, Vec<u8>)| (e.0@, e.1@))
}

fn decode_entries(entries: &Vec<(String, String)>) -> (r: Result<Vec<(String, Vec<u8>)>, String>)
    ensures
        match (r, decoded_entries(entries@)) {
            (Ok(v), Ok(w)) => byte_entries(v@) == w,
            (Err(a), Err(b)) => a@ == b,
            _ => false,
        },
{
    let mut out: Vec<(String, Vec<u8>)> = Vec::new();
    let mut i: usize = 0;
    assert(entries@.take(0) =~= Seq::<(String, String)>::empty());
    assert(byte_entries(out@) =~= Seq::<(Seq<char>, Seq<u8>)>::empty());
    while i < entries.len()
        invariant
            i <= entries@.len(),
            decoded_entries(entries@.take(i as int)) == Ok::<Seq<(Seq<char>, Seq<u8>)>, Seq<char>>(byte_entries(out@)),
        decreases entries.len() - i,
    {
        proof {
            let next = entries@.take(i + 1);
            assert(next.drop_last() =~= entries@.take(i as int));
            assert(next.last() == entries@[i as int]);
        }
        match base64_decode(entries[i].1.as_str()) {
            Err(e) => {
                proof {
                    lemma_decode_error_sticks(entries@, i as int + 1);
                }
                return Err(e);
            },
            Ok(bytes) => {
                let ghost before = out@;
                out.push((entries[i].0.clone(), bytes));
                assert(byte_entries(out@) =~= byte_entries(before).push((entries@[i as int].0@, bytes@)));
            },
        }
        i = i + 1;
    }
    assert(entries@.take(entries@.len() as int) =~= entries@);
    Ok(out)
}

proof fn lemma_decode_error_sticks(entries: Seq<(String, String)>, k: int)
    requires
        0 <= k <= entries.len(),
        decoded_entries(entries.take(k)) is Err,
    ensures
        decoded_entries(entries) == decoded_entries(entries.take(k)),
    decreases entries.len() - k,
{
    if k < entries.len() {
        let next = entries.take(k + 1);
        assert(next.drop_last() =~= entries.take(k));
        lemma_decode_error_sticks(entries, k + 1);
    } else {
        assert(entries.take(k) =~= entries);
    }
}

/// Manages the supporting resources of a namespace. The Kubernetes client
/// is the caller's.
#[derive(Debug, Clone)]
pub struct K8sResourceManager {
    pub namespace: String,
}

impl K8sResourceManager {
    pub fn new(namespace: &str) -> (r: Self)
        ensures
            r.namespace@ == namespace@,
    {
        K8sResourceManager { namespace: to_owned_string(namespace) }
    }

    /// The ConfigMap object of a spec, in its namespace (else the
    /// manager's); an error when a binary entry is not valid base64.
    pub fn config_map_object(&self, spec: &K8sConfigMapSpec) -> (r: Result<ConfigMapObject, String>)
        ensures
            match decoded_entries(spec.binary_data@) {
                Err(m) => r matches Err(e) && e@ == m,
                Ok(bin) => r matches Ok(o) && {
                    &&& o.name@ == spec.name@
                    &&& o.namespace@ == (match spec.namespace { Some(n) => n@, None => self.namespace@ })
                    &&& some_if_any(o.labels, text_entries(spec.labels@))
                    &&& some_if_any(o.annotations, text_entries(spec.annotations@))
                    &&& some_if_any(o.data, text_entries(spec.data@))
                    &&& (if bin.len() == 0 { o.binary_data is None } else {
                            o.binary_data matches Some(b) && byte_entries(b@) == bin
                        })
                },
            },
    {
        let binary = match decode_entries(&spec.binary_data) {
            Err(e) => return Err(e),
            Ok(b) => b,
        };
        let namespace = match &spec.namespace {
            Some(n) => n.clone(),
            None => self.namespace.clone(),
        };
        let binary_data = if binary.len() == 0 {
            assert(byte_entries(binary@).len() == 0);
            None
        } else {
            Some(binary)
        };
        Ok(ConfigMapObject {
            name: spec.name.clone(),
            namespace,
            labels: nonempty_pairs(&spec.labels),
            annotations: nonempty_pairs(&spec.annotations),
            data: nonempty_pairs(&spec.data),
            binary_data,
        })
    }

    /// The Secret object of a spec: the resolved values inserted in order,
    /// then the plain text entries (which win over resolved values of the
    /// same key).
    pub fn secret_object(&self, spec: &K8sSecretSpec, resolved: &Vec<(String, String)>) -> (r: SecretObject)
        ensures
            r.name@ == spec.name@,
            r.namespace@ == (match spec.namespace { Some(n) => n@, None => self.namespace@ }),
            some_if_any(r.labels, text_entries(spec.labels@)),
            some_if_any(r.annotations, text_entries(spec.annotations@)),
            r.secret_type@ == spec.secret_type@,
            some_if_any(r.string_data, text_extend(text_extend(seq![], text_entries(resolved@)), text_entries(spec.string_data@))),
    {
        let mut data: Vec<(String, String)> = Vec::new();
        assert(text_entries(data@) =~= seq![]);
        extend_text(&mut data, resolved);
        extend_text(&mut data, &spec.string_data);
        let namespace = match &spec.namespace {
            Some(n) => n.clone(),
            None => self.namespace.clone(),
        };
        SecretObject {
            name: spec.name.clone(),
            namespace,
            labels: nonempty_pairs(&spec.labels),
            annotations: nonempty_pairs(&spec.annotations),
            secret_type: spec.secret_type.clone(),
            string_data: nonempty_pairs(&data),
        }
    }

    /// The autoscaler object of a spec, in the given namespace (else the
    /// manager's): it scales the target deployment, with a CPU and a
    /// memory utilization target when set, and stabilization windows when
    /// either is set.
    pub fn hpa_object(&self, spec: &HpaConfig, namespace: Option<&str>) -> (r: HpaObject)
        ensures
            r.name@ == hpa_name_of(*spec),
            r.namespace@ == (match namespace { Some(n) => n@, None => self.namespace@ }),
            r.target_api_version@ == "apps/v1"@ && r.target_kind@ == "Deployment"@,
            r.target_name@ == spec.target_deployment@,
            r.min_replicas == spec.min_replicas && r.max_replicas == spec.max_replicas,
            match (spec.target_cpu_utilization, spec.target_memory_utilization) {
                (None, None) => r.metrics is None,
                (Some(c), None) => r.metrics matches Some(m) && m@.len() == 1
                    && m@[0].resource@ == "cpu"@ && m@[0].average_utilization == c,
                (None, Some(k)) => r.metrics matches Some(m) && m@.len() == 1
                    && m@[0].resource@ == "memory"@ && m@[0].average_utilization == k,
                (Some(c), Some(k)) => r.metrics matches Some(m) && m@.len() == 2
                    && m@[0].resource@ == "cpu"@ && m@[0].average_utilization == c
                    && m@[1].resource@ == "memory"@ && m@[1].average_utilization == k,
            },
            r.behavior == (if spec.scale_down_stabilization_secs is Some || spec.scale_up_stabilization_secs is Some {
                Some((spec.scale_down_stabilization_secs, spec.scale_up_stabilization_secs))
            } else {
                None
            }),
    {
        let mut metrics: Vec<UtilizationTarget> = Vec::new();
        if let Some(c) = spec.target_cpu_utilization {
            metrics.push(UtilizationTarget { resource: to_owned_string("cpu"), average_utilization: c });
        }
        if let Some(k) = spec.target_memory_utilization {
            metrics.push(UtilizationTarget { resource: to_owned_string("memory"), average_utilization: k });
        }
        let behavior = if spec.scale_down_stabilization_secs.is_some() || spec.scale_up_stabilization_secs.is_some() {
            Some((spec.scale_down_stabilization_secs, spec.scale_up_stabilization_secs))
        } else {
            None
        };
        HpaObject {
            name: spec.hpa_name(),
            namespace: match namespace {
                Some(n) => to_owned_string(n),
                None => self.namespace.clone(),
            },
            target_api_version: to_owned_string("apps/v1"),
            target_kind: to_owned_string("Deployment"),
            target_name: spec.target_deployment.clone(),
            min_replicas: spec.min_replicas,
            max_replicas: spec.max_replicas,
            metrics: if metrics.len() == 0 { None } else { Some(metrics) },
            behavior,
        }
    }
}

/// What applying raw manifests reports when it fails.
#[derive(Debug, Clone)]
pub enum ManifestError {
    NoFiles,
    ApplyFailed(String),
    DiffFailed(String),
}

/// The message of a raw manifest error.
pub open spec fn manifest_error_text(e: ManifestError) -> Seq<char> {
    match e {
        ManifestError::NoFiles => "No manifest files specified"@,
        ManifestError::ApplyFailed(s) => "kubectl apply failed: "@ + s@,
        ManifestError::DiffFailed(s) => "kubectl diff failed: "@ + s@,
    }
}

impl ManifestError {
    pub fn to_string(&self) -> (r: String)
        ensures
            r@ == manifest_error_text(*self),
    {
        match self {
            ManifestError::NoFiles => to_owned_string("No manifest files specified"),
            ManifestError::ApplyFailed(s) => {
                let mut m = to_owned_string("kubectl apply failed: ");
                push_str(&mut m, s.as_str());
                m
            },
            ManifestError::DiffFailed(s) => {
                let mut m = to_owned_string("kubectl diff failed: ");
                push_str(&mut m, s.as_str());
                m
            },
        }
    }
}

/// Applies manifests with kubectl in a namespace (and kube context).
#[derive(Debug, Clone)]
pub struct RawManifestApplier {
    pub namespace: String,
    pub context: Option<String>,
}

/// `-f file` for each file, each preceded by `-R` when recursive.
pub open spec fn file_args(files: Seq<Seq<char>>, recursive: bool) -> Seq<Seq<char>>
    decreases files.len(),
{
    if files.len() == 0 {
        seq![]
    } else {
        file_args(files.drop_last(), recursive)
            + (if recursive { seq!["-R"@] } else { seq![] })
            + seq!["-f"@, files.last()]
    }
}

/// `-n namespace`, then `--context c` when a context is set.
pub open spec fn scope_args(a: RawManifestApplier) -> Seq<Seq<char>> {
    seq!["-n"@, a.namespace@] + (match a.context { Some(c) => seq!["--context"@, c@], None => seq![] })
}

fn push_files(args: &mut Vec<String>, files: &Vec<String>, recursive: bool)
    ensures
        seq_views(final(args)@) == seq_views(old(args)@) + file_args(seq_views(files@), recursive),
{
    let ghost before = seq_views(args@);
    let mut i: usize = 0;
    while i < files.len()
        invariant
            i <= files@.len(),
            seq_views(args@) == before + file_args(seq_views(files@).take(i as int), recursive),
        decreases files.len() - i,
    {
        push_switch(args, "-R", recursive);
        push_flag(args, "-f", files[i].as_str());
        proof {
            let next = seq_views(files@).take(i + 1);
            assert(next.drop_last() =~= seq_views(files@).take(i as int));
            assert(next.last() == files@[i as int]@);
            assert(seq_views(args@) =~= before + file_args(next, recursive));
        }
        i = i + 1;
    }
    assert(seq_views(files@).take(files@.len() as int) =~= seq_views(files@));
}

impl RawManifestApplier {
    pub fn new(namespace: &str, context: Option<&str>) -> (r: Self)
        ensures
            r.namespace@ == namespace@,
            opt_view(r.context) == (match context { Some(c) => Some(c@), None => None }),
    {
        RawManifestApplier {
            namespace: to_owned_string(namespace),
            context: match context {
                Some(c) => Some(to_owned_string(c)),
                None => None,
            },
        }
    }

    fn push_scope(&self, args: &mut Vec<String>)
        ensures
            seq_views(final(args)@) == seq_views(old(args)@) + scope_args(*self),
    {
        let ghost before = seq_views(args@);
        push_flag(args, "-n", self.namespace.as_str());
        push_opt_flag(args, "--context", &self.context);
        assert(seq_views(args@) =~= before + scope_args(*self));
    }

    /// The `kubectl apply` arguments of manifest files: an error when there
    /// are none.
    pub fn apply_args(&self, config: &RawManifestConfig, dry_run: bool) -> (r: Result<Vec<String>, ManifestError>)
        ensures
            config.files@.len() == 0 ==> r matches Err(ManifestError::NoFiles),
            config.files@.len() > 0 ==> (r matches Ok(a) && seq_views(a@) == seq!["apply"@]
                + file_args(seq_views(config.files@), config.recursive) + scope_args(*self)
                + (if config.prune {
                    seq!["--prune"@] + (match config.prune_selector { Some(s) => seq!["-l"@, s@], None => seq![] })
                } else {
                    seq![]
                })
                + (if dry_run { seq!["--dry-run=client"@] } else { seq![] })),
    {
        if config.files.len() == 0 {
            return Err(ManifestError::NoFiles);
        }
        let mut a: Vec<String> = Vec::new();
        push_arg(&mut a, "apply");
        assert(seq_views(a@) =~= seq!["apply"@]);
        push_files(&mut a, &config.files, config.recursive);
        self.push_scope(&mut a);
        let ghost mid = seq_views(a@);
        if config.prune {
            push_arg(&mut a, "--prune");
            push_opt_flag(&mut a, "-l", &config.prune_selector);
            assert(seq_views(a@) =~= mid + (seq!["--prune"@]
                + (match config.prune_selector { Some(s) => seq!["-l"@, s@], None => seq![] })));
        } else {
            assert(seq_views(a@) =~= mid + Seq::<Seq<char>>::empty());
        }
        push_switch(&mut a, "--dry-run=client", dry_run);
        Ok(a)
    }

    /// The `kubectl apply -f -` arguments of rendered content.
    pub fn apply_content_args(&self, dry_run: bool) -> (r: Vec<String>)
        ensures
            seq_views(r@) == seq!["apply"@, "-f"@, "-"@] + scope_args(*self)
                + (if dry_run { seq!["--dry-run=client"@] } else { seq![] }),
    {
        let mut a: Vec<String> = Vec::new();
        push_arg(&mut a, "apply");
        push_arg(&mut a, "-f");
        push_arg(&mut a, "-");
        assert(seq_views(a@) =~= seq!["apply"@, "-f"@, "-"@]);
        self.push_scope(&mut a);
        push_switch(&mut a, "--dry-run=client", dry_run);
        a
    }

    /// The `kubectl diff` arguments of manifest files: an error when there
    /// are none.
    pub fn diff_args(&self, config: &RawManifestConfig) -> (r: Result<Vec<String>, ManifestError>)
        ensures
            config.files@.len() == 0 ==> r matches Err(ManifestError::NoFiles),
            config.files@.len() > 0 ==> (r matches Ok(a) && seq_views(a@) == seq!["diff"@]
                + file_args(seq_views(config.files@), config.recursive) + scope_args(*self)),
    {
        if config.files.len() == 0 {
            return Err(ManifestError::NoFiles);
        }
        let mut a: Vec<String> = Vec::new();
        push_arg(&mut a, "diff");
        assert(seq_views(a@) =~= seq!["diff"@]);
        push_files(&mut a, &config.files, config.recursive);
        self.push_scope(&mut a);
        Ok(a)
    }

    /// The result of `kubectl apply`: its output on success.
    pub fn apply_result(success: bool, stdout: String, stderr: &str) -> (r: Result<String, ManifestError>)
        ensures
            success ==> r == Ok::<String, ManifestError>(stdout),
            !success ==> (r matches Err(ManifestError::ApplyFailed(s)) && s@ == stderr@),
    {
        if success { Ok(stdout) } else { Err(ManifestError::ApplyFailed(to_owned_string(stderr))) }
    }

    /// The result of `kubectl diff`, which exits with 1 when there are
    /// differences: an error only when it wrote to standard error and
    /// exited otherwise than with success or 1.
    pub fn diff_result(success: bool, exit_code: Option<i32>, stdout: String, stderr: &str) -> (r: Result<String, ManifestError>)
        ensures
            (stderr@.len() > 0 && !success && exit_code != Some(1i32)) ==> (r matches Err(ManifestError::DiffFailed(s)) && s@ == stderr@),
            !(stderr@.len() > 0 && !success && exit_code != Some(1i32)) ==> r == Ok::<String, ManifestError>(stdout),
    {
        if !str_is_empty(stderr) && !success && exit_code != Some(1) {
            Err(ManifestError::DiffFailed(to_owned_string(stderr)))
        } else {
            Ok(stdout)
        }
    }
}

} // verus!
