//! The configuration model: infrastructures, environments, secrets,
//! metrics providers, and the global list of projects.

use vstd::prelude::*;
use crate::deployment::strategy::{parse_deployment_type, DeploymentType};
use crate::hooks::types::HooksConfig;
use crate::keyed::{distinct_keys, find_key, has_key};
use crate::text::{opt_view, seq_views, str_eq, to_owned_string};
use super::env_vars::{env_var_config_same, from_legacy_env, EnvVarConfig, EnvVarSource};

verus! {

/// A configuration value as read from YAML. Floating-point numbers are
/// kept by their IEEE-754 bit pattern; sequences, mappings and tagged
/// values, which the library does not look into, by their YAML text.
#[derive(Debug, Clone)]
pub enum ConfigValue {
    Null,
    Bool(bool),
    /// A non-negative integer.
    Unsigned(u64),
    /// A negative integer.
    Signed(i64),
    /// A floating-point number, by its bit pattern.
    Float(u64),
    Text(String),
    /// A sequence, mapping or tagged value, as YAML text.
    Structured(String),
}

impl ConfigValue {
    pub fn as_u64(&self) -> (r: Option<u64>)
        ensures
            r == match *self {
                ConfigValue::Unsigned(n) => Some(n),
                _ => None,
            },
    {
        match self {
            ConfigValue::Unsigned(n) => Some(*n),
            _ => None,
        }
    }

    pub fn as_bool(&self) -> (r: Option<bool>)
        ensures
            r == match *self {
                ConfigValue::Bool(b) => Some(b),
                _ => None,
            },
    {
        match self {
            ConfigValue::Bool(b) => Some(*b),
            _ => None,
        }
    }

    pub fn as_str(&self) -> (r: Option<&str>)
        ensures
            match *self {
                ConfigValue::Text(s) => r matches Some(t) && t@ == s@,
                _ => r is None,
            },
    {
        match self {
            ConfigValue::Text(s) => Some(s.as_str()),
            _ => None,
        }
    }
}

/// The text stored under `key`: `Some` when the first entry named `key`
/// holds text.
pub open spec fn config_text(entries: Seq<(String, ConfigValue)>, key: Seq<char>) -> Option<Seq<char>> {
    if exists|i: int| crate::keyed::first_key_at(entries, key, i) {
        let i = choose|i: int| crate::keyed::first_key_at(entries, key, i);
        match entries[i].1 {
            ConfigValue::Text(s) => Some(s@),
            _ => None,
        }
    } else {
        None
    }
}

/// The text stored under `key`, if it is text.
pub fn config_get_str<'a>(entries: &'a Vec<(String, ConfigValue)>, key: &str) -> (r: Option<&'a str>)
    ensures
        match r {
            Some(t) => config_text(entries@, key@) == Some(t@),
            None => config_text(entries@, key@) is None,
        },
{
    match find_key(entries, key) {
        Some(i) => {
            proof {
                let j = choose|j: int| crate::keyed::first_key_at(entries@, key@, j);
                crate::keyed::lemma_first_key_unique(entries@, key@, i as int, j);
            }
            entries[i].1.as_str()
        },
        None => None,
    }
}

/// A named infrastructure: its type and settings.
#[derive(Debug, Clone)]
pub struct InfrastructureConfig {
    pub infrastructure_type: String,
    pub config: Vec<(String, ConfigValue)>,
}

/// A deployment environment.
#[derive(Debug, Clone)]
pub struct EnvironmentConfig {
    /// Name of the infrastructure it deploys to.
    pub infrastructure: String,
    pub deployment_type: String,
    pub image: Option<String>,
    pub replicas: Option<u32>,
    pub resources: Option<ResourceConfig>,
    /// Simple `name: value` variables, by distinct name.
    pub env: Vec<(String, String)>,
    /// Variables with a value source, by distinct name.
    pub environment: Vec<(String, EnvVarConfig)>,
    pub hooks: Option<HooksConfig>,
    pub config: Vec<(String, ConfigValue)>,
}

/// The deployment type used when none is configured.
pub fn default_deployment_type() -> (r: String)
    ensures
        r@ == "rolling-update"@,
{
    to_owned_string("rolling-update")
}

/// The merged variables of an environment name `k` to a configuration
/// with the same source and texts as `c`.
pub open spec fn merged_var(env: EnvironmentConfig, k: Seq<char>, c: EnvVarConfig) -> bool {
    if has_key(env.environment@, k) {
        exists|i: int| 0 <= i < env.environment@.len() && env.environment@[i].0@ == k
            && env_var_config_same(c, env.environment@[i].1)
    } else {
        exists|i: int| 0 <= i < env.env@.len() && env.env@[i].0@ == k
            && c.source == EnvVarSource::StaticValue && opt_view(c.value) == Some(env.env@[i].1@)
            && c.arn is None && c.key is None && c.env_var is None && c.version is None
            && c.json_field is None
    }
}

/// Among the first `n` configured variables, one is named `k`.
pub open spec fn seen_key(env: EnvironmentConfig, n: int, k: Seq<char>) -> bool {
    exists|m: int| 0 <= m < n && m < env.environment@.len() && env.environment@[m].0@ == k
}

/// `c` is a static value taken from a simple variable named `k`.
pub open spec fn legacy_var(env: EnvironmentConfig, k: Seq<char>, c: EnvVarConfig) -> bool {
    exists|j: int| 0 <= j < env.env@.len() && env.env@[j].0@ == k
        && c.source == EnvVarSource::StaticValue && opt_view(c.value) == Some(env.env@[j].1@)
        && c.arn is None && c.key is None && c.env_var is None && c.version is None
        && c.json_field is None
}

/// `c` is the configuration of a variable named `k` among the first `n`
/// configured ones.
pub open spec fn configured_var(env: EnvironmentConfig, n: int, k: Seq<char>, c: EnvVarConfig) -> bool {
    exists|m: int| 0 <= m < n && m < env.environment@.len() && env.environment@[m].0@ == k
        && env_var_config_same(c, env.environment@[m].1)
}

/// After merging the first `n` configured variables, the entry for `k` holds `c`.
pub open spec fn merged_upto(env: EnvironmentConfig, n: int, k: Seq<char>, c: EnvVarConfig) -> bool {
    if seen_key(env, n, k) {
        configured_var(env, n, k, c)
    } else {
        legacy_var(env, k, c)
    }
}

impl EnvironmentConfig {
    pub fn get_deployment_type(&self) -> (r: Option<DeploymentType>)
        ensures
            r == parse_deployment_type(self.deployment_type@),
    {
        DeploymentType::from_str(self.deployment_type.as_str())
    }

    /// All variables of the environment: the simple ones as static values,
    /// with the configured ones taking precedence for the same name.
    pub fn get_all_env_vars(&self) -> (r: Vec<(String, EnvVarConfig)>)
        requires
            distinct_keys(self.env@),
            distinct_keys(self.environment@),
        ensures
            distinct_keys(r@),
            forall|k: Seq<char>| has_key(r@, k) <==> (has_key(self.env@, k) || has_key(self.environment@, k)),
            forall|i: int| 0 <= i < r@.len() ==> merged_var(*self, #[trigger] r@[i].0@, r@[i].1),
    {
        let mut r = from_legacy_env(&self.env);
        proof {
            assert forall|i: int, j: int| 0 <= i < j < r@.len() implies r@[i].0@ != r@[j].0@ by {
                assert(r@[i].0@ == self.env@[i].0@);
                assert(r@[j].0@ == self.env@[j].0@);
            }
            assert forall|k: Seq<char>| has_key(r@, k) <==> (has_key(self.env@, k) || seen_key(*self, 0, k)) by {
                if has_key(r@, k) {
                    let i = choose|i: int| 0 <= i < r@.len() && r@[i].0@ == k;
                    assert(self.env@[i].0@ == k);
                }
                if has_key(self.env@, k) {
                    let i = choose|i: int| 0 <= i < self.env@.len() && self.env@[i].0@ == k;
                    assert(r@[i].0@ == k);
                }
            }
            assert forall|i: int| 0 <= i < r@.len() implies merged_upto(*self, 0, #[trigger] r@[i].0@, r@[i].1) by {
                assert(self.env@[i].0@ == r@[i].0@);
                assert(!seen_key(*self, 0, r@[i].0@));
            }
        }
        let mut n: usize = 0;
        while n < self.environment.len()
            invariant
                n <= self.environment@.len(),
                distinct_keys(self.env@),
                distinct_keys(self.environment@),
                distinct_keys(r@),
                forall|k: Seq<char>| has_key(r@, k) <==> (has_key(self.env@, k) || seen_key(*self, n as int, k)),
                forall|i: int| 0 <= i < r@.len() ==> merged_upto(*self, n as int, #[trigger] r@[i].0@, r@[i].1),
            decreases self.environment.len() - n,
        {
            let key = self.environment[n].0.clone();
            let cfg = self.environment[n].1.duplicate();
            let ghost kv = key@;
            let ghost before = r@;
            proof {
                assert(self.environment@[n as int].0@ == kv);
                assert(!seen_key(*self, n as int, kv)) by {
                    if seen_key(*self, n as int, kv) {
                        let m = choose|m: int| 0 <= m < n && m < self.environment@.len() && self.environment@[m].0@ == kv;
                        assert(self.environment@[m].0@ != self.environment@[n as int].0@);
                    }
                }
                assert(configured_var(*self, n + 1, kv, cfg)) by {
                    assert(self.environment@[n as int].0@ == kv);
                }
                assert forall|k: Seq<char>, c: EnvVarConfig| k != kv && merged_upto(*self, n as int, k, c)
                    implies merged_upto(*self, n + 1, k, c) by {
                    if seen_key(*self, n + 1, k) {
                        let m = choose|m: int| 0 <= m < n + 1 && m < self.environment@.len() && self.environment@[m].0@ == k;
                        assert(m != n as int);
                        assert(seen_key(*self, n as int, k));
                        let w = choose|w: int| 0 <= w < n && w < self.environment@.len() && self.environment@[w].0@ == k
                            && env_var_config_same(c, self.environment@[w].1);
                        assert(configured_var(*self, n + 1, k, c));
                    } else {
                        assert(!seen_key(*self, n as int, k));
                    }
                }
            }
            match find_key(&r, key.as_str()) {
                Some(i) => {
                    r.set(i, (key, cfg));
                    proof {
                        assert forall|a: int, b: int| 0 <= a < b < r@.len() implies r@[a].0@ != r@[b].0@ by {
                            assert(before[a].0@ != before[b].0@);
                        }
                        assert forall|k: Seq<char>| has_key(r@, k) <==> (has_key(self.env@, k) || seen_key(*self, n + 1, k)) by {
                            if has_key(r@, k) {
                                let w = choose|w: int| 0 <= w < r@.len() && r@[w].0@ == k;
                                assert(before[w].0@ == k);
                                assert(has_key(before, k));
                                if k != kv {
                                    assert(seen_key(*self, n as int, k) ==> seen_key(*self, n + 1, k));
                                }
                            }
                            if k == kv {
                                assert(r@[i as int].0@ == k);
                                assert(seen_key(*self, n + 1, k));
                            } else if has_key(self.env@, k) || seen_key(*self, n + 1, k) {
                                if seen_key(*self, n + 1, k) {
                                    let m = choose|m: int| 0 <= m < n + 1 && m < self.environment@.len() && self.environment@[m].0@ == k;
                                    assert(m != n as int);
                                    assert(seen_key(*self, n as int, k));
                                }
                                assert(has_key(before, k));
                                let w = choose|w: int| 0 <= w < before.len() && before[w].0@ == k;
                                assert(r@[w].0@ == k);
                            }
                        }
                        assert forall|q: int| 0 <= q < r@.len() implies merged_upto(*self, n + 1, #[trigger] r@[q].0@, r@[q].1) by {
                            if q == i as int {
                                assert(seen_key(*self, n + 1, kv)) by {
                                    assert(self.environment@[n as int].0@ == kv);
                                }
                            } else {
                                assert(r@[q] == before[q]);
                                assert(before[q].0@ != kv);
                                assert(merged_upto(*self, n as int, before[q].0@, before[q].1));
                            }
                        }
                    }
                },
                None => {
                    r.push((key, cfg));
                    proof {
                        assert forall|a: int, b: int| 0 <= a < b < r@.len() implies r@[a].0@ != r@[b].0@ by {
                            if b == r@.len() - 1 {
                                assert(before[a].0@ != kv);
                            } else {
                                assert(before[a].0@ != before[b].0@);
                            }
                        }
                        assert forall|k: Seq<char>| has_key(r@, k) <==> (has_key(self.env@, k) || seen_key(*self, n + 1, k)) by {
                            if has_key(r@, k) {
                                let w = choose|w: int| 0 <= w < r@.len() && r@[w].0@ == k;
                                if w < before.len() {
                                    assert(before[w].0@ == k);
                                    assert(has_key(before, k));
                                    if k != kv {
                                        assert(seen_key(*self, n as int, k) ==> seen_key(*self, n + 1, k));
                                    }
                                } else {
                                    assert(k == kv);
                                    assert(self.environment@[n as int].0@ == kv);
                                }
                            }
                            if k == kv {
                                assert(r@[r@.len() - 1].0@ == k);
                            } else if has_key(self.env@, k) || seen_key(*self, n + 1, k) {
                                if seen_key(*self, n + 1, k) {
                                    let m = choose|m: int| 0 <= m < n + 1 && m < self.environment@.len() && self.environment@[m].0@ == k;
                                    assert(m != n as int);
                                    assert(seen_key(*self, n as int, k));
                                }
                                assert(has_key(before, k));
                                let w = choose|w: int| 0 <= w < before.len() && before[w].0@ == k;
                                assert(r@[w].0@ == k);
                            }
                        }
                        assert forall|q: int| 0 <= q < r@.len() implies merged_upto(*self, n + 1, #[trigger] r@[q].0@, r@[q].1) by {
                            if q == before.len() {
                                assert(seen_key(*self, n + 1, kv)) by {
                                    assert(self.environment@[n as int].0@ == kv);
                                }
                            } else {
                                assert(r@[q] == before[q]);
                                assert(before[q].0@ != kv);
                                assert(merged_upto(*self, n as int, before[q].0@, before[q].1));
                            }
                        }
                    }
                },
            }
            n = n + 1;
        }
        proof {
            assert forall|k: Seq<char>| has_key(self.environment@, k) <==> seen_key(*self, n as int, k) by {}
            assert forall|i: int| 0 <= i < r@.len() implies merged_var(*self, #[trigger] r@[i].0@, r@[i].1) by {
                let k = r@[i].0@;
                assert(merged_upto(*self, n as int, k, r@[i].1));
                if seen_key(*self, n as int, k) {
                    let m = choose|m: int| 0 <= m < n && m < self.environment@.len() && self.environment@[m].0@ == k
                        && env_var_config_same(r@[i].1, self.environment@[m].1);
                    assert(has_key(self.environment@, k));
                } else {
                    assert(!has_key(self.environment@, k));
                }
            }
        }
        r
    }
}

/// Compute resources of a deployment.
#[derive(Debug, Clone)]
pub struct ResourceConfig {
    pub cpu: Option<String>,
    pub memory: Option<String>,
    pub cpu_limit: Option<String>,
    pub memory_limit: Option<String>,
}

/// Secrets settings of a project.
#[derive(Debug, Clone)]
pub struct SecretsConfig {
    pub provider: SecretsProvider,
    /// Secret references, by distinct name.
    pub secrets: Vec<(String, SecretReference)>,
}

/// Where secrets are stored.
#[derive(Debug, Clone, Copy, PartialEq, Eq, Structural)]
pub enum SecretsProvider {
    Environment,
    AwsSecretsManager,
    HashicorpVault,
}

impl Default for SecretsProvider {
    fn default() -> (r: Self)
        ensures
            r == SecretsProvider::Environment,
    {
        SecretsProvider::Environment
    }
}

/// A reference to a secret.
#[derive(Debug, Clone)]
pub struct SecretReference {
    pub provider: Option<SecretsProvider>,
    pub key: String,
    pub version: Option<String>,
}

/// CloudWatch metrics settings.
#[derive(Debug, Clone)]
pub struct CloudWatchMetricsConfig {
    pub region: Option<String>,
    pub namespace: Option<String>,
    pub ecs_cluster: Option<String>,
    pub ecs_service: Option<String>,
    pub eks_cluster: Option<String>,
    pub lambda_function: Option<String>,
}

/// Prometheus metrics settings.
#[derive(Debug, Clone)]
pub struct PrometheusMetricsConfig {
    pub url: String,
    pub username: Option<String>,
    pub password: Option<SecretReference>,
    pub timeout_seconds: u32,
}

/// Default Prometheus query timeout, in seconds.
pub fn default_prometheus_timeout() -> (r: u32)
    ensures
        r == 30,
{
    30
}

/// The project configuration: infrastructures and environments, by
/// distinct name, and the secrets settings.
#[derive(Debug, Clone)]
pub struct Config {
    pub infrastructure: Vec<(String, InfrastructureConfig)>,
    pub environments: Vec<(String, EnvironmentConfig)>,
    pub secrets: Option<SecretsConfig>,
}

impl Config {
    /// The infrastructure named `name`, if any.
    pub fn get_infrastructure(&self, name: &str) -> (r: Option<&InfrastructureConfig>)
        ensures
            match r {
                Some(i) => crate::keyed::key_value(self.infrastructure@, name@) == Some(*i),
                None => crate::keyed::key_value(self.infrastructure@, name@) is None,
            },
    {
        crate::keyed::get_value(&self.infrastructure, name)
    }

    /// The environment named `name`, if any.
    pub fn get_environment(&self, name: &str) -> (r: Option<&EnvironmentConfig>)
        ensures
            match r {
                Some(e) => crate::keyed::key_value(self.environments@, name@) == Some(*e),
                None => crate::keyed::key_value(self.environments@, name@) is None,
            },
    {
        crate::keyed::get_value(&self.environments, name)
    }

    /// The names of the environments, in order.
    pub fn list_environments(&self) -> (r: Vec<String>)
        ensures
            seq_views(r@) == crate::keyed::entry_names(self.environments@),
    {
        names_of(&self.environments)
    }

    /// The names of the infrastructures, in order.
    pub fn list_infrastructures(&self) -> (r: Vec<String>)
        ensures
            seq_views(r@) == crate::keyed::entry_names(self.infrastructure@),
    {
        names_of(&self.infrastructure)
    }
}

fn names_of<V>(entries: &Vec<(String, V)>) -> (r: Vec<String>)
    ensures
        seq_views(r@) == crate::keyed::entry_names(entries@),
{
    let mut r: Vec<String> = Vec::new();
    let mut i: usize = 0;
    while i < entries.len()
        invariant
            i <= entries@.len(),
            r@.len() == i,
            forall|k: int| 0 <= k < i ==> #[trigger] r@[k]@ == entries@[k].0@,
        decreases entries.len() - i,
    {
        r.push(entries[i].0.clone());
        i = i + 1;
    }
    assert(seq_views(r@) =~= crate::keyed::entry_names(entries@));
    r
}

/// A project known to the tool.
#[derive(Debug, Clone)]
pub struct ProjectReference {
    pub path: String,
    pub name: Option<String>,
}

/// Defaults that apply to every project.
#[derive(Debug, Clone)]
pub struct GlobalDefaults {
    pub secrets_provider: Option<SecretsProvider>,
    pub deployment_type: Option<String>,
}

/// The settings shared by all projects.
#[derive(Debug, Clone)]
pub struct GlobalConfig {
    pub projects: Vec<ProjectReference>,
    pub defaults: Option<GlobalDefaults>,
}

/// The pieces of a path between slashes.
pub open spec fn path_pieces(s: Seq<char>) -> Seq<Seq<char>>
    decreases s.len(),
{
    if s.len() == 0 {
        seq![seq![]]
    } else {
        let p = path_pieces(s.drop_last());
        if s.last() == '/' {
            p.push(seq![])
        } else {
            p.update(p.len() - 1, p.last().push(s.last()))
        }
    }
}

/// A piece of a path that names something: neither empty nor ".".
pub open spec fn named_piece(piece: Seq<char>) -> bool {
    piece.len() > 0 && piece != seq!['.']
}

/// The last piece of a path that names something.
pub open spec fn last_named_piece(pieces: Seq<Seq<char>>) -> Option<Seq<char>>
    decreases pieces.len(),
{
    if pieces.len() == 0 {
        None
    } else if named_piece(pieces.last()) {
        Some(pieces.last())
    } else {
        last_named_piece(pieces.drop_last())
    }
}

/// The file name of a path (`Path::file_name`): its last component,
/// unless that is "..", or the path has none.
pub open spec fn path_file_name(path: Seq<char>) -> Option<Seq<char>> {
    match last_named_piece(path_pieces(path)) {
        Some(n) => if n == seq!['.', '.'] { None } else { Some(n) },
        None => None,
    }
}

proof fn lemma_path_pieces_nonempty(s: Seq<char>)
    ensures
        path_pieces(s).len() >= 1,
    decreases s.len(),
{
    if s.len() > 0 {
        lemma_path_pieces_nonempty(s.drop_last());
    }
}

fn is_named_piece(piece: &Vec<char>) -> (r: bool)
    ensures
        r == named_piece(piece@),
{
    if piece.len() == 0 {
        false
    } else if piece.len() == 1 && piece[0] == '.' {
        assert(piece@ =~= seq!['.']);
        false
    } else {
        if piece.len() == 1 {
            assert(piece@ != seq!['.']) by {
                assert(piece@[0] != seq!['.'][0]);
            }
        }
        true
    }
}

/// The file name of a path.
pub fn file_name(path: &str) -> (r: Option<String>)
    ensures
        opt_view(r) == path_file_name(path@),
{
    let v = crate::text::chars_of(path);
    let mut cur: Vec<char> = Vec::new();
    let mut last: Option<Vec<char>> = None;
    let mut i: usize = 0;
    proof { lemma_path_pieces_nonempty(path@.take(0)); }
    assert(path@.take(0) =~= Seq::<char>::empty());
    while i < v.len()
        invariant
            v@ == path@,
            i <= v@.len(),
            path_pieces(path@.take(i as int)).len() >= 1,
            cur@ == path_pieces(path@.take(i as int)).last(),
            match last {
                Some(l) => last_named_piece(path_pieces(path@.take(i as int)).drop_last()) == Some(l@),
                None => last_named_piece(path_pieces(path@.take(i as int)).drop_last()) is None,
            },
        decreases v.len() - i,
    {
        let ghost before = path_pieces(path@.take(i as int));
        proof {
            assert(path@.take(i + 1).drop_last() =~= path@.take(i as int));
            assert(path@.take(i + 1).last() == v@[i as int]);
        }
        if v[i] == '/' {
            if is_named_piece(&cur) {
                last = Some(cur);
            }
            cur = Vec::new();
            proof {
                let after = path_pieces(path@.take(i + 1));
                assert(after == before.push(seq![]));
                assert(after.drop_last() =~= before);
            }
        } else {
            cur.push(v[i]);
            proof {
                let after = path_pieces(path@.take(i + 1));
                assert(after == before.update(before.len() - 1, before.last().push(v@[i as int])));
                assert(after.drop_last() =~= before.drop_last());
                assert(cur@ =~= after.last());
            }
        }
        i = i + 1;
    }
    assert(path@.take(v@.len() as int) =~= path@);
    let found = if is_named_piece(&cur) { Some(cur) } else { last };
    match found {
        Some(n) => {
            if n.len() == 2 && n[0] == '.' && n[1] == '.' {
                assert(n@ =~= seq!['.', '.']);
                None
            } else {
                assert(n@ != seq!['.', '.']) by {
                    if n@.len() == 2 {
                        assert(n@[0] != '.' || n@[1] != '.');
                    }
                }
                Some(crate::text::string_of_chars(n.as_slice()))
            }
        },
        None => None,
    }
}

/// Whether a project reference is the project `name`: by its name, or by
/// the file name of its path.
pub open spec fn project_is(p: ProjectReference, name: Seq<char>) -> bool {
    opt_view(p.name) == Some(name) || path_file_name(p.path@) == Some(name)
}

impl GlobalConfig {
    /// The first project that is `name`.
    pub fn find_project(&self, name: &str) -> (r: Option<&ProjectReference>)
        ensures
            match r {
                Some(p) => exists|i: int| 0 <= i < self.projects@.len() && self.projects@[i] == *p
                    && project_is(*p, name@)
                    && forall|k: int| 0 <= k < i ==> !project_is(#[trigger] self.projects@[k], name@),
                None => forall|k: int| 0 <= k < self.projects@.len() ==> !project_is(#[trigger] self.projects@[k], name@),
            },
    {
        let mut i: usize = 0;
        while i < self.projects.len()
            invariant
                i <= self.projects@.len(),
                forall|k: int| 0 <= k < i ==> !project_is(#[trigger] self.projects@[k], name@),
            decreases self.projects.len() - i,
        {
            let p = &self.projects[i];
            let by_name = match &p.name {
                Some(n) => str_eq(n.as_str(), name),
                None => false,
            };
            let hit = by_name || match file_name(p.path.as_str()) {
                Some(f) => str_eq(f.as_str(), name),
                None => false,
            };
            if hit {
                assert(project_is(*p, name@));
                return Some(p);
            }
            i = i + 1;
        }
        None
    }
}

/// The name a project is shown by: its name, else the file name of its
/// path, else "unknown".
pub open spec fn project_display_name(p: ProjectReference) -> Seq<char> {
    match p.name {
        Some(n) => n@,
        None => match path_file_name(p.path@) {
            Some(f) => f,
            None => "unknown"@,
        },
    }
}

impl ProjectReference {
    pub fn display_name(&self) -> (r: String)
        ensures
            r@ == project_display_name(*self),
    {
        match &self.name {
            Some(n) => n.clone(),
            None => match file_name(self.path.as_str()) {
                Some(f) => f,
                None => to_owned_string("unknown"),
            },
        }
    }
}

} // verus!
