//! Environment variables whose values come from inline text, the process
//! environment, AWS Secrets Manager or HashiCorp Vault; and the decisions
//! taken while resolving them.

use vstd::prelude::*;
use crate::keyed::{has_key, first_key_at};
use crate::text::{clone_opt_string, opt_view, push_str, to_owned_string};

verus! {

/// Source of an environment variable value.
#[derive(Debug, Clone, Copy, PartialEq, Eq, Structural)]
pub enum EnvVarSource {
    /// Static value defined inline.
    StaticValue,
    /// From an environment variable of the process.
    Environment,
    /// From AWS Secrets Manager.
    AwsSecretsManager,
    /// From HashiCorp Vault.
    Vault,
}

impl Default for EnvVarSource {
    fn default() -> (r: Self)
        ensures
            r == EnvVarSource::StaticValue,
    {
        EnvVarSource::StaticValue
    }
}

/// Configuration of a single environment variable.
#[derive(Debug, Clone)]
pub struct EnvVarConfig {
    pub source: EnvVarSource,
    /// Static value (source static_value).
    pub value: Option<String>,
    /// Secret ARN or key (source aws_secrets_manager or vault).
    pub arn: Option<String>,
    /// Secret key path (alternative to arn).
    pub key: Option<String>,
    /// Name of the process variable to read (source environment).
    pub env_var: Option<String>,
    /// Secret version.
    pub version: Option<String>,
    /// JSON field to extract from a structured secret.
    pub json_field: Option<String>,
}

impl EnvVarConfig {
    pub fn static_value(value: &str) -> (r: Self)
        ensures
            r.source == EnvVarSource::StaticValue,
            opt_view(r.value) == Some(value@),
            r.arn is None && r.key is None && r.env_var is None,
            r.version is None && r.json_field is None,
    {
        EnvVarConfig {
            source: EnvVarSource::StaticValue,
            value: Some(to_owned_string(value)),
            arn: None,
            key: None,
            env_var: None,
            version: None,
            json_field: None,
        }
    }

    pub fn from_env(env_var: &str) -> (r: Self)
        ensures
            r.source == EnvVarSource::Environment,
            opt_view(r.env_var) == Some(env_var@),
            r.value is None && r.arn is None && r.key is None,
            r.version is None && r.json_field is None,
    {
        EnvVarConfig {
            source: EnvVarSource::Environment,
            value: None,
            arn: None,
            key: None,
            env_var: Some(to_owned_string(env_var)),
            version: None,
            json_field: None,
        }
    }

    pub fn from_aws_secrets_manager(arn: &str) -> (r: Self)
        ensures
            r.source == EnvVarSource::AwsSecretsManager,
            opt_view(r.arn) == Some(arn@),
            r.value is None && r.key is None && r.env_var is None,
            r.version is None && r.json_field is None,
    {
        EnvVarConfig {
            source: EnvVarSource::AwsSecretsManager,
            value: None,
            arn: Some(to_owned_string(arn)),
            key: None,
            env_var: None,
            version: None,
            json_field: None,
        }
    }

    pub fn from_vault(key: &str) -> (r: Self)
        ensures
            r.source == EnvVarSource::Vault,
            opt_view(r.key) == Some(key@),
            r.value is None && r.arn is None && r.env_var is None,
            r.version is None && r.json_field is None,
    {
        EnvVarConfig {
            source: EnvVarSource::Vault,
            value: None,
            arn: None,
            key: Some(to_owned_string(key)),
            env_var: None,
            version: None,
            json_field: None,
        }
    }

    pub fn with_json_field(self, field: &str) -> (r: Self)
        ensures
            opt_view(r.json_field) == Some(field@),
            r.source == self.source && r.value == self.value && r.arn == self.arn,
            r.key == self.key && r.env_var == self.env_var && r.version == self.version,
    {
        EnvVarConfig { json_field: Some(to_owned_string(field)), ..self }
    }

    pub fn with_version(self, version: &str) -> (r: Self)
        ensures
            opt_view(r.version) == Some(version@),
            r.source == self.source && r.value == self.value && r.arn == self.arn,
            r.key == self.key && r.env_var == self.env_var && r.json_field == self.json_field,
    {
        EnvVarConfig { version: Some(to_owned_string(version)), ..self }
    }

    /// Copies the configuration, field by field.
    pub fn duplicate(&self) -> (r: Self)
        ensures
            env_var_config_same(r, *self),
    {
        EnvVarConfig {
            source: self.source,
            value: clone_opt_string(&self.value),
            arn: clone_opt_string(&self.arn),
            key: clone_opt_string(&self.key),
            env_var: clone_opt_string(&self.env_var),
            version: clone_opt_string(&self.version),
            json_field: clone_opt_string(&self.json_field),
        }
    }
}

/// Two configurations have the same source and the same texts.
pub open spec fn env_var_config_same(a: EnvVarConfig, b: EnvVarConfig) -> bool {
    &&& a.source == b.source
    &&& opt_view(a.value) == opt_view(b.value)
    &&& opt_view(a.arn) == opt_view(b.arn)
    &&& opt_view(a.key) == opt_view(b.key)
    &&& opt_view(a.env_var) == opt_view(b.env_var)
    &&& opt_view(a.version) == opt_view(b.version)
    &&& opt_view(a.json_field) == opt_view(b.json_field)
}

/// Converts simple `name: value` entries to static-value configurations,
/// keeping their order.
pub fn from_legacy_env(env: &Vec<(String, String)>) -> (r: Vec<(String, EnvVarConfig)>)
    ensures
        r@.len() == env@.len(),
        forall|i: int| 0 <= i < env@.len() ==> {
            &&& (#[trigger] r@[i]).0@ == env@[i].0@
            &&& r@[i].1.source == EnvVarSource::StaticValue
            &&& opt_view(r@[i].1.value) == Some(env@[i].1@)
            &&& r@[i].1.arn is None && r@[i].1.key is None && r@[i].1.env_var is None
            &&& r@[i].1.version is None && r@[i].1.json_field is None
        },
{
    let mut r: Vec<(String, EnvVarConfig)> = Vec::new();
    let mut i: usize = 0;
    while i < env.len()
        invariant
            i <= env@.len(),
            r@.len() == i,
            forall|k: int| 0 <= k < i ==> {
                &&& (#[trigger] r@[k]).0@ == env@[k].0@
                &&& r@[k].1.source == EnvVarSource::StaticValue
                &&& opt_view(r@[k].1.value) == Some(env@[k].1@)
                &&& r@[k].1.arn is None && r@[k].1.key is None && r@[k].1.env_var is None
                &&& r@[k].1.version is None && r@[k].1.json_field is None
            },
        decreases env.len() - i,
    {
        let name = env[i].0.clone();
        let cfg = EnvVarConfig::static_value(env[i].1.as_str());
        r.push((name, cfg));
        i = i + 1;
    }
    r
}

/// Where the value of a variable is to be fetched from.
#[derive(Debug, Clone)]
pub enum ResolutionRequest {
    /// The value is known.
    Value(String),
    /// Read this variable of the process environment.
    ProcessVariable(String),
    /// Fetch this secret from AWS Secrets Manager, in the given region.
    AwsSecret { secret_id: String, region: Option<String> },
    /// Fetch this key from Vault at the given address with the given token.
    VaultSecret { addr: String, token: String, key: String },
}

/// Why a variable cannot be resolved.
#[derive(Debug, Clone)]
pub enum EnvVarError {
    MissingStaticValue { name: String },
    ProcessVariableNotFound { name: String, variable: String },
    MissingSecretId { name: String },
    MissingVaultKey { name: String },
    VaultAddrNotSet { name: String },
    VaultTokenNotSet { name: String },
    SecretNotJson,
    JsonFieldNotFound { field: String },
}

pub open spec fn env_var_error_text(e: EnvVarError) -> Seq<char> {
    match e {
        EnvVarError::MissingStaticValue { name } =>
            "Environment variable '"@ + name@ + "' has static_value source but no value"@,
        EnvVarError::ProcessVariableNotFound { name, variable } =>
            "Environment variable '"@ + name@ + "' not found (looking for '"@ + variable@ + "')"@,
        EnvVarError::MissingSecretId { name } =>
            "Environment variable '"@ + name@ + "' has aws_secrets_manager source but no arn or key"@,
        EnvVarError::MissingVaultKey { name } =>
            "Environment variable '"@ + name@ + "' has vault source but no key"@,
        EnvVarError::VaultAddrNotSet { name } => "VAULT_ADDR not set for vault secret '"@ + name@ + "'"@,
        EnvVarError::VaultTokenNotSet { name } => "VAULT_TOKEN not set for vault secret '"@ + name@ + "'"@,
        EnvVarError::SecretNotJson => "Failed to parse secret as JSON"@,
        EnvVarError::JsonFieldNotFound { field } => "JSON field '"@ + field@ + "' not found in secret"@,
    }
}

impl EnvVarError {
    pub fn to_string(&self) -> (r: String)
        ensures
            r@ == env_var_error_text(*self),
    {
        match self {
            EnvVarError::MissingStaticValue { name } => {
                let mut s = to_owned_string("Environment variable '");
                push_str(&mut s, name.as_str());
                push_str(&mut s, "' has static_value source but no value");
                s
            },
            EnvVarError::ProcessVariableNotFound { name, variable } => {
                let mut s = to_owned_string("Environment variable '");
                push_str(&mut s, name.as_str());
                push_str(&mut s, "' not found (looking for '");
                push_str(&mut s, variable.as_str());
                push_str(&mut s, "')");
                s
            },
            EnvVarError::MissingSecretId { name } => {
                let mut s = to_owned_string("Environment variable '");
                push_str(&mut s, name.as_str());
                push_str(&mut s, "' has aws_secrets_manager source but no arn or key");
                s
            },
            EnvVarError::MissingVaultKey { name } => {
                let mut s = to_owned_string("Environment variable '");
                push_str(&mut s, name.as_str());
                push_str(&mut s, "' has vault source but no key");
                s
            },
            EnvVarError::VaultAddrNotSet { name } => {
                let mut s = to_owned_string("VAULT_ADDR not set for vault secret '");
                push_str(&mut s, name.as_str());
                push_str(&mut s, "'");
                s
            },
            EnvVarError::VaultTokenNotSet { name } => {
                let mut s = to_owned_string("VAULT_TOKEN not set for vault secret '");
                push_str(&mut s, name.as_str());
                push_str(&mut s, "'");
                s
            },
            EnvVarError::SecretNotJson => to_owned_string("Failed to parse secret as JSON"),
            EnvVarError::JsonFieldNotFound { field } => {
                let mut s = to_owned_string("JSON field '");
                push_str(&mut s, field.as_str());
                push_str(&mut s, "' not found in secret");
                s
            },
        }
    }
}

/// What `serde_json` finds at `field` of the JSON text `raw`: `None` when
/// `raw` is not JSON, `Some(None)` when the field is absent, otherwise the
/// field's text (a string as is, any other value in its JSON rendering).
pub uninterp spec fn json_field_text(raw: Seq<char>, field: Seq<char>) -> Option<Option<Seq<char>>>;

/// Parses `raw` with `serde_json` and reads `field` of the result.
/// Trusted: the result depends on `raw` and `field` alone and is named.
#[verifier::external_body]
fn read_json_field(raw: &str, field: &str) -> (r: Option<Option<String>>)
    ensures
        match (r, json_field_text(raw@, field@)) {
            (None, None) => true,
            (Some(None), Some(None)) => true,
            (Some(Some(s)), Some(Some(t))) => s@ == t,
            _ => false,
        },
{
    match serde_json::from_str::<serde_json::Value>(raw) {
        Err(_) => None,
        Ok(json) => Some(json.get(field).map(|v| match v.as_str() {
            Some(s) => s.to_string(),
            None => v.to_string(),
        })),
    }
}

/// Resolves environment variables: decides where each value comes from,
/// and extracts structured fields from fetched secrets.
#[derive(Debug, Clone)]
pub struct EnvVarResolver {
    pub aws_region: Option<String>,
    pub vault_addr: Option<String>,
    pub vault_token: Option<String>,
}

impl EnvVarResolver {
    /// A resolver with the given AWS region and Vault settings.
    pub fn from_settings(aws_region: Option<String>, vault_addr: Option<String>, vault_token: Option<String>) -> (r: Self)
        ensures
            r.aws_region == aws_region,
            r.vault_addr == vault_addr,
            r.vault_token == vault_token,
    {
        EnvVarResolver { aws_region, vault_addr, vault_token }
    }

    pub fn with_aws_region(self, region: &str) -> (r: Self)
        ensures
            opt_view(r.aws_region) == Some(region@),
            r.vault_addr == self.vault_addr,
            r.vault_token == self.vault_token,
    {
        EnvVarResolver { aws_region: Some(to_owned_string(region)), ..self }
    }

    pub fn with_vault(self, addr: &str, token: &str) -> (r: Self)
        ensures
            r.aws_region == self.aws_region,
            opt_view(r.vault_addr) == Some(addr@),
            opt_view(r.vault_token) == Some(token@),
    {
        EnvVarResolver {
            aws_region: self.aws_region,
            vault_addr: Some(to_owned_string(addr)),
            vault_token: Some(to_owned_string(token)),
        }
    }

    /// Decides where the value of variable `name` comes from.
    /// - a static value is the configured value (an error when unset);
    /// - an environment source reads the configured variable, or `name` itself;
    /// - AWS Secrets Manager fetches the ARN, or else the key (an error when
    ///   neither is set), in the resolver's region;
    /// - Vault fetches the key (an error when unset) with the resolver's
    ///   address and token (an error when either is unset).
    pub fn plan(&self, name: &str, config: &EnvVarConfig) -> (r: Result<ResolutionRequest, EnvVarError>)
        ensures
            match config.source {
                EnvVarSource::StaticValue => match config.value {
                    Some(v) => r matches Ok(ResolutionRequest::Value(x)) && x@ == v@,
                    None => r matches Err(EnvVarError::MissingStaticValue { name: n }) && n@ == name@,
                },
                EnvVarSource::Environment => r matches Ok(ResolutionRequest::ProcessVariable(x))
                    && x@ == (match config.env_var { Some(e) => e@, None => name@ }),
                EnvVarSource::AwsSecretsManager => match (config.arn, config.key) {
                    (None, None) => r matches Err(EnvVarError::MissingSecretId { name: n }) && n@ == name@,
                    _ => r matches Ok(ResolutionRequest::AwsSecret { secret_id, region })
                        && secret_id@ == (match config.arn { Some(a) => a@, None => config.key->0@ })
                        && opt_view(region) == opt_view(self.aws_region),
                },
                EnvVarSource::Vault => match (config.key, self.vault_addr, self.vault_token) {
                    (None, _, _) => r matches Err(EnvVarError::MissingVaultKey { name: n }) && n@ == name@,
                    (Some(_), None, _) => r matches Err(EnvVarError::VaultAddrNotSet { name: n }) && n@ == name@,
                    (Some(_), Some(_), None) => r matches Err(EnvVarError::VaultTokenNotSet { name: n }) && n@ == name@,
                    (Some(k), Some(a), Some(t)) => r matches Ok(ResolutionRequest::VaultSecret { addr, token, key })
                        && addr@ == a@ && token@ == t@ && key@ == k@,
                },
            },
    {
        match config.source {
            EnvVarSource::StaticValue => match &config.value {
                Some(v) => Ok(ResolutionRequest::Value(v.clone())),
                None => Err(EnvVarError::MissingStaticValue { name: to_owned_string(name) }),
            },
            EnvVarSource::Environment => match &config.env_var {
                Some(e) => Ok(ResolutionRequest::ProcessVariable(e.clone())),
                None => Ok(ResolutionRequest::ProcessVariable(to_owned_string(name))),
            },
            EnvVarSource::AwsSecretsManager => {
                let id = match &config.arn {
                    Some(a) => a.clone(),
                    None => match &config.key {
                        Some(k) => k.clone(),
                        None => {
                            return Err(EnvVarError::MissingSecretId { name: to_owned_string(name) });
                        },
                    },
                };
                Ok(ResolutionRequest::AwsSecret { secret_id: id, region: clone_opt_string(&self.aws_region) })
            },
            EnvVarSource::Vault => {
                let key = match &config.key {
                    Some(k) => k.clone(),
                    None => {
                        return Err(EnvVarError::MissingVaultKey { name: to_owned_string(name) });
                    },
                };
                let addr = match &self.vault_addr {
                    Some(a) => a.clone(),
                    None => {
                        return Err(EnvVarError::VaultAddrNotSet { name: to_owned_string(name) });
                    },
                };
                let token = match &self.vault_token {
                    Some(t) => t.clone(),
                    None => {
                        return Err(EnvVarError::VaultTokenNotSet { name: to_owned_string(name) });
                    },
                };
                Ok(ResolutionRequest::VaultSecret { addr, token, key })
            },
        }
    }

    /// The error reported when the process variable that a request reads
    /// is not set.
    pub fn variable_missing(&self, name: &str, variable: &str) -> (r: EnvVarError)
        ensures
            r matches EnvVarError::ProcessVariableNotFound { name: n, variable: v } && n@ == name@ && v@ == variable@,
    {
        EnvVarError::ProcessVariableNotFound { name: to_owned_string(name), variable: to_owned_string(variable) }
    }

    /// The value taken from a fetched secret: the secret itself, or, when a
    /// JSON field is configured, that field of the secret read as JSON.
    pub fn extract_value(&self, raw_value: &str, json_field: &Option<String>) -> (r: Result<String, EnvVarError>)
        ensures
            match json_field {
                None => r matches Ok(v) && v@ == raw_value@,
                Some(f) => match json_field_text(raw_value@, f@) {
                    None => r matches Err(EnvVarError::SecretNotJson),
                    Some(None) => r matches Err(EnvVarError::JsonFieldNotFound { field }) && field@ == f@,
                    Some(Some(t)) => r matches Ok(v) && v@ == t,
                },
            },
    {
        match json_field {
            None => Ok(to_owned_string(raw_value)),
            Some(f) => match read_json_field(raw_value, f.as_str()) {
                None => Err(EnvVarError::SecretNotJson),
                Some(None) => Err(EnvVarError::JsonFieldNotFound { field: f.clone() }),
                Some(Some(v)) => Ok(v),
            },
        }
    }
}

} // verus!
