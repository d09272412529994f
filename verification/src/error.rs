//! Error types of the library, each with the message it is reported with.

use vstd::prelude::*;
use crate::text::{decimal, join_seqs, join_strings, push_str, seq_views, to_owned_string, u64_to_string};

verus! {

/// Configuration errors.
#[derive(Debug, Clone)]
pub enum ConfigError {
    NotFound { path: String },
    ParseError { path: String, message: String },
    ValidationError { errors: Vec<String> },
    MissingField { field: String, context: String },
    InvalidValue { field: String, value: String, expected: String },
    EnvironmentNotFound { name: String },
    InfrastructureNotFound { name: String },
    PermissionDenied { path: String },
}

pub open spec fn config_error_text(e: ConfigError) -> Seq<char> {
    match e {
        ConfigError::NotFound { path } => "Configuration file not found: "@ + path@,
        ConfigError::ParseError { path, message } => "Failed to parse "@ + path@ + ": "@ + message@,
        ConfigError::ValidationError { errors } =>
            "Validation failed:\n  - "@ + join_seqs(seq_views(errors@), "\n  - "@),
        ConfigError::MissingField { field, context } =>
            "Missing required field '"@ + field@ + "' in "@ + context@,
        ConfigError::InvalidValue { field, value, expected } =>
            "Invalid value '"@ + value@ + "' for '"@ + field@ + "'. Expected: "@ + expected@,
        ConfigError::EnvironmentNotFound { name } =>
            "Environment '"@ + name@ + "' not found. Use 'pmp-deploy list' to see available environments"@,
        ConfigError::InfrastructureNotFound { name } =>
            "Infrastructure '"@ + name@ + "' not found in configuration"@,
        ConfigError::PermissionDenied { path } =>
            "Permission denied reading config file: "@ + path@,
    }
}

impl ConfigError {
    pub fn to_string(&self) -> (r: String)
        ensures
            r@ == config_error_text(*self),
    {
        match self {
            ConfigError::NotFound { path } => {
                let mut s = to_owned_string("Configuration file not found: ");
                push_str(&mut s, path.as_str());
                s
            },
            ConfigError::ParseError { path, message } => {
                let mut s = to_owned_string("Failed to parse ");
                push_str(&mut s, path.as_str());
                push_str(&mut s, ": ");
                push_str(&mut s, message.as_str());
                s
            },
            ConfigError::ValidationError { errors } => {
                let mut s = to_owned_string("Validation failed:\n  - ");
                let j = join_strings(errors, "\n  - ");
                push_str(&mut s, j.as_str());
                s
            },
            ConfigError::MissingField { field, context } => {
                let mut s = to_owned_string("Missing required field '");
                push_str(&mut s, field.as_str());
                push_str(&mut s, "' in ");
                push_str(&mut s, context.as_str());
                s
            },
            ConfigError::InvalidValue { field, value, expected } => {
                let mut s = to_owned_string("Invalid value '");
                push_str(&mut s, value.as_str());
                push_str(&mut s, "' for '");
                push_str(&mut s, field.as_str());
                push_str(&mut s, "'. Expected: ");
                push_str(&mut s, expected.as_str());
                s
            },
            ConfigError::EnvironmentNotFound { name } => {
                let mut s = to_owned_string("Environment '");
                push_str(&mut s, name.as_str());
                push_str(&mut s, "' not found. Use 'pmp-deploy list' to see available environments");
                s
            },
            ConfigError::InfrastructureNotFound { name } => {
                let mut s = to_owned_string("Infrastructure '");
                push_str(&mut s, name.as_str());
                push_str(&mut s, "' not found in configuration");
                s
            },
            ConfigError::PermissionDenied { path } => {
                let mut s = to_owned_string("Permission denied reading config file: ");
                push_str(&mut s, path.as_str());
                s
            },
        }
    }
}

/// Infrastructure provider errors.
#[derive(Debug, Clone)]
pub enum InfrastructureError {
    ConnectionFailed { provider: String, message: String },
    AuthenticationFailed { provider: String, message: String },
    ResourceNotFound { resource_type: String, name: String },
    QuotaExceeded { resource: String, limit: String },
    Timeout { operation: String, duration_secs: u64 },
    ProviderError { provider: String, message: String },
    UnsupportedOperation { provider: String, operation: String },
}

pub open spec fn infrastructure_error_text(e: InfrastructureError) -> Seq<char> {
    match e {
        InfrastructureError::ConnectionFailed { provider, message } =>
            "Failed to connect to "@ + provider@ + ": "@ + message@,
        InfrastructureError::AuthenticationFailed { provider, message } =>
            "Authentication failed for "@ + provider@ + ": "@ + message@,
        InfrastructureError::ResourceNotFound { resource_type, name } =>
            resource_type@ + " '"@ + name@ + "' not found"@,
        InfrastructureError::QuotaExceeded { resource, limit } =>
            "Quota exceeded for "@ + resource@ + ": limit is "@ + limit@,
        InfrastructureError::Timeout { operation, duration_secs } =>
            "Operation '"@ + operation@ + "' timed out after "@ + decimal(duration_secs as nat) + "s"@,
        InfrastructureError::ProviderError { provider, message } =>
            provider@ + " error: "@ + message@,
        InfrastructureError::UnsupportedOperation { provider, operation } =>
            "Operation '"@ + operation@ + "' is not supported by "@ + provider@,
    }
}

impl InfrastructureError {
    pub fn to_string(&self) -> (r: String)
        ensures
            r@ == infrastructure_error_text(*self),
    {
        match self {
            InfrastructureError::ConnectionFailed { provider, message } => {
                let mut s = to_owned_string("Failed to connect to ");
                push_str(&mut s, provider.as_str());
                push_str(&mut s, ": ");
                push_str(&mut s, message.as_str());
                s
            },
            InfrastructureError::AuthenticationFailed { provider, message } => {
                let mut s = to_owned_string("Authentication failed for ");
                push_str(&mut s, provider.as_str());
                push_str(&mut s, ": ");
                push_str(&mut s, message.as_str());
                s
            },
            InfrastructureError::ResourceNotFound { resource_type, name } => {
                let mut s = resource_type.clone();
                push_str(&mut s, " '");
                push_str(&mut s, name.as_str());
                push_str(&mut s, "' not found");
                s
            },
            InfrastructureError::QuotaExceeded { resource, limit } => {
                let mut s = to_owned_string("Quota exceeded for ");
                push_str(&mut s, resource.as_str());
                push_str(&mut s, ": limit is ");
                push_str(&mut s, limit.as_str());
                s
            },
            InfrastructureError::Timeout { operation, duration_secs } => {
                let mut s = to_owned_string("Operation '");
                push_str(&mut s, operation.as_str());
                push_str(&mut s, "' timed out after ");
                let d = u64_to_string(*duration_secs);
                push_str(&mut s, d.as_str());
                push_str(&mut s, "s");
                s
            },
            InfrastructureError::ProviderError { provider, message } => {
                let mut s = provider.clone();
                push_str(&mut s, " error: ");
                push_str(&mut s, message.as_str());
                s
            },
            InfrastructureError::UnsupportedOperation { provider, operation } => {
                let mut s = to_owned_string("Operation '");
                push_str(&mut s, operation.as_str());
                push_str(&mut s, "' is not supported by ");
                push_str(&mut s, provider.as_str());
                s
            },
        }
    }
}

/// Deployment strategy errors.
#[derive(Debug, Clone)]
pub enum DeploymentError {
    StrategyFailed { strategy: String, message: String },
    HealthCheckFailed { environment: String, message: String },
    RollbackFailed { environment: String, message: String },
    ImageNotFound { image: String },
    ReplicasFailed { expected: u32, actual: u32 },
    Interrupted { environment: String, state: String },
    AlreadyInProgress { environment: String },
    HookFailed { hook_name: String, message: String },
}

pub open spec fn deployment_error_text(e: DeploymentError) -> Seq<char> {
    match e {
        DeploymentError::StrategyFailed { strategy, message } =>
            strategy@ + " deployment failed: "@ + message@,
        DeploymentError::HealthCheckFailed { environment, message } =>
            "Health check failed for '"@ + environment@ + "': "@ + message@,
        DeploymentError::RollbackFailed { environment, message } =>
            "Rollback failed for '"@ + environment@ + "': "@ + message@,
        DeploymentError::ImageNotFound { image } =>
            "Image '"@ + image@ + "' not found. Verify the image exists and you have access"@,
        DeploymentError::ReplicasFailed { expected, actual } =>
            "Expected "@ + decimal(expected as nat) + " replicas but only "@ + decimal(actual as nat) + " are healthy"@,
        DeploymentError::Interrupted { environment, state } =>
            "Deployment to '"@ + environment@ + "' was interrupted. State: "@ + state@,
        DeploymentError::AlreadyInProgress { environment } =>
            "A deployment to '"@ + environment@ + "' is already in progress"@,
        DeploymentError::HookFailed { hook_name, message } =>
            "Hook '"@ + hook_name@ + "' failed: "@ + message@,
    }
}

impl DeploymentError {
    pub fn to_string(&self) -> (r: String)
        ensures
            r@ == deployment_error_text(*self),
    {
        match self {
            DeploymentError::StrategyFailed { strategy, message } => {
                let mut s = strategy.clone();
                push_str(&mut s, " deployment failed: ");
                push_str(&mut s, message.as_str());
                s
            },
            DeploymentError::HealthCheckFailed { environment, message } => {
                let mut s = to_owned_string("Health check failed for '");
                push_str(&mut s, environment.as_str());
                push_str(&mut s, "': ");
                push_str(&mut s, message.as_str());
                s
            },
            DeploymentError::RollbackFailed { environment, message } => {
                let mut s = to_owned_string("Rollback failed for '");
                push_str(&mut s, environment.as_str());
                push_str(&mut s, "': ");
                push_str(&mut s, message.as_str());
                s
            },
            DeploymentError::ImageNotFound { image } => {
                let mut s = to_owned_string("Image '");
                push_str(&mut s, image.as_str());
                push_str(&mut s, "' not found. Verify the image exists and you have access");
                s
            },
            DeploymentError::ReplicasFailed { expected, actual } => {
                let mut s = to_owned_string("Expected ");
                let e = u64_to_string(*expected as u64);
                push_str(&mut s, e.as_str());
                push_str(&mut s, " replicas but only ");
                let a = u64_to_string(*actual as u64);
                push_str(&mut s, a.as_str());
                push_str(&mut s, " are healthy");
                s
            },
            DeploymentError::Interrupted { environment, state } => {
                let mut s = to_owned_string("Deployment to '");
                push_str(&mut s, environment.as_str());
                push_str(&mut s, "' was interrupted. State: ");
                push_str(&mut s, state.as_str());
                s
            },
            DeploymentError::AlreadyInProgress { environment } => {
                let mut s = to_owned_string("A deployment to '");
                push_str(&mut s, environment.as_str());
                push_str(&mut s, "' is already in progress");
                s
            },
            DeploymentError::HookFailed { hook_name, message } => {
                let mut s = to_owned_string("Hook '");
                push_str(&mut s, hook_name.as_str());
                push_str(&mut s, "' failed: ");
                push_str(&mut s, message.as_str());
                s
            },
        }
    }
}

/// Plugin system errors.
#[derive(Debug, Clone)]
pub enum PluginError {
    LoadFailed { path: String, message: String },
    VersionMismatch { expected: u32, actual: u32 },
    InitFailed { plugin: String, message: String },
    NotFound { infrastructure_type: String },
    AlreadyRegistered { infrastructure_type: String },
}

pub open spec fn plugin_error_text(e: PluginError) -> Seq<char> {
    match e {
        PluginError::LoadFailed { path, message } => "Failed to load plugin "@ + path@ + ": "@ + message@,
        PluginError::VersionMismatch { expected, actual } =>
            "Plugin API version mismatch: expected "@ + decimal(expected as nat) + ", got "@ + decimal(actual as nat),
        PluginError::InitFailed { plugin, message } =>
            "Plugin '"@ + plugin@ + "' initialization failed: "@ + message@,
        PluginError::NotFound { infrastructure_type } =>
            "No plugin found for infrastructure type '"@ + infrastructure_type@ + "'"@,
        PluginError::AlreadyRegistered { infrastructure_type } =>
            "Plugin for '"@ + infrastructure_type@ + "' is already registered"@,
    }
}

impl PluginError {
    pub fn to_string(&self) -> (r: String)
        ensures
            r@ == plugin_error_text(*self),
    {
        match self {
            PluginError::LoadFailed { path, message } => {
                let mut s = to_owned_string("Failed to load plugin ");
                push_str(&mut s, path.as_str());
                push_str(&mut s, ": ");
                push_str(&mut s, message.as_str());
                s
            },
            PluginError::VersionMismatch { expected, actual } => {
                let mut s = to_owned_string("Plugin API version mismatch: expected ");
                let e = u64_to_string(*expected as u64);
                push_str(&mut s, e.as_str());
                push_str(&mut s, ", got ");
                let a = u64_to_string(*actual as u64);
                push_str(&mut s, a.as_str());
                s
            },
            PluginError::InitFailed { plugin, message } => {
                let mut s = to_owned_string("Plugin '");
                push_str(&mut s, plugin.as_str());
                push_str(&mut s, "' initialization failed: ");
                push_str(&mut s, message.as_str());
                s
            },
            PluginError::NotFound { infrastructure_type } => {
                let mut s = to_owned_string("No plugin found for infrastructure type '");
                push_str(&mut s, infrastructure_type.as_str());
                push_str(&mut s, "'");
                s
            },
            PluginError::AlreadyRegistered { infrastructure_type } => {
                let mut s = to_owned_string("Plugin for '");
                push_str(&mut s, infrastructure_type.as_str());
                push_str(&mut s, "' is already registered");
                s
            },
        }
    }
}

/// Secrets management errors.
#[derive(Debug, Clone)]
pub enum SecretsError {
    ProviderNotFound { provider: String },
    SecretNotFound { key: String, provider: String },
    AccessDenied { key: String, message: String },
    DecryptionFailed { key: String },
    ConnectionFailed { provider: String, message: String },
}

pub open spec fn secrets_error_text(e: SecretsError) -> Seq<char> {
    match e {
        SecretsError::ProviderNotFound { provider } => "Secrets provider '"@ + provider@ + "' not found"@,
        SecretsError::SecretNotFound { key, provider } => "Secret '"@ + key@ + "' not found in "@ + provider@,
        SecretsError::AccessDenied { key, message } => "Access denied to secret '"@ + key@ + "': "@ + message@,
        SecretsError::DecryptionFailed { key } => "Failed to decrypt secret '"@ + key@ + "'"@,
        SecretsError::ConnectionFailed { provider, message } =>
            "Failed to connect to secrets provider '"@ + provider@ + "': "@ + message@,
    }
}

impl SecretsError {
    pub fn to_string(&self) -> (r: String)
        ensures
            r@ == secrets_error_text(*self),
    {
        match self {
            SecretsError::ProviderNotFound { provider } => {
                let mut s = to_owned_string("Secrets provider '");
                push_str(&mut s, provider.as_str());
                push_str(&mut s, "' not found");
                s
            },
            SecretsError::SecretNotFound { key, provider } => {
                let mut s = to_owned_string("Secret '");
                push_str(&mut s, key.as_str());
                push_str(&mut s, "' not found in ");
                push_str(&mut s, provider.as_str());
                s
            },
            SecretsError::AccessDenied { key, message } => {
                let mut s = to_owned_string("Access denied to secret '");
                push_str(&mut s, key.as_str());
                push_str(&mut s, "': ");
                push_str(&mut s, message.as_str());
                s
            },
            SecretsError::DecryptionFailed { key } => {
                let mut s = to_owned_string("Failed to decrypt secret '");
                push_str(&mut s, key.as_str());
                push_str(&mut s, "'");
                s
            },
            SecretsError::ConnectionFailed { provider, message } => {
                let mut s = to_owned_string("Failed to connect to secrets provider '");
                push_str(&mut s, provider.as_str());
                push_str(&mut s, "': ");
                push_str(&mut s, message.as_str());
                s
            },
        }
    }
}

/// File system errors.
#[derive(Debug, Clone)]
pub enum IoError {
    FileNotFound { path: String },
    ReadFailed { path: String, message: String },
    WriteFailed { path: String, message: String },
    PermissionDenied { path: String },
    DirectoryNotFound { path: String },
}

pub open spec fn io_error_text(e: IoError) -> Seq<char> {
    match e {
        IoError::FileNotFound { path } => "File not found: "@ + path@,
        IoError::ReadFailed { path, message } => "Failed to read "@ + path@ + ": "@ + message@,
        IoError::WriteFailed { path, message } => "Failed to write "@ + path@ + ": "@ + message@,
        IoError::PermissionDenied { path } => "Permission denied: "@ + path@,
        IoError::DirectoryNotFound { path } => "Directory not found: "@ + path@,
    }
}

impl IoError {
    pub fn to_string(&self) -> (r: String)
        ensures
            r@ == io_error_text(*self),
    {
        match self {
            IoError::FileNotFound { path } => {
                let mut s = to_owned_string("File not found: ");
                push_str(&mut s, path.as_str());
                s
            },
            IoError::ReadFailed { path, message } => {
                let mut s = to_owned_string("Failed to read ");
                push_str(&mut s, path.as_str());
                push_str(&mut s, ": ");
                push_str(&mut s, message.as_str());
                s
            },
            IoError::WriteFailed { path, message } => {
                let mut s = to_owned_string("Failed to write ");
                push_str(&mut s, path.as_str());
                push_str(&mut s, ": ");
                push_str(&mut s, message.as_str());
                s
            },
            IoError::PermissionDenied { path } => {
                let mut s = to_owned_string("Permission denied: ");
                push_str(&mut s, path.as_str());
                s
            },
            IoError::DirectoryNotFound { path } => {
                let mut s = to_owned_string("Directory not found: ");
                push_str(&mut s, path.as_str());
                s
            },
        }
    }
}

/// Network errors.
#[derive(Debug, Clone)]
pub enum NetworkError {
    ConnectionRefused { host: String, port: u16 },
    Timeout { host: String, duration_secs: u64 },
    DnsResolutionFailed { host: String },
    TlsError { host: String, message: String },
    HttpError { status: u16, message: String },
}

pub open spec fn network_error_text(e: NetworkError) -> Seq<char> {
    match e {
        NetworkError::ConnectionRefused { host, port } =>
            "Connection refused to "@ + host@ + ":"@ + decimal(port as nat),
        NetworkError::Timeout { host, duration_secs } =>
            "Connection to "@ + host@ + " timed out after "@ + decimal(duration_secs as nat) + "s"@,
        NetworkError::DnsResolutionFailed { host } => "Failed to resolve hostname: "@ + host@,
        NetworkError::TlsError { host, message } => "TLS error connecting to "@ + host@ + ": "@ + message@,
        NetworkError::HttpError { status, message } => "HTTP error "@ + decimal(status as nat) + ": "@ + message@,
    }
}

impl NetworkError {
    pub fn to_string(&self) -> (r: String)
        ensures
            r@ == network_error_text(*self),
    {
        match self {
            NetworkError::ConnectionRefused { host, port } => {
                let mut s = to_owned_string("Connection refused to ");
                push_str(&mut s, host.as_str());
                push_str(&mut s, ":");
                let p = u64_to_string(*port as u64);
                push_str(&mut s, p.as_str());
                s
            },
            NetworkError::Timeout { host, duration_secs } => {
                let mut s = to_owned_string("Connection to ");
                push_str(&mut s, host.as_str());
                push_str(&mut s, " timed out after ");
                let d = u64_to_string(*duration_secs);
                push_str(&mut s, d.as_str());
                push_str(&mut s, "s");
                s
            },
            NetworkError::DnsResolutionFailed { host } => {
                let mut s = to_owned_string("Failed to resolve hostname: ");
                push_str(&mut s, host.as_str());
                s
            },
            NetworkError::TlsError { host, message } => {
                let mut s = to_owned_string("TLS error connecting to ");
                push_str(&mut s, host.as_str());
                push_str(&mut s, ": ");
                push_str(&mut s, message.as_str());
                s
            },
            NetworkError::HttpError { status, message } => {
                let mut s = to_owned_string("HTTP error ");
                let st = u64_to_string(*status as u64);
                push_str(&mut s, st.as_str());
                push_str(&mut s, ": ");
                push_str(&mut s, message.as_str());
                s
            },
        }
    }
}

/// Authentication and authorization errors.
#[derive(Debug, Clone)]
pub enum AuthError {
    InvalidCredentials { provider: String },
    TokenExpired { provider: String },
    MissingCredentials { provider: String, required: Vec<String> },
    InsufficientPermissions { operation: String, required: String },
}

pub open spec fn auth_error_text(e: AuthError) -> Seq<char> {
    match e {
        AuthError::InvalidCredentials { provider } => "Invalid credentials for "@ + provider@,
        AuthError::TokenExpired { provider } =>
            "Authentication token expired for "@ + provider@ + ". Please re-authenticate"@,
        AuthError::MissingCredentials { provider, required } =>
            "Missing credentials for "@ + provider@ + ". Required: "@ + join_seqs(seq_views(required@), ", "@),
        AuthError::InsufficientPermissions { operation, required } =>
            "Insufficient permissions for '"@ + operation@ + "'. Required: "@ + required@,
    }
}

impl AuthError {
    pub fn to_string(&self) -> (r: String)
        ensures
            r@ == auth_error_text(*self),
    {
        match self {
            AuthError::InvalidCredentials { provider } => {
                let mut s = to_owned_string("Invalid credentials for ");
                push_str(&mut s, provider.as_str());
                s
            },
            AuthError::TokenExpired { provider } => {
                let mut s = to_owned_string("Authentication token expired for ");
                push_str(&mut s, provider.as_str());
                push_str(&mut s, ". Please re-authenticate");
                s
            },
            AuthError::MissingCredentials { provider, required } => {
                let mut s = to_owned_string("Missing credentials for ");
                push_str(&mut s, provider.as_str());
                push_str(&mut s, ". Required: ");
                let j = join_strings(required, ", ");
                push_str(&mut s, j.as_str());
                s
            },
            AuthError::InsufficientPermissions { operation, required } => {
                let mut s = to_owned_string("Insufficient permissions for '");
                push_str(&mut s, operation.as_str());
                push_str(&mut s, "'. Required: ");
                push_str(&mut s, required.as_str());
                s
            },
        }
    }
}

/// Errors of the library, by area.
#[derive(Debug, Clone)]
pub enum Error {
    Config(ConfigError),
    Infrastructure(InfrastructureError),
    Deployment(DeploymentError),
    Plugin(PluginError),
    Secrets(SecretsError),
    Io(IoError),
    Network(NetworkError),
    Auth(AuthError),
}

pub open spec fn error_text(e: Error) -> Seq<char> {
    match e {
        Error::Config(c) => "Configuration error: "@ + config_error_text(c),
        Error::Infrastructure(c) => "Infrastructure error: "@ + infrastructure_error_text(c),
        Error::Deployment(c) => "Deployment error: "@ + deployment_error_text(c),
        Error::Plugin(c) => "Plugin error: "@ + plugin_error_text(c),
        Error::Secrets(c) => "Secrets error: "@ + secrets_error_text(c),
        Error::Io(c) => "IO error: "@ + io_error_text(c),
        Error::Network(c) => "Network error: "@ + network_error_text(c),
        Error::Auth(c) => "Authentication error: "@ + auth_error_text(c),
    }
}

impl Error {
    pub fn to_string(&self) -> (r: String)
        ensures
            r@ == error_text(*self),
    {
        let (prefix, inner) = match self {
            Error::Config(c) => ("Configuration error: ", c.to_string()),
            Error::Infrastructure(c) => ("Infrastructure error: ", c.to_string()),
            Error::Deployment(c) => ("Deployment error: ", c.to_string()),
            Error::Plugin(c) => ("Plugin error: ", c.to_string()),
            Error::Secrets(c) => ("Secrets error: ", c.to_string()),
            Error::Io(c) => ("IO error: ", c.to_string()),
            Error::Network(c) => ("Network error: ", c.to_string()),
            Error::Auth(c) => ("Authentication error: ", c.to_string()),
        };
        let mut s = to_owned_string(prefix);
        push_str(&mut s, inner.as_str());
        s
    }

    /// The error a failed read is reported as.
    pub fn from_io_message(message: &str) -> (r: Error)
        ensures
            r matches Error::Io(IoError::ReadFailed { path, message: m })
                && path@ == "<unknown>"@ && m@ == message@,
    {
        Error::Io(IoError::ReadFailed { path: to_owned_string("<unknown>"), message: to_owned_string(message) })
    }
}

impl From<ConfigError> for Error {
    fn from(err: ConfigError) -> (r: Error) {
        Error::Config(err)
    }
}

impl vstd::std_specs::convert::FromSpecImpl<ConfigError> for Error {
    open spec fn obeys_from_spec() -> bool { true }

    open spec fn from_spec(err: ConfigError) -> Error {
        Error::Config(err)
    }
}

impl From<InfrastructureError> for Error {
    fn from(err: InfrastructureError) -> (r: Error) {
        Error::Infrastructure(err)
    }
}

impl vstd::std_specs::convert::FromSpecImpl<InfrastructureError> for Error {
    open spec fn obeys_from_spec() -> bool { true }

    open spec fn from_spec(err: InfrastructureError) -> Error {
        Error::Infrastructure(err)
    }
}

impl From<DeploymentError> for Error {
    fn from(err: DeploymentError) -> (r: Error) {
        Error::Deployment(err)
    }
}

impl vstd::std_specs::convert::FromSpecImpl<DeploymentError> for Error {
    open spec fn obeys_from_spec() -> bool { true }

    open spec fn from_spec(err: DeploymentError) -> Error {
        Error::Deployment(err)
    }
}

impl From<PluginError> for Error {
    fn from(err: PluginError) -> (r: Error) {
        Error::Plugin(err)
    }
}

impl vstd::std_specs::convert::FromSpecImpl<PluginError> for Error {
    open spec fn obeys_from_spec() -> bool { true }

    open spec fn from_spec(err: PluginError) -> Error {
        Error::Plugin(err)
    }
}

impl From<SecretsError> for Error {
    fn from(err: SecretsError) -> (r: Error) {
        Error::Secrets(err)
    }
}

impl vstd::std_specs::convert::FromSpecImpl<SecretsError> for Error {
    open spec fn obeys_from_spec() -> bool { true }

    open spec fn from_spec(err: SecretsError) -> Error {
        Error::Secrets(err)
    }
}

} // verus!
