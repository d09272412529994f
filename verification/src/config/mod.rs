pub mod env_vars;
pub mod loader;
pub mod schema;
pub mod validation;

pub use env_vars::{EnvVarConfig, EnvVarResolver, EnvVarSource};
pub use schema::{
    Config, ConfigValue, EnvironmentConfig, InfrastructureConfig, SecretReference, SecretsConfig,
    SecretsProvider,
};
