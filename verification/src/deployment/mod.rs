pub mod checkpoint;
pub mod executor;
pub mod rolling;
pub mod strategy;

pub use checkpoint::{CheckpointConfig, DeploymentPhase, InterruptedError};
pub use executor::{ExecutionStep, HookExecutionConfig, StrategyFactory};
pub use rolling::{RollingUpdateConfig, RollingUpdateStrategy};
pub use strategy::{DeploymentResult, DeploymentStrategy, DeploymentType, StrategyConfig};
