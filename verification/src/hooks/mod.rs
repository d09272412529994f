//! Pre- and post-deployment hooks: migrations, cache warming, smoke tests,
//! notifications, run as containers, HTTP calls, ECS tasks, Kubernetes Jobs
//! or Lambda invocations.

pub mod container;
pub mod ecs;
pub mod executor;
pub mod http;
pub mod k8s;
pub mod lambda;
pub mod types;

pub use container::ContainerHookExecutor;
pub use ecs::EcsTaskHookExecutor;
pub use http::HttpHookExecutor;
pub use k8s::K8sJobHookExecutor;
pub use lambda::LambdaHookExecutor;
pub use executor::{HookContext, HookExecutor, HookOutcome, HookResult, HookRunner};
pub use types::{
    ContainerHookConfig, EcsTaskHookConfig, HookConfig, HookTiming, HookType, HooksConfig,
    HttpHookConfig, K8sJobHookConfig, LambdaHookConfig,
};
