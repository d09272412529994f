//! Which provider serves an infrastructure. Building the providers and
//! keeping them by name is the caller's.

use vstd::prelude::*;
use crate::text::{push_str, to_owned_string};
use super::provider::{infrastructure_type_of, InfrastructureType};

verus! {

/// The provider that serves an infrastructure.
#[derive(Debug, Clone, Copy, PartialEq, Eq, Structural)]
pub enum ProviderKind {
    DockerCompose,
    Kubernetes,
    AwsEks,
    AwsEcs,
    AwsLambda,
}

/// Why no provider serves an infrastructure.
#[derive(Debug, Clone)]
pub enum FactoryError {
    KubernetesDisabled,
    EksDisabled,
    PluginRequired(String),
}

/// The message of a factory error.
pub open spec fn factory_error_text(e: FactoryError) -> Seq<char> {
    match e {
        FactoryError::KubernetesDisabled =>
            "Kubernetes support is not enabled. Rebuild with --features kubernetes to enable it."@,
        FactoryError::EksDisabled =>
            "AWS EKS support is not enabled. Rebuild with --features kubernetes to enable it."@,
        FactoryError::PluginRequired(t) =>
            "Custom infrastructure type '"@ + t@
                + "' requires a plugin. Check ~/.pmp-deploy/plugins/ for available plugins."@,
    }
}

impl FactoryError {
    pub fn to_string(&self) -> (r: String)
        ensures
            r@ == factory_error_text(*self),
    {
        match self {
            FactoryError::KubernetesDisabled => to_owned_string(
                "Kubernetes support is not enabled. Rebuild with --features kubernetes to enable it.",
            ),
            FactoryError::EksDisabled => to_owned_string(
                "AWS EKS support is not enabled. Rebuild with --features kubernetes to enable it.",
            ),
            FactoryError::PluginRequired(t) => {
                let mut m = to_owned_string("Custom infrastructure type '");
                push_str(&mut m, t.as_str());
                push_str(&mut m, "' requires a plugin. Check ~/.pmp-deploy/plugins/ for available plugins.");
                m
            },
        }
    }
}

/// The provider of an infrastructure type; the cluster providers only
/// when Kubernetes support is built in.
pub open spec fn provider_for(t: InfrastructureType, kubernetes_enabled: bool) -> Result<ProviderKind, FactoryError> {
    match t {
        InfrastructureType::DockerCompose => Ok(ProviderKind::DockerCompose),
        InfrastructureType::Kubernetes => if kubernetes_enabled {
            Ok(ProviderKind::Kubernetes)
        } else {
            Err(FactoryError::KubernetesDisabled)
        },
        InfrastructureType::AwsEks => if kubernetes_enabled {
            Ok(ProviderKind::AwsEks)
        } else {
            Err(FactoryError::EksDisabled)
        },
        InfrastructureType::AwsEcs => Ok(ProviderKind::AwsEcs),
        InfrastructureType::AwsLambda => Ok(ProviderKind::AwsLambda),
        InfrastructureType::Custom(name) => Err(FactoryError::PluginRequired(name)),
    }
}

/// Chooses the provider of each infrastructure.
#[derive(Debug, Clone, Copy)]
pub struct ProviderFactory;

impl ProviderFactory {
    /// The provider of an infrastructure type.
    pub fn provider_kind(infra_type: InfrastructureType, kubernetes_enabled: bool) -> (r: Result<ProviderKind, FactoryError>)
        ensures
            r == provider_for(infra_type, kubernetes_enabled),
    {
        match infra_type {
            InfrastructureType::DockerCompose => Ok(ProviderKind::DockerCompose),
            InfrastructureType::Kubernetes => if kubernetes_enabled {
                Ok(ProviderKind::Kubernetes)
            } else {
                Err(FactoryError::KubernetesDisabled)
            },
            InfrastructureType::AwsEks => if kubernetes_enabled {
                Ok(ProviderKind::AwsEks)
            } else {
                Err(FactoryError::EksDisabled)
            },
            InfrastructureType::AwsEcs => Ok(ProviderKind::AwsEcs),
            InfrastructureType::AwsLambda => Ok(ProviderKind::AwsLambda),
            InfrastructureType::Custom(name) => Err(FactoryError::PluginRequired(name)),
        }
    }

    /// The provider of an infrastructure named by its type text.
    pub fn provider_kind_of(type_text: &str, kubernetes_enabled: bool) -> (r: Result<ProviderKind, FactoryError>)
        ensures
            exists|t: InfrastructureType| infrastructure_type_of(t, type_text@) && r == provider_for(t, kubernetes_enabled),
    {
        let t = InfrastructureType::from_str(type_text);
        let ghost g = t;
        let r = Self::provider_kind(t, kubernetes_enabled);
        assert(infrastructure_type_of(g, type_text@) && r == provider_for(g, kubernetes_enabled));
        r
    }
}

} // verus!
