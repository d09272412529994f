//! AWS Lambda: the settings of the Lambda provider and the decisions it
//! takes around the AWS calls that the caller makes: which alias is used,
//! what provisioning plans, creates and updates, when an update has
//! settled, which version a rollback returns to, and what is reported.

use vstd::prelude::*;
use crate::config::schema::{config_get_str, config_text, ConfigValue, EnvironmentConfig, InfrastructureConfig};
use crate::keyed::{get_value, key_value};
use crate::text::{
    byte_prefix, byte_prefix_chars, clone_opt_string, decimal, opt_view, parse_i32, parsed_i32,
    push_str, seq_views, signed_decimal, i64_to_string, str_eq, to_owned_string, u64_to_string,
};
use super::provider::{DeployMode, DeploymentContext, InfrastructureType};
use crate::deployment::strategy::DeploymentType;
use crate::deployment::strategy::DeploymentResult;
use super::provisioning::{
    change_views, compute_lambda_diff, creation, modification, no_modification, LambdaCurrentState,
    LambdaProvisioningConfig, PlannedChange, ProvisioningAction, ProvisioningConfigError,
    ProvisioningPlan, ProvisioningResult,
};
use super::provisioning::lambda::{
    architecture_differs, description_differs, diff_needs_update, lambda_change_list,
    lambda_config_error, layers_differ, memory_differs, role_differs, storage_differs,
    timeout_differs, vpc_differs,
};

verus! {

/// What the Lambda provider reports when it cannot go on.
#[derive(Debug, Clone)]
pub enum LambdaError {
    FunctionNameRequired,
    RegionRequired,
    NoProvisioningConfig,
    InvalidProvisioning(ProvisioningConfigError),
    NoImage,
    NotActive { function_name: String, state: String },
    UpdateTimedOut(u64),
    UpdateFailed,
    FunctionMissing,
    RollbackNeedsAlias,
    AliasHasNoVersion,
    InvalidVersion,
    NoPreviousVersion,
}

/// The message of a Lambda provider error.
pub open spec fn lambda_error_text(e: LambdaError) -> Seq<char> {
    match e {
        LambdaError::FunctionNameRequired => "function_name is required for aws-lambda"@,
        LambdaError::RegionRequired => "region is required for aws-lambda"@,
        LambdaError::NoProvisioningConfig => "No provisioning configuration set"@,
        LambdaError::InvalidProvisioning(p) => super::provisioning::provisioning_error_text(p),
        LambdaError::NoImage => "No image URI specified for deployment"@,
        LambdaError::NotActive { function_name, state } =>
            "Lambda function "@ + function_name@ + " is not active (state: "@ + state@ + ")"@,
        LambdaError::UpdateTimedOut(t) => "Lambda update timed out after "@ + decimal(t as nat) + " seconds"@,
        LambdaError::UpdateFailed => "Lambda function update failed"@,
        LambdaError::FunctionMissing => "Function does not exist. Use create_function instead."@,
        LambdaError::RollbackNeedsAlias =>
            "Lambda rollback requires an alias. Direct $LATEST deployments cannot be rolled back."@,
        LambdaError::AliasHasNoVersion => "Alias has no function version"@,
        LambdaError::InvalidVersion => "Invalid version number"@,
        LambdaError::NoPreviousVersion => "No previous version to rollback to"@,
    }
}

impl LambdaError {
    pub fn to_string(&self) -> (r: String)
        ensures
            r@ == lambda_error_text(*self),
    {
        match self {
            LambdaError::FunctionNameRequired => to_owned_string("function_name is required for aws-lambda"),
            LambdaError::RegionRequired => to_owned_string("region is required for aws-lambda"),
            LambdaError::NoProvisioningConfig => to_owned_string("No provisioning configuration set"),
            LambdaError::InvalidProvisioning(p) => p.to_string(),
            LambdaError::NoImage => to_owned_string("No image URI specified for deployment"),
            LambdaError::NotActive { function_name, state } => {
                let mut m = to_owned_string("Lambda function ");
                push_str(&mut m, function_name.as_str());
                push_str(&mut m, " is not active (state: ");
                push_str(&mut m, state.as_str());
                push_str(&mut m, ")");
                m
            },
            LambdaError::UpdateTimedOut(t) => {
                let mut m = to_owned_string("Lambda update timed out after ");
                let s = u64_to_string(*t);
                push_str(&mut m, s.as_str());
                push_str(&mut m, " seconds");
                m
            },
            LambdaError::UpdateFailed => to_owned_string("Lambda function update failed"),
            LambdaError::FunctionMissing => to_owned_string("Function does not exist. Use create_function instead."),
            LambdaError::RollbackNeedsAlias => to_owned_string(
                "Lambda rollback requires an alias. Direct $LATEST deployments cannot be rolled back.",
            ),
            LambdaError::AliasHasNoVersion => to_owned_string("Alias has no function version"),
            LambdaError::InvalidVersion => to_owned_string("Invalid version number"),
            LambdaError::NoPreviousVersion => to_owned_string("No previous version to rollback to"),
        }
    }
}

/// The provisioned and reserved concurrency a deployment sets: none in
/// app-only mode; else the environment's `provisioned_concurrency` when,
/// read as a 32-bit integer, it is positive, and its `reserved_concurrency`
/// when it is not negative.
pub open spec fn deploy_concurrency(env: EnvironmentConfig, app_only: bool) -> (Option<i32>, Option<i32>) {
    if app_only {
        (None, None)
    } else {
        (
            match key_value(env.config@, "provisioned_concurrency"@) {
                Some(ConfigValue::Unsigned(n)) => if (n as i32) > 0 { Some(n as i32) } else { None },
                _ => None,
            },
            match key_value(env.config@, "reserved_concurrency"@) {
                Some(ConfigValue::Unsigned(n)) => if (n as i32) >= 0 { Some(n as i32) } else { None },
                _ => None,
            },
        )
    }
}

/// One step of a Lambda deployment.
#[derive(Debug, Clone, Copy, PartialEq, Eq, Structural)]
pub enum LambdaDeployStep {
    /// Point the function's code at the plan's image.
    UpdateImage,
    /// Wait until the function's update is done, for at most the plan's timeout.
    WaitForUpdate,
    /// Resolve the environment's variables and, when there are any, set
    /// them on the function and wait again.
    UpdateEnvironment,
    /// Publish a version with the plan's description.
    PublishVersion,
    /// Point the plan's alias at the version just published.
    UpdateAlias,
    /// Set this provisioned concurrency on the deployed version.
    ProvisionedConcurrency(i32),
    /// Set this reserved concurrency on the function.
    ReservedConcurrency(i32),
}

/// What a deployment does, in order.
#[derive(Debug, Clone)]
pub struct LambdaDeployPlan {
    pub image: String,
    pub alias: Option<String>,
    pub version_description: String,
    pub timeout_secs: u64,
    pub steps: Vec<LambdaDeployStep>,
}

/// The steps of a deployment: the image, a wait, the environment; then,
/// with an alias, a new version and the alias moved to it; then the
/// concurrency settings.
pub open spec fn lambda_deploy_steps(has_alias: bool, concurrency: (Option<i32>, Option<i32>)) -> Seq<LambdaDeployStep> {
    seq![LambdaDeployStep::UpdateImage, LambdaDeployStep::WaitForUpdate, LambdaDeployStep::UpdateEnvironment]
        + (if has_alias { seq![LambdaDeployStep::PublishVersion, LambdaDeployStep::UpdateAlias] } else { seq![] })
        + (match concurrency.0 { Some(n) => seq![LambdaDeployStep::ProvisionedConcurrency(n)], None => seq![] })
        + (match concurrency.1 { Some(n) => seq![LambdaDeployStep::ReservedConcurrency(n)], None => seq![] })
}

/// The settings of the Lambda provider. The AWS client is the caller's.
#[derive(Debug, Clone)]
pub struct AwsLambdaProvider {
    pub function_name: String,
    pub region: String,
    pub alias: Option<String>,
    pub provisioning_config: Option<LambdaProvisioningConfig>,
}

/// The architecture a function is created for.
#[derive(Debug, Clone, Copy, PartialEq, Eq, Structural)]
pub enum LambdaArchitecture {
    X86_64,
    Arm64,
}

/// How calls are traced.
#[derive(Debug, Clone, Copy, PartialEq, Eq, Structural)]
pub enum LambdaTracing {
    Active,
    PassThrough,
}

/// The decisions of creating a function; the remaining settings are
/// passed on from the provisioning configuration as they are.
#[derive(Debug, Clone)]
pub struct LambdaCreation {
    pub architecture: LambdaArchitecture,
    /// Whether the code is a container image (any package type but "Zip").
    pub image_package: bool,
    /// Image of the code, for image packages.
    pub image_uri: Option<String>,
    /// Runtime and handler, for Zip packages.
    pub runtime: Option<String>,
    pub handler: Option<String>,
    /// Ephemeral storage, set when it differs from 512 MB.
    pub ephemeral_storage_mb: Option<i32>,
    pub tracing: Option<LambdaTracing>,
}

/// The state a function update reached.
#[derive(Debug, Clone, Copy, PartialEq, Eq, Structural)]
pub enum UpdateProgress {
    Done,
    Waiting,
}

/// What is observed of a function, as the status report shows it.
#[derive(Debug, Clone)]
pub struct LambdaFunctionObservation {
    pub name: String,
    pub runtime: Option<String>,
    pub state: Option<String>,
    pub version: Option<String>,
    pub code_sha256: Option<String>,
    pub memory_size: Option<i32>,
    pub timeout: Option<i32>,
}

/// The alias a deployment uses: the provider's, else the environment's
/// `alias` text.
pub open spec fn lambda_alias(p: AwsLambdaProvider, env: EnvironmentConfig) -> Option<Seq<char>> {
    match p.alias {
        Some(a) => Some(a@),
        None => config_text(env.config@, "alias"@),
    }
}

/// The provisioning plan of a function: create it when missing; otherwise
/// one update per reported field change, the VPC and layer changes, and
/// "no change" when nothing is to be updated in place and the architecture
/// is unchanged.
pub open spec fn lambda_plan(name: Seq<char>, cur: LambdaCurrentState, des: LambdaProvisioningConfig) -> Seq<super::provisioning::PlannedChangeView> {
    if !cur.exists {
        seq![creation("Lambda Function"@, name, "Function does not exist"@)]
    } else {
        lambda_change_list(cur, des).map_values(|t: (Seq<char>, Seq<char>, Seq<char>)|
            modification("Lambda Function"@, name, t.1, t.2, t.0 + " will be changed"@))
        + (if vpc_differs(cur, des) {
            seq![modification("Lambda VPC Config"@, name, "current"@, "desired"@, "VPC configuration will be changed"@)]
        } else {
            seq![]
        })
        + (if layers_differ(cur, des) {
            seq![modification(
                "Lambda Layers"@,
                name,
                decimal(cur.layers@.len()) + " layers"@,
                decimal(des.layers@.len()) + " layers"@,
                "Layers will be changed"@,
            )]
        } else {
            seq![]
        })
        + (if !(memory_differs(cur, des) || timeout_differs(cur, des) || role_differs(cur, des)
            || description_differs(cur, des) || vpc_differs(cur, des) || layers_differ(cur, des)
            || storage_differs(cur, des)) && !architecture_differs(cur, des) {
            seq![no_modification("Lambda Function"@, name)]
        } else {
            seq![]
        })
    }
}

/// The status report of a function: note that the lines are separated
/// by a backslash and `n`, as the report has always been printed.
pub open spec fn lambda_status_text(region: Seq<char>, info: LambdaFunctionObservation, alias: Option<(Seq<char>, Seq<char>)>) -> Seq<char> {
    "Lambda Function: "@ + info.name@ + "\\nRegion: "@ + region
        + "\\nState: "@ + (match info.state { Some(s) => s@, None => "Unknown"@ })
        + "\\nRuntime: "@ + (match info.runtime { Some(s) => s@, None => "N/A"@ })
        + "\\nMemory: "@ + signed_decimal((match info.memory_size { Some(m) => m, None => 0i32 }) as int) + " MB"@
        + "\\nTimeout: "@ + signed_decimal((match info.timeout { Some(t) => t, None => 0i32 }) as int) + " seconds"@
        + "\\nVersion: "@ + (match info.version { Some(v) => v@, None => "$LATEST"@ })
        + "\\nCode SHA256: "@ + (match info.code_sha256 { Some(s) => byte_prefix_chars(s@, 12), None => "N/A"@ })
        + (match alias {
            Some((name, version)) => "\\nAlias: "@ + name + " -> version "@ + version,
            None => seq![],
        })
}

fn i32_text(n: i32) -> (r: String)
    ensures
        r@ == signed_decimal(n as int),
{
    i64_to_string(n as i64)
}

fn push_usize(s: &mut String, n: usize)
    ensures
        final(s)@ == old(s)@ + decimal(n as nat),
{
    let t = u64_to_string(n as u64);
    push_str(s, t.as_str());
}

impl AwsLambdaProvider {
    pub fn infrastructure_type(&self) -> (r: InfrastructureType)
        ensures
            r == InfrastructureType::AwsLambda,
    {
        InfrastructureType::AwsLambda
    }

    /// The deployment types the provider supports.
    pub fn supported_deployment_types(&self) -> (r: Vec<DeploymentType>)
        ensures
            r@ == seq![DeploymentType::AllIn],
    {
        let mut v: Vec<DeploymentType> = Vec::new();
        v.push(DeploymentType::AllIn);
        assert(v@ =~= seq![DeploymentType::AllIn]);
        v
    }

    pub fn new(function_name: &str, region: &str) -> (r: Self)
        ensures
            r.function_name@ == function_name@ && r.region@ == region@,
            r.alias is None && r.provisioning_config is None,
    {
        AwsLambdaProvider {
            function_name: to_owned_string(function_name),
            region: to_owned_string(region),
            alias: None,
            provisioning_config: None,
        }
    }

    pub fn with_alias(self, alias: &str) -> (r: Self)
        ensures
            opt_view(r.alias) == Some(alias@),
            r.function_name == self.function_name && r.region == self.region,
            r.provisioning_config == self.provisioning_config,
    {
        AwsLambdaProvider { alias: Some(to_owned_string(alias)), ..self }
    }

    pub fn with_provisioning(self, config: LambdaProvisioningConfig) -> (r: Self)
        ensures
            r.provisioning_config == Some(config),
            r.function_name == self.function_name && r.region == self.region && r.alias == self.alias,
    {
        AwsLambdaProvider { provisioning_config: Some(config), ..self }
    }

    /// The provider an infrastructure describes by its `function_name`,
    /// `region` and optional `alias` texts. The provisioning settings are
    /// read by the caller.
    pub fn from_settings(config: &InfrastructureConfig) -> (r: Result<Self, LambdaError>)
        ensures
            match r {
                Ok(p) => config_text(config.config@, "function_name"@) == Some(p.function_name@)
                    && config_text(config.config@, "region"@) == Some(p.region@)
                    && opt_view(p.alias) == config_text(config.config@, "alias"@)
                    && p.provisioning_config is None,
                Err(LambdaError::FunctionNameRequired) => config_text(config.config@, "function_name"@) is None,
                Err(LambdaError::RegionRequired) => config_text(config.config@, "function_name"@) is Some
                    && config_text(config.config@, "region"@) is None,
                Err(_) => false,
            },
    {
        let name = match config_get_str(&config.config, "function_name") {
            Some(n) => n,
            None => return Err(LambdaError::FunctionNameRequired),
        };
        let region = match config_get_str(&config.config, "region") {
            Some(r) => r,
            None => return Err(LambdaError::RegionRequired),
        };
        let p = Self::new(name, region);
        match config_get_str(&config.config, "alias") {
            Some(a) => Ok(p.with_alias(a)),
            None => Ok(p),
        }
    }

    /// The alias a deployment uses.
    pub fn get_alias_or_default(&self, ctx: &DeploymentContext) -> (r: Option<String>)
        ensures
            opt_view(r) == lambda_alias(*self, ctx.environment),
    {
        match &self.alias {
            Some(a) => Some(a.clone()),
            None => match config_get_str(&ctx.environment.config, "alias") {
                Some(t) => Some(to_owned_string(t)),
                None => None,
            },
        }
    }

    /// The provisioning plan of the function given its current state: an
    /// error when no provisioning is configured or its settings break a rule.
    pub fn plan_provisioning(&self, current: &LambdaCurrentState) -> (r: Result<ProvisioningPlan, LambdaError>)
        ensures
            match self.provisioning_config {
                None => r matches Err(LambdaError::NoProvisioningConfig),
                Some(c) => match lambda_config_error(c) {
                    Some(e) => r matches Err(LambdaError::InvalidProvisioning(x)) && x == e,
                    None => r matches Ok(plan)
                        && change_views(plan.changes@) == lambda_plan(self.function_name@, *current, c),
                },
            },
    {
        let config = match &self.provisioning_config {
            None => return Err(LambdaError::NoProvisioningConfig),
            Some(c) => c,
        };
        match config.validate() {
            Err(e) => return Err(LambdaError::InvalidProvisioning(e)),
            Ok(()) => {},
        }
        let diff = compute_lambda_diff(current, config);
        let name = self.function_name.as_str();
        let mut plan = ProvisioningPlan::new();
        if diff.needs_create {
            plan.add(PlannedChange::create("Lambda Function", name, "Function does not exist"));
            assert(change_views(plan.changes@) =~= lambda_plan(self.function_name@, *current, *config));
            return Ok(plan);
        }
        let ghost listed = lambda_change_list(*current, *config).map_values(|t: (Seq<char>, Seq<char>, Seq<char>)|
            modification("Lambda Function"@, self.function_name@, t.1, t.2, t.0 + " will be changed"@));
        let mut i: usize = 0;
        while i < diff.changes.len()
            invariant
                i <= diff.changes@.len(),
                super::provisioning::lambda::change_views(diff.changes@) == lambda_change_list(*current, *config),
                name@ == self.function_name@,
                change_views(plan.changes@) == listed.take(i as int),
                listed == lambda_change_list(*current, *config).map_values(|t: (Seq<char>, Seq<char>, Seq<char>)|
                    modification("Lambda Function"@, self.function_name@, t.1, t.2, t.0 + " will be changed"@)),
                listed.len() == diff.changes@.len(),
            decreases diff.changes.len() - i,
        {
            let (field, from, to) = &diff.changes[i];
            let mut reason = field.clone();
            push_str(&mut reason, " will be changed");
            let ghost before = plan.changes@;
            plan.add(PlannedChange::update("Lambda Function", name, from.as_str(), to.as_str(), reason.as_str()));
            proof {
                assert(super::provisioning::lambda::change_views(diff.changes@)[i as int] == (field@, from@, to@));
                assert(lambda_change_list(*current, *config)[i as int] == (field@, from@, to@));
                let want = modification("Lambda Function"@, self.function_name@, from@, to@, field@ + " will be changed"@);
                assert(listed[i as int] == want);
                assert(plan.changes@.last()@ == want);
                assert(change_views(plan.changes@) =~= change_views(before).push(plan.changes@.last()@));
                assert(listed.take(i + 1) =~= listed.take(i as int).push(want));
                assert(change_views(plan.changes@) =~= listed.take(i + 1));
            }
            i = i + 1;
        }
        if diff.vpc_changed {
            plan.add(PlannedChange::update(
                "Lambda VPC Config",
                name,
                "current",
                "desired",
                "VPC configuration will be changed",
            ));
        }
        let ghost after_vpc = plan.changes@;
        if diff.layers_changed {
            let mut from = String::new();
            push_usize(&mut from, current.layers.len());
            push_str(&mut from, " layers");
            let mut to = String::new();
            push_usize(&mut to, config.layers.len());
            push_str(&mut to, " layers");
            plan.add(PlannedChange::update("Lambda Layers", name, from.as_str(), to.as_str(), "Layers will be changed"));
        }
        if !diff.needs_update() && !diff.has_immutable_changes() {
            plan.add(PlannedChange::no_change("Lambda Function", name));
        }
        assert(listed.take(diff.changes@.len() as int) =~= listed);
        assert(change_views(plan.changes@) =~= lambda_plan(self.function_name@, *current, *config));
        Ok(plan)
    }

    /// The decisions of creating the function from `image_uri`: an error
    /// when no provisioning is configured or its settings break a rule.
    pub fn creation(&self, image_uri: &str) -> (r: Result<LambdaCreation, LambdaError>)
        ensures
            match self.provisioning_config {
                None => r matches Err(LambdaError::NoProvisioningConfig),
                Some(c) => match lambda_config_error(c) {
                    Some(e) => r matches Err(LambdaError::InvalidProvisioning(x)) && x == e,
                    None => r matches Ok(k) && {
                        &&& k.architecture == (if c.architecture@ == "arm64"@ { LambdaArchitecture::Arm64 } else { LambdaArchitecture::X86_64 })
                        &&& k.image_package == (c.package_type@ != "Zip"@)
                        &&& (if k.image_package {
                                opt_view(k.image_uri) == Some(image_uri@) && k.runtime is None && k.handler is None
                            } else {
                                k.image_uri is None && opt_view(k.runtime) == opt_view(c.runtime)
                                    && opt_view(k.handler) == opt_view(c.handler)
                            })
                        &&& k.ephemeral_storage_mb == (if c.ephemeral_storage_mb != 512 { Some(c.ephemeral_storage_mb) } else { None })
                        &&& k.tracing == (match c.tracing_mode {
                                Some(m) => Some(if m@ == "Active"@ { LambdaTracing::Active } else { LambdaTracing::PassThrough }),
                                None => None,
                            })
                    },
                },
            },
    {
        let config = match &self.provisioning_config {
            None => return Err(LambdaError::NoProvisioningConfig),
            Some(c) => c,
        };
        match config.validate() {
            Err(e) => return Err(LambdaError::InvalidProvisioning(e)),
            Ok(()) => {},
        }
        let architecture = if str_eq(config.architecture.as_str(), "arm64") {
            LambdaArchitecture::Arm64
        } else {
            LambdaArchitecture::X86_64
        };
        let image_package = !str_eq(config.package_type.as_str(), "Zip");
        let tracing = match &config.tracing_mode {
            Some(m) => Some(if str_eq(m.as_str(), "Active") { LambdaTracing::Active } else { LambdaTracing::PassThrough }),
            None => None,
        };
        Ok(LambdaCreation {
            architecture,
            image_package,
            image_uri: if image_package { Some(to_owned_string(image_uri)) } else { None },
            runtime: if image_package { None } else { clone_opt_string(&config.runtime) },
            handler: if image_package { None } else { clone_opt_string(&config.handler) },
            ephemeral_storage_mb: if config.ephemeral_storage_mb != 512 { Some(config.ephemeral_storage_mb) } else { None },
            tracing,
        })
    }

    /// What creating the function reports.
    pub fn function_created(&self, config: &LambdaProvisioningConfig) -> (r: ProvisioningResult)
        ensures
            r.resource_type@ == "Lambda Function"@ && r.resource_name@ == self.function_name@,
            r.action == ProvisioningAction::Created,
            seq_views(r.details@) == seq![
                "Memory: "@ + signed_decimal(config.memory_mb as int) + " MB"@,
                "Timeout: "@ + signed_decimal(config.timeout_secs as int) + " seconds"@,
                "Architecture: "@ + config.architecture@,
            ],
    {
        let mut a = to_owned_string("Memory: ");
        let t = i32_text(config.memory_mb);
        push_str(&mut a, t.as_str());
        push_str(&mut a, " MB");
        let mut b = to_owned_string("Timeout: ");
        let t = i32_text(config.timeout_secs);
        push_str(&mut b, t.as_str());
        push_str(&mut b, " seconds");
        let mut c = to_owned_string("Architecture: ");
        push_str(&mut c, config.architecture.as_str());
        let mut d: Vec<String> = Vec::new();
        d.push(a);
        d.push(b);
        d.push(c);
        assert(seq_views(d@) =~= seq![
            "Memory: "@ + signed_decimal(config.memory_mb as int) + " MB"@,
            "Timeout: "@ + signed_decimal(config.timeout_secs as int) + " seconds"@,
            "Architecture: "@ + config.architecture@,
        ]);
        ProvisioningResult::created("Lambda Function", self.function_name.as_str(), d)
    }

    /// What updating the function's settings reports: unchanged when nothing
    /// is to be updated in place; otherwise one `field: from -> to` line per
    /// reported change. An error when the function does not exist.
    pub fn configuration_update(&self, config: &LambdaProvisioningConfig, current: &LambdaCurrentState) -> (r: Result<ProvisioningResult, LambdaError>)
        ensures
            !current.exists ==> r matches Err(LambdaError::FunctionMissing),
            current.exists ==> (r matches Ok(res) && res.resource_type@ == "Lambda Function"@
                && res.resource_name@ == self.function_name@
                && if !(memory_differs(*current, *config) || timeout_differs(*current, *config)
                    || role_differs(*current, *config) || description_differs(*current, *config)
                    || vpc_differs(*current, *config) || layers_differ(*current, *config)
                    || storage_differs(*current, *config)) {
                    res.action == ProvisioningAction::Unchanged && res.details@.len() == 0
                } else {
                    res.action == ProvisioningAction::Updated
                        && seq_views(res.details@) == lambda_change_list(*current, *config).map_values(
                            |t: (Seq<char>, Seq<char>, Seq<char>)| t.0 + ": "@ + t.1 + " -> "@ + t.2)
                }),
    {
        if !current.exists {
            return Err(LambdaError::FunctionMissing);
        }
        let diff = compute_lambda_diff(current, config);
        if !diff.needs_update() {
            return Ok(ProvisioningResult::unchanged("Lambda Function", self.function_name.as_str()));
        }
        let ghost want = lambda_change_list(*current, *config).map_values(
            |t: (Seq<char>, Seq<char>, Seq<char>)| t.0 + ": "@ + t.1 + " -> "@ + t.2);
        let mut lines: Vec<String> = Vec::new();
        let mut i: usize = 0;
        while i < diff.changes.len()
            invariant
                i <= diff.changes@.len(),
                super::provisioning::lambda::change_views(diff.changes@) == lambda_change_list(*current, *config),
                want == lambda_change_list(*current, *config).map_values(
                    |t: (Seq<char>, Seq<char>, Seq<char>)| t.0 + ": "@ + t.1 + " -> "@ + t.2),
                want.len() == diff.changes@.len(),
                seq_views(lines@) == want.take(i as int),
            decreases diff.changes.len() - i,
        {
            let (field, from, to) = &diff.changes[i];
            let mut line = field.clone();
            push_str(&mut line, ": ");
            push_str(&mut line, from.as_str());
            push_str(&mut line, " -> ");
            push_str(&mut line, to.as_str());
            let ghost before = lines@;
            lines.push(line);
            proof {
                assert(super::provisioning::lambda::change_views(diff.changes@)[i as int] == (field@, from@, to@));
                assert(lambda_change_list(*current, *config)[i as int] == (field@, from@, to@));
                assert(want[i as int] == field@ + ": "@ + from@ + " -> "@ + to@);
                assert(seq_views(lines@) =~= seq_views(before).push(lines@.last()@));
                assert(want.take(i + 1) =~= want.take(i as int).push(want[i as int]));
                assert(seq_views(lines@) =~= want.take(i + 1));
            }
            i = i + 1;
        }
        assert(want.take(diff.changes@.len() as int) =~= want);
        Ok(ProvisioningResult::updated("Lambda Function", self.function_name.as_str(), lines))
    }

    /// How an observed function state reads while waiting for an update:
    /// "Active" is done, "Failed" is an error, anything else waits.
    pub fn update_progress(state: &Option<String>) -> (r: Result<UpdateProgress, LambdaError>)
        ensures
            match state {
                Some(s) => if s@ == "Active"@ {
                    r == Ok::<UpdateProgress, LambdaError>(UpdateProgress::Done)
                } else if s@ == "Failed"@ {
                    r matches Err(LambdaError::UpdateFailed)
                } else {
                    r == Ok::<UpdateProgress, LambdaError>(UpdateProgress::Waiting)
                },
                None => r == Ok::<UpdateProgress, LambdaError>(UpdateProgress::Waiting),
            },
    {
        match state {
            Some(s) => {
                if str_eq(s.as_str(), "Active") {
                    Ok(UpdateProgress::Done)
                } else if str_eq(s.as_str(), "Failed") {
                    Err(LambdaError::UpdateFailed)
                } else {
                    Ok(UpdateProgress::Waiting)
                }
            },
            None => Ok(UpdateProgress::Waiting),
        }
    }

    /// Checks the function state when validating: an error when a state
    /// is known and is not "Active".
    pub fn check_active(&self, state: &Option<String>) -> (r: Result<(), LambdaError>)
        ensures
            match state {
                Some(s) => if s@ == "Active"@ { r is Ok } else {
                    r matches Err(LambdaError::NotActive { function_name, state: st })
                        && function_name@ == self.function_name@ && st@ == s@
                },
                None => r is Ok,
            },
    {
        match state {
            Some(s) => {
                if str_eq(s.as_str(), "Active") {
                    Ok(())
                } else {
                    Err(LambdaError::NotActive { function_name: to_owned_string(self.function_name.as_str()), state: s.clone() })
                }
            },
            None => Ok(()),
        }
    }

    /// How long a deployment waits for an update: the environment's
    /// `deployment_timeout_secs`, else 120 seconds.
    pub fn deployment_timeout(env: &EnvironmentConfig) -> (r: u64)
        ensures
            r == match key_value(env.config@, "deployment_timeout_secs"@) {
                Some(ConfigValue::Unsigned(n)) => n,
                _ => 120u64,
            },
    {
        match get_value(&env.config, "deployment_timeout_secs") {
            Some(v) => match v.as_u64() {
                Some(n) => n,
                None => 120,
            },
            None => 120,
        }
    }

    /// The image a deployment rolls out: an error when the environment
    /// names none.
    pub fn deploy_image(ctx: &DeploymentContext) -> (r: Result<String, LambdaError>)
        ensures
            match ctx.environment.image {
                Some(i) => r matches Ok(s) && s@ == i@,
                None => r matches Err(LambdaError::NoImage),
            },
    {
        match &ctx.environment.image {
            Some(i) => Ok(i.clone()),
            None => Err(LambdaError::NoImage),
        }
    }

    /// The description of a version published by a deployment.
    pub fn version_description(image: &str) -> (r: String)
        ensures
            r@ == "Deployed via pmp-deploy: "@ + image@,
    {
        let mut r = to_owned_string("Deployed via pmp-deploy: ");
        push_str(&mut r, image);
        r
    }

    /// The concurrency settings a deployment applies outside app-only mode:
    /// the environment's `provisioned_concurrency` (applied when positive)
    /// and `reserved_concurrency` (applied when not negative), each read as
    /// a 32-bit integer.
    pub fn concurrency_settings(env: &EnvironmentConfig, app_only: bool) -> (r: (Option<i32>, Option<i32>))
        ensures
            r == deploy_concurrency(*env, app_only),
    {
        if app_only {
            return (None, None);
        }
        let provisioned = match get_value(&env.config, "provisioned_concurrency") {
            Some(v) => match v.as_u64() {
                Some(n) => {
                    #[verifier::truncate]
                    let c = n as i32;
                    if c > 0 { Some(c) } else { None }
                },
                None => None,
            },
            None => None,
        };
        let reserved = match get_value(&env.config, "reserved_concurrency") {
            Some(v) => match v.as_u64() {
                Some(n) => {
                    #[verifier::truncate]
                    let c = n as i32;
                    if c >= 0 { Some(c) } else { None }
                },
                None => None,
            },
            None => None,
        };
        (provisioned, reserved)
    }

    /// The message of a deployment: what a dry run would do (naming the
    /// alias when there is one), or what was done and which version.
    pub fn deploy_message(&self, dry_run: bool, image: &str, alias: &Option<String>, version: &str, app_only: bool) -> (r: String)
        ensures
            r@ == (if dry_run {
                "Would deploy "@ + image@ + " to Lambda function "@ + self.function_name@
                    + (match alias { Some(a) => " (alias: "@ + a@ + ")"@, None => seq![] })
            } else {
                "Deployed "@ + image@ + " to Lambda function "@ + self.function_name@ + " (version: "@ + version@ + ")"@
            }) + (if app_only { " (app-only)"@ } else { seq![] }),
    {
        let mut m = if dry_run { to_owned_string("Would deploy ") } else { to_owned_string("Deployed ") };
        push_str(&mut m, image);
        push_str(&mut m, " to Lambda function ");
        push_str(&mut m, self.function_name.as_str());
        if dry_run {
            if let Some(a) = alias {
                push_str(&mut m, " (alias: ");
                push_str(&mut m, a.as_str());
                push_str(&mut m, ")");
            }
        } else {
            push_str(&mut m, " (version: ");
            push_str(&mut m, version);
            push_str(&mut m, ")");
        }
        let ghost before = m@;
        if app_only {
            push_str(&mut m, " (app-only)");
        }
        assert(m@ =~= before + (if app_only { " (app-only)"@ } else { seq![] }));
        m
    }

    /// What a (not dry-run) deployment does: an error when the environment
    /// names no image.
    pub fn deploy_plan(&self, ctx: &DeploymentContext) -> (r: Result<LambdaDeployPlan, LambdaError>)
        ensures
            match ctx.environment.image {
                None => r matches Err(LambdaError::NoImage),
                Some(i) => r matches Ok(p) && {
                    &&& p.image@ == i@
                    &&& opt_view(p.alias) == lambda_alias(*self, ctx.environment)
                    &&& p.version_description@ == "Deployed via pmp-deploy: "@ + i@
                    &&& p.timeout_secs == (match key_value(ctx.environment.config@, "deployment_timeout_secs"@) {
                            Some(ConfigValue::Unsigned(n)) => n,
                            _ => 120u64,
                        })
                    &&& p.steps@ == lambda_deploy_steps(p.alias is Some,
                            deploy_concurrency(ctx.environment, ctx.deploy_mode == DeployMode::AppOnly))
                },
            },
    {
        let image = Self::deploy_image(ctx)?;
        let alias = self.get_alias_or_default(ctx);
        let app_only = ctx.deploy_mode.is_app_only();
        let (provisioned, reserved) = Self::concurrency_settings(&ctx.environment, app_only);
        let mut steps: Vec<LambdaDeployStep> = Vec::new();
        steps.push(LambdaDeployStep::UpdateImage);
        steps.push(LambdaDeployStep::WaitForUpdate);
        steps.push(LambdaDeployStep::UpdateEnvironment);
        if alias.is_some() {
            steps.push(LambdaDeployStep::PublishVersion);
            steps.push(LambdaDeployStep::UpdateAlias);
        }
        if let Some(n) = provisioned {
            steps.push(LambdaDeployStep::ProvisionedConcurrency(n));
        }
        if let Some(n) = reserved {
            steps.push(LambdaDeployStep::ReservedConcurrency(n));
        }
        assert(steps@ =~= lambda_deploy_steps(alias is Some, (provisioned, reserved)));
        Ok(LambdaDeployPlan {
            version_description: Self::version_description(image.as_str()),
            timeout_secs: Self::deployment_timeout(&ctx.environment),
            image,
            alias,
            steps,
        })
    }

    /// The result of a finished deployment: the version it published, or
    /// `$LATEST` without one.
    pub fn deploy_outcome(&self, plan: &LambdaDeployPlan, published: &Option<String>, app_only: bool) -> (r: DeploymentResult)
        ensures
            r.success,
            opt_view(r.version) == Some(match published { Some(v) => v@, None => "$LATEST"@ }),
            r.message@ == "Deployed "@ + plan.image@ + " to Lambda function "@ + self.function_name@
                + " (version: "@ + (match published { Some(v) => v@, None => "$LATEST"@ }) + ")"@
                + (if app_only { " (app-only)"@ } else { seq![] }),
            r.rollback_version is None,
    {
        let version = match published {
            Some(v) => v.clone(),
            None => to_owned_string("$LATEST"),
        };
        let m = self.deploy_message(false, plan.image.as_str(), &plan.alias, version.as_str(), app_only);
        DeploymentResult::success(m.as_str()).with_version(version.as_str())
    }

    /// The alias a rollback moves: an error when there is none.
    pub fn rollback_alias(alias: Option<String>) -> (r: Result<String, LambdaError>)
        ensures
            match alias {
                Some(a) => r == Ok::<String, LambdaError>(a),
                None => r matches Err(LambdaError::RollbackNeedsAlias),
            },
    {
        match alias {
            Some(a) => Ok(a),
            None => Err(LambdaError::RollbackNeedsAlias),
        }
    }

    /// The version a rollback returns to: the alias's version, an integer
    /// above 1, lowered by one.
    pub fn previous_version(current: &Option<String>) -> (r: Result<String, LambdaError>)
        ensures
            match current {
                None => r matches Err(LambdaError::AliasHasNoVersion),
                Some(v) => match parsed_i32(v@) {
                    None => r matches Err(LambdaError::InvalidVersion),
                    Some(n) => if n <= 1 {
                        r matches Err(LambdaError::NoPreviousVersion)
                    } else {
                        r matches Ok(p) && p@ == signed_decimal(n - 1)
                    },
                },
            },
    {
        let v = match current {
            None => return Err(LambdaError::AliasHasNoVersion),
            Some(v) => v,
        };
        let n = match parse_i32(v.as_str()) {
            None => return Err(LambdaError::InvalidVersion),
            Some(n) => n,
        };
        if n <= 1 {
            return Err(LambdaError::NoPreviousVersion);
        }
        Ok(i32_text(n - 1))
    }

    /// The message of a rollback: what a dry run would do, or the version
    /// returned to.
    pub fn rollback_message(&self, dry_run: bool, alias: &str, version: &str) -> (r: String)
        ensures
            r@ == (if dry_run {
                "Would rollback Lambda function "@ + self.function_name@ + " alias "@ + alias@
            } else {
                "Rolled back Lambda function "@ + self.function_name@ + " alias "@ + alias@ + " to version "@ + version@
            }),
    {
        let mut m = if dry_run {
            to_owned_string("Would rollback Lambda function ")
        } else {
            to_owned_string("Rolled back Lambda function ")
        };
        push_str(&mut m, self.function_name.as_str());
        push_str(&mut m, " alias ");
        push_str(&mut m, alias);
        if !dry_run {
            push_str(&mut m, " to version ");
            push_str(&mut m, version);
        }
        m
    }

    /// The arguments of `aws` that print (or follow) the function's logs.
    pub fn logs_tail_args(&self, follow: bool) -> (r: Vec<String>)
        ensures
            seq_views(r@) == seq!["logs"@, "tail"@, "/aws/lambda/"@ + self.function_name@, "--region"@, self.region@]
                + (if follow { seq!["--follow"@] } else { seq![] }),
    {
        let mut group = to_owned_string("/aws/lambda/");
        push_str(&mut group, self.function_name.as_str());
        let mut a: Vec<String> = Vec::new();
        a.push(to_owned_string("logs"));
        a.push(to_owned_string("tail"));
        a.push(group);
        a.push(to_owned_string("--region"));
        a.push(self.region.clone());
        if follow {
            a.push(to_owned_string("--follow"));
        }
        assert(seq_views(a@) =~= seq!["logs"@, "tail"@, "/aws/lambda/"@ + self.function_name@, "--region"@, self.region@]
            + (if follow { seq!["--follow"@] } else { seq![] }));
        a
    }

    /// The status report of the function, with the alias and its version
    /// when they could be read. The code digest is cut to its first 12
    /// bytes, which must end on a character boundary.
    #[verifier::rlimit(40)]
    pub fn status_text(&self, info: &LambdaFunctionObservation, alias: &Option<(String, String)>) -> (r: String)
        requires
            info.code_sha256 matches Some(s) ==> vstd::utf8::is_char_boundary(vstd::utf8::encode_utf8(s@), 12),
        ensures
            r@ == lambda_status_text(self.region@, *info, match *alias {
                Some((a, v)) => Some((a@, v@)),
                None => None,
            }),
    {
        let mut o = to_owned_string("Lambda Function: ");
        push_str(&mut o, info.name.as_str());
        push_str(&mut o, "\\nRegion: ");
        push_str(&mut o, self.region.as_str());
        push_str(&mut o, "\\nState: ");
        match &info.state {
            Some(s) => push_str(&mut o, s.as_str()),
            None => push_str(&mut o, "Unknown"),
        }
        push_str(&mut o, "\\nRuntime: ");
        match &info.runtime {
            Some(s) => push_str(&mut o, s.as_str()),
            None => push_str(&mut o, "N/A"),
        }
        push_str(&mut o, "\\nMemory: ");
        let m: i32 = match info.memory_size {
            Some(m) => m,
            None => 0,
        };
        let t = i32_text(m);
        push_str(&mut o, t.as_str());
        push_str(&mut o, " MB");
        push_str(&mut o, "\\nTimeout: ");
        let tm: i32 = match info.timeout {
            Some(t) => t,
            None => 0,
        };
        let t = i32_text(tm);
        push_str(&mut o, t.as_str());
        push_str(&mut o, " seconds");
        push_str(&mut o, "\\nVersion: ");
        match &info.version {
            Some(v) => push_str(&mut o, v.as_str()),
            None => push_str(&mut o, "$LATEST"),
        }
        push_str(&mut o, "\\nCode SHA256: ");
        match &info.code_sha256 {
            Some(s) => push_str(&mut o, byte_prefix(s.as_str(), 12)),
            None => push_str(&mut o, "N/A"),
        }
        match alias {
            Some((a, v)) => {
                push_str(&mut o, "\\nAlias: ");
                push_str(&mut o, a.as_str());
                push_str(&mut o, " -> version ");
                push_str(&mut o, v.as_str());
            },
            None => {},
        }
        assert(o@ =~= lambda_status_text(self.region@, *info, match *alias {
            Some((a, v)) => Some((a@, v@)),
            None => None,
        }));
        o
    }
}

} // verus!
