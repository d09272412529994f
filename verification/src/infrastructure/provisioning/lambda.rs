//! Lambda provisioning configuration, its validation, and the comparison of
//! a desired configuration against the deployed function.

use vstd::prelude::*;
use crate::text::{
    clone_strings, i64_to_string, opt_string_eq, opt_view, opt_view_or_empty, seq_views,
    signed_decimal, str_eq, strings_eq, to_owned_string,
};
use super::ProvisioningConfigError;

verus! {

/// Configuration for fully provisioning a Lambda function.
#[derive(Debug, Clone)]
pub struct LambdaProvisioningConfig {
    /// Runtime environment (e.g., "provided.al2023", "nodejs20.x").
    pub runtime: Option<String>,
    /// Handler function (e.g., "bootstrap", "index.handler").
    pub handler: Option<String>,
    /// Memory size in MB (128-10240).
    pub memory_mb: i32,
    /// Timeout in seconds (1-900).
    pub timeout_secs: i32,
    /// IAM role ARN for Lambda execution.
    pub role_arn: String,
    /// Description of the function.
    pub description: Option<String>,
    /// VPC configuration.
    pub vpc: Option<LambdaVpcConfig>,
    /// Layer ARNs.
    pub layers: Vec<String>,
    /// Dead letter queue configuration.
    pub dead_letter_queue: Option<DeadLetterConfig>,
    /// Architecture (x86_64 or arm64).
    pub architecture: String,
    /// Ephemeral storage size in MB (512-10240).
    pub ephemeral_storage_mb: i32,
    /// Tracing mode (Active or PassThrough).
    pub tracing_mode: Option<String>,
    /// Package type (Image or Zip).
    pub package_type: String,
}

/// Default memory size, in MB.
pub fn default_memory_mb() -> (r: i32)
    ensures
        r == 256,
{
    256
}

/// Default timeout, in seconds.
pub fn default_timeout_secs() -> (r: i32)
    ensures
        r == 30,
{
    30
}

/// Default architecture.
pub fn default_architecture() -> (r: String)
    ensures
        r@ == "x86_64"@,
{
    to_owned_string("x86_64")
}

/// Default ephemeral storage, in MB.
pub fn default_ephemeral_storage() -> (r: i32)
    ensures
        r == 512,
{
    512
}

/// Default package type.
pub fn default_package_type() -> (r: String)
    ensures
        r@ == "Image"@,
{
    to_owned_string("Image")
}

impl Default for LambdaProvisioningConfig {
    fn default() -> (r: Self)
        ensures
            r.runtime is None,
            r.handler is None,
            r.memory_mb == 256,
            r.timeout_secs == 30,
            r.role_arn@ == Seq::<char>::empty(),
            r.description is None,
            r.vpc is None,
            r.layers@.len() == 0,
            r.dead_letter_queue is None,
            r.architecture@ == "x86_64"@,
            r.ephemeral_storage_mb == 512,
            r.tracing_mode is None,
            r.package_type@ == "Image"@,
    {
        LambdaProvisioningConfig {
            runtime: None,
            handler: None,
            memory_mb: default_memory_mb(),
            timeout_secs: default_timeout_secs(),
            role_arn: String::new(),
            description: None,
            vpc: None,
            layers: Vec::new(),
            dead_letter_queue: None,
            architecture: default_architecture(),
            ephemeral_storage_mb: default_ephemeral_storage(),
            tracing_mode: None,
            package_type: default_package_type(),
        }
    }
}

/// The first rule of a Lambda provisioning configuration that `c` breaks,
/// checked in the order: role, memory, timeout, ephemeral storage,
/// architecture, package type, VPC.
pub open spec fn lambda_config_error(c: LambdaProvisioningConfig) -> Option<ProvisioningConfigError> {
    if c.role_arn@.len() == 0 {
        Some(ProvisioningConfigError::LambdaMissingRoleArn)
    } else if c.memory_mb < 128 || c.memory_mb > 10240 {
        Some(ProvisioningConfigError::LambdaMemoryOutOfRange)
    } else if c.timeout_secs < 1 || c.timeout_secs > 900 {
        Some(ProvisioningConfigError::LambdaTimeoutOutOfRange)
    } else if c.ephemeral_storage_mb < 512 || c.ephemeral_storage_mb > 10240 {
        Some(ProvisioningConfigError::LambdaEphemeralStorageOutOfRange)
    } else if !(c.architecture@ == "x86_64"@ || c.architecture@ == "arm64"@) {
        Some(ProvisioningConfigError::LambdaInvalidArchitecture)
    } else if !(c.package_type@ == "Image"@ || c.package_type@ == "Zip"@) {
        Some(ProvisioningConfigError::LambdaInvalidPackageType)
    } else {
        match c.vpc {
            Some(vpc) => lambda_vpc_error(vpc),
            None => None,
        }
    }
}

impl LambdaProvisioningConfig {
    /// Checks the configuration; the error is the first rule broken.
    pub fn validate(&self) -> (r: Result<(), ProvisioningConfigError>)
        ensures
            r == match lambda_config_error(*self) {
                Some(e) => Err::<(), ProvisioningConfigError>(e),
                None => Ok(()),
            },
    {
        if self.role_arn.as_str().is_empty() {
            return Err(ProvisioningConfigError::LambdaMissingRoleArn);
        }
        if self.memory_mb < 128 || self.memory_mb > 10240 {
            return Err(ProvisioningConfigError::LambdaMemoryOutOfRange);
        }
        if self.timeout_secs < 1 || self.timeout_secs > 900 {
            return Err(ProvisioningConfigError::LambdaTimeoutOutOfRange);
        }
        if self.ephemeral_storage_mb < 512 || self.ephemeral_storage_mb > 10240 {
            return Err(ProvisioningConfigError::LambdaEphemeralStorageOutOfRange);
        }
        let arch = self.architecture.as_str();
        if !(str_eq(arch, "x86_64") || str_eq(arch, "arm64")) {
            return Err(ProvisioningConfigError::LambdaInvalidArchitecture);
        }
        let pkg = self.package_type.as_str();
        if !(str_eq(pkg, "Image") || str_eq(pkg, "Zip")) {
            return Err(ProvisioningConfigError::LambdaInvalidPackageType);
        }
        match &self.vpc {
            Some(vpc) => vpc.validate(),
            None => Ok(()),
        }
    }
}

/// VPC configuration for a Lambda function.
#[derive(Debug, Clone)]
pub struct LambdaVpcConfig {
    /// Subnet IDs for the Lambda function.
    pub subnet_ids: Vec<String>,
    /// Security group IDs for the Lambda function.
    pub security_group_ids: Vec<String>,
}

/// The first rule of a VPC configuration that `v` breaks.
pub open spec fn lambda_vpc_error(v: LambdaVpcConfig) -> Option<ProvisioningConfigError> {
    if v.subnet_ids@.len() == 0 {
        Some(ProvisioningConfigError::VpcMissingSubnet)
    } else if v.security_group_ids@.len() == 0 {
        Some(ProvisioningConfigError::VpcMissingSecurityGroup)
    } else {
        None
    }
}

impl LambdaVpcConfig {
    /// Requires at least one subnet and at least one security group.
    pub fn validate(&self) -> (r: Result<(), ProvisioningConfigError>)
        ensures
            r == match lambda_vpc_error(*self) {
                Some(e) => Err::<(), ProvisioningConfigError>(e),
                None => Ok(()),
            },
    {
        if self.subnet_ids.len() == 0 {
            return Err(ProvisioningConfigError::VpcMissingSubnet);
        }
        if self.security_group_ids.len() == 0 {
            return Err(ProvisioningConfigError::VpcMissingSecurityGroup);
        }
        Ok(())
    }

    /// Copies the configuration.
    pub fn duplicate(&self) -> (r: Self)
        ensures
            seq_views(r.subnet_ids@) == seq_views(self.subnet_ids@),
            seq_views(r.security_group_ids@) == seq_views(self.security_group_ids@),
    {
        LambdaVpcConfig {
            subnet_ids: clone_strings(&self.subnet_ids),
            security_group_ids: clone_strings(&self.security_group_ids),
        }
    }
}

/// Dead letter queue configuration.
#[derive(Debug, Clone)]
pub struct DeadLetterConfig {
    /// ARN of the SQS queue or SNS topic.
    pub target_arn: String,
}

/// The current state of a Lambda function, as read from the provider.
#[derive(Debug, Clone)]
pub struct LambdaCurrentState {
    pub exists: bool,
    pub runtime: Option<String>,
    pub handler: Option<String>,
    pub memory_size: Option<i32>,
    pub timeout: Option<i32>,
    pub role: Option<String>,
    pub description: Option<String>,
    pub vpc_config: Option<LambdaVpcConfig>,
    pub layers: Vec<String>,
    pub architecture: Option<String>,
    pub ephemeral_storage: Option<i32>,
    pub package_type: Option<String>,
}

impl LambdaCurrentState {
    /// The state of a function that does not exist.
    pub fn not_found() -> (r: Self)
        ensures
            !r.exists,
            r.runtime is None,
            r.handler is None,
            r.memory_size is None,
            r.timeout is None,
            r.role is None,
            r.description is None,
            r.vpc_config is None,
            r.layers@.len() == 0,
            r.architecture is None,
            r.ephemeral_storage is None,
            r.package_type is None,
    {
        LambdaCurrentState {
            exists: false,
            runtime: None,
            handler: None,
            memory_size: None,
            timeout: None,
            role: None,
            description: None,
            vpc_config: None,
            layers: Vec::new(),
            architecture: None,
            ephemeral_storage: None,
            package_type: None,
        }
    }
}

/// Differences between the current and the desired state of a function.
#[derive(Debug, Clone)]
pub struct LambdaStateDiff {
    pub needs_create: bool,
    pub memory_changed: bool,
    pub timeout_changed: bool,
    pub role_changed: bool,
    pub description_changed: bool,
    pub vpc_changed: bool,
    pub layers_changed: bool,
    pub architecture_changed: bool,
    pub ephemeral_storage_changed: bool,
    /// (field, current, desired) for each changed field that is reported.
    pub changes: Vec<(String, String, String)>,
}

/// Whether a diff asks for an in-place update (architecture is not
/// updatable in place and does not count).
pub open spec fn diff_needs_update(d: LambdaStateDiff) -> bool {
    d.memory_changed || d.timeout_changed || d.role_changed || d.description_changed
        || d.vpc_changed || d.layers_changed || d.ephemeral_storage_changed
}

impl LambdaStateDiff {
    pub fn needs_update(&self) -> (r: bool)
        ensures
            r == diff_needs_update(*self),
    {
        self.memory_changed || self.timeout_changed || self.role_changed
            || self.description_changed || self.vpc_changed || self.layers_changed
            || self.ephemeral_storage_changed
    }

    pub fn has_immutable_changes(&self) -> (r: bool)
        ensures
            r == self.architecture_changed,
    {
        self.architecture_changed
    }
}

/// The characters of an optional integer, or nothing.
pub open spec fn opt_int_text(o: Option<i32>) -> Seq<char> {
    match o {
        Some(v) => signed_decimal(v as int),
        None => seq![],
    }
}

/// The character triples of a list of reported changes.
pub open spec fn change_views(c: Seq<(String, String, String)>) -> Seq<(Seq<char>, Seq<char>, Seq<char>)> {
    c.map_values(|t: (String, String, String)| (t.0@, t.1@, t.2@))
}

pub open spec fn memory_differs(cur: LambdaCurrentState, des: LambdaProvisioningConfig) -> bool {
    cur.memory_size != Some(des.memory_mb)
}

pub open spec fn timeout_differs(cur: LambdaCurrentState, des: LambdaProvisioningConfig) -> bool {
    cur.timeout != Some(des.timeout_secs)
}

pub open spec fn role_differs(cur: LambdaCurrentState, des: LambdaProvisioningConfig) -> bool {
    opt_view(cur.role) != Some(des.role_arn@)
}

pub open spec fn description_differs(cur: LambdaCurrentState, des: LambdaProvisioningConfig) -> bool {
    opt_view(cur.description) != opt_view(des.description)
}

pub open spec fn vpc_differs(cur: LambdaCurrentState, des: LambdaProvisioningConfig) -> bool {
    match (cur.vpc_config, des.vpc) {
        (None, None) => false,
        (Some(c), Some(d)) => seq_views(c.subnet_ids@) != seq_views(d.subnet_ids@)
            || seq_views(c.security_group_ids@) != seq_views(d.security_group_ids@),
        _ => true,
    }
}

pub open spec fn layers_differ(cur: LambdaCurrentState, des: LambdaProvisioningConfig) -> bool {
    seq_views(cur.layers@) != seq_views(des.layers@)
}

pub open spec fn architecture_differs(cur: LambdaCurrentState, des: LambdaProvisioningConfig) -> bool {
    opt_view(cur.architecture) != Some(des.architecture@)
}

pub open spec fn storage_differs(cur: LambdaCurrentState, des: LambdaProvisioningConfig) -> bool {
    cur.ephemeral_storage != Some(des.ephemeral_storage_mb)
}

/// The reported changes, in order: memory, timeout, role, description,
/// ephemeral storage (VPC, layers and architecture are flagged but not listed).
pub open spec fn lambda_change_list(cur: LambdaCurrentState, des: LambdaProvisioningConfig) -> Seq<(Seq<char>, Seq<char>, Seq<char>)> {
    let s0: Seq<(Seq<char>, Seq<char>, Seq<char>)> = seq![];
    let s1 = if memory_differs(cur, des) {
        s0.push(("memory_mb"@, opt_int_text(cur.memory_size), signed_decimal(des.memory_mb as int)))
    } else { s0 };
    let s2 = if timeout_differs(cur, des) {
        s1.push(("timeout_secs"@, opt_int_text(cur.timeout), signed_decimal(des.timeout_secs as int)))
    } else { s1 };
    let s3 = if role_differs(cur, des) {
        s2.push(("role_arn"@, opt_view_or_empty(cur.role), des.role_arn@))
    } else { s2 };
    let s4 = if description_differs(cur, des) {
        s3.push(("description"@, opt_view_or_empty(cur.description), opt_view_or_empty(des.description)))
    } else { s3 };
    if storage_differs(cur, des) {
        s4.push(("ephemeral_storage_mb"@, opt_int_text(cur.ephemeral_storage), signed_decimal(des.ephemeral_storage_mb as int)))
    } else { s4 }
}

fn opt_int_to_string(o: Option<i32>) -> (r: String)
    ensures
        r@ == opt_int_text(o),
{
    match o {
        Some(v) => i64_to_string(v as i64),
        None => String::new(),
    }
}

fn opt_string_or_empty(o: &Option<String>) -> (r: String)
    ensures
        r@ == opt_view_or_empty(*o),
{
    match o {
        Some(s) => s.clone(),
        None => String::new(),
    }
}

fn push_change(changes: &mut Vec<(String, String, String)>, field: &str, cur: String, des: String)
    ensures
        change_views(final(changes)@) == change_views(old(changes)@).push((field@, cur@, des@)),
{
    let ghost before = changes@;
    changes.push((to_owned_string(field), cur, des));
    assert(change_views(changes@) =~= change_views(before).push((field@, cur@, des@)));
}

/// Compares the deployed function with the desired configuration.
/// A missing function needs creating and nothing else is flagged.
pub fn compute_lambda_diff(current: &LambdaCurrentState, desired: &LambdaProvisioningConfig) -> (d: LambdaStateDiff)
    ensures
        d.needs_create == !current.exists,
        !current.exists ==> {
            &&& !d.memory_changed && !d.timeout_changed && !d.role_changed
            &&& !d.description_changed && !d.vpc_changed && !d.layers_changed
            &&& !d.architecture_changed && !d.ephemeral_storage_changed
            &&& d.changes@.len() == 0
        },
        current.exists ==> {
            &&& d.memory_changed == memory_differs(*current, *desired)
            &&& d.timeout_changed == timeout_differs(*current, *desired)
            &&& d.role_changed == role_differs(*current, *desired)
            &&& d.description_changed == description_differs(*current, *desired)
            &&& d.vpc_changed == vpc_differs(*current, *desired)
            &&& d.layers_changed == layers_differ(*current, *desired)
            &&& d.architecture_changed == architecture_differs(*current, *desired)
            &&& d.ephemeral_storage_changed == storage_differs(*current, *desired)
            &&& change_views(d.changes@) == lambda_change_list(*current, *desired)
        },
{
    if !current.exists {
        return LambdaStateDiff {
            needs_create: true,
            memory_changed: false,
            timeout_changed: false,
            role_changed: false,
            description_changed: false,
            vpc_changed: false,
            layers_changed: false,
            architecture_changed: false,
            ephemeral_storage_changed: false,
            changes: Vec::new(),
        };
    }
    let mut changes: Vec<(String, String, String)> = Vec::new();
    assert(change_views(changes@) =~= Seq::<(Seq<char>, Seq<char>, Seq<char>)>::empty());

    let memory_changed = match current.memory_size {
        Some(m) => m != desired.memory_mb,
        None => true,
    };
    if memory_changed {
        push_change(&mut changes, "memory_mb", opt_int_to_string(current.memory_size),
            i64_to_string(desired.memory_mb as i64));
    }

    let timeout_changed = match current.timeout {
        Some(t) => t != desired.timeout_secs,
        None => true,
    };
    if timeout_changed {
        push_change(&mut changes, "timeout_secs", opt_int_to_string(current.timeout),
            i64_to_string(desired.timeout_secs as i64));
    }

    let role_changed = match &current.role {
        Some(r) => !(*r == desired.role_arn),
        None => true,
    };
    if role_changed {
        push_change(&mut changes, "role_arn", opt_string_or_empty(&current.role),
            desired.role_arn.clone());
    }

    let description_changed = !opt_string_eq(&current.description, &desired.description);
    if description_changed {
        push_change(&mut changes, "description", opt_string_or_empty(&current.description),
            opt_string_or_empty(&desired.description));
    }

    let vpc_changed = match (&current.vpc_config, &desired.vpc) {
        (None, None) => false,
        (Some(c), Some(d)) => !strings_eq(&c.subnet_ids, &d.subnet_ids)
            || !strings_eq(&c.security_group_ids, &d.security_group_ids),
        _ => true,
    };

    let layers_changed = !strings_eq(&current.layers, &desired.layers);

    let architecture_changed = match &current.architecture {
        Some(a) => !(*a == desired.architecture),
        None => true,
    };

    let ephemeral_storage_changed = match current.ephemeral_storage {
        Some(e) => e != desired.ephemeral_storage_mb,
        None => true,
    };
    if ephemeral_storage_changed {
        push_change(&mut changes, "ephemeral_storage_mb", opt_int_to_string(current.ephemeral_storage),
            i64_to_string(desired.ephemeral_storage_mb as i64));
    }

    LambdaStateDiff {
        needs_create: false,
        memory_changed,
        timeout_changed,
        role_changed,
        description_changed,
        vpc_changed,
        layers_changed,
        architecture_changed,
        ephemeral_storage_changed,
        changes,
    }
}

} // verus!

verus! {

/// A VPC change is seen on either list: with a VPC configured on both
/// sides, the VPC counts as changed as soon as the security groups differ,
/// whatever the subnets, or the subnets differ, whatever the security
/// groups; it counts as unchanged only when both lists are the same. Such a
/// change asks for an update of a function that exists.
pub proof fn lemma_vpc_change_seen_on_either_list(cur: LambdaCurrentState, des: LambdaProvisioningConfig, d: LambdaStateDiff)
    requires
        cur.vpc_config is Some,
        des.vpc is Some,
    ensures
        seq_views(cur.vpc_config->0.security_group_ids@) != seq_views(des.vpc->0.security_group_ids@)
            ==> vpc_differs(cur, des),
        seq_views(cur.vpc_config->0.subnet_ids@) != seq_views(des.vpc->0.subnet_ids@)
            ==> vpc_differs(cur, des),
        !vpc_differs(cur, des) ==> seq_views(cur.vpc_config->0.subnet_ids@) == seq_views(des.vpc->0.subnet_ids@)
            && seq_views(cur.vpc_config->0.security_group_ids@) == seq_views(des.vpc->0.security_group_ids@),
        d.vpc_changed == vpc_differs(cur, des) && vpc_differs(cur, des) ==> diff_needs_update(d),
{
}

/// A VPC added or removed is a change.
pub proof fn lemma_vpc_added_or_removed(cur: LambdaCurrentState, des: LambdaProvisioningConfig)
    requires
        cur.vpc_config is Some != des.vpc is Some,
    ensures
        vpc_differs(cur, des),
{
}

} // verus!

verus! {

/// Whether two optional VPC configurations name the same subnets and the
/// same security groups (or are both absent).
pub open spec fn same_vpc(a: Option<LambdaVpcConfig>, b: Option<LambdaVpcConfig>) -> bool {
    match (a, b) {
        (None, None) => true,
        (Some(x), Some(y)) => seq_views(x.subnet_ids@) == seq_views(y.subnet_ids@)
            && seq_views(x.security_group_ids@) == seq_views(y.security_group_ids@),
        _ => false,
    }
}

/// A deployed function is left as it is exactly when every setting that
/// can be updated in place already has its desired value: memory, timeout,
/// role, description, VPC, layers and ephemeral storage. A different
/// architecture alone asks for no in-place update (it cannot be updated).
pub proof fn lemma_no_update_iff_settings_match(cur: LambdaCurrentState, des: LambdaProvisioningConfig, d: LambdaStateDiff)
    requires
        d.memory_changed == memory_differs(cur, des),
        d.timeout_changed == timeout_differs(cur, des),
        d.role_changed == role_differs(cur, des),
        d.description_changed == description_differs(cur, des),
        d.vpc_changed == vpc_differs(cur, des),
        d.layers_changed == layers_differ(cur, des),
        d.ephemeral_storage_changed == storage_differs(cur, des),
    ensures
        !diff_needs_update(d) <==> {
            &&& cur.memory_size == Some(des.memory_mb)
            &&& cur.timeout == Some(des.timeout_secs)
            &&& opt_view(cur.role) == Some(des.role_arn@)
            &&& opt_view(cur.description) == opt_view(des.description)
            &&& same_vpc(cur.vpc_config, des.vpc)
            &&& seq_views(cur.layers@) == seq_views(des.layers@)
            &&& cur.ephemeral_storage == Some(des.ephemeral_storage_mb)
        },
{
}

} // verus!
