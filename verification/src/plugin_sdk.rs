//! The values plugins exchange with the host: deployment results, plugin
//! errors and the deployment context. The FFI layer is the caller's.

use vstd::prelude::*;
use crate::text::{opt_view, push_str, to_owned_string};

verus! {

/// Version of the plugin interface; a plugin must report the host's.
pub const PLUGIN_API_VERSION: u32 = 1;

/// What a plugin reports when it cannot go on.
#[derive(Debug, Clone)]
pub enum PluginError {
    ConfigError(String),
    DeploymentError(String),
    RollbackError(String),
    StatusError(String),
    LogsError(String),
    InitError(String),
    InternalError(String),
}

/// The message of a plugin error.
pub open spec fn plugin_error_text(e: PluginError) -> Seq<char> {
    match e {
        PluginError::ConfigError(m) => "Configuration error: "@ + m@,
        PluginError::DeploymentError(m) => "Deployment error: "@ + m@,
        PluginError::RollbackError(m) => "Rollback error: "@ + m@,
        PluginError::StatusError(m) => "Status error: "@ + m@,
        PluginError::LogsError(m) => "Logs error: "@ + m@,
        PluginError::InitError(m) => "Initialization error: "@ + m@,
        PluginError::InternalError(m) => "Internal error: "@ + m@,
    }
}

fn prefixed(prefix: &str, m: &String) -> (r: String)
    ensures
        r@ == prefix@ + m@,
{
    let mut s = to_owned_string(prefix);
    push_str(&mut s, m.as_str());
    s
}

impl PluginError {
    pub fn to_string(&self) -> (r: String)
        ensures
            r@ == plugin_error_text(*self),
    {
        match self {
            PluginError::ConfigError(m) => prefixed("Configuration error: ", m),
            PluginError::DeploymentError(m) => prefixed("Deployment error: ", m),
            PluginError::RollbackError(m) => prefixed("Rollback error: ", m),
            PluginError::StatusError(m) => prefixed("Status error: ", m),
            PluginError::LogsError(m) => prefixed("Logs error: ", m),
            PluginError::InitError(m) => prefixed("Initialization error: ", m),
            PluginError::InternalError(m) => prefixed("Internal error: ", m),
        }
    }
}

/// What a plugin knows of a deployment. The configuration holds each
/// setting's JSON text, by distinct name.
#[derive(Debug, Clone)]
pub struct DeploymentContext {
    pub environment_name: String,
    pub infrastructure_name: String,
    pub config: Vec<(String, String)>,
    pub dry_run: bool,
    pub verbose: bool,
}

/// The outcome a plugin reports.
#[derive(Debug, Clone)]
pub struct DeploymentResult {
    pub success: bool,
    pub message: String,
    pub version: Option<String>,
    pub rollback_version: Option<String>,
}

impl DeploymentResult {
    pub fn success(message: &str, version: &str) -> (r: Self)
        ensures
            r.success,
            r.message@ == message@,
            opt_view(r.version) == Some(version@),
            r.rollback_version is None,
    {
        DeploymentResult {
            success: true,
            message: to_owned_string(message),
            version: Some(to_owned_string(version)),
            rollback_version: None,
        }
    }

    pub fn success_with_rollback(message: &str, version: &str, rollback: &str) -> (r: Self)
        ensures
            r.success,
            r.message@ == message@,
            opt_view(r.version) == Some(version@),
            opt_view(r.rollback_version) == Some(rollback@),
    {
        DeploymentResult {
            success: true,
            message: to_owned_string(message),
            version: Some(to_owned_string(version)),
            rollback_version: Some(to_owned_string(rollback)),
        }
    }

    pub fn failure(message: &str) -> (r: Self)
        ensures
            !r.success,
            r.message@ == message@,
            r.version is None,
            r.rollback_version is None,
    {
        DeploymentResult {
            success: false,
            message: to_owned_string(message),
            version: None,
            rollback_version: None,
        }
    }

    /// The fields sent across the plugin boundary: success, message,
    /// version and rollback version, a missing version as empty text; a
    /// failure sends its message only.
    pub fn ffi_parts(self) -> (r: (bool, String, String, String))
        ensures
            r.0 == self.success,
            r.1 == self.message,
            self.success ==> r.2@ == (match self.version { Some(v) => v@, None => Seq::<char>::empty() })
                && r.3@ == (match self.rollback_version { Some(v) => v@, None => Seq::<char>::empty() }),
            !self.success ==> r.2@.len() == 0 && r.3@.len() == 0,
    {
        if self.success {
            let v = match self.version {
                Some(v) => v,
                None => String::new(),
            };
            let rb = match self.rollback_version {
                Some(v) => v,
                None => String::new(),
            };
            (true, self.message, v, rb)
        } else {
            (false, self.message, String::new(), String::new())
        }
    }
}

} // verus!
