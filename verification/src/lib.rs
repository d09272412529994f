//! Verified core of a multi-infrastructure deployment tool: configuration
//! models and their validation, provisioning plans and state diffs, hook
//! scheduling, rolling-update batching, and command-line argument building.

pub mod text;
pub mod keyed;
pub mod cmdline;
pub mod cli;
pub mod clock;
pub mod codec;
pub mod json;
pub mod config;
pub mod deployment;
pub mod error;
pub mod hooks;
pub mod infrastructure;
pub mod logging;
pub mod plugin_sdk;
