pub mod commands;
pub mod plugin_template;
pub mod resume;
pub mod wizard;
