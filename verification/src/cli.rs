//! The command-line surface as plain data. The argument parser itself
//! lives outside the library and hands these records over.

use vstd::prelude::*;

verus! {

/// Arguments of the build command.
#[derive(Debug, Clone)]
pub struct BuildArgs {
    /// Path to the project directory.
    pub project: String,
    /// Scheme to build.
    pub scheme: String,
    /// Build configuration (debug/release).
    pub configuration: String,
    /// Target simulator device name.
    pub device: Option<String>,
    /// Clean before building.
    pub clean: bool,
    /// Do not stream build logs.
    pub no_logs: bool,
}

/// Arguments of the run command.
#[derive(Debug, Clone)]
pub struct RunArgs {
    /// Path to the project directory.
    pub project: String,
    /// Scheme to build and run.
    pub scheme: String,
    /// Target simulator device name.
    pub device: Option<String>,
    /// Arguments passed to the app.
    pub args: Vec<String>,
    /// Environment variables for the app, as KEY=VALUE text.
    pub env: Vec<String>,
    /// Do not stream logs.
    pub no_logs: bool,
}

/// The VM management subcommands.
#[derive(Debug, Clone)]
pub enum VmCommands {
    /// Start the VM.
    Start { headless: bool, vnc_port: u16, no_wait: bool },
    /// Stop the VM.
    Stop,
    /// Show VM status.
    Status,
    /// Open the browser VNC client.
    Vnc { port: u16 },
}

/// The configuration subcommands.
#[derive(Debug, Clone)]
pub enum ConfigCommands {
    /// Initialize the configuration file.
    Init { force: bool },
    /// Show the current configuration.
    Show,
    /// Set one configuration value.
    SetValue { key: String, value: String },
}

} // verus!
