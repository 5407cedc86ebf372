//! The commands and their arguments.
use vstd::prelude::*;

verus! {

/// A parsed command line.
#[derive(Debug, Clone, PartialEq, Eq)]
pub struct Cli {
    /// How often `-v` was given.
    pub verbose: u8,
    pub command: Commands,
}

#[derive(Debug, Clone, PartialEq, Eq)]
pub enum Commands {
    /// Send files or directories with word-code pairing.
    Send(SendArgs),
    /// Receive files by entering the pairing word code.
    Receive(ReceiveArgs),
    /// Clean up the blob caches of both roles.
    Cleanup,
    /// Show or modify the configuration file.
    Config(ConfigArgs),
}

#[derive(Debug, Clone, PartialEq, Eq)]
pub struct SendArgs {
    /// Files or directories to send.
    pub paths: Vec<String>,
}

#[derive(Debug, Clone, PartialEq, Eq)]
pub struct ReceiveArgs {
    /// Word code to receive with; asked for when omitted.
    pub code: Option<String>,
    /// Directory to save received files into.
    pub output: Option<String>,
}

#[derive(Debug, Clone, PartialEq, Eq)]
pub struct ConfigArgs {
    pub command: Option<ConfigCommands>,
}

#[derive(Debug, Clone, PartialEq, Eq)]
pub enum ConfigCommands {
    /// Print the effective configuration.
    Get(GetArgs),
    /// Set a configuration value and persist it.
    SetValue(SetArgs),
}

#[derive(Debug, Clone, PartialEq, Eq)]
pub struct GetArgs {
    /// Key to print; all keys when omitted.
    pub key: Option<String>,
}

#[derive(Debug, Clone, PartialEq, Eq)]
pub struct SetArgs {
    pub key: String,
    /// Value to store.
    pub value: String,
}

/// How much is logged.
#[derive(Debug, Clone, Copy, PartialEq, Eq, Structural)]
pub enum LogLevel {
    Warn,
    Info,
    Debug,
}

/// The log level for a count of `-v`.
pub fn log_level(verbose: u8) -> (level: LogLevel)
    ensures
        level == if verbose == 0 {
            LogLevel::Warn
        } else if verbose == 1 {
            LogLevel::Info
        } else {
            LogLevel::Debug
        },
{
    match verbose {
        0 => LogLevel::Warn,
        1 => LogLevel::Info,
        _ => LogLevel::Debug,
    }
}

/// The exit code for a command line that does not parse: a request for help or the version is no
/// error, and is the one that does not go to stderr.
pub fn parse_error_code(to_stderr: bool) -> (code: u8)
    ensures
        code == if to_stderr {
            1u8
        } else {
            0u8
        },
{
    if to_stderr {
        1
    } else {
        0
    }
}

/// The version that the command line reports.
pub fn crate_version() -> (version: &'static str)
    ensures
        version@ == "0.1.0"@,
{
    crate::crate_version()
}

} // verus!
