//! The command-line surface as the core sees it: plain, already-parsed
//! option values. Flag parsing itself is the CLI front-end's work.
use vstd::prelude::*;

verus! {

/// The log levels the command line accepts.
#[derive(Clone, Copy, Debug, PartialEq, Eq, Structural)]
pub enum LogLevel {
    Info,
    Debug,
    Error,
}

/// The name of a log level, as the logging filter expects it.
pub open spec fn spec_level_name(level: LogLevel) -> Seq<char> {
    match level {
        LogLevel::Info => "info"@,
        LogLevel::Debug => "debug"@,
        LogLevel::Error => "error"@,
    }
}

impl LogLevel {
    /// The level's name, as the logging filter expects it.
    pub fn as_str(&self) -> (r: &'static str)
        ensures
            r@ == spec_level_name(*self),
    {
        match *self {
            LogLevel::Info => "info",
            LogLevel::Debug => "debug",
            LogLevel::Error => "error",
        }
    }
}

/// The command-line options, parsed and defaulted by the CLI front-end
/// before the core sees them.
#[derive(Debug, PartialEq, Eq)]
pub struct Opts {
    /// The listen address of the web surface.
    pub web_listen_address: String,
    /// The level the process logs at.
    pub log_level: LogLevel,
    /// The configuration file read at startup and on every reload signal.
    pub config_file: String,
}

} // verus!
