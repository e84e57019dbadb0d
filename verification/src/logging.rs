//! How the process-wide log sink is set up.

use vstd::prelude::*;

verus! {

/// Where the sink takes its verbosity from.
#[derive(Debug, Clone, Copy, PartialEq, Eq, Structural)]
pub enum Verbosity {
    /// From the override that the environment holds.
    FromEnvironment,
    /// Informational messages and above.
    Info,
}

/// The precision of the time stamp at the start of each log line.
#[derive(Debug, Clone, Copy, PartialEq, Eq, Structural)]
pub enum TimestampPrecision {
    Seconds,
    Millis,
}

/// The settings of the log sink.
#[derive(Debug, Clone, Copy, PartialEq, Eq, Structural)]
pub struct LogSettings {
    pub verbosity: Verbosity,
    pub timestamp: TimestampPrecision,
}

/// The settings for a process, given whether its environment overrides the
/// verbosity.
pub open spec fn log_settings(override_present: bool) -> LogSettings {
    LogSettings {
        verbosity: if override_present {
            Verbosity::FromEnvironment
        } else {
            Verbosity::Info
        },
        timestamp: TimestampPrecision::Millis,
    }
}

/// The name of the environment variable that overrides the verbosity.
pub fn verbosity_variable() -> (name: &'static str)
    ensures
        name@ == "RUST_LOG"@,
{
    "RUST_LOG"
}

/// Decides the settings of the log sink. An override in the environment is
/// honoured; without one the verbosity is informational. Time stamps have
/// milliseconds either way.
pub fn setup_logging(override_present: bool) -> (settings: LogSettings)
    ensures
        settings == log_settings(override_present),
{
    let verbosity = if override_present {
        Verbosity::FromEnvironment
    } else {
        Verbosity::Info
    };
    LogSettings { verbosity, timestamp: TimestampPrecision::Millis }
}

} // verus!
