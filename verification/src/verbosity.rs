//! Log-level selection.
//!
//! The bridge logs at warning severity by default; each repetition of the
//! verbosity flag raises the level one step, up to debug.  The choice is made
//! here once at startup and handed to the logging backend outside.

use vstd::prelude::*;

verus! {

/// The severities the bridge can log at, least verbose first.
#[derive(Clone, Copy, PartialEq, Eq, Structural, Debug)]
pub enum LogLevel {
    ErrorsOnly,
    Warning,
    Info,
    Debug,
}

/// The level a verbosity count selects: warnings by default, one step more
/// per repetition, saturating at debug.
pub open spec fn spec_log_level(verbose: u8) -> LogLevel {
    if verbose == 0 {
        LogLevel::Warning
    } else if verbose == 1 {
        LogLevel::Info
    } else {
        LogLevel::Debug
    }
}

/// Select the log level for a verbosity count.
pub fn select_log_level(verbose: u8) -> (l: LogLevel)
    ensures
        l == spec_log_level(verbose),
{
    if verbose == 0 {
        LogLevel::Warning
    } else if verbose == 1 {
        LogLevel::Info
    } else {
        LogLevel::Debug
    }
}

/// The name a level goes by in a logging filter.
pub open spec fn spec_filter_name(l: LogLevel) -> Seq<char> {
    match l {
        LogLevel::ErrorsOnly => "error"@,
        LogLevel::Warning => "warn"@,
        LogLevel::Info => "info"@,
        LogLevel::Debug => "debug"@,
    }
}

impl LogLevel {
    /// The filter string for this level.
    pub fn filter_name(&self) -> (r: &'static str)
        ensures
            r@ == spec_filter_name(*self),
    {
        match self {
            LogLevel::ErrorsOnly => "error",
            LogLevel::Warning => "warn",
            LogLevel::Info => "info",
            LogLevel::Debug => "debug",
        }
    }
}

} // verus!
