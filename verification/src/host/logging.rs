//! Log severities shared by the console views.

use vstd::prelude::*;

verus! {

/// Log severity, from most to least verbose.
#[derive(Clone, Copy, Debug, PartialEq, Eq, Structural)]
pub enum LogLevel {
    Trace,
    Debug,
    Info,
    Warn,
    Error,
}

/// Numeric rank of a level: more severe levels rank higher.
pub open spec fn spec_severity(level: LogLevel) -> u8 {
    match level {
        LogLevel::Trace => 0,
        LogLevel::Debug => 1,
        LogLevel::Info => 2,
        LogLevel::Warn => 3,
        LogLevel::Error => 4,
    }
}

/// Return the numeric rank of `level`.
pub fn severity(level: LogLevel) -> (rank: u8)
    ensures
        rank == spec_severity(level),
{
    match level {
        LogLevel::Trace => 0,
        LogLevel::Debug => 1,
        LogLevel::Info => 2,
        LogLevel::Warn => 3,
        LogLevel::Error => 4,
    }
}

/// Whether a view filtering at `current` shows messages at `incoming`.
pub open spec fn spec_allows(current: LogLevel, incoming: LogLevel) -> bool {
    spec_severity(incoming) >= spec_severity(current)
}

/// Return whether a view filtering at `current` shows messages at `incoming`.
pub fn allows(current: LogLevel, incoming: LogLevel) -> (shown: bool)
    ensures
        shown == spec_allows(current, incoming),
{
    severity(incoming) >= severity(current)
}

/// Upper-case label of a level.
pub open spec fn spec_level_label(level: LogLevel) -> &'static str {
    match level {
        LogLevel::Trace => "TRACE",
        LogLevel::Debug => "DEBUG",
        LogLevel::Info => "INFO",
        LogLevel::Warn => "WARN",
        LogLevel::Error => "ERROR",
    }
}

/// Return the upper-case label of `level`.
pub fn level_label(level: LogLevel) -> (label: &'static str)
    ensures
        label == spec_level_label(level),
{
    match level {
        LogLevel::Trace => "TRACE",
        LogLevel::Debug => "DEBUG",
        LogLevel::Info => "INFO",
        LogLevel::Warn => "WARN",
        LogLevel::Error => "ERROR",
    }
}

/// Filtering at a level shows that level and every more severe one; levels
/// form a chain, so a stricter filter shows a subset of what a looser one shows.
pub proof fn lemma_allows_is_threshold(current: LogLevel, incoming: LogLevel, stricter: LogLevel)
    ensures
        spec_allows(current, current),
        spec_allows(stricter, incoming) && spec_allows(current, stricter) ==> spec_allows(current, incoming),
{
}

} // verus!
