//! Severity levels of log records, numbered as the `slog` crate numbers them.

use vstd::prelude::*;

verus! {

/// The severity of a log record, from the most severe (`Critical`) to the
/// most verbose (`Trace`).
#[derive(Clone, Copy, Debug, PartialEq, Eq, Structural)]
pub enum LogLevel {
    Critical,
    Error,
    Warning,
    Info,
    Debug,
    Trace,
}

/// The number of a level: 1 for `Critical` up to 6 for `Trace`.
pub open spec fn level_number(l: LogLevel) -> nat {
    match l {
        LogLevel::Critical => 1,
        LogLevel::Error => 2,
        LogLevel::Warning => 3,
        LogLevel::Info => 4,
        LogLevel::Debug => 5,
        LogLevel::Trace => 6,
    }
}

/// The level with number `n`, if there is one.
pub open spec fn spec_level_from_number(n: nat) -> Option<LogLevel> {
    if n == 1 {
        Some(LogLevel::Critical)
    } else if n == 2 {
        Some(LogLevel::Error)
    } else if n == 3 {
        Some(LogLevel::Warning)
    } else if n == 4 {
        Some(LogLevel::Info)
    } else if n == 5 {
        Some(LogLevel::Debug)
    } else if n == 6 {
        Some(LogLevel::Trace)
    } else {
        None
    }
}

/// Calls `slog::Level::from_usize`. Its source maps 1 to 6 to `Critical`,
/// `Error`, `Warning`, `Info`, `Debug` and `Trace` and every other number
/// to `None`; the contract claims exactly that.
#[verifier::external_body]
pub(crate) fn level_from_usize(n: usize) -> (res: Option<LogLevel>)
    ensures
        res == spec_level_from_number(n as nat),
{
    match slog::Level::from_usize(n) {
        Some(slog::Level::Critical) => Some(LogLevel::Critical),
        Some(slog::Level::Error) => Some(LogLevel::Error),
        Some(slog::Level::Warning) => Some(LogLevel::Warning),
        Some(slog::Level::Info) => Some(LogLevel::Info),
        Some(slog::Level::Debug) => Some(LogLevel::Debug),
        Some(slog::Level::Trace) => Some(LogLevel::Trace),
        None => None,
    }
}

/// Numbering and lookup undo each other: the number of a level leads back
/// to that level, and a number that leads to a level is that level's number.
pub proof fn law_level_number_roundtrip(l: LogLevel, n: nat)
    ensures
        spec_level_from_number(level_number(l)) == Some(l),
        spec_level_from_number(n) == Some(l) ==> level_number(l) == n,
        spec_level_from_number(n) is Some <==> 1 <= n <= 6,
{
}

} // verus!
