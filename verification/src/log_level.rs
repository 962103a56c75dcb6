//! Severity of an audit-log entry.

use vstd::prelude::*;
use vstd::std_specs::convert::FromSpecImpl;

verus! {

/// Severity of an entry in the audit log.
#[derive(Clone, Copy, Debug, PartialEq, Eq, Structural)]
pub enum LogLevel {
    Debug,
    Info,
    Warning,
    Error,
}

/// The level that a stored code stands for. Codes outside `0..=3` read as
/// `Info`.
pub open spec fn level_of_code(code: int) -> LogLevel {
    if code == 0 {
        LogLevel::Debug
    } else if code == 2 {
        LogLevel::Warning
    } else if code == 3 {
        LogLevel::Error
    } else {
        LogLevel::Info
    }
}

impl LogLevel {
    /// The code under which this level is stored.
    pub open spec fn spec_code(self) -> int {
        match self {
            LogLevel::Debug => 0,
            LogLevel::Info => 1,
            LogLevel::Warning => 2,
            LogLevel::Error => 3,
        }
    }

    /// The code under which this level is stored.
    pub fn code(self) -> (c: i32)
        ensures
            c == self.spec_code(),
    {
        match self {
            LogLevel::Debug => 0,
            LogLevel::Info => 1,
            LogLevel::Warning => 2,
            LogLevel::Error => 3,
        }
    }
}

impl FromSpecImpl<i32> for LogLevel {
    open spec fn obeys_from_spec() -> bool {
        true
    }

    open spec fn from_spec(l: i32) -> LogLevel {
        level_of_code(l as int)
    }
}

impl From<i32> for LogLevel {
    fn from(l: i32) -> (level: LogLevel) {
        match l {
            0 => LogLevel::Debug,
            1 => LogLevel::Info,
            2 => LogLevel::Warning,
            3 => LogLevel::Error,
            _ => LogLevel::Info,
        }
    }
}

/// Storing a level and reading it back gives the same level.
pub proof fn lemma_code_round_trip(level: LogLevel)
    ensures
        0 <= level.spec_code() <= 3,
        level_of_code(level.spec_code()) == level,
{
}

} // verus!
