//! Message severities and the integer codes that select them.

use vstd::prelude::*;

verus! {

/// Severity of a log message, ranked `Debug < Info < Warning < Error < Panic`.
/// The ranking is the sole semantic: a message is emitted only when its
/// severity is at least the configured minimum.
#[derive(Clone, Copy, Debug, PartialEq, Eq, Structural)]
pub enum LogLevel {
    Debug,
    Info,
    Warning,
    Error,
    Panic,
}

impl LogLevel {
    /// Position of this severity in the ranking, `Debug` lowest.
    pub open spec fn severity(self) -> int {
        match self {
            LogLevel::Debug => 0,
            LogLevel::Info => 1,
            LogLevel::Warning => 2,
            LogLevel::Error => 3,
            LogLevel::Panic => 4,
        }
    }

    /// Executable ranking, agreeing with `severity`.
    pub fn rank(self) -> (r: u8)
        ensures
            r as int == self.severity(),
    {
        match self {
            LogLevel::Debug => 0,
            LogLevel::Info => 1,
            LogLevel::Warning => 2,
            LogLevel::Error => 3,
            LogLevel::Panic => 4,
        }
    }
}

/// Severity selected by an integer code: 0 through 4 pick the five
/// severities in rank order; every other code falls back to `Warning`.
pub open spec fn level_of_code(code: u8) -> LogLevel {
    if code == 0 {
        LogLevel::Debug
    } else if code == 1 {
        LogLevel::Info
    } else if code == 2 {
        LogLevel::Warning
    } else if code == 3 {
        LogLevel::Error
    } else if code == 4 {
        LogLevel::Panic
    } else {
        LogLevel::Warning
    }
}

/// Executable form of `level_of_code`.
pub fn level_from_code(code: u8) -> (r: LogLevel)
    ensures
        r == level_of_code(code),
{
    match code {
        0 => LogLevel::Debug,
        1 => LogLevel::Info,
        2 => LogLevel::Warning,
        3 => LogLevel::Error,
        4 => LogLevel::Panic,
        _ => LogLevel::Warning,
    }
}

/// On the in-range codes 0 through 4 the severity mapping is injective:
/// two such codes that select the same severity are the same code.
pub proof fn lemma_level_code_injective(a: u8, b: u8)
    requires
        a <= 4,
        b <= 4,
        level_of_code(a) == level_of_code(b),
    ensures
        a == b,
{
}

/// Every severity is selected by some in-range code, so together with
/// injectivity the codes 0 through 4 map bijectively onto the severities.
pub proof fn lemma_level_code_surjective(lvl: LogLevel)
    ensures
        exists|c: u8| c <= 4 && #[trigger] level_of_code(c) == lvl,
{
    match lvl {
        LogLevel::Debug => assert(level_of_code(0) == lvl),
        LogLevel::Info => assert(level_of_code(1) == lvl),
        LogLevel::Warning => assert(level_of_code(2) == lvl),
        LogLevel::Error => assert(level_of_code(3) == lvl),
        LogLevel::Panic => assert(level_of_code(4) == lvl),
    }
}

/// Every code outside 0 through 4 falls back to `Warning`.
pub proof fn lemma_level_code_fallback(code: u8)
    requires
        code > 4,
    ensures
        level_of_code(code) == LogLevel::Warning,
{
}

} // verus!
