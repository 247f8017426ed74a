//! Logging severity levels.

use vstd::prelude::*;

verus! {

/// Telemetry severity level, ordered from least to most severe.
#[derive(Debug, Clone, Copy, PartialEq, Eq, PartialOrd, Ord, Hash, Structural)]
pub enum Level {
    /// Verbose debugging information.
    Trace,
    /// Development/debugging information.
    Debug,
    /// Normal operational information.
    Info,
    /// Potential issues that don't prevent operation.
    Warn,
    /// Errors that affect operation.
    Error,
}

/// Numeric severity of a level: Trace is 0, Error is 4.
pub open spec fn level_severity(level: Level) -> u8 {
    match level {
        Level::Trace => 0,
        Level::Debug => 1,
        Level::Info => 2,
        Level::Warn => 3,
        Level::Error => 4,
    }
}

/// The uppercase name of a level.
pub open spec fn level_name(level: Level) -> Seq<char> {
    match level {
        Level::Trace => "TRACE"@,
        Level::Debug => "DEBUG"@,
        Level::Info => "INFO"@,
        Level::Warn => "WARN"@,
        Level::Error => "ERROR"@,
    }
}

impl Level {
    /// Returns the level as a static string.
    pub fn as_str(&self) -> (s: &'static str)
        ensures
            s@ == level_name(*self),
    {
        match self {
            Level::Trace => "TRACE",
            Level::Debug => "DEBUG",
            Level::Info => "INFO",
            Level::Warn => "WARN",
            Level::Error => "ERROR",
        }
    }

    /// Numeric severity (Trace = 0 .. Error = 4); the order of levels is the order of these numbers.
    pub fn severity(&self) -> (n: u8)
        ensures
            n == level_severity(*self),
    {
        match self {
            Level::Trace => 0,
            Level::Debug => 1,
            Level::Info => 2,
            Level::Warn => 3,
            Level::Error => 4,
        }
    }
}

impl From<u8> for Level {
    /// Decodes a stored severity byte; unknown values map to `Info`.
    fn from(value: u8) -> (l: Level) {
        match value {
            0 => Level::Trace,
            1 => Level::Debug,
            3 => Level::Warn,
            4 => Level::Error,
            _ => Level::Info,
        }
    }
}

impl vstd::std_specs::convert::FromSpecImpl<u8> for Level {
    open spec fn obeys_from_spec() -> bool {
        true
    }

    open spec fn from_spec(v: u8) -> Self {
        level_from_byte(v)
    }
}

/// The level that a stored severity byte denotes (unknown bytes denote `Info`).
pub open spec fn level_from_byte(value: u8) -> Level {
    if value == 0 {
        Level::Trace
    } else if value == 1 {
        Level::Debug
    } else if value == 3 {
        Level::Warn
    } else if value == 4 {
        Level::Error
    } else {
        Level::Info
    }
}

/// Decoding the severity of a level gives the level back.
pub proof fn law_level_severity_round_trip(level: Level)
    ensures
        level_from_byte(level_severity(level)) == level,
{
}


/// Level names are non-empty uppercase ASCII words, and different levels have
/// different names and different severities.
pub proof fn law_level_names_distinct(a: Level, b: Level)
    ensures
        level_name(a).len() > 0,
        forall|i: int| 0 <= i < level_name(a).len() ==> 'A' <= #[trigger] level_name(a)[i] <= 'Z',
        a != b ==> level_name(a) != level_name(b),
        a != b ==> level_severity(a) != level_severity(b),
{
    match a {
        Level::Trace => {
            reveal_strlit("TRACE");
            assert(level_name(a) =~= seq!['T', 'R', 'A', 'C', 'E']);
        },
        Level::Debug => {
            reveal_strlit("DEBUG");
            assert(level_name(a) =~= seq!['D', 'E', 'B', 'U', 'G']);
        },
        Level::Info => {
            reveal_strlit("INFO");
            assert(level_name(a) =~= seq!['I', 'N', 'F', 'O']);
        },
        Level::Warn => {
            reveal_strlit("WARN");
            assert(level_name(a) =~= seq!['W', 'A', 'R', 'N']);
        },
        Level::Error => {
            reveal_strlit("ERROR");
            assert(level_name(a) =~= seq!['E', 'R', 'R', 'O', 'R']);
        },
    }
    match b {
        Level::Trace => {
            reveal_strlit("TRACE");
            assert(level_name(b) =~= seq!['T', 'R', 'A', 'C', 'E']);
        },
        Level::Debug => {
            reveal_strlit("DEBUG");
            assert(level_name(b) =~= seq!['D', 'E', 'B', 'U', 'G']);
        },
        Level::Info => {
            reveal_strlit("INFO");
            assert(level_name(b) =~= seq!['I', 'N', 'F', 'O']);
        },
        Level::Warn => {
            reveal_strlit("WARN");
            assert(level_name(b) =~= seq!['W', 'A', 'R', 'N']);
        },
        Level::Error => {
            reveal_strlit("ERROR");
            assert(level_name(b) =~= seq!['E', 'R', 'R', 'O', 'R']);
        },
    }
    if a != b && level_name(a) == level_name(b) {
        assert(level_name(a).len() == level_name(b).len());
        assert(level_name(a)[0] == level_name(b)[0]);
        assert(level_name(a)[1] == level_name(b)[1]);
    }
}

} // verus!
