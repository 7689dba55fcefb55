//! Log severities: a total order with parsing and display names.
use vstd::prelude::*;
use core::cmp::Ordering;
use crate::text::{same_text, text_of};

verus! {

/// Severity of a log message, from least to most severe. `Silent` lies above
/// the six message levels, so a logger whose threshold is `Silent` writes none
/// of them.
#[derive(Debug, Clone, Copy, PartialEq, Eq, Structural, Hash)]
pub enum LogLevel {
    Trace,
    Debug,
    Info,
    Warn,
    Error,
    Fatal,
    Silent,
}

/// The error of parsing a string that names no severity.
#[derive(Debug, Clone, Copy, PartialEq, Eq, Structural)]
pub struct ParseLogLevelError;

impl LogLevel {
    /// Position of the level in the order, starting at one for `Trace`.
    pub open spec fn ordinal(self) -> int {
        match self {
            LogLevel::Trace => 1,
            LogLevel::Debug => 2,
            LogLevel::Info => 3,
            LogLevel::Warn => 4,
            LogLevel::Error => 5,
            LogLevel::Fatal => 6,
            LogLevel::Silent => 7,
        }
    }

    /// The lowercase name that parsing accepts.
    pub open spec fn lower_name(self) -> Seq<char> {
        match self {
            LogLevel::Trace => "trace"@,
            LogLevel::Debug => "debug"@,
            LogLevel::Info => "info"@,
            LogLevel::Warn => "warn"@,
            LogLevel::Error => "error"@,
            LogLevel::Fatal => "fatal"@,
            LogLevel::Silent => "silent"@,
        }
    }

    /// The uppercase name shown in a log line.
    pub open spec fn upper_name(self) -> Seq<char> {
        match self {
            LogLevel::Trace => "TRACE"@,
            LogLevel::Debug => "DEBUG"@,
            LogLevel::Info => "INFO"@,
            LogLevel::Warn => "WARN"@,
            LogLevel::Error => "ERROR"@,
            LogLevel::Fatal => "FATAL"@,
            LogLevel::Silent => "SILENT"@,
        }
    }

    /// Position of the level in the order, starting at one for `Trace`.
    pub fn rank(&self) -> (r: u8)
        ensures
            r as int == self.ordinal(),
    {
        match self {
            LogLevel::Trace => 1,
            LogLevel::Debug => 2,
            LogLevel::Info => 3,
            LogLevel::Warn => 4,
            LogLevel::Error => 5,
            LogLevel::Fatal => 6,
            LogLevel::Silent => 7,
        }
    }

    /// The uppercase name of the level, as it appears in a log line.
    pub fn display_name(&self) -> (r: &'static str)
        ensures
            r@ == self.upper_name(),
    {
        match self {
            LogLevel::Trace => "TRACE",
            LogLevel::Debug => "DEBUG",
            LogLevel::Info => "INFO",
            LogLevel::Warn => "WARN",
            LogLevel::Error => "ERROR",
            LogLevel::Fatal => "FATAL",
            LogLevel::Silent => "SILENT",
        }
    }

    /// The uppercase name of the level, as an owned string.
    pub fn to_display_name(&self) -> (r: String)
        ensures
            r@ == self.upper_name(),
    {
        text_of(self.display_name())
    }

    /// Reads a level from its name already in lowercase.
    pub fn from_lowercase_name(name: &str) -> (r: Result<LogLevel, ParseLogLevelError>)
        ensures
            r == parsed(name@),
    {
        if same_text(name, "trace") {
            Ok(LogLevel::Trace)
        } else if same_text(name, "debug") {
            Ok(LogLevel::Debug)
        } else if same_text(name, "info") {
            Ok(LogLevel::Info)
        } else if same_text(name, "warn") {
            Ok(LogLevel::Warn)
        } else if same_text(name, "error") {
            Ok(LogLevel::Error)
        } else if same_text(name, "fatal") {
            Ok(LogLevel::Fatal)
        } else if same_text(name, "silent") {
            Ok(LogLevel::Silent)
        } else {
            Err(ParseLogLevelError)
        }
    }

    /// Reads a level from its name in any letter case.
    pub fn parse(s: &str) -> (r: Result<LogLevel, ParseLogLevelError>)
        ensures
            r == parsed(lower_of(s@)),
    {
        let lowered = lowercase(s);
        LogLevel::from_lowercase_name(lowered.as_str())
    }
}

/// The level that a lowercase name denotes, if any.
pub open spec fn level_named(name: Seq<char>) -> Option<LogLevel> {
    if name == "trace"@ {
        Some(LogLevel::Trace)
    } else if name == "debug"@ {
        Some(LogLevel::Debug)
    } else if name == "info"@ {
        Some(LogLevel::Info)
    } else if name == "warn"@ {
        Some(LogLevel::Warn)
    } else if name == "error"@ {
        Some(LogLevel::Error)
    } else if name == "fatal"@ {
        Some(LogLevel::Fatal)
    } else if name == "silent"@ {
        Some(LogLevel::Silent)
    } else {
        None
    }
}

/// What parsing a lowercase name gives.
pub open spec fn parsed(name: Seq<char>) -> Result<LogLevel, ParseLogLevelError> {
    match level_named(name) {
        Some(l) => Ok(l),
        None => Err(ParseLogLevelError),
    }
}

/// The lowercase form of a text, as `str::to_lowercase` gives it.
pub uninterp spec fn lower_of(s: Seq<char>) -> Seq<char>;

/// Relies on `str::to_lowercase`: the result depends on the characters alone.
#[verifier::external_body]
fn lowercase(s: &str) -> (r: String)
    ensures
        r@ == lower_of(s@),
{
    s.to_lowercase()
}

/// The comparison of two ordinals.
pub open spec fn ordering_of(a: int, b: int) -> Ordering {
    if a < b {
        Ordering::Less
    } else if a == b {
        Ordering::Equal
    } else {
        Ordering::Greater
    }
}

impl PartialOrd for LogLevel {
    fn partial_cmp(&self, other: &LogLevel) -> (r: Option<Ordering>) {
        let a = self.rank();
        let b = other.rank();
        if a < b {
            Some(Ordering::Less)
        } else if a == b {
            Some(Ordering::Equal)
        } else {
            Some(Ordering::Greater)
        }
    }
}

impl vstd::std_specs::cmp::PartialOrdSpecImpl for LogLevel {
    open spec fn obeys_partial_cmp_spec() -> bool {
        true
    }

    open spec fn partial_cmp_spec(&self, other: &LogLevel) -> Option<Ordering> {
        Some(ordering_of(self.ordinal(), other.ordinal()))
    }
}

impl core::str::FromStr for LogLevel {
    type Err = ParseLogLevelError;

    fn from_str(s: &str) -> Result<LogLevel, ParseLogLevelError> {
        LogLevel::parse(s)
    }
}

} // verus!
