//! The log level of a run, as its name gives it.

use vstd::prelude::*;
use vstd::string::StringExecFns;

verus! {

/// The five levels of the log, the gravest first.
#[derive(Debug, Clone, Copy, PartialEq, Eq)]
pub enum LogLevel {
    Error,
    Warn,
    Info,
    Debug,
    Trace,
}

/// `s` in lower case.
pub uninterp spec fn spec_to_lowercase(s: Seq<char>) -> Seq<char>;

/// Trusted: `str::to_lowercase` of std. The string it returns depends on
/// `s` alone.
#[verifier::external_body]
fn lowercased(s: &str) -> (lower: String)
    ensures
        lower@ == spec_to_lowercase(s@),
{
    s.to_lowercase()
}

/// The level that goes by the lower-case name `name`, if any does.
pub open spec fn level_named(name: Seq<char>) -> Option<LogLevel> {
    if name == "error"@ {
        Some(LogLevel::Error)
    } else if name == "warn"@ {
        Some(LogLevel::Warn)
    } else if name == "info"@ {
        Some(LogLevel::Info)
    } else if name == "debug"@ {
        Some(LogLevel::Debug)
    } else if name == "trace"@ {
        Some(LogLevel::Trace)
    } else {
        None
    }
}

/// The level that a run logs at when it was asked for `requested`: the
/// level of that name, whatever the case of its letters, and
/// [`LogLevel::Info`] where no level has that name.
pub open spec fn level_chosen(requested: Seq<char>) -> LogLevel {
    match level_named(spec_to_lowercase(requested)) {
        Some(level) => level,
        None => LogLevel::Info,
    }
}

impl LogLevel {
    /// The name of a level, in lower case.
    pub open spec fn spec_name(self) -> Seq<char> {
        match self {
            LogLevel::Error => "error"@,
            LogLevel::Warn => "warn"@,
            LogLevel::Info => "info"@,
            LogLevel::Debug => "debug"@,
            LogLevel::Trace => "trace"@,
        }
    }

    /// The name of the level, in lower case: the filter that lets through
    /// this level and the graver ones.
    pub fn name(&self) -> (name: &'static str)
        ensures
            name@ == self.spec_name(),
    {
        match self {
            LogLevel::Error => "error",
            LogLevel::Warn => "warn",
            LogLevel::Info => "info",
            LogLevel::Debug => "debug",
            LogLevel::Trace => "trace",
        }
    }
}

/// The level that goes by the lower-case name `name`, if any does.
pub fn level_from_name(name: &str) -> (level: Option<LogLevel>)
    ensures
        level == level_named(name@),
{
    let name = String::from_str(name);
    if name == String::from_str("error") {
        Some(LogLevel::Error)
    } else if name == String::from_str("warn") {
        Some(LogLevel::Warn)
    } else if name == String::from_str("info") {
        Some(LogLevel::Info)
    } else if name == String::from_str("debug") {
        Some(LogLevel::Debug)
    } else if name == String::from_str("trace") {
        Some(LogLevel::Trace)
    } else {
        None
    }
}

/// The level that the name `requested` asks for, whatever the case of its
/// letters; none where no level has that name.
pub fn parse_log_level(requested: &str) -> (level: Option<LogLevel>)
    ensures
        level == level_named(spec_to_lowercase(requested@)),
{
    let lower = lowercased(requested);
    level_from_name(lower.as_str())
}

/// The level to log at when `requested` was asked for, and whether that
/// was the name of a level: where it was not, the level is
/// [`LogLevel::Info`].
pub fn choose_log_level(requested: &str) -> (choice: (LogLevel, bool))
    ensures
        choice.0 == level_chosen(requested@),
        choice.1 == level_named(spec_to_lowercase(requested@)).is_some(),
{
    match parse_log_level(requested) {
        Some(level) => (level, true),
        None => (LogLevel::Info, false),
    }
}

/// Every level is the one that its own name gives.
pub proof fn lemma_name_gives_level(level: LogLevel)
    ensures
        level_named(level.spec_name()) == Some(level),
{
    reveal_strlit("error");
    reveal_strlit("warn");
    reveal_strlit("info");
    reveal_strlit("debug");
    reveal_strlit("trace");
    assert("error"@.len() == 5 && "warn"@.len() == 4 && "info"@.len() == 4 && "debug"@.len() == 5
        && "trace"@.len() == 5);
    assert("error"@[0] == 'e' && "debug"@[0] == 'd' && "trace"@[0] == 't');
    assert("warn"@[0] == 'w' && "info"@[0] == 'i');
}

} // verus!
