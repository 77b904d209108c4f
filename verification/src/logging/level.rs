//! Log levels: the integers the C side uses, the internal severities, and
//! the filter directive of each.
use vstd::prelude::*;

use crate::status::ArenaStatus;

verus! {

/// Log level as the C side names it.
#[derive(Clone, Copy, Debug, PartialEq, Eq, Structural)]
pub enum ArenaLogLevel {
    Error,
    Warn,
    Info,
    Debug,
    Trace,
}

/// Internal severity of a dispatched record.
#[derive(Clone, Copy, Debug, PartialEq, Eq, Structural)]
pub enum Level {
    Error,
    Warn,
    Info,
    Debug,
    Trace,
}

/// The integer of each level on the C side.
pub open spec fn log_level_code(l: ArenaLogLevel) -> i32 {
    match l {
        ArenaLogLevel::Error => 1,
        ArenaLogLevel::Warn => 2,
        ArenaLogLevel::Info => 3,
        ArenaLogLevel::Debug => 4,
        ArenaLogLevel::Trace => 5,
    }
}

/// The level that an integer names, where it names one.
pub open spec fn log_level_of_code(level: i32) -> Option<ArenaLogLevel> {
    if level == 1 {
        Some(ArenaLogLevel::Error)
    } else if level == 2 {
        Some(ArenaLogLevel::Warn)
    } else if level == 3 {
        Some(ArenaLogLevel::Info)
    } else if level == 4 {
        Some(ArenaLogLevel::Debug)
    } else if level == 5 {
        Some(ArenaLogLevel::Trace)
    } else {
        None
    }
}

/// The internal severity of each C-side level.
pub open spec fn internal_level(l: ArenaLogLevel) -> Level {
    match l {
        ArenaLogLevel::Error => Level::Error,
        ArenaLogLevel::Warn => Level::Warn,
        ArenaLogLevel::Info => Level::Info,
        ArenaLogLevel::Debug => Level::Debug,
        ArenaLogLevel::Trace => Level::Trace,
    }
}

/// The C-side integer with which a record of each severity is delivered.
pub open spec fn severity_code(l: Level) -> i32 {
    match l {
        Level::Error => 1,
        Level::Warn => 2,
        Level::Info => 3,
        Level::Debug => 4,
        Level::Trace => 5,
    }
}

/// The level at which the default logging target publishes a record of
/// level `level`: the level itself where it is valid, `Info` otherwise.
pub open spec fn publish_level(level: i32) -> i32 {
    if log_level_of_code(level) is Some {
        level
    } else {
        3
    }
}

impl ArenaLogLevel {
    /// The integer of this level on the C side.
    pub fn code(&self) -> (r: i32)
        ensures
            r == log_level_code(*self),
    {
        match self {
            ArenaLogLevel::Error => 1,
            ArenaLogLevel::Warn => 2,
            ArenaLogLevel::Info => 3,
            ArenaLogLevel::Debug => 4,
            ArenaLogLevel::Trace => 5,
        }
    }
}

impl Level {
    /// The filter directive that lets records of this severity and above through.
    pub fn directive(&self) -> (r: &'static str)
        ensures
            *self == Level::Error ==> r@ == "error"@,
            *self == Level::Warn ==> r@ == "warn"@,
            *self == Level::Info ==> r@ == "info"@,
            *self == Level::Debug ==> r@ == "debug"@,
            *self == Level::Trace ==> r@ == "trace"@,
    {
        match self {
            Level::Error => "error",
            Level::Warn => "warn",
            Level::Info => "info",
            Level::Debug => "debug",
            Level::Trace => "trace",
        }
    }
}

/// The level that `level` names on the C side, where it names one.
pub fn arena_log_level_from_i32(level: i32) -> (r: Option<ArenaLogLevel>)
    ensures
        r == log_level_of_code(level),
{
    if level == 1 {
        Some(ArenaLogLevel::Error)
    } else if level == 2 {
        Some(ArenaLogLevel::Warn)
    } else if level == 3 {
        Some(ArenaLogLevel::Info)
    } else if level == 4 {
        Some(ArenaLogLevel::Debug)
    } else if level == 5 {
        Some(ArenaLogLevel::Trace)
    } else {
        None
    }
}

/// The internal severity of a C-side level.
pub fn to_internal_level(level: ArenaLogLevel) -> (r: Level)
    ensures
        r == internal_level(level),
{
    match level {
        ArenaLogLevel::Error => Level::Error,
        ArenaLogLevel::Warn => Level::Warn,
        ArenaLogLevel::Info => Level::Info,
        ArenaLogLevel::Debug => Level::Debug,
        ArenaLogLevel::Trace => Level::Trace,
    }
}

/// The C-side integer with which a record of `severity` is delivered to a log target.
pub fn delivered_level_code(severity: Level) -> (r: i32)
    ensures
        r == severity_code(severity),
{
    match severity {
        Level::Error => 1,
        Level::Warn => 2,
        Level::Info => 3,
        Level::Debug => 4,
        Level::Trace => 5,
    }
}

/// The level at which the default logging target publishes a record of level `level`.
pub fn dispatcher_default_logging_target_publish_level_of(level: i32) -> (r: i32)
    ensures
        r == publish_level(level),
{
    match arena_log_level_from_i32(level) {
        Some(l) => l.code(),
        None => 3,
    }
}

/// The severity that a request to set the global log level to `level`
/// installs, or `InvalidArgument` where `level` names no level.
pub fn requested_log_level(level: i32) -> (r: Result<Level, ArenaStatus>)
    ensures
        match log_level_of_code(level) {
            Some(l) => r == Ok::<Level, ArenaStatus>(internal_level(l)),
            None => r == Err::<Level, ArenaStatus>(ArenaStatus::InvalidArgument),
        },
{
    match arena_log_level_from_i32(level) {
        Some(l) => Ok(to_internal_level(l)),
        None => Err(ArenaStatus::InvalidArgument),
    }
}

/// Reading back the integer of a level gives the level.
pub proof fn lemma_level_code_roundtrip(l: ArenaLogLevel)
    ensures
        log_level_of_code(log_level_code(l)) == Some(l),
{
}

/// An integer names a level exactly when it is the integer of that level.
pub proof fn lemma_level_of_code_inverse(level: i32)
    ensures
        log_level_of_code(level) matches Some(l) ==> log_level_code(l) == level,
        log_level_of_code(level) is Some <==> 1 <= level <= 5,
{
}

/// The C side numbers levels from the most to the least severe, error 1
/// through trace 5, and each level keeps its own severity inside.
pub proof fn lemma_level_codes_by_severity(l: ArenaLogLevel)
    ensures
        l is Error <==> log_level_code(l) == 1,
        l is Warn <==> log_level_code(l) == 2,
        l is Info <==> log_level_code(l) == 3,
        l is Debug <==> log_level_code(l) == 4,
        l is Trace <==> log_level_code(l) == 5,
        l is Error <==> internal_level(l) is Error,
        l is Warn <==> internal_level(l) is Warn,
        l is Info <==> internal_level(l) is Info,
        l is Debug <==> internal_level(l) is Debug,
        l is Trace <==> internal_level(l) is Trace,
{
}

/// A record logged at a C-side level is delivered back with that level's integer.
pub proof fn lemma_delivery_keeps_level(l: ArenaLogLevel)
    ensures
        severity_code(internal_level(l)) == log_level_code(l),
{
}

/// The publish level is always a valid level, leaves valid levels as they
/// are, and so applying it twice changes nothing.
pub proof fn lemma_publish_level_normalizes(level: i32)
    ensures
        log_level_of_code(publish_level(level)) is Some,
        log_level_of_code(level) is Some ==> publish_level(level) == level,
        publish_level(publish_level(level)) == publish_level(level),
{
}

} // verus!
