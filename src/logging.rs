use vstd::prelude::*;

verus! {

/// The severity of a log record, most severe first.
#[derive(Clone, Copy, Debug, PartialEq, Eq, Structural)]
pub enum LogLevel {
    Error,
    Warn,
    Info,
    Debug,
    Trace,
}

/// The severities of the emulator's debug port.
#[derive(Clone, Copy, Debug, PartialEq, Eq, Structural)]
pub enum DebugLevel {
    Fatal,
    Error,
    Warning,
    Info,
    Debug,
}

/// A level's verbosity: 1 for the most severe, 5 for the most verbose.
pub open spec fn verbosity(l: LogLevel) -> int {
    match l {
        LogLevel::Error => 1,
        LogLevel::Warn => 2,
        LogLevel::Info => 3,
        LogLevel::Debug => 4,
        LogLevel::Trace => 5,
    }
}

/// The port severity that a record's level is printed at; trace records have none.
pub open spec fn debug_level_of(l: LogLevel) -> Option<DebugLevel> {
    match l {
        LogLevel::Error => Some(DebugLevel::Error),
        LogLevel::Warn => Some(DebugLevel::Warning),
        LogLevel::Info => Some(DebugLevel::Info),
        LogLevel::Debug => Some(DebugLevel::Debug),
        LogLevel::Trace => None,
    }
}

/// The most verbose level that is enabled.
pub fn max_level() -> (r: LogLevel)
    ensures
        r == LogLevel::Info,
{
    LogLevel::Info
}

/// Maps a record's level to the port's severity.
pub fn debug_level_for(level: LogLevel) -> (r: Option<DebugLevel>)
    ensures
        r == debug_level_of(level),
{
    match level {
        LogLevel::Error => Some(DebugLevel::Error),
        LogLevel::Warn => Some(DebugLevel::Warning),
        LogLevel::Info => Some(DebugLevel::Info),
        LogLevel::Debug => Some(DebugLevel::Debug),
        LogLevel::Trace => None,
    }
}

/// The log back-end that writes to the emulator's debug port.
#[derive(Clone, Copy, Debug, Default)]
pub struct MgbaLogger;

impl MgbaLogger {
    /// Whether records of `level` are kept: those at info or more severe.
    pub fn enabled(&self, level: LogLevel) -> (r: bool)
        ensures
            r == (verbosity(level) <= verbosity(LogLevel::Info)),
    {
        match level {
            LogLevel::Error | LogLevel::Warn | LogLevel::Info => true,
            LogLevel::Debug | LogLevel::Trace => false,
        }
    }

    /// The port severity a record of `level` is printed at, or `None` when the record is
    /// dropped.
    pub fn log(&self, level: LogLevel) -> (r: Option<DebugLevel>)
        ensures
            r == if verbosity(level) <= verbosity(LogLevel::Info) {
                debug_level_of(level)
            } else {
                None
            },
            r is Some <==> verbosity(level) <= verbosity(LogLevel::Info),
    {
        if self.enabled(level) {
            debug_level_for(level)
        } else {
            None
        }
    }
}

/// Installs the logger on the emulator's debug port.
#[derive(Clone, Copy, Debug, Default)]
pub struct AgbLogPlugin;

} // verus!
