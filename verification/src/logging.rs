//! The structured log entries that the hosting application forwards to its
//! UI stream. Reading the clock and picking a record's file or target
//! apart is the hosting application's business; the severity coding that
//! the UI relies on, and the assembly of an entry, are fixed here.

use vstd::prelude::*;

verus! {

/// One structured log entry: milliseconds since the Unix epoch, a numeric
/// severity code, the source tag, and the message text.
pub struct LogEntry {
    pub time_millis: i64,
    pub level: i32,
    pub tag: String,
    pub msg: String,
}

/// A log record's severity.
#[derive(Clone, Copy, Debug, PartialEq, Eq, Structural)]
pub enum LogLevel {
    Trace,
    Debug,
    Info,
    Warn,
    Error,
}

/// The numeric severity code of each level, spaced so that codes of
/// intermediate severities could be inserted between them.
pub open spec fn spec_level_code(level: LogLevel) -> i32 {
    match level {
        LogLevel::Trace => 5000,
        LogLevel::Debug => 10000,
        LogLevel::Info => 20000,
        LogLevel::Warn => 30000,
        LogLevel::Error => 40000,
    }
}

/// Maps a severity to its numeric code.
pub fn level_code(level: LogLevel) -> (r: i32)
    ensures
        r == spec_level_code(level),
{
    match level {
        LogLevel::Trace => 5000,
        LogLevel::Debug => 10000,
        LogLevel::Info => 20000,
        LogLevel::Warn => 30000,
        LogLevel::Error => 40000,
    }
}

/// Assembles the entry for one record: the timestamp and texts are kept
/// as given, and the severity is coded numerically.
pub fn make_log_entry(time_millis: i64, level: LogLevel, tag: String, msg: String) -> (e: LogEntry)
    ensures
        e.time_millis == time_millis,
        e.level == spec_level_code(level),
        e.tag@ == tag@,
        e.msg@ == msg@,
{
    LogEntry { time_millis, level: level_code(level), tag, msg }
}

} // verus!
