//! The diagnostic logger's configuration and decisions.
//!
//! The logger itself writes to the console and a file and rotates that
//! file; those writes, and the clock that stamps each line, live in the
//! surrounding process.  This module holds the record of settings, the
//! level filter, the line format, and the rotation decision.

use vstd::prelude::*;
use vstd::string::*;

verus! {

/// A log line's severity, from most to least severe.
#[derive(Clone, Copy, Debug, PartialEq, Eq, Structural)]
pub enum LogLevel {
    Error,
    Warn,
    Info,
    Debug,
    Trace,
}

/// The position of a level in the severity order: `Error` is 0, `Trace`
/// is 4.
pub open spec fn level_rank(level: LogLevel) -> int {
    match level {
        LogLevel::Error => 0,
        LogLevel::Warn => 1,
        LogLevel::Info => 2,
        LogLevel::Debug => 3,
        LogLevel::Trace => 4,
    }
}

/// The lower-case name of a level, as written in each log line.
pub open spec fn level_text(level: LogLevel) -> Seq<char> {
    match level {
        LogLevel::Error => "error"@,
        LogLevel::Warn => "warn"@,
        LogLevel::Info => "info"@,
        LogLevel::Debug => "debug"@,
        LogLevel::Trace => "trace"@,
    }
}

/// The name of a log level.
pub fn level_str(level: LogLevel) -> (r: &'static str)
    ensures
        r@ == level_text(level),
{
    match level {
        LogLevel::Error => "error",
        LogLevel::Warn => "warn",
        LogLevel::Info => "info",
        LogLevel::Debug => "debug",
        LogLevel::Trace => "trace",
    }
}

/// The logger's settings: an optional file target, the size at which that
/// file rotates, and the level threshold.
pub struct LogConfig {
    pub log_filepath: Option<String>,
    pub log_max_size: u64,
    pub log_level: LogLevel,
}

impl LogConfig {
    /// A fresh configuration: no file target, a five-mebibyte rotation
    /// size, and the `Trace` threshold.
    pub fn new() -> (r: LogConfig)
        ensures
            r.log_filepath is None,
            r.log_max_size == 5 * 1024 * 1024,
            r.log_level == LogLevel::Trace,
    {
        LogConfig { log_filepath: None, log_max_size: 5 * 1024 * 1024, log_level: LogLevel::Trace }
    }

    /// Point the logger at a file.  Creating the file's parent directory
    /// is the surrounding process's task.
    pub fn set_log_filepath(&mut self, filepath: &str)
        ensures
            final(self).log_filepath matches Some(p) && p@ == filepath@,
            final(self).log_max_size == old(self).log_max_size,
            final(self).log_level == old(self).log_level,
    {
        self.log_filepath = Some(String::from_str(filepath));
    }

    pub fn set_log_max_size(&mut self, size: u64)
        ensures
            *final(self) == (LogConfig { log_max_size: size, ..*old(self) }),
    {
        self.log_max_size = size;
    }

    pub fn set_log_level(&mut self, level: LogLevel)
        ensures
            *final(self) == (LogConfig { log_level: level, ..*old(self) }),
    {
        self.log_level = level;
    }

    /// Whether a line of the given level is written to the log file: only
    /// levels at or past the configured threshold in the severity order
    /// are; the rest go to the console alone.
    pub fn writes_to_file(&self, level: LogLevel) -> (r: bool)
        ensures
            r == (level_rank(level) >= level_rank(self.log_level)),
    {
        let line_rank: u8 = match level {
            LogLevel::Error => 0,
            LogLevel::Warn => 1,
            LogLevel::Info => 2,
            LogLevel::Debug => 3,
            LogLevel::Trace => 4,
        };
        let threshold: u8 = match self.log_level {
            LogLevel::Error => 0,
            LogLevel::Warn => 1,
            LogLevel::Info => 2,
            LogLevel::Debug => 3,
            LogLevel::Trace => 4,
        };
        line_rank >= threshold
    }

    /// Whether the log file, at its current size, is due for rotation.
    pub fn needs_rotation(&self, file_size: u64) -> (r: bool)
        ensures
            r == (file_size > self.log_max_size),
    {
        file_size > self.log_max_size
    }
}

/// One formatted log line: the timestamp and the level in brackets, then
/// the message.
pub fn format_log_line(timestamp: &str, level: LogLevel, message: &str) -> (r: String)
    ensures
        r@ == "["@ + timestamp@ + "] ["@ + level_text(level) + "] "@ + message@,
{
    let mut line = String::from_str("[");
    line.append(timestamp);
    line.append("] [");
    line.append(level_str(level));
    line.append("] ");
    line.append(message);
    proof {
        assert(line@ =~= "["@ + timestamp@ + "] ["@ + level_text(level) + "] "@ + message@);
    }
    line
}

/// One line of the web-interface log: the timestamp, a space, and the
/// message.
pub fn format_web_log_line(timestamp: &str, message: &str) -> (r: String)
    ensures
        r@ == timestamp@ + " "@ + message@,
{
    let mut line = String::from_str(timestamp);
    line.append(" ");
    line.append(message);
    proof {
        assert(line@ =~= timestamp@ + " "@ + message@);
    }
    line
}

} // verus!
