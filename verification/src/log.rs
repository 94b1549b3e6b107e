//! Log records: what the host is asked to write to its log sink.

use vstd::prelude::*;

verus! {

/// The two severities the log sink knows.
#[derive(Clone, Copy, Debug, PartialEq, Eq, Structural)]
pub enum LogLevel {
    /// Something was done.
    Info,
    /// Something could not be done.
    Error,
}

/// One line for the log sink: a severity and a plain text message.
#[derive(Debug, PartialEq, Eq)]
pub struct LogRecord {
    pub level: LogLevel,
    pub message: String,
}

/// A log record as contracts see it.
pub struct LogLine {
    pub level: LogLevel,
    pub message: Seq<char>,
}

impl View for LogRecord {
    type V = LogLine;

    open spec fn view(&self) -> LogLine {
        LogLine { level: self.level, message: self.message@ }
    }
}

impl DeepView for LogRecord {
    type V = LogLine;

    open spec fn deep_view(&self) -> LogLine {
        self@
    }
}

/// An informational record carrying `msg`.
pub fn log_info(msg: &str) -> (record: LogRecord)
    ensures
        record@ == (LogLine { level: LogLevel::Info, message: msg@ }),
{
    LogRecord { level: LogLevel::Info, message: String::from_str(msg) }
}

/// An error record carrying `msg`.
pub fn log_error(msg: &str) -> (record: LogRecord)
    ensures
        record@ == (LogLine { level: LogLevel::Error, message: msg@ }),
{
    LogRecord { level: LogLevel::Error, message: String::from_str(msg) }
}

} // verus!
