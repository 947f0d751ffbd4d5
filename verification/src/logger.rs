//! Structured logging: rendering log records for an external sink.
//!
//! The core only builds the structured record; actually delivering it (to a
//! tracing subscriber, stderr, or any other sink) is the caller's business
//! and is fire-and-forget from the core's perspective.

use vstd::prelude::*;

use crate::stamp::now_micros;

verus! {

/// Severity of a log record.
#[derive(Debug, Clone, Copy, PartialEq, Eq, Structural)]
pub enum LogLevel {
    Trace,
    Debug,
    Info,
    Warn,
    Error,
}

impl LogLevel {
    /// The level's conventional upper-case rendering.
    pub open spec fn name_spec(self) -> Seq<char> {
        match self {
            LogLevel::Trace => "TRACE"@,
            LogLevel::Debug => "DEBUG"@,
            LogLevel::Info => "INFO"@,
            LogLevel::Warn => "WARN"@,
            LogLevel::Error => "ERROR"@,
        }
    }

    /// Renders the level's name.
    pub fn name(&self) -> (r: String)
        ensures
            r@ == self.name_spec(),
    {
        match self {
            LogLevel::Trace => "TRACE".to_string(),
            LogLevel::Debug => "DEBUG".to_string(),
            LogLevel::Info => "INFO".to_string(),
            LogLevel::Warn => "WARN".to_string(),
            LogLevel::Error => "ERROR".to_string(),
        }
    }
}

/// One structured log record: when, how severe, from which target, the
/// message, and an opaque document of extra fields.
#[derive(Debug, Clone)]
pub struct LogEntry {
    pub timestamp: i64,
    pub level: String,
    pub message: String,
    pub target: String,
    pub fields: serde_json::Value,
}

/// Builds structured log records. Stateless: the record is returned to the
/// caller, which forwards it to whatever sink it uses.
pub struct Logger;

impl Logger {
    /// Creates a logger.
    pub fn new() -> Self {
        Logger
    }

    /// Renders one log record with the current time; the caller forwards it.
    pub fn log(&self, level: LogLevel, target: &str, message: &str, fields: serde_json::Value) -> (r:
        LogEntry)
        ensures
            r.level@ == level.name_spec(),
            r.message@ == message@,
            r.target@ == target@,
            r.fields == fields,
    {
        LogEntry {
            timestamp: now_micros(),
            level: level.name(),
            message: message.to_string(),
            target: target.to_string(),
            fields,
        }
    }
}

impl Default for Logger {
    /// The same as `Logger::new`.
    fn default() -> Self {
        Logger::new()
    }
}

} // verus!
