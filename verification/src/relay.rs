//! The relay of engine log lines into host logging.
//!
//! The engine hands over a level and a text. The relay decides the severity
//! and the source tag under which the host logs the line; emitting it is the
//! host's part.

use vstd::prelude::*;

verus! {

/// The level that the engine attaches to a log line, as the raw number that
/// crosses the boundary. Numbers beyond the four known levels can arrive.
#[derive(Debug, Clone, Copy, PartialEq, Eq, Structural)]
pub struct LogLevel {
    pub repr: u8,
}

/// The engine's number for a debug line.
pub const LEVEL_DEBUG: u8 = 0;

/// The engine's number for an informational line.
pub const LEVEL_INFO: u8 = 1;

/// The engine's number for a warning.
pub const LEVEL_WARNING: u8 = 2;

/// The engine's number for an error.
pub const LEVEL_ERROR: u8 = 3;

/// The severities of host logging, lowest first.
#[derive(Debug, Clone, Copy, PartialEq, Eq, Structural)]
pub enum Severity {
    Trace,
    Debug,
    Info,
    Warn,
    Error,
}

impl Severity {
    /// The place of a severity in the order from lowest to highest.
    pub open spec fn rank(self) -> nat {
        match self {
            Severity::Trace => 0,
            Severity::Debug => 1,
            Severity::Info => 2,
            Severity::Warn => 3,
            Severity::Error => 4,
        }
    }
}

/// One log line as the host is to emit it.
#[derive(Debug, Clone, Copy)]
pub struct LogRecord<'a> {
    pub severity: Severity,
    pub target: &'static str,
    pub message: &'a str,
}

/// The severity at which the host logs a line of the given engine level: the
/// corresponding one for the four known levels, the lowest for any other.
pub open spec fn severity_of(level: LogLevel) -> Severity {
    if level.repr == LEVEL_DEBUG {
        Severity::Debug
    } else if level.repr == LEVEL_INFO {
        Severity::Info
    } else if level.repr == LEVEL_WARNING {
        Severity::Warn
    } else if level.repr == LEVEL_ERROR {
        Severity::Error
    } else {
        Severity::Trace
    }
}

/// The source tag of every relayed line.
pub const LOG_TARGET: &'static str = "kakadu";

/// Relays one engine log line: the record carries the severity that belongs
/// to `level`, the fixed source tag, and the message as it came.
pub fn log<'a>(level: LogLevel, message: &'a str) -> (record: LogRecord<'a>)
    ensures
        record.severity == severity_of(level),
        record.target@ == LOG_TARGET@,
        record.message@ == message@,
{
    let severity = if level.repr == LEVEL_DEBUG {
        Severity::Debug
    } else if level.repr == LEVEL_INFO {
        Severity::Info
    } else if level.repr == LEVEL_WARNING {
        Severity::Warn
    } else if level.repr == LEVEL_ERROR {
        Severity::Error
    } else {
        Severity::Trace
    };
    LogRecord { severity, target: LOG_TARGET, message }
}

/// A level that the relay does not know is logged at the lowest severity,
/// and the known levels keep their order: a higher engine level is never
/// logged at a lower severity.
pub proof fn lemma_severity_order(level: LogLevel, other: LogLevel)
    ensures
        level.repr > LEVEL_ERROR ==> forall|severity: Severity|
            severity_of(level).rank() <= #[trigger] severity.rank(),
        level.repr <= other.repr <= LEVEL_ERROR ==> severity_of(level).rank() <= severity_of(
            other,
        ).rank(),
{
}

} // verus!
