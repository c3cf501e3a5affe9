//! How the backend's output events are logged.

use vstd::prelude::*;
use crate::text::{trim, trim_text};

verus! {

/// Severity of a log entry.
#[derive(Clone, Copy, Debug, PartialEq, Eq, Structural)]
pub enum LogLevel {
    Debug,
    Info,
    Warn,
    Error,
}

/// The kinds of event the backend's event stream carries.
#[derive(Clone, Copy, Debug, PartialEq, Eq, Structural)]
pub enum ProcessEventKind {
    /// A line on standard output.
    Stdout,
    /// A line on standard error.
    Stderr,
    /// The host could not run or read the process.
    Error,
    /// The process ended, with or without an exit code.
    Terminated,
    /// Anything else the host reports.
    Other,
}

/// The severity each event is logged at; other events are not logged.
pub open spec fn level_of(kind: ProcessEventKind) -> Option<LogLevel> {
    match kind {
        ProcessEventKind::Stdout => Some(LogLevel::Info),
        ProcessEventKind::Stderr => Some(LogLevel::Error),
        ProcessEventKind::Error => Some(LogLevel::Error),
        ProcessEventKind::Terminated => Some(LogLevel::Warn),
        ProcessEventKind::Other => None,
    }
}

/// The severity at which an event of the backend is logged.
pub fn relay_level(kind: ProcessEventKind) -> (r: Option<LogLevel>)
    ensures
        r == level_of(kind),
{
    match kind {
        ProcessEventKind::Stdout => Some(LogLevel::Info),
        ProcessEventKind::Stderr => Some(LogLevel::Error),
        ProcessEventKind::Error => Some(LogLevel::Error),
        ProcessEventKind::Terminated => Some(LogLevel::Warn),
        ProcessEventKind::Other => None,
    }
}

/// A line of the backend's output as it is logged: without surrounding whitespace.
pub fn backend_line(raw: &str) -> (r: String)
    ensures
        r@ == trim(raw@),
{
    trim_text(raw)
}

} // verus!
