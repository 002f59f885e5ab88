//! Structured diagnostic log of the backend launch.
//!
//! Every step of the launch — each candidate path checked, the interpreter
//! chosen, the outcome of each spawn attempt, the final kill — is recorded
//! as one entry.  The supervisor appends entries in order; the application
//! renders each entry as one line of the append-only log file.

use vstd::prelude::*;

verus! {

/// One event in the diagnostic log.
#[derive(Debug, PartialEq, Eq)]
pub enum LogEntry {
    /// A candidate entry point was checked for existence.
    Checked { path: String, found: bool },
    /// The backend is about to be launched from this resolved entry point.
    Starting { path: String },
    /// A usable interpreter responded to its version probe.
    InterpreterChosen { name: String },
    /// No interpreter responded; the launch was abandoned.
    InterpreterNotFound,
    /// The backend process was spawned successfully.
    Started,
    /// The primary spawn attempt was rejected by the operating system.
    SpawnFailed,
    /// The single fallback launcher attempt succeeded.
    FallbackStarted,
    /// The single fallback launcher attempt failed; the launch was
    /// abandoned.
    FallbackFailed,
    /// The tracked backend process was sent a kill signal at shutdown.
    Killed,
}

/// The mathematical value of a [`LogEntry`]: the same event with its paths
/// and names as character sequences.
pub enum LogEvent {
    Checked { path: Seq<char>, found: bool },
    Starting { path: Seq<char> },
    InterpreterChosen { name: Seq<char> },
    InterpreterNotFound,
    Started,
    SpawnFailed,
    FallbackStarted,
    FallbackFailed,
    Killed,
}

impl View for LogEntry {
    type V = LogEvent;

    open spec fn view(&self) -> LogEvent {
        match self {
            LogEntry::Checked { path, found } => LogEvent::Checked { path: path@, found: *found },
            LogEntry::Starting { path } => LogEvent::Starting { path: path@ },
            LogEntry::InterpreterChosen { name } => LogEvent::InterpreterChosen { name: name@ },
            LogEntry::InterpreterNotFound => LogEvent::InterpreterNotFound,
            LogEntry::Started => LogEvent::Started,
            LogEntry::SpawnFailed => LogEvent::SpawnFailed,
            LogEntry::FallbackStarted => LogEvent::FallbackStarted,
            LogEntry::FallbackFailed => LogEvent::FallbackFailed,
            LogEntry::Killed => LogEvent::Killed,
        }
    }
}

} // verus!
