//! What the harness has observed of the engine process.

use vstd::prelude::*;

verus! {

/// How the engine process ended: with an exit code, by a signal, or (on
/// systems that tell neither) with nothing known. The harness passes the
/// report on and never reads a meaning into it.
#[derive(Debug, Clone, Copy, PartialEq, Eq)]
pub struct ExitReport {
    /// The exit code, where the process exited of its own accord.
    pub code: Option<i32>,
    /// The number of the signal, where one ended the process.
    pub signal: Option<i32>,
}

impl ExitReport {
    /// The report of a process that exited with `code`.
    pub fn exited(code: i32) -> (out: ExitReport)
        ensures
            out == (ExitReport { code: Some(code), signal: None }),
    {
        ExitReport { code: Some(code), signal: None }
    }

    /// The report of a process that `signal` ended.
    pub fn signalled(signal: i32) -> (out: ExitReport)
        ensures
            out == (ExitReport { code: None, signal: Some(signal) }),
    {
        ExitReport { code: None, signal: Some(signal) }
    }
}

/// The state of the engine process at the moment it was last looked at.
#[derive(Debug, Clone, Copy, PartialEq, Eq)]
pub enum EngineState {
    /// The process has not exited.
    Running,
    /// The process has exited; holds how.
    Exited(ExitReport),
}

impl EngineState {
    /// The state of a process that was found running (`None`) or ended
    /// with the given report (`Some`).
    pub fn observed(exit: Option<ExitReport>) -> (out: EngineState)
        ensures
            out == match exit {
                Some(report) => EngineState::Exited(report),
                None => EngineState::Running,
            },
    {
        match exit {
            Some(report) => EngineState::Exited(report),
            None => EngineState::Running,
        }
    }

    /// Whether the process has exited.
    pub fn has_exited(&self) -> (out: bool)
        ensures
            out == (*self is Exited),
    {
        match self {
            EngineState::Running => false,
            EngineState::Exited(_) => true,
        }
    }
}

} // verus!
