//! Errors that can occur while spawning or driving the engine process.

use crate::process::ExitReport;
use crate::time::TimeSpan;
use vstd::prelude::*;
use vstd::string::*;

verus! {

/// Result alias for harness operations.
pub type HarnessResult<T> = Result<T, HarnessError>;

/// Errors that can occur while spawning or driving the engine process.
#[derive(Debug)]
pub enum HarnessError {
    /// The engine could not be spawned; holds the reason.
    EngineStart(String),
    /// The engine terminated early; holds its exit code or the signal that ended it.
    EngineExited(ExitReport),
    /// The listen address in the engine's output could not be parsed; holds the text.
    ListenParse(String),
    /// The engine did not report a listen address within the given time.
    StartupTimeout(TimeSpan),
    /// A transport-level failure; holds its description.
    Io(String),
    /// A wire or codec failure reported by the protocol client; holds its description.
    Protocol(String),
    /// A response variant or status did not match what the request implies.
    UnexpectedResponse(String),
    /// An operation was attempted after shutdown or after the client disconnected.
    ConnectionClosed,
}

/// View of a [`HarnessError`]: texts as character sequences, the time span in nanoseconds.
pub ghost enum HarnessErrorView {
    EngineStart(Seq<char>),
    EngineExited(ExitReport),
    ListenParse(Seq<char>),
    StartupTimeout(nat),
    Io(Seq<char>),
    Protocol(Seq<char>),
    UnexpectedResponse(Seq<char>),
    ConnectionClosed,
}

impl View for HarnessError {
    type V = HarnessErrorView;

    open spec fn view(&self) -> HarnessErrorView {
        match *self {
            HarnessError::EngineStart(reason) => HarnessErrorView::EngineStart(reason@),
            HarnessError::EngineExited(report) => HarnessErrorView::EngineExited(report),
            HarnessError::ListenParse(text) => HarnessErrorView::ListenParse(text@),
            HarnessError::StartupTimeout(timeout) => HarnessErrorView::StartupTimeout(timeout@),
            HarnessError::Io(description) => HarnessErrorView::Io(description@),
            HarnessError::Protocol(description) => HarnessErrorView::Protocol(description@),
            HarnessError::UnexpectedResponse(message) => HarnessErrorView::UnexpectedResponse(
                message@,
            ),
            HarnessError::ConnectionClosed => HarnessErrorView::ConnectionClosed,
        }
    }
}

impl DeepView for HarnessError {
    type V = HarnessErrorView;

    open spec fn deep_view(&self) -> HarnessErrorView {
        self@
    }
}

impl HarnessError {
    /// The error for an engine that could not be spawned.
    pub fn engine_start(reason: &str) -> (out: HarnessError)
        ensures
            out@ == HarnessErrorView::EngineStart(reason@),
    {
        HarnessError::EngineStart(String::from_str(reason))
    }

    /// The error for a response that does not fit its request.
    pub fn unexpected(message: String) -> (out: HarnessError)
        ensures
            out@ == HarnessErrorView::UnexpectedResponse(message@),
    {
        HarnessError::UnexpectedResponse(message)
    }
}

} // verus!
