//! The startup handshake: waiting for the engine to announce the address on
//! which it listens.
//!
//! The engine must write a line that holds `listening on`, in any mix of
//! upper and lower case, followed by its socket address. [`parse_listen_line`]
//! finds the text of that address in a line. [`Handshake`] decides, round
//! by round, whether to go on waiting; reading the engine's output and
//! parsing the address are left to the caller.
//!
//! The handshake fails at the beginning of a round only: with the engine's
//! exit if it has exited, else with the startup timeout once the time has
//! run out. Nothing that is read, or that is no longer there to be read,
//! fails it.

use crate::error::{HarnessError, HarnessErrorView};
use crate::journal::{with_line, Journal, JournalView};
use crate::logs::{LogLine, LogLineView};
use crate::process::{EngineState, ExitReport};
use crate::text::{
    ascii_lowercase, chars_of, contains, find, lowercase_chars, occurs_at, trim_bounds, trimmed,
};
use crate::time::{TimeSpan, NANOS_PER_MILLI};
use vstd::prelude::*;
use vstd::string::*;

verus! {

/// The words that announce the listen address.
pub open spec fn listen_words() -> Seq<char> {
    "listening on"@
}

/// `at` is the index of the first occurrence of `needle` in `hay`.
pub open spec fn is_first_occurrence(hay: Seq<char>, needle: Seq<char>, at: int) -> bool {
    &&& occurs_at(hay, needle, at)
    &&& forall|k: int| 0 <= k < at ==> !occurs_at(hay, needle, k)
}

/// The text that `line` announces as the listen address: what follows the
/// first occurrence of the announcing words, without leading and trailing
/// whitespace. A line without those words announces nothing.
pub open spec fn listen_candidate(line: Seq<char>) -> Option<Seq<char>> {
    let lower = ascii_lowercase(line);
    if contains(lower, listen_words()) {
        let at = choose|at: int| is_first_occurrence(lower, listen_words(), at);
        Some(trimmed(line.subrange(at + listen_words().len(), line.len() as int)))
    } else {
        None
    }
}

/// An index has at most one first occurrence.
proof fn lemma_first_occurrence_is_unique(hay: Seq<char>, needle: Seq<char>, a: int, b: int)
    requires
        is_first_occurrence(hay, needle, a),
        is_first_occurrence(hay, needle, b),
    ensures
        a == b,
{
}

/// The text that `line` announces as the listen address, if any.
pub fn parse_listen_line(line: &str) -> (out: Option<String>)
    ensures
        out.deep_view() == listen_candidate(line@),
{
    let chars = chars_of(line);
    let lower = lowercase_chars(&chars);
    let words = chars_of("listening on");
    match find(&lower, &words) {
        Some(at) => {
            proof {
                assert(is_first_occurrence(lower@, listen_words(), at as int));
                let chosen = choose|k: int| is_first_occurrence(lower@, listen_words(), k);
                lemma_first_occurrence_is_unique(lower@, listen_words(), chosen, at as int);
                assert(occurs_at(lower@, words@, at as int));
                assert(at + words@.len() <= lower@.len() == chars@.len());
            }
            let (from, to) = trim_bounds(&chars, at + words.len());
            Some(String::from_str(line.substring_char(from, to)))
        },
        None => None,
    }
}

/// How long one round of the handshake listens for the next line: fifty milliseconds.
pub open spec fn listen_pause() -> nat {
    (50 * NANOS_PER_MILLI) as nat
}

/// How a round of the handshake begins.
#[derive(Debug)]
pub enum HandshakeStep {
    /// The handshake has failed with the given error.
    Fail(HarnessError),
    /// Listen for the next line of output for at most the given time.
    Listen(TimeSpan),
}

/// View of a [`HandshakeStep`].
pub ghost enum HandshakeStepView {
    Fail(HarnessErrorView),
    Listen(nat),
}

impl View for HandshakeStep {
    type V = HandshakeStepView;

    open spec fn view(&self) -> HandshakeStepView {
        match *self {
            HandshakeStep::Fail(error) => HandshakeStepView::Fail(error@),
            HandshakeStep::Listen(pause) => HandshakeStepView::Listen(pause@),
        }
    }
}

/// What listening for a line has brought.
#[derive(Debug)]
pub enum HandshakeEvent {
    /// A line of the engine's output.
    Line(LogLine),
    /// Nothing within the time listened.
    Silence,
    /// The end of the engine's output: both of its streams are closed.
    Closed,
}

/// View of a [`HandshakeEvent`].
pub ghost enum HandshakeEventView {
    Line(LogLineView),
    Silence,
    Closed,
}

impl View for HandshakeEvent {
    type V = HandshakeEventView;

    open spec fn view(&self) -> HandshakeEventView {
        match *self {
            HandshakeEvent::Line(line) => HandshakeEventView::Line(line@),
            HandshakeEvent::Silence => HandshakeEventView::Silence,
            HandshakeEvent::Closed => HandshakeEventView::Closed,
        }
    }
}

/// What the handshake makes of an event. No event fails the handshake:
/// only the beginning of a round does, on an exit or on the timeout.
#[derive(Debug)]
pub enum HandshakeOutcome {
    /// Go on with the next round.
    Continue,
    /// The line announces this text as the listen address: try to parse it
    /// as a socket address and hand the result to [`Handshake::settle`].
    Candidate(String),
    /// Nothing more will come: sleep for the given time, then go on with
    /// the next round, which finds the engine exited or the time run out.
    Pause(TimeSpan),
}

/// View of a [`HandshakeOutcome`].
pub ghost enum HandshakeOutcomeView {
    Continue,
    Candidate(Seq<char>),
    Pause(nat),
}

impl View for HandshakeOutcome {
    type V = HandshakeOutcomeView;

    open spec fn view(&self) -> HandshakeOutcomeView {
        match *self {
            HandshakeOutcome::Continue => HandshakeOutcomeView::Continue,
            HandshakeOutcome::Candidate(text) => HandshakeOutcomeView::Candidate(text@),
            HandshakeOutcome::Pause(pause) => HandshakeOutcomeView::Pause(pause@),
        }
    }
}

/// What the handshake makes of an announced text, once it is known whether
/// the text is a socket address.
#[derive(Debug, Clone, Copy, PartialEq, Eq, Structural)]
pub enum CandidateVerdict {
    /// The text is the address on which the engine listens: the handshake is done.
    Bound,
    /// The text is no address: the search goes on with the next round.
    Continue,
}

/// An announced text that is a socket address ends the handshake with that
/// address. One that is not never ends it, neither with an address nor
/// with an error: the search goes on.
pub open spec fn settled(parsed: bool) -> CandidateVerdict {
    if parsed {
        CandidateVerdict::Bound
    } else {
        CandidateVerdict::Continue
    }
}

/// How a round begins when `elapsed` nanoseconds of a handshake with the
/// given timeout have passed. An engine that has exited fails the
/// handshake with its exit, before the time is looked at: a crash is never
/// reported as a timeout. Else the handshake fails with the startup-timeout
/// error once the time has run out, and listens while it has not.
pub open spec fn round_begins(timeout: nat, elapsed: nat, engine: EngineState) -> HandshakeStepView {
    match engine {
        EngineState::Exited(code) => HandshakeStepView::Fail(HarnessErrorView::EngineExited(code)),
        EngineState::Running => if elapsed >= timeout {
            HandshakeStepView::Fail(HarnessErrorView::StartupTimeout(timeout))
        } else {
            HandshakeStepView::Listen(listen_pause())
        },
    }
}

/// What the handshake makes of an event: a line may announce the listen
/// address, and silence changes nothing. The end of the output does not
/// end the handshake: it pauses for as long as a round listens and goes
/// on, so that the next round tells an engine that has exited from one
/// that has run out of time.
pub open spec fn observed(event: HandshakeEventView) -> HandshakeOutcomeView {
    match event {
        HandshakeEventView::Line(line) => match listen_candidate(line.line) {
            Some(text) => HandshakeOutcomeView::Candidate(text),
            None => HandshakeOutcomeView::Continue,
        },
        HandshakeEventView::Silence => HandshakeOutcomeView::Continue,
        HandshakeEventView::Closed => HandshakeOutcomeView::Pause(listen_pause()),
    }
}

/// The handshake fails in two ways only, and each has its own condition:
/// with the engine's exit if and only if the engine has exited, and with
/// the startup timeout if and only if the engine runs and the time has run
/// out. The timeout that is reported is the configured one.
pub proof fn lemma_handshake_failures(timeout: nat, elapsed: nat, engine: EngineState)
    ensures
        (exists|code: ExitReport|
            round_begins(timeout, elapsed, engine) == HandshakeStepView::Fail(
                HarnessErrorView::EngineExited(code),
            )) <==> engine is Exited,
        round_begins(timeout, elapsed, engine) == HandshakeStepView::Fail(
            HarnessErrorView::StartupTimeout(timeout),
        ) <==> engine is Running && elapsed >= timeout,
        round_begins(timeout, elapsed, engine) is Listen <==> engine is Running && elapsed
            < timeout,
{
    match engine {
        EngineState::Exited(code) => {
            assert(round_begins(timeout, elapsed, engine) == HandshakeStepView::Fail(
                HarnessErrorView::EngineExited(code),
            ));
        },
        EngineState::Running => {},
    }
}

/// The journal after the handshake has observed an event: every line seen
/// is kept, whether or not it announces anything.
pub open spec fn journal_after(journal: JournalView, event: HandshakeEventView) -> JournalView {
    match event {
        HandshakeEventView::Line(line) => with_line(journal, line),
        _ => journal,
    }
}

/// The startup handshake of one engine launch.
#[derive(Debug, Clone, Copy)]
pub struct Handshake {
    timeout: TimeSpan,
}

impl View for Handshake {
    type V = nat;

    closed spec fn view(&self) -> nat {
        self.timeout@
    }
}

impl Handshake {
    /// A handshake that gives the engine `timeout` to announce its address.
    /// Its view is that timeout in nanoseconds.
    pub fn new(timeout: TimeSpan) -> (out: Handshake)
        ensures
            out@ == timeout@,
    {
        Handshake { timeout }
    }

    /// Whether the handshake has run out of time after `elapsed`.
    pub fn expired(&self, elapsed: TimeSpan) -> (out: bool)
        ensures
            out == (elapsed@ >= self@),
    {
        elapsed.as_nanos() >= self.timeout.as_nanos()
    }

    /// Decides how the next round begins, `elapsed` after the handshake began.
    pub fn begin_round(&self, elapsed: TimeSpan, engine: EngineState) -> (out: HandshakeStep)
        ensures
            out@ == round_begins(self@, elapsed@, engine),
    {
        match engine {
            EngineState::Exited(code) => HandshakeStep::Fail(HarnessError::EngineExited(code)),
            EngineState::Running => {
                if self.expired(elapsed) {
                    HandshakeStep::Fail(HarnessError::StartupTimeout(self.timeout))
                } else {
                    HandshakeStep::Listen(TimeSpan::from_millis(50))
                }
            },
        }
    }

    /// Takes note of what listening has brought: records a line in the
    /// journal and decides how the handshake goes on.
    pub fn observe(&self, journal: &mut Journal, event: HandshakeEvent) -> (out: HandshakeOutcome)
        ensures
            out@ == observed(event@),
            final(journal)@ == journal_after(old(journal)@, event@),
    {
        match event {
            HandshakeEvent::Line(line) => {
                let candidate = parse_listen_line(line.line.as_str());
                journal.record_line(line);
                match candidate {
                    Some(text) => HandshakeOutcome::Candidate(text),
                    None => HandshakeOutcome::Continue,
                }
            },
            HandshakeEvent::Silence => HandshakeOutcome::Continue,
            HandshakeEvent::Closed => HandshakeOutcome::Pause(TimeSpan::from_millis(50)),
        }
    }

    /// Decides what becomes of an announced text, given whether it parsed
    /// as a socket address.
    pub fn settle(&self, parsed: bool) -> (out: CandidateVerdict)
        ensures
            out == settled(parsed),
    {
        if parsed {
            CandidateVerdict::Bound
        } else {
            CandidateVerdict::Continue
        }
    }
}

} // verus!
