//! Waiting for the engine to progress by a number of ticks.
//!
//! A [`TickAdvance`] is the state of one such wait. Each time the caller has
//! looked at the engine, [`Session::poll_advance`] decides whether the wait
//! has succeeded, has failed, or goes on after a sleep. The caller does the
//! looking and the sleeping.
//!
//! Every wait ends after finitely many sleeps, whatever the tick wait:
//! [`lemma_sleeps_are_bounded`] says after how many at most.

use crate::error::{HarnessError, HarnessErrorView};
use crate::journal::{lemma_max_tick_never_falls, with_events, JournalView};
use crate::process::EngineState;
use crate::protocol::ServerEventView;
use crate::session::Session;
use crate::time::{saturate, TimeSpan};
use vstd::prelude::*;

verus! {

/// View of a [`TickAdvance`]: time spans in nanoseconds.
pub ghost struct TickAdvanceView {
    /// The highest tick observed when the wait began.
    pub start: u64,
    /// The tick to reach.
    pub target: u64,
    /// The sleep between two looks at the engine.
    pub tick_wait: nat,
    /// The time after which the wait falls back to a liveness check.
    pub deadline: nat,
    /// The time slept so far.
    pub waited: nat,
}

/// The factor by which a wait for `ticks` ticks scales the tick wait: the
/// number of ticks, at least 1 and at most `u32::MAX`.
pub open spec fn tick_scale(ticks: u64) -> nat {
    if ticks == 0 {
        1
    } else if ticks > u32::MAX {
        u32::MAX as nat
    } else {
        ticks as nat
    }
}

/// The deadline of a wait for `ticks` ticks: twice the tick wait for each
/// tick, cut off at the longest time span.
pub open spec fn deadline_for(tick_wait: nat, ticks: u64) -> nat {
    saturate(saturate((tick_wait * tick_scale(ticks)) as int) * 2) as nat
}

/// The tick to reach `ticks` ticks after `start`, cut off at `u64::MAX`.
pub open spec fn target_for(start: u64, ticks: u64) -> u64 {
    if start + ticks > u64::MAX {
        u64::MAX
    } else {
        (start + ticks) as u64
    }
}

/// The wait for `ticks` ticks that begins when the highest tick observed is `max_tick`.
pub open spec fn began(max_tick: u64, ticks: u64, tick_wait: nat) -> TickAdvanceView {
    TickAdvanceView {
        start: max_tick,
        target: target_for(max_tick, ticks),
        tick_wait,
        deadline: deadline_for(tick_wait, ticks),
        waited: 0,
    }
}

/// What the caller of a wait does next.
#[derive(Debug)]
pub enum TickAction {
    /// The wait is over: the target tick has been observed.
    Reached,
    /// The wait is over: the target tick has not been observed, but the
    /// engine is alive and the connection to it stands.
    Alive,
    /// The wait has failed with the given error.
    Fail(HarnessError),
    /// Sleep for the given time, look at the engine and poll again.
    Sleep(TimeSpan),
}

/// View of a [`TickAction`].
pub ghost enum TickActionView {
    Reached,
    Alive,
    Fail(HarnessErrorView),
    Sleep(nat),
}

impl View for TickAction {
    type V = TickActionView;

    open spec fn view(&self) -> TickActionView {
        match *self {
            TickAction::Reached => TickActionView::Reached,
            TickAction::Alive => TickActionView::Alive,
            TickAction::Fail(error) => TickActionView::Fail(error@),
            TickAction::Sleep(pause) => TickActionView::Sleep(pause@),
        }
    }
}

/// The action ends the wait with success.
pub open spec fn succeeds(action: TickActionView) -> bool {
    action is Reached || action is Alive
}

/// The wait has passed its deadline.
pub open spec fn fell_back(a: TickAdvanceView) -> bool {
    a.waited > a.deadline
}

/// A poll that does not find the target tick goes on to the liveness check:
/// the wait has passed its deadline, or its tick wait is zero, so that no
/// amount of sleeping would ever reach the deadline.
pub open spec fn probes(a: TickAdvanceView) -> bool {
    fell_back(a) || a.tick_wait == 0
}

/// One poll of a wait, given what was observed: the state of the engine
/// process, the highest tick, whether the session's connection is open and
/// whether the client reports itself connected.
///
/// An engine that has exited fails the wait, before anything else is looked
/// at. Before the deadline the wait succeeds once the target tick is
/// reached. Else it sleeps for one tick wait, unless it is past its
/// deadline or its tick wait is zero: then it falls back to the liveness
/// check, which succeeds if the connection is open and connected and fails
/// with the closed-connection error if not.
pub open spec fn polled(
    a: TickAdvanceView,
    engine: EngineState,
    max_tick: u64,
    open: bool,
    connected: bool,
) -> (TickAdvanceView, TickActionView) {
    match engine {
        EngineState::Exited(code) => (a, TickActionView::Fail(HarnessErrorView::EngineExited(code))),
        EngineState::Running => if !fell_back(a) && max_tick >= a.target {
            (a, TickActionView::Reached)
        } else if !probes(a) {
            (
                TickAdvanceView { waited: a.waited + a.tick_wait, ..a },
                TickActionView::Sleep(a.tick_wait),
            )
        } else if open && connected {
            (a, TickActionView::Alive)
        } else {
            (a, TickActionView::Fail(HarnessErrorView::ConnectionClosed))
        },
    }
}

/// What was observed at one poll.
pub ghost struct Observation {
    pub engine: EngineState,
    pub max_tick: u64,
    pub open: bool,
    pub connected: bool,
}

/// Every poll of `observations`, made in order from the wait `a`, tells the
/// caller to sleep.
pub open spec fn all_sleep(a: TickAdvanceView, observations: Seq<Observation>) -> bool
    decreases observations.len(),
{
    if observations.len() == 0 {
        true
    } else {
        let seen = observations.first();
        let step = polled(a, seen.engine, seen.max_tick, seen.open, seen.connected);
        step.1 is Sleep && all_sleep(step.0, observations.drop_first())
    }
}

/// The number of polls that can still tell the caller to sleep: none for a
/// wait that goes on to the liveness check, else one for every tick wait
/// that fits into the time left until the deadline, and one more.
pub open spec fn sleeps_left(a: TickAdvanceView) -> nat {
    if probes(a) {
        0
    } else {
        ((a.deadline - a.waited) / (a.tick_wait as int) + 1) as nat
    }
}

/// A poll that tells the caller to sleep uses up one of the sleeps that are left.
pub proof fn lemma_sleep_uses_one_up(
    a: TickAdvanceView,
    engine: EngineState,
    max_tick: u64,
    open: bool,
    connected: bool,
)
    requires
        polled(a, engine, max_tick, open, connected).1 is Sleep,
    ensures
        sleeps_left(a) >= 1,
        sleeps_left(polled(a, engine, max_tick, open, connected).0) <= sleeps_left(a) - 1,
{
    let after = polled(a, engine, max_tick, open, connected).0;
    let left: int = a.deadline - a.waited;
    let pause: int = a.tick_wait as int;
    assert(left >= 0 && pause > 0);
    assert(left / pause >= 0) by (nonlinear_arith)
        requires
            left >= 0,
            pause > 0,
    ;
    if !probes(after) {
        assert(left - pause >= 0);
        assert((left - pause) / pause == left / pause - 1) by (nonlinear_arith)
            requires
                left - pause >= 0,
                pause > 0,
        ;
    }
}

/// No wait sleeps for ever: the polls that tell the caller to sleep one
/// after the other are at most as many as the sleeps that are left. A wait
/// with a tick wait of zero never sleeps; any other wait sleeps at most
/// once for every tick wait that fits into its deadline, and once more.
pub proof fn lemma_sleeps_are_bounded(a: TickAdvanceView, observations: Seq<Observation>)
    requires
        all_sleep(a, observations),
    ensures
        observations.len() <= sleeps_left(a),
        a.tick_wait == 0 ==> observations.len() == 0,
        a.tick_wait > 0 && a.waited == 0 ==> observations.len() <= a.deadline / a.tick_wait + 1,
    decreases observations.len(),
{
    if observations.len() > 0 {
        let seen = observations.first();
        let step = polled(a, seen.engine, seen.max_tick, seen.open, seen.connected);
        lemma_sleep_uses_one_up(a, seen.engine, seen.max_tick, seen.open, seen.connected);
        lemma_sleeps_are_bounded(step.0, observations.drop_first());
    }
}

/// What a successful wait for `ticks` ticks says of the journal: the highest
/// tick has not fallen below the one at which the wait began, and where the
/// wait ended because the target was reached, it has risen by at least
/// `ticks`, if that sum fits a `u64`.
///
/// `before` is the journal when the wait began, `seen` the events that it
/// has seen since, and `a` the wait as some number of polls left it.
pub proof fn lemma_successful_advance(
    before: JournalView,
    seen: Seq<ServerEventView>,
    ticks: u64,
    a: TickAdvanceView,
    engine: EngineState,
    open: bool,
    connected: bool,
)
    requires
        a.start == before.max_tick,
        a.target == target_for(before.max_tick, ticks),
        succeeds(polled(a, engine, with_events(before, seen).max_tick, open, connected).1),
    ensures
        with_events(before, seen).max_tick >= before.max_tick,
        polled(a, engine, with_events(before, seen).max_tick, open, connected).1 is Reached
            && before.max_tick + ticks <= u64::MAX ==> with_events(before, seen).max_tick
            >= before.max_tick + ticks,
{
    lemma_max_tick_never_falls(before, seen);
}

/// A poll keeps the start, the target, the tick wait and the deadline of a
/// wait, and never takes back time that was slept.
pub proof fn lemma_poll_keeps_the_goal(
    a: TickAdvanceView,
    engine: EngineState,
    max_tick: u64,
    open: bool,
    connected: bool,
)
    ensures
        polled(a, engine, max_tick, open, connected).0.start == a.start,
        polled(a, engine, max_tick, open, connected).0.target == a.target,
        polled(a, engine, max_tick, open, connected).0.tick_wait == a.tick_wait,
        polled(a, engine, max_tick, open, connected).0.deadline == a.deadline,
        polled(a, engine, max_tick, open, connected).0.waited >= a.waited,
{
}

/// A wait that succeeds has found the engine running. Where it ended
/// because the target was reached, the target tick was observed before the
/// deadline; where it ended on the liveness check, the connection was open
/// and connected.
pub proof fn lemma_success_is_liveness(
    a: TickAdvanceView,
    engine: EngineState,
    max_tick: u64,
    open: bool,
    connected: bool,
)
    requires
        succeeds(polled(a, engine, max_tick, open, connected).1),
    ensures
        engine is Running,
        polled(a, engine, max_tick, open, connected).1 is Alive ==> open && connected && probes(a),
        polled(a, engine, max_tick, open, connected).1 is Reached ==> max_tick >= a.target
            && !fell_back(a),
{
}

/// The state of one wait for the engine to progress.
pub struct TickAdvance {
    start: u64,
    target: u64,
    tick_wait: TimeSpan,
    deadline: TimeSpan,
    waited: u128,
}

impl View for TickAdvance {
    type V = TickAdvanceView;

    closed spec fn view(&self) -> TickAdvanceView {
        TickAdvanceView {
            start: self.start,
            target: self.target,
            tick_wait: self.tick_wait@,
            deadline: self.deadline@,
            waited: self.waited as nat,
        }
    }
}

impl TickAdvance {
    #[verifier::type_invariant]
    closed spec fn bounded(self) -> bool {
        self.waited <= self.deadline@ + self.tick_wait@
    }

    /// The tick that the wait is to reach.
    pub fn target(&self) -> (out: u64)
        ensures
            out == self@.target,
    {
        self.target
    }

    /// Whether the wait has passed its deadline.
    pub fn fell_back(&self) -> (out: bool)
        ensures
            out == fell_back(self@),
    {
        self.waited > self.deadline.as_nanos()
    }

    /// Whether the next poll goes on to the liveness check if it does not
    /// find the target tick: only then does it matter whether the client is
    /// connected.
    pub fn probes(&self) -> (out: bool)
        ensures
            out == probes(self@),
    {
        self.waited > self.deadline.as_nanos() || self.tick_wait.as_nanos() == 0
    }
}

impl Session {
    /// Begins a wait for the engine to progress by `ticks` ticks beyond
    /// `max_tick`, the highest tick observed so far.
    ///
    /// A wait for no ticks is over before it begins: there is nothing to
    /// wait for and nothing to look at, and `None` comes back.
    pub fn advance_ticks(&self, ticks: u64, max_tick: u64) -> (out: Option<TickAdvance>)
        ensures
            ticks == 0 ==> out is None,
            ticks > 0 ==> (out matches Some(advance) && advance@ == began(
                max_tick,
                ticks,
                self@.tick_wait,
            )),
    {
        if ticks == 0 {
            return None;
        }
        let tick_wait = self.tick_wait();
        let scale: u32 = if ticks > 0xFFFF_FFFF {
            0xFFFF_FFFF
        } else {
            ticks as u32
        };
        let deadline = tick_wait.saturating_mul(scale).saturating_mul(2);
        Some(
            TickAdvance {
                start: max_tick,
                target: max_tick.saturating_add(ticks),
                tick_wait,
                deadline,
                waited: 0,
            },
        )
    }

    /// Decides how a wait goes on, given the state of the engine process,
    /// the highest tick observed and whether the client reports itself
    /// connected.
    pub fn poll_advance(
        &self,
        advance: &mut TickAdvance,
        engine: EngineState,
        max_tick: u64,
        connected: bool,
    ) -> (out: TickAction)
        ensures
            (final(advance)@, out@) == polled(
                old(advance)@,
                engine,
                max_tick,
                self@.open,
                connected,
            ),
    {
        proof {
            use_type_invariant(&*advance);
        }
        match engine {
            EngineState::Exited(code) => TickAction::Fail(HarnessError::EngineExited(code)),
            EngineState::Running => {
                let pause: u128 = advance.tick_wait.as_nanos();
                let limit: u128 = advance.deadline.as_nanos();
                let in_time: bool = advance.waited <= limit;
                if in_time && max_tick >= advance.target {
                    TickAction::Reached
                } else if in_time && pause > 0 {
                    advance.waited = advance.waited + pause;
                    TickAction::Sleep(advance.tick_wait)
                } else if self.is_open() && connected {
                    TickAction::Alive
                } else {
                    TickAction::Fail(HarnessError::ConnectionClosed)
                }
            },
        }
    }
}

} // verus!
