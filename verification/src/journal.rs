//! What the stream collectors have seen: the captured log lines, the pushed
//! events, and the highest telemetry tick among them.
//!
//! A journal only grows, and its highest tick never falls.

use crate::logs::{
    all_lines, collect_logs, logs_about, select_logs, LogLine, LogLineView,
};
use crate::protocol::{ServerEvent, ServerEventView};
use vstd::prelude::*;

verus! {

/// View of a [`Journal`].
pub ghost struct JournalView {
    /// The captured log lines, in the order in which they were seen.
    pub lines: Seq<LogLineView>,
    /// The pushed events, in the order in which they were seen.
    pub events: Seq<ServerEventView>,
    /// The highest telemetry tick seen so far, 0 before the first.
    pub max_tick: u64,
}

/// The journal that has seen nothing yet.
pub open spec fn blank() -> JournalView {
    JournalView { lines: Seq::empty(), events: Seq::empty(), max_tick: 0 }
}

/// `max_tick`, raised to the tick of `event` where that is a higher telemetry tick.
pub open spec fn raised(max_tick: u64, event: ServerEventView) -> u64 {
    match event {
        ServerEventView::Telemetry { tick, .. } => if tick > max_tick {
            tick
        } else {
            max_tick
        },
        ServerEventView::Log { .. } => max_tick,
    }
}

/// The journal after it has seen `line`.
pub open spec fn with_line(journal: JournalView, line: LogLineView) -> JournalView {
    JournalView { lines: journal.lines.push(line), ..journal }
}

/// The journal after it has seen `event`.
pub open spec fn with_event(journal: JournalView, event: ServerEventView) -> JournalView {
    JournalView {
        events: journal.events.push(event),
        max_tick: raised(journal.max_tick, event),
        ..journal
    }
}

/// The journal after it has seen `events` in order.
pub open spec fn with_events(journal: JournalView, events: Seq<ServerEventView>) -> JournalView
    decreases events.len(),
{
    if events.len() == 0 {
        journal
    } else {
        with_event(with_events(journal, events.drop_last()), events.last())
    }
}

/// The highest telemetry tick among `events`, 0 where there is none.
pub open spec fn highest_tick(events: Seq<ServerEventView>) -> u64
    decreases events.len(),
{
    if events.len() == 0 {
        0
    } else {
        raised(highest_tick(events.drop_last()), events.last())
    }
}

/// The highest tick never falls, whatever events are seen.
pub proof fn lemma_max_tick_never_falls(journal: JournalView, events: Seq<ServerEventView>)
    ensures
        with_events(journal, events).max_tick >= journal.max_tick,
        with_events(journal, events).lines == journal.lines,
    decreases events.len(),
{
    if events.len() > 0 {
        lemma_max_tick_never_falls(journal, events.drop_last());
    }
}

/// Once a telemetry event with tick `tick` has been seen, the highest tick
/// is at least `tick` for ever after.
pub proof fn lemma_seen_tick_is_kept(
    journal: JournalView,
    event: ServerEventView,
    later: Seq<ServerEventView>,
)
    requires
        event is Telemetry,
    ensures
        with_events(with_event(journal, event), later).max_tick >= event->tick,
{
    lemma_max_tick_never_falls(with_event(journal, event), later);
}

/// The buffer of events only grows: what was seen stays, in its place.
pub proof fn lemma_events_only_grow(journal: JournalView, events: Seq<ServerEventView>)
    ensures
        with_events(journal, events).events == journal.events + events,
    decreases events.len(),
{
    if events.len() > 0 {
        lemma_events_only_grow(journal, events.drop_last());
        assert(journal.events + events =~= (journal.events + events.drop_last()).push(
            events.last(),
        ));
    } else {
        assert(journal.events + events =~= journal.events);
    }
}

/// A journal that started blank holds the highest telemetry tick among its events.
pub proof fn lemma_max_tick_is_highest(events: Seq<ServerEventView>)
    ensures
        with_events(blank(), events).max_tick == highest_tick(events),
    decreases events.len(),
{
    if events.len() > 0 {
        lemma_max_tick_is_highest(events.drop_last());
    }
}

/// The shared record of a session: log lines, events and the highest tick.
pub struct Journal {
    lines: Vec<LogLine>,
    events: Vec<ServerEvent>,
    max_tick: u64,
}

impl View for Journal {
    type V = JournalView;

    closed spec fn view(&self) -> JournalView {
        JournalView {
            lines: self.lines.deep_view(),
            events: self.events.deep_view(),
            max_tick: self.max_tick,
        }
    }
}

impl Journal {
    /// A journal that has seen nothing yet.
    pub fn new() -> (out: Journal)
        ensures
            out@ == blank(),
    {
        let out = Journal { lines: Vec::new(), events: Vec::new(), max_tick: 0 };
        assert(out.lines.deep_view() =~= Seq::empty());
        assert(out.events.deep_view() =~= Seq::empty());
        out
    }

    /// Appends a captured line.
    pub fn record_line(&mut self, line: LogLine)
        ensures
            final(self)@ == with_line(old(self)@, line@),
    {
        self.lines.push(line);
        assert(self.lines.deep_view() =~= old(self).lines.deep_view().push(line@));
    }

    /// Appends a pushed event and raises the highest tick to its tick, where
    /// it is a telemetry event with a higher one.
    pub fn record_event(&mut self, event: ServerEvent)
        ensures
            final(self)@ == with_event(old(self)@, event@),
    {
        match &event {
            ServerEvent::Telemetry { tick, .. } => {
                if *tick > self.max_tick {
                    self.max_tick = *tick;
                }
            },
            ServerEvent::Log { .. } => {},
        }
        self.events.push(event);
        assert(self.events.deep_view() =~= old(self).events.deep_view().push(event@));
    }

    /// The highest telemetry tick seen so far.
    pub fn max_tick(&self) -> (out: u64)
        ensures
            out == self@.max_tick,
    {
        self.max_tick
    }

    /// The number of captured lines.
    pub fn line_count(&self) -> (out: usize)
        ensures
            out == self@.lines.len(),
    {
        self.lines.len()
    }

    /// The number of events seen.
    pub fn event_count(&self) -> (out: usize)
        ensures
            out == self@.events.len(),
    {
        self.events.len()
    }

    /// Return all captured log lines for an entity id: the captured lines that
    /// hold its decimal text, then the lines of the events that are about it.
    pub fn logs_for(&self, entity_id: u64) -> (out: Vec<LogLine>)
        ensures
            out.deep_view() == logs_about(self@.lines, self@.events, entity_id),
    {
        select_logs(&self.lines, &self.events, entity_id)
    }

    /// Return all captured log lines across streams: the captured lines first,
    /// then one line for each event.
    pub fn all_logs(&self) -> (out: Vec<LogLine>)
        ensures
            out.deep_view() == all_lines(self@.lines, self@.events),
    {
        collect_logs(&self.lines, &self.events)
    }
}

} // verus!
