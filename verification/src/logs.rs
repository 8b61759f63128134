//! Captured log lines, and the lines that stand for pushed events.

use crate::protocol::{ServerEvent, ServerEventView};
use crate::text::{chars_of, contains, decimal, decimal_string, find, push_decimal, trim_text, trimmed};
use vstd::prelude::*;
use vstd::string::*;

verus! {

/// Origin stream for captured log lines.
#[derive(Debug, Clone, Copy, PartialEq, Eq, Structural)]
pub enum LogStream {
    Stdout,
    Stderr,
    Event,
}

/// Single captured log line with its source.
#[derive(Debug, PartialEq, Eq)]
pub struct LogLine {
    pub stream: LogStream,
    pub line: String,
}

/// View of a [`LogLine`].
pub ghost struct LogLineView {
    pub stream: LogStream,
    pub line: Seq<char>,
}

impl View for LogLine {
    type V = LogLineView;

    open spec fn view(&self) -> LogLineView {
        LogLineView { stream: self.stream, line: self.line@ }
    }
}

impl DeepView for LogLine {
    type V = LogLineView;

    open spec fn deep_view(&self) -> LogLineView {
        self@
    }
}

impl Clone for LogLine {
    fn clone(&self) -> (out: LogLine)
        ensures
            out@ == self@,
    {
        LogLine { stream: self.stream, line: self.line.clone() }
    }
}

impl LogLine {
    /// Builds a line captured from `stream`.
    pub fn new(stream: LogStream, line: String) -> (out: LogLine)
        ensures
            out@ == (LogLineView { stream, line: line@ }),
    {
        LogLine { stream, line }
    }

    /// The line that a reader of `stream` forwards for the raw text `raw`:
    /// the text without leading and trailing whitespace.
    pub fn captured(stream: LogStream, raw: &str) -> (out: LogLine)
        ensures
            out@ == (LogLineView { stream, line: trimmed(raw@) }),
    {
        LogLine { stream, line: trim_text(raw) }
    }
}

/// The text of a telemetry event without its entity: `tick T [SHIP]: MESSAGE`.
pub open spec fn telemetry_text(tick: u64, ship: Seq<char>, message: Seq<char>) -> Seq<char> {
    "tick "@ + decimal(tick as nat) + " ["@ + ship + "]: "@ + message
}

/// The text of a telemetry event with its entity: `entity ID tick T [SHIP]: MESSAGE`.
pub open spec fn entity_telemetry_text(
    id: u64,
    tick: u64,
    ship: Seq<char>,
    message: Seq<char>,
) -> Seq<char> {
    "entity "@ + decimal(id as nat) + " "@ + telemetry_text(tick, ship, message)
}

/// The line that stands for an event among all logs.
pub open spec fn event_line(event: ServerEventView) -> LogLineView {
    match event {
        ServerEventView::Telemetry { id, tick, ship, message } => LogLineView {
            stream: LogStream::Event,
            line: entity_telemetry_text(id, tick, ship, message),
        },
        ServerEventView::Log { message } => LogLineView { stream: LogStream::Event, line: message },
    }
}

/// The line that stands for an event among the logs of entity `id`: a
/// telemetry event of that entity, or a log event whose message holds the
/// decimal text of `id`. Other events have none.
pub open spec fn event_line_about(event: ServerEventView, id: u64) -> Option<LogLineView> {
    match event {
        ServerEventView::Telemetry { id: subject, tick, ship, message } => if subject == id {
            Some(LogLineView { stream: LogStream::Event, line: telemetry_text(tick, ship, message) })
        } else {
            None
        },
        ServerEventView::Log { message } => if contains(message, decimal(id as nat)) {
            Some(LogLineView { stream: LogStream::Event, line: message })
        } else {
            None
        },
    }
}

/// The lines of `lines` that hold the decimal text of `id`, in order.
pub open spec fn lines_about(lines: Seq<LogLineView>, id: u64) -> Seq<LogLineView>
    decreases lines.len(),
{
    if lines.len() == 0 {
        Seq::empty()
    } else if contains(lines.last().line, decimal(id as nat)) {
        lines_about(lines.drop_last(), id).push(lines.last())
    } else {
        lines_about(lines.drop_last(), id)
    }
}

/// The lines that stand for those of `events` that are about entity `id`, in order.
pub open spec fn event_lines_about(events: Seq<ServerEventView>, id: u64) -> Seq<LogLineView>
    decreases events.len(),
{
    if events.len() == 0 {
        Seq::empty()
    } else {
        match event_line_about(events.last(), id) {
            Some(line) => event_lines_about(events.drop_last(), id).push(line),
            None => event_lines_about(events.drop_last(), id),
        }
    }
}

/// The lines that stand for `events`, one for each, in order.
pub open spec fn event_lines(events: Seq<ServerEventView>) -> Seq<LogLineView> {
    Seq::new(events.len(), |i: int| event_line(events[i]))
}

/// The logs of entity `id`: the captured lines that hold its decimal text,
/// then the lines of the events that are about it.
pub open spec fn logs_about(
    lines: Seq<LogLineView>,
    events: Seq<ServerEventView>,
    id: u64,
) -> Seq<LogLineView> {
    lines_about(lines, id) + event_lines_about(events, id)
}

/// All logs: the captured lines, then one line for each event.
pub open spec fn all_lines(lines: Seq<LogLineView>, events: Seq<ServerEventView>) -> Seq<
    LogLineView,
> {
    lines + event_lines(events)
}

/// The text `tick T [SHIP]: MESSAGE`, appended to `out`.
fn push_telemetry_text(out: &mut String, tick: u64, ship: &str, message: &str)
    ensures
        final(out)@ == old(out)@ + telemetry_text(tick, ship@, message@),
{
    out.append("tick ");
    push_decimal(out, tick);
    out.append(" [");
    out.append(ship);
    out.append("]: ");
    out.append(message);
    assert(out@ =~= old(out)@ + telemetry_text(tick, ship@, message@));
}

/// The line that stands for `event` among all logs.
pub fn render_event(event: &ServerEvent) -> (out: LogLine)
    ensures
        out@ == event_line(event@),
{
    match event {
        ServerEvent::Telemetry { id, tick, ship, message } => {
            let mut line = String::from_str("entity ");
            push_decimal(&mut line, *id);
            line.append(" ");
            push_telemetry_text(&mut line, *tick, ship.as_str(), message.as_str());
            assert(line@ =~= entity_telemetry_text(*id, *tick, ship@, message@));
            LogLine { stream: LogStream::Event, line }
        },
        ServerEvent::Log { message } => LogLine { stream: LogStream::Event, line: message.clone() },
    }
}

/// The line that stands for `event` among the logs of entity `id`, if it is
/// about that entity. `id_text` holds the decimal text of `id`.
fn render_event_about(event: &ServerEvent, id: u64, id_text: &Vec<char>) -> (out: Option<LogLine>)
    requires
        id_text@ == decimal(id as nat),
    ensures
        out.deep_view() == event_line_about(event@, id),
{
    match event {
        ServerEvent::Telemetry { id: subject, tick, ship, message } => {
            if *subject == id {
                let mut line = String::new();
                push_telemetry_text(&mut line, *tick, ship.as_str(), message.as_str());
                assert(line@ =~= telemetry_text(*tick, ship@, message@));
                Some(LogLine { stream: LogStream::Event, line })
            } else {
                None
            }
        },
        ServerEvent::Log { message } => {
            let text = chars_of(message.as_str());
            if find(&text, id_text).is_some() {
                Some(LogLine { stream: LogStream::Event, line: message.clone() })
            } else {
                None
            }
        },
    }
}

/// The logs of entity `entity_id` among `lines` and `events`.
pub fn select_logs(lines: &Vec<LogLine>, events: &Vec<ServerEvent>, entity_id: u64) -> (out: Vec<
    LogLine,
>)
    ensures
        out.deep_view() == logs_about(lines.deep_view(), events.deep_view(), entity_id),
{
    let id_string = decimal_string(entity_id);
    let id_text = chars_of(id_string.as_str());
    let mut out: Vec<LogLine> = Vec::new();
    let mut i: usize = 0;
    assert(lines.deep_view().take(0) =~= Seq::empty());
    assert(out.deep_view() =~= Seq::empty());
    while i < lines.len()
        invariant
            i <= lines.len(),
            id_text@ == decimal(entity_id as nat),
            out.deep_view() == lines_about(lines.deep_view().take(i as int), entity_id),
        decreases lines.len() - i,
    {
        let ghost before = out.deep_view();
        let text = chars_of(lines[i].line.as_str());
        proof {
            let upto = lines.deep_view().take(i + 1);
            assert(upto.drop_last() =~= lines.deep_view().take(i as int));
            assert(upto.last() == lines@[i as int]@);
        }
        if find(&text, &id_text).is_some() {
            out.push(lines[i].clone());
            assert(out.deep_view() =~= before.push(lines@[i as int]@));
        }
        i = i + 1;
    }
    assert(lines.deep_view().take(lines.len() as int) =~= lines.deep_view());
    let ghost kept = out.deep_view();
    let mut j: usize = 0;
    assert(events.deep_view().take(0) =~= Seq::empty());
    assert(out.deep_view() =~= kept + Seq::empty());
    while j < events.len()
        invariant
            j <= events.len(),
            id_text@ == decimal(entity_id as nat),
            out.deep_view() == kept + event_lines_about(
                events.deep_view().take(j as int),
                entity_id,
            ),
        decreases events.len() - j,
    {
        let ghost before = out.deep_view();
        proof {
            let upto = events.deep_view().take(j + 1);
            assert(upto.drop_last() =~= events.deep_view().take(j as int));
            assert(upto.last() == events@[j as int]@);
        }
        match render_event_about(&events[j], entity_id, &id_text) {
            Some(line) => {
                out.push(line);
                assert(out.deep_view() =~= before.push(line@));
                assert(before.push(line@) =~= kept + event_lines_about(
                    events.deep_view().take(j as int),
                    entity_id,
                ).push(line@));
            },
            None => {},
        }
        j = j + 1;
    }
    assert(events.deep_view().take(events.len() as int) =~= events.deep_view());
    out
}

/// All logs of `lines` and `events`.
pub fn collect_logs(lines: &Vec<LogLine>, events: &Vec<ServerEvent>) -> (out: Vec<LogLine>)
    ensures
        out.deep_view() == all_lines(lines.deep_view(), events.deep_view()),
{
    let mut out: Vec<LogLine> = Vec::new();
    let mut i: usize = 0;
    while i < lines.len()
        invariant
            i <= lines.len(),
            out@.len() == i,
            forall|k: int| 0 <= k < i ==> (#[trigger] out@[k])@ == lines@[k]@,
        decreases lines.len() - i,
    {
        out.push(lines[i].clone());
        i = i + 1;
    }
    let mut j: usize = 0;
    while j < events.len()
        invariant
            j <= events.len(),
            out@.len() == lines@.len() + j,
            forall|k: int| 0 <= k < lines@.len() ==> (#[trigger] out@[k])@ == lines@[k]@,
            forall|k: int|
                0 <= k < j ==> (#[trigger] out@[lines@.len() + k])@ == event_line(events@[k]@),
        decreases events.len() - j,
    {
        out.push(render_event(&events[j]));
        j = j + 1;
    }
    proof {
        let all = all_lines(lines.deep_view(), events.deep_view());
        assert(out.deep_view().len() == all.len());
        assert forall|k: int| 0 <= k < all.len() implies out.deep_view()[k] == all[k] by {
            if k < lines@.len() {
                assert(out@[k]@ == lines@[k]@);
            } else {
                let at = k - lines@.len();
                assert(out@[lines@.len() + at]@ == event_line(events@[at]@));
                assert(all[k] == event_lines(events.deep_view())[at]);
            }
        }
        assert(out.deep_view() =~= all);
    }
    out
}

} // verus!
