use phase_space_harness::logs::{collect_logs, render_event, select_logs};
use phase_space_harness::protocol::ServerEvent;
use phase_space_harness::{Journal, LogLine, LogStream};

fn line(stream: LogStream, text: &str) -> LogLine {
    LogLine::new(stream, text.to_string())
}

fn telemetry(id: u64, tick: u64, ship: &str, message: &str) -> ServerEvent {
    ServerEvent::Telemetry { id, tick, ship: ship.to_string(), message: message.to_string() }
}

fn log(message: &str) -> ServerEvent {
    ServerEvent::Log { message: message.to_string() }
}

#[test]
fn log_line_keeps_stream_and_text() {
    let made = LogLine::new(LogStream::Stderr, "warning: x".to_string());
    assert_eq!(made.stream, LogStream::Stderr);
    assert_eq!(made.line, "warning: x");
    assert_eq!(made.clone(), made);
    assert_ne!(LogStream::Stdout, LogStream::Event);
}

#[test]
fn captured_lines_are_trimmed() {
    let captured = LogLine::captured(LogStream::Stdout, "  listening on 127.0.0.1:4000 \r\n");
    assert_eq!(captured, line(LogStream::Stdout, "listening on 127.0.0.1:4000"));
    assert_eq!(LogLine::captured(LogStream::Stderr, " \t ").line, "");
    assert_eq!(LogLine::captured(LogStream::Stderr, "plain").line, "plain");
}

#[test]
fn blank_journal_has_seen_nothing() {
    let journal = Journal::new();
    assert_eq!(journal.max_tick(), 0);
    assert_eq!(journal.line_count(), 0);
    assert_eq!(journal.event_count(), 0);
    assert!(journal.all_logs().is_empty());
    assert!(journal.logs_for(0).is_empty());
}

#[test]
fn max_tick_only_rises() {
    let mut journal = Journal::new();
    let mut highest = 0;
    for tick in [3u64, 1, 3, 7, 2, 0, 8, 8, 5] {
        journal.record_event(telemetry(1, tick, "s", "m"));
        highest = highest.max(tick);
        assert_eq!(journal.max_tick(), highest);
        assert!(journal.max_tick() >= tick);
    }
    journal.record_event(log("tick 100"));
    assert_eq!(journal.max_tick(), 8);
    journal.record_line(line(LogStream::Stdout, "tick 200"));
    assert_eq!(journal.max_tick(), 8);
    journal.record_event(telemetry(2, u64::MAX, "s", "m"));
    assert_eq!(journal.max_tick(), u64::MAX);
    journal.record_event(telemetry(2, 9, "s", "m"));
    assert_eq!(journal.max_tick(), u64::MAX);
}

#[test]
fn buffers_only_grow() {
    let mut journal = Journal::new();
    for round in 0..10usize {
        assert_eq!(journal.line_count(), round);
        assert_eq!(journal.event_count(), round);
        assert_eq!(journal.all_logs().len(), 2 * round);
        journal.record_line(line(LogStream::Stdout, "out"));
        journal.record_event(log("event"));
    }
    assert_eq!(journal.all_logs().len(), 20);
}

#[test]
fn all_logs_put_lines_before_events() {
    let mut journal = Journal::new();
    journal.record_event(telemetry(4, 9, "scout", "world_hash=abc"));
    journal.record_line(line(LogStream::Stdout, "booting"));
    journal.record_event(log("plugin loaded"));
    journal.record_line(line(LogStream::Stderr, "warning"));
    assert_eq!(
        journal.all_logs(),
        vec![
            line(LogStream::Stdout, "booting"),
            line(LogStream::Stderr, "warning"),
            line(LogStream::Event, "entity 4 tick 9 [scout]: world_hash=abc"),
            line(LogStream::Event, "plugin loaded"),
        ]
    );
}

#[test]
fn events_render_as_lines() {
    assert_eq!(
        render_event(&telemetry(12, 345, "fake", "tick 345")),
        line(LogStream::Event, "entity 12 tick 345 [fake]: tick 345")
    );
    assert_eq!(
        render_event(&telemetry(0, 0, "", "")),
        line(LogStream::Event, "entity 0 tick 0 []: ")
    );
    assert_eq!(render_event(&log("hello")), line(LogStream::Event, "hello"));
    let (id, tick, ship, message) = (u64::MAX, 77u64, "ship-1", "phases=1:77:Sensors");
    assert_eq!(
        render_event(&telemetry(id, tick, ship, message)).line,
        format!("entity {id} tick {tick} [{ship}]: {message}")
    );
}

#[test]
fn logs_for_select_by_the_text_of_the_id() {
    let mut journal = Journal::new();
    journal.record_line(line(LogStream::Stdout, "spawned entity 12"));
    journal.record_line(line(LogStream::Stdout, "spawned entity 2"));
    journal.record_line(line(LogStream::Stderr, "entity 312 overheating"));
    journal.record_line(line(LogStream::Stdout, "nothing here"));
    journal.record_event(telemetry(12, 5, "scout", "steady"));
    journal.record_event(telemetry(2, 6, "scout", "about 12"));
    journal.record_event(log("entity 12 docked"));
    journal.record_event(log("entity 21 docked"));
    journal.record_event(telemetry(12, 7, "scout", "moving"));
    assert_eq!(
        journal.logs_for(12),
        vec![
            line(LogStream::Stdout, "spawned entity 12"),
            line(LogStream::Stderr, "entity 312 overheating"),
            line(LogStream::Event, "tick 5 [scout]: steady"),
            line(LogStream::Event, "entity 12 docked"),
            line(LogStream::Event, "tick 7 [scout]: moving"),
        ]
    );
    assert_eq!(
        journal.logs_for(2),
        vec![
            line(LogStream::Stdout, "spawned entity 12"),
            line(LogStream::Stdout, "spawned entity 2"),
            line(LogStream::Stderr, "entity 312 overheating"),
            line(LogStream::Event, "tick 6 [scout]: about 12"),
            line(LogStream::Event, "entity 12 docked"),
            line(LogStream::Event, "entity 21 docked"),
        ]
    );
    assert!(journal.logs_for(4).is_empty());
}

#[test]
fn telemetry_of_an_entity_counts_whatever_its_text() {
    let mut journal = Journal::new();
    journal.record_event(telemetry(1, 3, "fake", "tick 3"));
    journal.record_event(telemetry(0, 4, "fake", "tick 4"));
    assert_eq!(journal.logs_for(1), vec![line(LogStream::Event, "tick 3 [fake]: tick 3")]);
    // Telemetry of another entity is left out even where its text holds the id.
    journal.record_event(telemetry(0, 1, "fake", "tick 1"));
    assert_eq!(journal.logs_for(1).len(), 1);
}

#[test]
fn free_functions_agree_with_the_journal() {
    let lines = vec![line(LogStream::Stdout, "id 7"), line(LogStream::Stdout, "id 8")];
    let events = vec![telemetry(7, 1, "a", "b"), log("about 8"), log("about 9")];
    let mut journal = Journal::new();
    for each in &lines {
        journal.record_line(each.clone());
    }
    for each in &events {
        journal.record_event(each.clone());
    }
    assert_eq!(select_logs(&lines, &events, 7), journal.logs_for(7));
    assert_eq!(select_logs(&lines, &events, 8), journal.logs_for(8));
    assert_eq!(collect_logs(&lines, &events), journal.all_logs());
    assert_eq!(select_logs(&lines, &events, 7).len(), 2);
    assert_eq!(collect_logs(&lines, &events).len(), 5);
}
