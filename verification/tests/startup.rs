use phase_space_harness::process::{EngineState, ExitReport};
use phase_space_harness::startup::{
    parse_listen_line, CandidateVerdict, Handshake, HandshakeEvent, HandshakeOutcome,
    HandshakeStep,
};
use phase_space_harness::time::TimeSpan;
use phase_space_harness::{HarnessError, Journal, LogLine, LogStream};

fn line(text: &str) -> LogLine {
    LogLine::new(LogStream::Stdout, text.to_string())
}

#[test]
fn listen_address_follows_the_announcing_words() {
    assert_eq!(parse_listen_line("listening on 127.0.0.1:4000").as_deref(), Some("127.0.0.1:4000"));
    assert_eq!(parse_listen_line("listening on [::1]:9").as_deref(), Some("[::1]:9"));
    assert_eq!(
        parse_listen_line("2024-01-01 INFO engine listening on   127.0.0.1:5555  ").as_deref(),
        Some("127.0.0.1:5555")
    );
    assert_eq!(parse_listen_line("listening on127.0.0.1:1").as_deref(), Some("127.0.0.1:1"));
}

#[test]
fn listen_address_ignores_case() {
    for text in ["Listening on 10.0.0.1:80", "LISTENING ON 10.0.0.1:80", "lIsTeNiNg On 10.0.0.1:80"] {
        assert_eq!(parse_listen_line(text).as_deref(), Some("10.0.0.1:80"), "{text}");
    }
}

#[test]
fn listen_address_takes_the_first_announcement() {
    assert_eq!(
        parse_listen_line("listening on A listening on B").as_deref(),
        Some("A listening on B")
    );
    assert_eq!(parse_listen_line("listening on").as_deref(), Some(""));
    assert_eq!(parse_listen_line("listening on   ").as_deref(), Some(""));
    assert_eq!(parse_listen_line("é listening on é ").as_deref(), Some("é"));
}

#[test]
fn lines_without_the_words_announce_nothing() {
    for text in ["", "listening", "listening  on 1.2.3.4:5", "listenin on", "Listening-on 1", "on listening"] {
        assert_eq!(parse_listen_line(text), None, "{text:?}");
    }
}

#[test]
fn handshake_rounds_listen_for_fifty_milliseconds() {
    let handshake = Handshake::new(TimeSpan::from_secs(5));
    for elapsed in [TimeSpan::zero(), TimeSpan::from_millis(50), TimeSpan::from_millis(4999)] {
        assert!(!handshake.expired(elapsed));
        match handshake.begin_round(elapsed, EngineState::Running) {
            HandshakeStep::Listen(pause) => assert_eq!(pause, TimeSpan::from_millis(50)),
            other => panic!("unexpected step {other:?}"),
        }
    }
}

#[test]
fn handshake_times_out_at_the_configured_time() {
    let handshake = Handshake::new(TimeSpan::from_secs(5));
    for elapsed in [TimeSpan::from_secs(5), TimeSpan::from_secs(6)] {
        assert!(handshake.expired(elapsed));
        match handshake.begin_round(elapsed, EngineState::Running) {
            HandshakeStep::Fail(HarnessError::StartupTimeout(timeout)) => {
                assert_eq!(timeout, TimeSpan::from_secs(5))
            }
            other => panic!("unexpected step {other:?}"),
        }
    }
    let hasty = Handshake::new(TimeSpan::zero());
    assert!(matches!(
        hasty.begin_round(TimeSpan::zero(), EngineState::Running),
        HandshakeStep::Fail(HarnessError::StartupTimeout(_))
    ));
}

#[test]
fn handshake_fails_when_the_engine_exits_early() {
    let handshake = Handshake::new(TimeSpan::from_secs(5));
    assert!(matches!(
        handshake.begin_round(TimeSpan::from_millis(100), EngineState::Exited(ExitReport::exited(2))),
        HandshakeStep::Fail(HarnessError::EngineExited(ExitReport { code: Some(2), signal: None }))
    ));
    assert!(matches!(
        handshake.begin_round(TimeSpan::zero(), EngineState::Exited(ExitReport::signalled(6))),
        HandshakeStep::Fail(HarnessError::EngineExited(ExitReport { code: None, signal: Some(6) }))
    ));
}

#[test]
fn crashed_engine_is_never_reported_as_a_timeout() {
    let handshake = Handshake::new(TimeSpan::from_secs(5));
    for elapsed in [TimeSpan::zero(), TimeSpan::from_millis(4999), TimeSpan::from_secs(5), TimeSpan::from_secs(60)] {
        assert!(matches!(
            handshake.begin_round(elapsed, EngineState::Exited(ExitReport::exited(101))),
            HandshakeStep::Fail(HarnessError::EngineExited(ExitReport { code: Some(101), signal: None }))
        ));
    }
}

#[test]
fn handshake_records_every_line_it_sees() {
    let handshake = Handshake::new(TimeSpan::from_secs(5));
    let mut journal = Journal::new();
    assert!(matches!(
        handshake.observe(&mut journal, HandshakeEvent::Line(line("booting"))),
        HandshakeOutcome::Continue
    ));
    assert!(matches!(
        handshake.observe(&mut journal, HandshakeEvent::Silence),
        HandshakeOutcome::Continue
    ));
    match handshake.observe(&mut journal, HandshakeEvent::Line(line("listening on not-an-address"))) {
        HandshakeOutcome::Candidate(text) => assert_eq!(text, "not-an-address"),
        other => panic!("unexpected outcome {other:?}"),
    }
    match handshake.observe(&mut journal, HandshakeEvent::Line(line("Listening on 127.0.0.1:41234"))) {
        HandshakeOutcome::Candidate(text) => assert_eq!(text, "127.0.0.1:41234"),
        other => panic!("unexpected outcome {other:?}"),
    }
    assert_eq!(
        journal.all_logs(),
        vec![line("booting"), line("listening on not-an-address"), line("Listening on 127.0.0.1:41234")]
    );
}

#[test]
fn closed_output_pauses_and_leaves_the_verdict_to_the_next_round() {
    let handshake = Handshake::new(TimeSpan::from_millis(250));
    let mut journal = Journal::new();
    for _ in 0..3 {
        match handshake.observe(&mut journal, HandshakeEvent::Closed) {
            HandshakeOutcome::Pause(pause) => assert_eq!(pause, TimeSpan::from_millis(50)),
            other => panic!("unexpected outcome {other:?}"),
        }
    }
    assert_eq!(journal.line_count(), 0);
    // The engine has crashed and closed its output: the next round says so.
    assert!(matches!(
        handshake.begin_round(TimeSpan::from_millis(50), EngineState::Exited(ExitReport::exited(1))),
        HandshakeStep::Fail(HarnessError::EngineExited(_))
    ));
    // The engine closed its output and lives on: the handshake waits out its time.
    assert!(matches!(
        handshake.begin_round(TimeSpan::from_millis(200), EngineState::Running),
        HandshakeStep::Listen(_)
    ));
    assert!(matches!(
        handshake.begin_round(TimeSpan::from_millis(250), EngineState::Running),
        HandshakeStep::Fail(HarnessError::StartupTimeout(_))
    ));
}

#[test]
fn malformed_address_does_not_end_the_search() {
    let handshake = Handshake::new(TimeSpan::from_secs(5));
    assert_eq!(handshake.settle(true), CandidateVerdict::Bound);
    assert_eq!(handshake.settle(false), CandidateVerdict::Continue);
    let mut journal = Journal::new();
    let text = match handshake.observe(&mut journal, HandshakeEvent::Line(line("listening on nowhere"))) {
        HandshakeOutcome::Candidate(text) => text,
        other => panic!("unexpected outcome {other:?}"),
    };
    assert_eq!(text, "nowhere");
    assert_eq!(handshake.settle(false), CandidateVerdict::Continue);
    assert!(matches!(
        handshake.begin_round(TimeSpan::from_millis(100), EngineState::Running),
        HandshakeStep::Listen(_)
    ));
}
