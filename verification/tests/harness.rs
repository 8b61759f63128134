use phase_space_harness::codec::{frame, split_frame};
use phase_space_harness::harness::Seeding;
use phase_space_harness::process::EngineState;
use phase_space_harness::protocol::{
    EntityParameters, EntitySummary, RequestEnvelope, ResponseStatus, Scalar, ServerEvent,
    ServerRequest, ServerResponse,
};
use phase_space_harness::server::ReferenceServer;
use phase_space_harness::session::{shutdown_poll, ShutdownAction};
use phase_space_harness::startup::{
    CandidateVerdict, HandshakeEvent, HandshakeOutcome, HandshakeStep,
};
use phase_space_harness::ticks::TickAction;
use phase_space_harness::time::TimeSpan;
use phase_space_harness::{
    EngineConfig, EngineHarness, HarnessError, Journal, LogLine, LogStream, ScenarioConfig,
    Session, SpawnSpec,
};

fn scalar(value: f64) -> Scalar {
    Scalar::from_bits(value.to_bits())
}

fn summary(entity_id: u64, kind: &str) -> EntitySummary {
    EntitySummary { dimension: 0, entity_id, kind: kind.to_string(), position: None }
}

fn spawned(entity: EntitySummary) -> ServerResponse {
    ServerResponse::Spawned { status: ResponseStatus::Success, entity }
}

fn harness() -> EngineHarness {
    EngineHarness::connected(TimeSpan::from_millis(10))
}

fn pending(seeding: Seeding) -> phase_space_harness::harness::PendingSeed {
    match seeding {
        Seeding::Pending(pending) => pending,
        Seeding::Ready(_) => panic!("seeding is ready too early"),
    }
}

fn ready(seeding: Seeding) -> Session {
    match seeding {
        Seeding::Ready(session) => session,
        Seeding::Pending(_) => panic!("seeding is still pending"),
    }
}

/// A reference server behind the wire framing, with the telemetry that it pushes.
struct Wire {
    server: ReferenceServer,
    next_request: u64,
    journal: Journal,
}

impl Wire {
    fn new() -> Wire {
        Wire { server: ReferenceServer::new(), next_request: 1, journal: Journal::new() }
    }

    fn send(&mut self, payload: ServerRequest) -> ServerResponse {
        // The payload crosses the wire as a frame of its debug text: enough to
        // exercise the framing on both sides.
        let text = format!("{payload:?}");
        let framed = frame(text.as_bytes()).expect("request fits a frame");
        let (envelope, used) = split_frame(&framed).expect("a whole frame");
        assert_eq!(used, framed.len());
        assert_eq!(envelope, text.as_bytes());
        let id = self.next_request;
        self.next_request += 1;
        let (response, event) = self.server.handle_request(RequestEnvelope { id, payload });
        assert_eq!(response.id, id);
        self.server.note_sent(&event);
        self.journal.record_event(event);
        response.payload
    }

    fn idle(&mut self) {
        let event = self.server.idle_tick();
        self.journal.record_event(event);
    }
}

#[test]
fn spawn_plans_the_launch_from_the_config() {
    let config = EngineConfig::new("/opt/engine")
        .with_arg("--test-mode")
        .with_world_seed(9090)
        .with_env("A", "1")
        .with_env("A", "2")
        .with_working_directory("/tmp/work")
        .with_startup_timeout(TimeSpan::from_secs(30))
        .with_tick_wait(TimeSpan::from_millis(3));
    let plan = EngineHarness::spawn(&config);
    assert_eq!(plan.program, "/opt/engine");
    assert_eq!(plan.args, vec!["--test-mode", "--seed", "9090", "--bind-addr", "127.0.0.1:0"]);
    assert_eq!(plan.args, config.launch_args());
    assert_eq!(plan.env, vec![("A".to_string(), "1".to_string()), ("A".to_string(), "2".to_string())]);
    assert_eq!(plan.working_directory.as_deref(), Some("/tmp/work"));
    assert_eq!(plan.tick_wait, TimeSpan::from_millis(3));
    assert!(!plan.handshake.expired(TimeSpan::from_millis(29_999)));
    assert!(plan.handshake.expired(TimeSpan::from_secs(30)));
    let plain = EngineHarness::spawn(&EngineConfig::new("engine"));
    assert_eq!(plain.working_directory, None);
    assert!(plain.env.is_empty());
    assert!(plain.handshake.expired(TimeSpan::from_secs(5)));
    assert!(!plain.handshake.expired(TimeSpan::from_millis(4_999)));
}

#[test]
fn empty_scenario_is_ready_at_once() {
    let session = ready(harness().run_scenario(ScenarioConfig::default()));
    assert!(session.is_open());
    assert!(session.entities().is_empty());
    assert_eq!(session.tick_wait(), TimeSpan::from_millis(10));
}

#[test]
fn seeding_asks_for_each_directive_in_order() {
    let scenario = ScenarioConfig::default()
        .with_spawn(SpawnSpec::new("interceptor_a"))
        .with_spawn(SpawnSpec::new("interceptor_b").in_dimension(2));
    let first = pending(harness().run_scenario(scenario));
    assert_eq!(
        first.request(),
        ServerRequest::Spawn {
            entity_type: "interceptor_a".to_string(),
            parameters: EntityParameters::default(),
            dimension: None,
        }
    );
    let second = pending(first.accept(spawned(summary(1, "interceptor_a"))).unwrap());
    assert_eq!(
        second.request(),
        ServerRequest::Spawn {
            entity_type: "interceptor_b".to_string(),
            parameters: EntityParameters::default(),
            dimension: Some(2),
        }
    );
    let session = ready(second.accept(spawned(summary(2, "interceptor_b"))).unwrap());
    assert_eq!(session.entities(), &vec![summary(1, "interceptor_a"), summary(2, "interceptor_b")]);
    assert!(session.telemetry_for(2).unwrap().is_some());
}

#[test]
fn seeding_stops_at_the_first_bad_response() {
    let scenario = ScenarioConfig::default()
        .with_spawn(SpawnSpec::new("a"))
        .with_spawn(SpawnSpec::new("b"));
    let first = pending(harness().run_scenario(scenario.clone()));
    let failed = ServerResponse::Spawned { status: ResponseStatus::Failed, entity: summary(1, "a") };
    match first.accept(failed) {
        Err(HarnessError::UnexpectedResponse(message)) => {
            assert_eq!(message, "spawn for a failed with status Failed")
        }
        _ => panic!("a failed spawn must end the seeding"),
    }
    let first = pending(harness().run_scenario(scenario.clone()));
    let second = pending(first.accept(spawned(summary(1, "a"))).unwrap());
    match second.accept(ServerResponse::Error { message: "no room".to_string() }) {
        Err(HarnessError::UnexpectedResponse(message)) => assert_eq!(message, "no room"),
        _ => panic!("an error response must end the seeding"),
    }
    let first = pending(harness().run_scenario(scenario));
    match first.accept(ServerResponse::Listed { status: ResponseStatus::Success, entities: vec![] }) {
        Err(HarnessError::UnexpectedResponse(message)) => {
            assert_eq!(message, "spawn returned unexpected response: Listed")
        }
        _ => panic!("a listing must end the seeding"),
    }
}

#[test]
fn attach_starts_from_the_listed_entities() {
    let harness = harness();
    assert_eq!(harness.attach_request(), ServerRequest::List);
    let listing = ServerResponse::Listed {
        status: ResponseStatus::Success,
        entities: vec![summary(4, "interceptor_a"), summary(9, "interceptor_b")],
    };
    let session = harness.attach(listing).unwrap();
    assert_eq!(session.entities().len(), 2);
    let names: Vec<&str> = session.entities().iter().map(|entity| entity.kind.as_str()).collect();
    assert!(names.contains(&"interceptor_a"));
    assert!(names.contains(&"interceptor_b"));
    assert!(session.is_open());
}

#[test]
fn attach_fails_on_anything_but_a_successful_listing() {
    let failed = ServerResponse::Listed { status: ResponseStatus::NotFound, entities: vec![] };
    match harness().attach(failed) {
        Err(HarnessError::UnexpectedResponse(message)) => {
            assert_eq!(message, "list failed with status NotFound")
        }
        _ => panic!("a failed listing must fail the attach"),
    }
    match harness().attach(ServerResponse::Error { message: "busy".to_string() }) {
        Err(HarnessError::UnexpectedResponse(message)) => {
            assert_eq!(message, "list returned unexpected response: Error: busy")
        }
        _ => panic!("an error response must fail the attach"),
    }
}

#[test]
fn drives_fake_engine_end_to_end() {
    let config = EngineConfig::new("fake_engine");
    let scenario = ScenarioConfig::default().with_spawn(SpawnSpec::new("probe").with_parameters(
        EntityParameters {
            position: Some((scalar(0.0), scalar(0.0))),
            velocity: Some((scalar(1.0), scalar(0.0))),
            mass: None,
        },
    ));

    // Launch: the engine announces its address on its first line.
    let plan = EngineHarness::spawn(&config);
    assert_eq!(plan.args, vec!["--bind-addr", "127.0.0.1:0"]);
    let mut wire = Wire::new();
    assert!(matches!(
        plan.handshake.begin_round(TimeSpan::zero(), EngineState::Running),
        HandshakeStep::Listen(_)
    ));
    let announced = LogLine::captured(LogStream::Stdout, "listening on 127.0.0.1:40123\n");
    let address = match plan.handshake.observe(&mut wire.journal, HandshakeEvent::Line(announced)) {
        HandshakeOutcome::Candidate(text) => text,
        other => panic!("engine should launch, got {other:?}"),
    };
    assert_eq!(address, "127.0.0.1:40123");
    assert_eq!(plan.handshake.settle(true), CandidateVerdict::Bound);
    let harness = EngineHarness::connected(plan.tick_wait);

    // Scenario: every directive is sent and its response accepted.
    let mut seeding = harness.run_scenario(scenario);
    let mut session = loop {
        match seeding {
            Seeding::Ready(session) => break session,
            Seeding::Pending(pending) => {
                let response = wire.send(pending.request());
                seeding = pending.accept(response).expect("scenario should start");
            }
        }
    };

    let entity_id = session.entities().first().expect("spawned entity present").entity_id;
    assert_eq!(entity_id, 1);

    // Ticks: the engine is silent towards the client and ticks on its own.
    let mut advance = session.advance_ticks(3, wire.journal.max_tick()).expect("a wait");
    let mut rounds = 0;
    loop {
        let seen = wire.journal.max_tick();
        match session.poll_advance(&mut advance, EngineState::Running, seen, true) {
            TickAction::Reached => break,
            TickAction::Alive => panic!("the engine ticks: the wait must not fall back"),
            TickAction::Sleep(_) => wire.idle(),
            TickAction::Fail(error) => panic!("ticks should advance, got {error:?}"),
        }
        rounds += 1;
        assert!(rounds < 100);
    }
    assert!(wire.journal.max_tick() >= 1 + 3);
    assert!(!advance.fell_back());

    // Telemetry: the spawned entity is found under its id.
    let request = session
        .telemetry_for(entity_id)
        .expect("inspect should succeed")
        .expect("entity is known");
    let telemetry = phase_space_harness::responses::accept_inspect(wire.send(request))
        .expect("inspect should succeed")
        .expect("entity should exist");
    assert_eq!(telemetry.entity_id, entity_id);
    assert_eq!(telemetry.position, Some((scalar(0.0), scalar(0.0))));
    assert_eq!(telemetry.velocity, Some((scalar(1.0), scalar(0.0))));

    let logs = wire.journal.logs_for(entity_id);
    assert!(!logs.is_empty(), "expected telemetry or logs for entity {entity_id}");
    // The correlation is textual: the announcement holds the digit of the id too.
    assert_eq!(logs[0], LogLine::new(LogStream::Stdout, "listening on 127.0.0.1:40123".to_string()));
    assert!(logs[1..].iter().all(|line| line.stream == LogStream::Event));
    assert!(logs.len() > 1);

    // Shutdown: the request goes out once, and the engine exits on its own.
    let request = session.shutdown().expect("the connection was open");
    assert_eq!(
        wire.send(request),
        ServerResponse::Shutdown {
            status: ResponseStatus::Success,
            message: Some("shutdown requested".to_string()),
        }
    );
    assert!(!wire.server.is_running());
    assert_eq!(shutdown_poll(TimeSpan::zero(), false), ShutdownAction::Wait(TimeSpan::from_millis(10)));
    assert_eq!(shutdown_poll(TimeSpan::from_millis(10), true), ShutdownAction::Finish);
    assert_eq!(session.shutdown(), None);
    assert!(matches!(session.list_request(), Err(HarnessError::ConnectionClosed)));
    assert!(matches!(wire.journal.all_logs().first(), Some(line) if line.line == "listening on 127.0.0.1:40123"));
    assert!(wire.journal.all_logs().iter().any(|line| matches!(line.stream, LogStream::Event)));
    let pushed = ServerEvent::Log { message: "late".to_string() };
    wire.journal.record_event(pushed);
    assert_eq!(wire.journal.all_logs().last().unwrap().line, "late");
}
