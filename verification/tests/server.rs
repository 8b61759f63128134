use phase_space_harness::protocol::{
    EntityParameters, EntityRecord, EntitySummary, RequestEnvelope, ResponseEnvelope,
    ResponseStatus, Scalar, ServerEvent, ServerRequest, ServerResponse,
};
use phase_space_harness::server::{Outbox, ReferenceServer};
use phase_space_harness::time::TimeSpan;

fn scalar(value: f64) -> Scalar {
    Scalar::from_bits(value.to_bits())
}

fn spawn(kind: &str, dimension: Option<u32>) -> ServerRequest {
    ServerRequest::Spawn {
        entity_type: kind.to_string(),
        parameters: EntityParameters::default(),
        dimension,
    }
}

fn serve(server: &mut ReferenceServer, id: u64, payload: ServerRequest) -> (ServerResponse, ServerEvent) {
    let (ResponseEnvelope { id: echoed, payload }, event) =
        server.handle_request(RequestEnvelope { id, payload });
    assert_eq!(echoed, id);
    (payload, event)
}

fn telemetry(id: u64, tick: u64) -> ServerEvent {
    ServerEvent::Telemetry { id, tick, ship: "fake".to_string(), message: format!("tick {tick}") }
}

#[test]
fn fresh_server_runs_and_has_counted_nothing() {
    let mut server = ReferenceServer::new();
    assert!(server.is_running());
    assert_eq!(server.tick(), 0);
    assert!(server.list().is_empty());
    assert_eq!(server.lookup(1), None);
    assert_eq!(server.build_event(5), telemetry(0, 5));
    let first = server.register_entity("x", EntityParameters::default(), None);
    assert_eq!(first.entity_id, 1);
}

#[test]
fn spawned_ids_count_up_from_one() {
    let mut server = ReferenceServer::new();
    let mut last = 0;
    for round in 1..=50u64 {
        let (response, _) = serve(&mut server, round, spawn("probe", None));
        match response {
            ServerResponse::Spawned { status, entity } => {
                assert_eq!(status, ResponseStatus::Success);
                assert_eq!(entity.entity_id, round);
                assert!(entity.entity_id > last);
                last = entity.entity_id;
            }
            other => panic!("unexpected response {other:?}"),
        }
        let (listed, _) = serve(&mut server, 0, ServerRequest::List);
        assert!(matches!(listed, ServerResponse::Listed { .. }));
        let (inspected, _) = serve(&mut server, 0, ServerRequest::Inspect { dimension: 0, entity_id: round });
        assert!(matches!(inspected, ServerResponse::InspectResult { .. }));
    }
}

#[test]
fn probe_scenario_against_the_reference_server() {
    let mut server = ReferenceServer::new();
    let parameters = EntityParameters {
        position: Some((scalar(0.0), scalar(0.0))),
        velocity: Some((scalar(1.0), scalar(0.0))),
        mass: None,
    };
    let (spawned, _) = serve(
        &mut server,
        11,
        ServerRequest::Spawn { entity_type: "probe".to_string(), parameters, dimension: None },
    );
    assert_eq!(
        spawned,
        ServerResponse::Spawned {
            status: ResponseStatus::Success,
            entity: EntitySummary {
                entity_id: 1,
                dimension: 0,
                kind: "probe".to_string(),
                position: Some((scalar(0.0), scalar(0.0))),
            },
        }
    );
    let (inspected, _) = serve(&mut server, 12, ServerRequest::Inspect { dimension: 0, entity_id: 1 });
    assert_eq!(
        inspected,
        ServerResponse::InspectResult {
            status: ResponseStatus::Success,
            entity: Some(EntityRecord {
                dimension: 0,
                entity_id: 1,
                kind: "probe".to_string(),
                position: Some((scalar(0.0), scalar(0.0))),
                velocity: Some((scalar(1.0), scalar(0.0))),
                mass: None,
            }),
            message: None,
        }
    );
    assert!(server.is_running());
    let (stopped, _) = serve(&mut server, 13, ServerRequest::Shutdown);
    assert_eq!(
        stopped,
        ServerResponse::Shutdown {
            status: ResponseStatus::Success,
            message: Some("shutdown requested".to_string()),
        }
    );
    assert!(!server.is_running());
}

#[test]
fn inspect_of_a_missing_entity_is_not_found() {
    let mut server = ReferenceServer::new();
    let missing = ServerResponse::InspectResult {
        status: ResponseStatus::NotFound,
        entity: None,
        message: None,
    };
    let (response, _) = serve(&mut server, 1, ServerRequest::Inspect { dimension: 0, entity_id: 1 });
    assert_eq!(response, missing);
    serve(&mut server, 2, spawn("probe", None));
    for id in [0u64, 2, 3, u64::MAX] {
        let (response, _) = serve(&mut server, 3, ServerRequest::Inspect { dimension: 0, entity_id: id });
        assert_eq!(response, missing, "id {id}");
    }
}

#[test]
fn inspect_returns_the_spawned_id_and_dimension() {
    let mut server = ReferenceServer::new();
    let dimensions = [None, Some(0), Some(1), Some(7), Some(u32::MAX)];
    let mut ids = Vec::new();
    for dimension in dimensions {
        match serve(&mut server, 1, spawn("ship", dimension)).0 {
            ServerResponse::Spawned { entity, .. } => {
                assert_eq!(entity.dimension, dimension.unwrap_or(0));
                ids.push(entity.entity_id);
            }
            other => panic!("unexpected response {other:?}"),
        }
    }
    for (id, dimension) in ids.iter().zip(dimensions) {
        // The dimension of the request is ignored: the id alone finds the record.
        match serve(&mut server, 2, ServerRequest::Inspect { dimension: 99, entity_id: *id }).0 {
            ServerResponse::InspectResult { status, entity: Some(record), message: None } => {
                assert_eq!(status, ResponseStatus::Success);
                assert_eq!(record.entity_id, *id);
                assert_eq!(record.dimension, dimension.unwrap_or(0));
                assert_eq!(record.kind, "ship");
            }
            other => panic!("unexpected response {other:?}"),
        }
    }
}

#[test]
fn list_is_ordered_by_id() {
    let mut server = ReferenceServer::new();
    assert_eq!(
        serve(&mut server, 1, ServerRequest::List).0,
        ServerResponse::Listed { status: ResponseStatus::Success, entities: vec![] }
    );
    for kind in ["c", "a", "b"] {
        serve(&mut server, 2, spawn(kind, Some(4)));
    }
    let expected: Vec<EntitySummary> = [(1u64, "c"), (2, "a"), (3, "b")]
        .into_iter()
        .map(|(entity_id, kind)| EntitySummary {
            dimension: 4,
            entity_id,
            kind: kind.to_string(),
            position: None,
        })
        .collect();
    assert_eq!(
        serve(&mut server, 3, ServerRequest::List).0,
        ServerResponse::Listed { status: ResponseStatus::Success, entities: expected.clone() }
    );
    assert_eq!(server.list(), expected);
}

#[test]
fn register_entity_stores_what_it_summarises() {
    let mut server = ReferenceServer::new();
    let parameters = EntityParameters {
        position: Some((scalar(3.5), scalar(-1.0))),
        velocity: None,
        mass: Some(scalar(5.0)),
    };
    let summary = server.register_entity("arls_probe", parameters, Some(1));
    assert_eq!(
        summary,
        EntitySummary {
            dimension: 1,
            entity_id: 1,
            kind: "arls_probe".to_string(),
            position: Some((scalar(3.5), scalar(-1.0))),
        }
    );
    let record = server.lookup(1).unwrap();
    assert_eq!(
        record,
        EntityRecord {
            dimension: 1,
            entity_id: 1,
            kind: "arls_probe".to_string(),
            position: Some((scalar(3.5), scalar(-1.0))),
            velocity: None,
            mass: Some(scalar(5.0)),
        }
    );
    assert_eq!(record.summary(), summary);
    // Registering counts no tick: only requests and idle periods do.
    assert_eq!(server.tick(), 0);
}

#[test]
fn every_request_counts_one_tick_and_pushes_telemetry() {
    let mut server = ReferenceServer::new();
    let (_, event) = serve(&mut server, 1, ServerRequest::List);
    assert_eq!(event, telemetry(0, 1));
    let (_, event) = serve(&mut server, 2, ServerRequest::Inspect { dimension: 0, entity_id: 9 });
    assert_eq!(event, telemetry(0, 2));
    let (_, event) = serve(&mut server, 3, spawn("a", None));
    assert_eq!(event, telemetry(1, 3));
    let (_, event) = serve(&mut server, 4, spawn("b", None));
    assert_eq!(event, telemetry(1, 4));
    let (_, event) = serve(&mut server, 5, ServerRequest::Shutdown);
    assert_eq!(event, telemetry(1, 5));
    assert_eq!(server.tick(), 5);
}

#[test]
fn idle_server_keeps_ticking() {
    let mut server = ReferenceServer::new();
    let mut last = 0;
    for _ in 0..5 {
        match server.idle_tick() {
            ServerEvent::Telemetry { id, tick, ship, message } => {
                assert_eq!(id, 0);
                assert!(tick > last);
                assert_eq!(tick, last + 1);
                assert_eq!(ship, "fake");
                assert_eq!(message, format!("tick {tick}"));
                last = tick;
            }
            other => panic!("unexpected event {other:?}"),
        }
    }
    assert_eq!(server.tick(), 5);
    assert!(server.is_running());
}

#[test]
fn sent_telemetry_never_lowers_the_tick_counter() {
    let mut server = ReferenceServer::new();
    server.note_sent(&telemetry(0, 10));
    assert_eq!(server.tick(), 10);
    server.note_sent(&telemetry(0, 4));
    assert_eq!(server.tick(), 10);
    server.note_sent(&ServerEvent::Log { message: "tick 99".to_string() });
    assert_eq!(server.tick(), 10);
    assert_eq!(server.idle_tick(), telemetry(0, 11));
    server.note_sent(&telemetry(0, 11));
    assert_eq!(server.tick(), 11);
}

#[test]
fn tick_counter_starts_over_after_its_last_value() {
    let mut server = ReferenceServer::new();
    server.note_sent(&telemetry(0, u64::MAX));
    assert_eq!(server.tick(), u64::MAX);
    assert_eq!(server.idle_tick(), telemetry(0, 0));
    assert_eq!(server.tick(), 0);
}

#[test]
fn stop_clears_the_running_flag_only() {
    let mut server = ReferenceServer::new();
    serve(&mut server, 1, spawn("a", None));
    server.stop();
    assert!(!server.is_running());
    assert_eq!(server.tick(), 1);
    assert_eq!(server.list().len(), 1);
    server.stop();
    assert!(!server.is_running());
}

#[test]
fn request_ids_are_echoed_verbatim() {
    let mut server = ReferenceServer::new();
    for id in [0u64, 1, 42, u64::MAX] {
        let (envelope, _) = server.handle_request(RequestEnvelope { id, payload: ServerRequest::List });
        assert_eq!(envelope.id, id);
    }
}

#[test]
fn sender_ticks_on_its_own_after_ten_idle_milliseconds() {
    assert_eq!(ReferenceServer::idle_period(), TimeSpan::from_millis(10));
    let mut server = ReferenceServer::new();
    let mut last = 0;
    for _ in 0..3 {
        match server.next_to_send(Outbox::Idle) {
            Some(ServerEvent::Telemetry { tick, .. }) => {
                assert!(tick > last);
                last = tick;
            }
            other => panic!("unexpected event {other:?}"),
        }
    }
    assert_eq!(last, 3);
    assert_eq!(server.tick(), 3);
}

#[test]
fn sender_passes_queued_events_on() {
    let mut server = ReferenceServer::new();
    let (_, queued) = serve(&mut server, 1, spawn("a", None));
    assert_eq!(server.next_to_send(Outbox::Queued(queued.clone())), Some(queued));
    assert_eq!(server.tick(), 1);
    let ahead = telemetry(1, 40);
    assert_eq!(server.next_to_send(Outbox::Queued(ahead.clone())), Some(ahead));
    assert_eq!(server.tick(), 40);
    assert_eq!(server.next_to_send(Outbox::Idle), Some(telemetry(1, 41)));
    let log = ServerEvent::Log { message: "note".to_string() };
    assert_eq!(server.next_to_send(Outbox::Queued(log.clone())), Some(log));
    assert_eq!(server.tick(), 41);
}

#[test]
fn sender_stops_at_the_end_of_its_queue() {
    let mut server = ReferenceServer::new();
    server.idle_tick();
    assert_eq!(server.next_to_send(Outbox::Closed), None);
    assert_eq!(server.tick(), 1);
    assert!(server.is_running());
}
