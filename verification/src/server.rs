//! The reference engine: a minimal stand-in for the engine's side of the
//! wire protocol.
//!
//! [`ReferenceServer`] is the server's whole state (id counter, entity store,
//! running flag, tick counter) together with its request dispatch. Its view is a
//! [`ServerState`]; the functions of this module that take and return
//! `ServerState` say what each request does to it.

use crate::protocol::{
    summary_of, EntityParameters, EntityRecord, EntityRecordView, EntitySummary,
    EntitySummaryView, RequestEnvelope, ResponseEnvelope, ResponseStatus, ServerEvent,
    ServerEventView, ServerRequest, ServerRequestView, ServerResponse, ServerResponseView,
};
use crate::text::{decimal, push_decimal};
use crate::time::{TimeSpan, NANOS_PER_MILLI};
use std::collections::BTreeMap;
use vstd::prelude::*;
use vstd::std_specs::btree::increasing_seq;
use vstd::std_specs::cmp::OrdSpec;
use vstd::std_specs::iter::IteratorSpec;
use vstd::string::*;

verus! {

/// The state of a reference server.
pub ghost struct ServerState {
    /// The id that the next spawn will assign.
    pub next_id: u64,
    /// The stored records, by entity id.
    pub entities: Map<u64, EntityRecordView>,
    /// Cleared by a shutdown request.
    pub running: bool,
    /// The number of telemetry ticks counted so far.
    pub tick: u64,
}

/// The state of a server that has served nothing yet: ids start at 1, ticks at 0.
pub open spec fn fresh() -> ServerState {
    ServerState { next_id: 1, entities: Map::empty(), running: true, tick: 0 }
}

/// The successor of a counter, which starts over at 0 after `u64::MAX`.
pub open spec fn successor(n: u64) -> u64 {
    if n == u64::MAX {
        0
    } else {
        (n + 1) as u64
    }
}

/// Every record is stored under its own entity id.
pub open spec fn keyed_by_id(entities: Map<u64, EntityRecordView>) -> bool {
    forall|id: u64| #[trigger] entities.contains_key(id) ==> entities[id].entity_id == id
}

/// The record that a spawn request creates under `id`: the dimension defaults to 0.
pub open spec fn record_for(
    id: u64,
    entity_type: Seq<char>,
    parameters: EntityParameters,
    dimension: Option<u32>,
) -> EntityRecordView {
    EntityRecordView {
        dimension: match dimension {
            Some(d) => d,
            None => 0,
        },
        entity_id: id,
        kind: entity_type,
        position: parameters.position,
        velocity: parameters.velocity,
        mass: parameters.mass,
    }
}

/// The state after a spawn: the record is stored under the next id and the
/// counter moves on.
pub open spec fn spawned(
    s: ServerState,
    entity_type: Seq<char>,
    parameters: EntityParameters,
    dimension: Option<u32>,
) -> ServerState {
    ServerState {
        next_id: successor(s.next_id),
        entities: s.entities.insert(
            s.next_id,
            record_for(s.next_id, entity_type, parameters, dimension),
        ),
        ..s
    }
}

/// The state after a request's response has been computed and before its
/// tick is counted.
pub open spec fn answered(s: ServerState, request: ServerRequestView) -> ServerState {
    match request {
        ServerRequestView::Spawn { entity_type, parameters, dimension } => spawned(
            s,
            entity_type,
            parameters,
            dimension,
        ),
        ServerRequestView::List => s,
        ServerRequestView::Inspect { .. } => s,
        ServerRequestView::Shutdown => ServerState { running: false, ..s },
    }
}

/// The state after a request: every request, whatever its kind, counts one tick.
pub open spec fn after_request(s: ServerState, request: ServerRequestView) -> ServerState {
    ServerState { tick: successor(s.tick), ..answered(s, request) }
}

/// `list` holds the summary of every stored record exactly once, ordered by entity id.
pub open spec fn is_listing(
    entities: Map<u64, EntityRecordView>,
    list: Seq<EntitySummaryView>,
) -> bool {
    &&& list.len() == entities.dom().len()
    &&& forall|i: int, j: int|
        0 <= i < j < list.len() ==> (#[trigger] list[i]).entity_id < (#[trigger] list[j]).entity_id
    &&& forall|i: int|
        0 <= i < list.len() ==> entities.contains_key((#[trigger] list[i]).entity_id) && list[i]
            == summary_of(entities[list[i].entity_id])
}

/// `ids` is strictly increasing.
pub open spec fn strictly_increasing(ids: Seq<u64>) -> bool {
    forall|i: int, j: int| 0 <= i < j < ids.len() ==> ids[i] < ids[j]
}

/// Two strictly increasing sequences that hold the same ids are equal.
proof fn lemma_increasing_is_unique(a: Seq<u64>, b: Seq<u64>)
    requires
        strictly_increasing(a),
        strictly_increasing(b),
        a.to_set() == b.to_set(),
    ensures
        a == b,
    decreases a.len(),
{
    a.unique_seq_to_set();
    b.unique_seq_to_set();
    if a.len() == 0 {
        assert(a =~= b);
    } else {
        let last_a = a.last();
        let last_b = b.last();
        assert(a.to_set().contains(last_a)) by {
            assert(a[a.len() - 1] == last_a);
        }
        assert(b.to_set().contains(last_b)) by {
            assert(b[b.len() - 1] == last_b);
        }
        assert(b.contains(last_a));
        assert(a.contains(last_b));
        assert(last_a == last_b);
        let rest_a = a.drop_last();
        let rest_b = b.drop_last();
        assert forall|id: u64| rest_a.to_set().contains(id) == rest_b.to_set().contains(id) by {
            if rest_a.contains(id) {
                let i = choose|i: int| 0 <= i < rest_a.len() && rest_a[i] == id;
                assert(a[i] == id);
                assert(a.to_set().contains(id));
                assert(b.contains(id));
                let j = choose|j: int| 0 <= j < b.len() && b[j] == id;
                assert(id < last_a);
                assert(j < b.len() - 1);
                assert(rest_b[j] == id);
            }
            if rest_b.contains(id) {
                let i = choose|i: int| 0 <= i < rest_b.len() && rest_b[i] == id;
                assert(b[i] == id);
                assert(b.to_set().contains(id));
                assert(a.contains(id));
                let j = choose|j: int| 0 <= j < a.len() && a[j] == id;
                assert(id < last_b);
                assert(j < a.len() - 1);
                assert(rest_a[j] == id);
            }
        }
        assert(rest_a.to_set() =~= rest_b.to_set());
        lemma_increasing_is_unique(rest_a, rest_b);
        assert(a =~= rest_a.push(last_a));
        assert(b =~= rest_b.push(last_b));
    }
}

/// A strictly increasing sequence of stored ids, as many as are stored,
/// holds every stored id.
proof fn lemma_listing_holds_every_id(entities: Map<u64, EntityRecordView>, ids: Seq<u64>)
    requires
        entities.dom().finite(),
        strictly_increasing(ids),
        ids.len() == entities.dom().len(),
        forall|i: int| 0 <= i < ids.len() ==> entities.contains_key(#[trigger] ids[i]),
    ensures
        ids.to_set() == entities.dom(),
{
    ids.unique_seq_to_set();
    assert(ids.to_set().subset_of(entities.dom())) by {
        assert forall|id: u64| ids.to_set().contains(id) implies entities.dom().contains(id) by {
            let i = choose|i: int| 0 <= i < ids.len() && ids[i] == id;
            assert(entities.contains_key(ids[i]));
        }
    }
    vstd::set_lib::lemma_len_subset(ids.to_set(), entities.dom());
    vstd::set_lib::lemma_subset_equality(ids.to_set(), entities.dom());
}

/// The listing of a finite store is unique: whatever meets [`is_listing`]
/// is the one sequence of summaries in the order of their ids.
pub proof fn lemma_listing_is_unique(
    entities: Map<u64, EntityRecordView>,
    first: Seq<EntitySummaryView>,
    second: Seq<EntitySummaryView>,
)
    requires
        entities.dom().finite(),
        is_listing(entities, first),
        is_listing(entities, second),
    ensures
        first == second,
{
    let ids_first = Seq::new(first.len(), |i: int| first[i].entity_id);
    let ids_second = Seq::new(second.len(), |i: int| second[i].entity_id);
    assert(strictly_increasing(ids_first)) by {
        assert forall|i: int, j: int| 0 <= i < j < ids_first.len() implies ids_first[i]
            < ids_first[j] by {
            assert(first[i].entity_id < first[j].entity_id);
        }
    }
    assert(strictly_increasing(ids_second)) by {
        assert forall|i: int, j: int| 0 <= i < j < ids_second.len() implies ids_second[i]
            < ids_second[j] by {
            assert(second[i].entity_id < second[j].entity_id);
        }
    }
    assert forall|i: int| 0 <= i < ids_first.len() implies entities.contains_key(
        #[trigger] ids_first[i],
    ) by {
        assert(entities.contains_key(first[i].entity_id));
    }
    assert forall|i: int| 0 <= i < ids_second.len() implies entities.contains_key(
        #[trigger] ids_second[i],
    ) by {
        assert(entities.contains_key(second[i].entity_id));
    }
    lemma_listing_holds_every_id(entities, ids_first);
    lemma_listing_holds_every_id(entities, ids_second);
    lemma_increasing_is_unique(ids_first, ids_second);
    assert forall|i: int| 0 <= i < first.len() implies first[i] == second[i] by {
        assert(ids_first[i] == ids_second[i]);
        assert(first[i] == summary_of(entities[first[i].entity_id]));
        assert(second[i] == summary_of(entities[second[i].entity_id]));
    }
    assert(first =~= second);
}

/// The text of the message that answers a shutdown request.
pub open spec fn shutdown_message() -> Seq<char> {
    "shutdown requested"@
}

/// `response` is the answer that a server in state `s` owes to `request`.
pub open spec fn answers(
    s: ServerState,
    request: ServerRequestView,
    response: ServerResponseView,
) -> bool {
    match request {
        ServerRequestView::Spawn { entity_type, parameters, dimension } => response
            == (ServerResponseView::Spawned {
            status: ResponseStatus::Success,
            entity: summary_of(record_for(s.next_id, entity_type, parameters, dimension)),
        }),
        ServerRequestView::List => {
            &&& response matches ServerResponseView::Listed { status, entities }
            &&& status == ResponseStatus::Success
            &&& is_listing(s.entities, entities)
        },
        ServerRequestView::Inspect { entity_id, .. } => response == if s.entities.contains_key(
            entity_id,
        ) {
            ServerResponseView::InspectResult {
                status: ResponseStatus::Success,
                entity: Some(s.entities[entity_id]),
                message: None,
            }
        } else {
            ServerResponseView::InspectResult {
                status: ResponseStatus::NotFound,
                entity: None,
                message: None,
            }
        },
        ServerRequestView::Shutdown => response == (ServerResponseView::Shutdown {
            status: ResponseStatus::Success,
            message: Some(shutdown_message()),
        }),
    }
}

/// `id` is the least id under which a record is stored.
pub open spec fn is_least_id(entities: Map<u64, EntityRecordView>, id: u64) -> bool {
    &&& entities.contains_key(id)
    &&& forall|other: u64| #[trigger] entities.contains_key(other) ==> id <= other
}

/// The entity that telemetry is tagged with: the one with the least id, or 0
/// where nothing is stored.
pub open spec fn tagged_id(entities: Map<u64, EntityRecordView>) -> u64 {
    if exists|id: u64| is_least_id(entities, id) {
        choose|id: u64| is_least_id(entities, id)
    } else {
        0
    }
}

/// The telemetry event for tick `tick` of a server that stores `entities`.
pub open spec fn telemetry(entities: Map<u64, EntityRecordView>, tick: u64) -> ServerEventView {
    ServerEventView::Telemetry {
        id: tagged_id(entities),
        tick,
        ship: "fake"@,
        message: "tick "@ + decimal(tick as nat),
    }
}

/// The state after an idle period: one tick is counted.
pub open spec fn after_idle(s: ServerState) -> ServerState {
    ServerState { tick: successor(s.tick), ..s }
}

/// The state after `event` has been sent: the tick counter is raised to a
/// telemetry event's tick where that is higher.
pub open spec fn after_sent(s: ServerState, event: ServerEventView) -> ServerState {
    match event {
        ServerEventView::Telemetry { tick, .. } => ServerState {
            tick: if tick > s.tick {
                tick
            } else {
                s.tick
            },
            ..s
        },
        ServerEventView::Log { .. } => s,
    }
}

/// What the sender of events finds when it has waited on its queue for one
/// idle period.
#[derive(Debug)]
pub enum Outbox {
    /// An event that the dispatch of a request has queued.
    Queued(ServerEvent),
    /// Nothing: the queue stayed empty for the whole period.
    Idle,
    /// The end of the queue: the dispatch loop is gone.
    Closed,
}

/// View of an [`Outbox`].
pub ghost enum OutboxView {
    Queued(ServerEventView),
    Idle,
    Closed,
}

impl View for Outbox {
    type V = OutboxView;

    open spec fn view(&self) -> OutboxView {
        match *self {
            Outbox::Queued(event) => OutboxView::Queued(event@),
            Outbox::Idle => OutboxView::Idle,
            Outbox::Closed => OutboxView::Closed,
        }
    }
}

/// The state after the sender has dealt with what it found: a queued event
/// is taken note of, an idle period counts one tick.
pub open spec fn after_outbox(s: ServerState, outbox: OutboxView) -> ServerState {
    match outbox {
        OutboxView::Queued(event) => after_sent(s, event),
        OutboxView::Idle => after_idle(s),
        OutboxView::Closed => s,
    }
}

/// The event that the sender writes for what it found: the queued event,
/// or the telemetry of the tick that an idle period counts. At the end of
/// the queue there is none, and the sender stops.
pub open spec fn outgoing(s: ServerState, outbox: OutboxView) -> Option<ServerEventView> {
    match outbox {
        OutboxView::Queued(event) => Some(event),
        OutboxView::Idle => Some(telemetry(s.entities, successor(s.tick))),
        OutboxView::Closed => None,
    }
}

/// How long the sender waits on an empty queue before it ticks on its own:
/// ten milliseconds.
pub open spec fn idle_period() -> nat {
    (10 * NANOS_PER_MILLI) as nat
}

/// The state after serving `requests` in order.
pub open spec fn after_requests(s: ServerState, requests: Seq<ServerRequestView>) -> ServerState
    decreases requests.len(),
{
    if requests.len() == 0 {
        s
    } else {
        after_request(after_requests(s, requests.drop_last()), requests.last())
    }
}

/// The number of spawn requests among `requests`.
pub open spec fn spawn_count(requests: Seq<ServerRequestView>) -> nat
    decreases requests.len(),
{
    if requests.len() == 0 {
        0
    } else {
        spawn_count(requests.drop_last()) + if requests.last() is Spawn {
            1nat
        } else {
            0nat
        }
    }
}

/// The id that a server which started fresh and has served the first `at` of
/// `requests` assigns to the next spawn.
pub open spec fn assigned_id(requests: Seq<ServerRequestView>, at: int) -> u64 {
    after_requests(fresh(), requests.take(at)).next_id
}

/// The counter `n` after `steps` successors.
pub open spec fn advanced(n: u64, steps: nat) -> u64 {
    ((n + steps) % 0x1_0000_0000_0000_0000) as u64
}

/// Serving requests moves the id counter on by one for each spawn, and by nothing else.
pub proof fn lemma_next_id_counts_spawns(s: ServerState, requests: Seq<ServerRequestView>)
    ensures
        after_requests(s, requests).next_id == advanced(s.next_id, spawn_count(requests)),
    decreases requests.len(),
{
    if requests.len() > 0 {
        lemma_next_id_counts_spawns(s, requests.drop_last());
    }
}

/// A prefix of a request sequence holds no more spawns than the whole.
pub proof fn lemma_spawn_count_grows(requests: Seq<ServerRequestView>, at: int)
    requires
        0 <= at <= requests.len(),
    ensures
        spawn_count(requests.take(at)) <= spawn_count(requests),
        at < requests.len() && requests[at] is Spawn ==> spawn_count(requests.take(at))
            < spawn_count(requests),
    decreases requests.len() - at,
{
    if at == requests.len() {
        assert(requests.take(at) =~= requests);
    } else {
        lemma_spawn_count_grows(requests, at + 1);
        assert(requests.take(at + 1).drop_last() =~= requests.take(at));
    }
}

/// Entity ids are assigned in order, starting at 1: on a server that started
/// fresh, the spawn at index `at` gets the number of spawns up to and
/// including itself. This holds as long as the ids fit a `u64`.
pub proof fn lemma_spawn_ids_count_up(requests: Seq<ServerRequestView>, at: int)
    requires
        0 <= at < requests.len(),
        requests[at] is Spawn,
        spawn_count(requests) <= u64::MAX,
    ensures
        assigned_id(requests, at) == spawn_count(requests.take(at)) + 1,
        assigned_id(requests, at) >= 1,
{
    lemma_spawn_count_grows(requests, at);
    lemma_next_id_counts_spawns(fresh(), requests.take(at));
}

/// Entity ids strictly increase from one spawn to the next, so that none is
/// used twice. This holds as long as the ids fit a `u64`.
pub proof fn lemma_spawn_ids_increase(requests: Seq<ServerRequestView>, first: int, second: int)
    requires
        0 <= first < second < requests.len(),
        requests[first] is Spawn,
        requests[second] is Spawn,
        spawn_count(requests) <= u64::MAX,
    ensures
        assigned_id(requests, first) < assigned_id(requests, second),
{
    lemma_spawn_ids_count_up(requests, first);
    lemma_spawn_ids_count_up(requests, second);
    let upto = requests.take(second);
    lemma_spawn_count_grows(upto, first);
    assert(upto.take(first) =~= requests.take(first));
}

/// The store of a server stays finite, whatever it serves.
pub proof fn lemma_store_stays_finite(s: ServerState, requests: Seq<ServerRequestView>)
    requires
        s.entities.dom().finite(),
    ensures
        after_requests(s, requests).entities.dom().finite(),
    decreases requests.len(),
{
    if requests.len() > 0 {
        lemma_store_stays_finite(s, requests.drop_last());
    }
}

/// Requests keep every record under its own id.
pub proof fn lemma_keyed_by_id_is_kept(s: ServerState, request: ServerRequestView)
    requires
        keyed_by_id(s.entities),
    ensures
        keyed_by_id(after_request(s, request).entities),
{
}

/// A record stays as it was stored while at most `u64::MAX` spawns follow:
/// no later request removes it, and its id is not assigned again.
pub proof fn lemma_record_is_kept(s: ServerState, id: u64, later: Seq<ServerRequestView>)
    requires
        s.entities.contains_key(id),
        s.next_id == successor(id),
        spawn_count(later) <= u64::MAX,
    ensures
        after_requests(s, later).entities.contains_key(id),
        after_requests(s, later).entities[id] == s.entities[id],
    decreases later.len(),
{
    if later.len() > 0 {
        let before = later.drop_last();
        lemma_record_is_kept(s, id, before);
        lemma_next_id_counts_spawns(s, before);
    }
}

/// Round trip: an entity that was spawned is found by an inspect request for
/// its id, with that id and with the dimension that the spawn request gave (0
/// where it gave none), whatever was served in between, as long as at most
/// `u64::MAX` spawns were.
pub proof fn lemma_inspect_finds_spawned(
    s: ServerState,
    entity_type: Seq<char>,
    parameters: EntityParameters,
    dimension: Option<u32>,
    later: Seq<ServerRequestView>,
    asked_dimension: u32,
    response: ServerResponseView,
)
    requires
        spawn_count(later) <= u64::MAX,
        answers(
            after_requests(
                after_request(s, ServerRequestView::Spawn { entity_type, parameters, dimension }),
                later,
            ),
            ServerRequestView::Inspect { dimension: asked_dimension, entity_id: s.next_id },
            response,
        ),
    ensures
        response == (ServerResponseView::InspectResult {
            status: ResponseStatus::Success,
            entity: Some(record_for(s.next_id, entity_type, parameters, dimension)),
            message: None,
        }),
        record_for(s.next_id, entity_type, parameters, dimension).entity_id == s.next_id,
        record_for(s.next_id, entity_type, parameters, dimension).dimension == match dimension {
            Some(d) => d,
            None => 0,
        },
{
    let stored = after_request(
        s,
        ServerRequestView::Spawn { entity_type, parameters, dimension },
    );
    lemma_record_is_kept(stored, s.next_id, later);
}

/// The tick counter never falls while it has not reached `u64::MAX`: a
/// request and an idle period raise it by one, a sent event leaves it or
/// raises it.
pub proof fn lemma_ticks_advance(s: ServerState, request: ServerRequestView, event: ServerEventView)
    requires
        s.tick < u64::MAX,
    ensures
        after_request(s, request).tick == s.tick + 1,
        after_idle(s).tick == s.tick + 1,
        after_sent(s, event).tick >= s.tick,
{
}

/// An idle sender makes progress: what it writes after an idle period is a
/// telemetry event whose tick is one above the tick counter, and the
/// counter has then reached that tick. This holds while the counter has
/// not reached `u64::MAX`.
pub proof fn lemma_idle_sender_makes_progress(s: ServerState)
    requires
        s.tick < u64::MAX,
    ensures
        outgoing(s, OutboxView::Idle) matches Some(ServerEventView::Telemetry { tick, .. })
            && tick == s.tick + 1 && after_outbox(s, OutboxView::Idle).tick == tick,
{
}

/// The reference server: entity store, id counter, running flag and tick counter.
pub struct ReferenceServer {
    next_id: u64,
    entities: BTreeMap<u64, EntityRecord>,
    running: bool,
    tick: u64,
}

impl View for ReferenceServer {
    type V = ServerState;

    closed spec fn view(&self) -> ServerState {
        ServerState {
            next_id: self.next_id,
            entities: self.entities@.map_values(|r: EntityRecord| r@),
            running: self.running,
            tick: self.tick,
        }
    }
}

/// What an ordered walk of a map yields comes in strictly increasing key order.
proof fn lemma_walk_is_ordered(keys: Seq<u64>)
    requires
        increasing_seq(keys),
    ensures
        forall|i: int, j: int| 0 <= i < j < keys.len() ==> keys[i] < keys[j],
{
    broadcast use vstd::laws_cmp::group_laws_cmp;
    broadcast use vstd::std_specs::btree::group_btree_axioms;

    assert forall|i: int, j: int| 0 <= i < j < keys.len() implies keys[i] < keys[j] by {
        assert(keys[i].cmp_spec(&keys[j]) is Less);
    }
}

/// The first key of an ordered walk is the least one stored.
proof fn lemma_first_is_least(stored: Map<u64, EntityRecordView>, keys: Seq<u64>)
    requires
        forall|i: int, j: int| 0 <= i < j < keys.len() ==> keys[i] < keys[j],
        forall|at: int| 0 <= at < keys.len() ==> stored.contains_key(#[trigger] keys[at]),
        forall|id: u64| #[trigger] stored.contains_key(id) ==> keys.contains(id),
    ensures
        keys.len() > 0 ==> tagged_id(stored) == keys[0],
        keys.len() == 0 ==> tagged_id(stored) == 0,
{
    if keys.len() > 0 {
        assert forall|other: u64| #[trigger] stored.contains_key(other) implies keys[0]
            <= other by {
            let at = choose|at: int| 0 <= at < keys.len() && keys[at] == other;
            assert(keys[at] == other);
        }
        assert(is_least_id(stored, keys[0]));
    } else {
        assert forall|id: u64| !is_least_id(stored, id) by {
            if stored.contains_key(id) {
                assert(keys.contains(id));
            }
        }
    }
}

impl ReferenceServer {
    #[verifier::type_invariant]
    closed spec fn well_formed(self) -> bool {
        forall|id: u64| #[trigger]
            self.entities@.contains_key(id) ==> self.entities@[id].entity_id == id
    }

    /// A server that has served nothing yet.
    pub fn new() -> (out: ReferenceServer)
        ensures
            out@ == fresh(),
            out@.entities.dom().finite(),
    {
        let out = ReferenceServer { next_id: 1, entities: BTreeMap::new(), running: true, tick: 0 };
        assert(out@.entities =~= Map::empty());
        out
    }

    /// The store of a server holds finitely many records.
    proof fn lemma_store_is_finite(&self)
        ensures
            self@.entities.dom().finite(),
    {
        broadcast use vstd::std_specs::btree::group_btree_axioms;

        assert(self@.entities.dom() =~= self.entities@.dom());
    }

    /// Whether no shutdown has been requested yet.
    pub fn is_running(&self) -> (out: bool)
        ensures
            out == self@.running,
    {
        self.running
    }

    /// The number of ticks counted so far.
    pub fn tick(&self) -> (out: u64)
        ensures
            out == self@.tick,
    {
        self.tick
    }

    /// Clears the running flag, as a closed connection does.
    pub fn stop(&mut self)
        ensures
            final(self)@ == (ServerState { running: false, ..old(self)@ }),
    {
        proof {
            use_type_invariant(&*self);
        }
        self.running = false;
    }

    /// Stores a new entity under the next id and returns its summary.
    pub fn register_entity(
        &mut self,
        entity_type: &str,
        parameters: EntityParameters,
        dimension: Option<u32>,
    ) -> (out: EntitySummary)
        ensures
            final(self)@ == spawned(old(self)@, entity_type@, parameters, dimension),
            out@ == summary_of(record_for(old(self)@.next_id, entity_type@, parameters, dimension)),
            final(self)@.entities.dom().finite(),
    {
        broadcast use vstd::std_specs::btree::group_btree_axioms;
        broadcast use vstd::laws_cmp::group_laws_cmp;

        proof {
            use_type_invariant(&*self);
        }
        let id: u64 = self.next_id;
        let dimension_id: u32 = match dimension {
            Some(d) => d,
            None => 0,
        };
        let record = EntityRecord {
            dimension: dimension_id,
            entity_id: id,
            kind: String::from_str(entity_type),
            position: parameters.position,
            velocity: parameters.velocity,
            mass: parameters.mass,
        };
        let summary = record.summary();
        self.next_id = id.wrapping_add(1);
        // The store is taken out while it grows: an insertion may unwind, and the
        // server must hold a well-formed store whenever it can be observed.
        let mut store: BTreeMap<u64, EntityRecord> = BTreeMap::new();
        std::mem::swap(&mut self.entities, &mut store);
        store.insert(id, record);
        std::mem::swap(&mut self.entities, &mut store);
        assert(self@.entities =~= old(self)@.entities.insert(
            id,
            record_for(id, entity_type@, parameters, dimension),
        ));
        proof {
            self.lemma_store_is_finite();
        }
        summary
    }

    /// The stored record of `entity_id`, if there is one.
    pub fn lookup(&self, entity_id: u64) -> (out: Option<EntityRecord>)
        ensures
            out.deep_view() == if self@.entities.contains_key(entity_id) {
                Some(self@.entities[entity_id])
            } else {
                None
            },
    {
        broadcast use vstd::std_specs::btree::group_btree_axioms;
        broadcast use vstd::laws_cmp::group_laws_cmp;

        match self.entities.get(&entity_id) {
            Some(record) => Some(record.clone()),
            None => None,
        }
    }

    /// The summaries of all stored records, ordered by entity id.
    pub fn list(&self) -> (out: Vec<EntitySummary>)
        ensures
            is_listing(self@.entities, out.deep_view()),
            self@.entities.dom().finite(),
    {
        broadcast use vstd::std_specs::btree::group_btree_axioms;
        broadcast use vstd::laws_cmp::group_laws_cmp;

        proof {
            use_type_invariant(self);
        }
        let mut out: Vec<EntitySummary> = Vec::new();
        for entry in it: self.entities.iter()
            invariant
                it.seq() == self.entities.iter().remaining(),
                out@.len() == it.index(),
                forall|i: int| 0 <= i < out@.len() ==> (#[trigger] out@[i])@ == summary_of(
                    (*it.seq()[i].1)@,
                ),
        {
            out.push(entry.1.summary());
        }
        proof {
            let walk = self.entities.iter().remaining();
            let keys = walk.map_values(|kv: (&u64, &EntityRecord)| *kv.0);
            lemma_walk_is_ordered(keys);
            let list = out.deep_view();
            assert forall|i: int| 0 <= i < list.len() implies (#[trigger] list[i]).entity_id
                == keys[i] && self@.entities.contains_key(list[i].entity_id) && list[i]
                == summary_of(self@.entities[list[i].entity_id]) by {
                assert(list[i] == out@[i]@);
                assert(self.entities@.contains_key(*walk[i].0));
                assert(keys[i] == *walk[i].0);
            }
            assert forall|i: int, j: int| 0 <= i < j < list.len() implies (#[trigger] list[i]).entity_id
                < (#[trigger] list[j]).entity_id by {
                assert(keys[i] < keys[j]);
            }
            assert(self@.entities.dom() =~= self.entities@.dom());
        }
        out
    }

    /// The telemetry event for tick `tick`, tagged with the least stored entity id.
    pub fn build_event(&self, tick: u64) -> (out: ServerEvent)
        ensures
            out@ == telemetry(self@.entities, tick),
    {
        broadcast use vstd::std_specs::btree::group_btree_axioms;
        broadcast use vstd::laws_cmp::group_laws_cmp;

        let mut id: u64 = 0;
        let mut found: bool = false;
        for entry in it: self.entities.iter()
            invariant_except_break
                !found,
                id == 0,
                it.index() == 0,
            invariant
                it.seq() == self.entities.iter().remaining(),
            ensures
                found ==> it.seq().len() > 0 && id == *it.seq()[0].0,
                !found ==> it.seq().len() == 0 && id == 0,
        {
            id = *entry.0;
            found = true;
            break ;
        }
        proof {
            let all = self.entities.iter().remaining();
            let keys = all.map_values(|kv: (&u64, &EntityRecord)| *kv.0);
            lemma_walk_is_ordered(keys);
            let stored = self@.entities;
            assert(stored.dom() =~= self.entities@.dom());
            assert forall|at: int| 0 <= at < keys.len() implies stored.contains_key(
                #[trigger] keys[at],
            ) by {
                assert(self.entities@.contains_key(*all[at].0));
            }
            assert forall|other: u64| #[trigger] stored.contains_key(other) implies keys.contains(
                other,
            ) by {
                let at = choose|at: int|
                    0 <= at < all.len() && all[at] == (&other, &self.entities@[other]);
                assert(keys[at] == other);
            }
            lemma_first_is_least(stored, keys);
        }
        let mut message = String::from_str("tick ");
        push_decimal(&mut message, tick);
        ServerEvent::Telemetry { id, tick, ship: String::from_str("fake"), message }
    }

    /// Counts one tick for an idle period and returns the telemetry event for it.
    pub fn idle_tick(&mut self) -> (out: ServerEvent)
        ensures
            final(self)@ == after_idle(old(self)@),
            out@ == telemetry(final(self)@.entities, final(self)@.tick),
    {
        proof {
            use_type_invariant(&*self);
        }
        self.tick = self.tick.wrapping_add(1);
        self.build_event(self.tick)
    }

    /// Takes note that `event` has been sent: the tick counter never falls behind
    /// a tick that went out.
    pub fn note_sent(&mut self, event: &ServerEvent)
        ensures
            final(self)@ == after_sent(old(self)@, event@),
    {
        proof {
            use_type_invariant(&*self);
        }
        match event {
            ServerEvent::Telemetry { tick, .. } => {
                if *tick > self.tick {
                    self.tick = *tick;
                }
            },
            ServerEvent::Log { .. } => {},
        }
    }

    /// How long the sender waits on an empty queue before it ticks on its own.
    pub fn idle_period() -> (out: TimeSpan)
        ensures
            out@ == idle_period(),
    {
        TimeSpan::from_millis(10)
    }

    /// Decides what the sender of events writes next, given what it found on
    /// its queue; `None` tells it to stop.
    pub fn next_to_send(&mut self, outbox: Outbox) -> (out: Option<ServerEvent>)
        ensures
            final(self)@ == after_outbox(old(self)@, outbox@),
            out.deep_view() == outgoing(old(self)@, outbox@),
    {
        match outbox {
            Outbox::Queued(event) => {
                self.note_sent(&event);
                Some(event)
            },
            Outbox::Idle => Some(self.idle_tick()),
            Outbox::Closed => None,
        }
    }

    /// Serves one request: computes its response, counts one tick and builds
    /// the telemetry event for that tick.
    pub fn handle_request(&mut self, envelope: RequestEnvelope) -> (out: (
        ResponseEnvelope,
        ServerEvent,
    ))
        ensures
            final(self)@ == after_request(old(self)@, envelope@.payload),
            out.0@.id == envelope@.id,
            answers(old(self)@, envelope@.payload, out.0@.payload),
            out.1@ == telemetry(final(self)@.entities, final(self)@.tick),
            old(self)@.entities.dom().finite(),
            final(self)@.entities.dom().finite(),
    {
        proof {
            use_type_invariant(&*self);
            self.lemma_store_is_finite();
        }
        let RequestEnvelope { id, payload } = envelope;
        let response = match payload {
            ServerRequest::Spawn { entity_type, parameters, dimension } => {
                let entity = self.register_entity(entity_type.as_str(), parameters, dimension);
                ServerResponse::Spawned { status: ResponseStatus::Success, entity }
            },
            ServerRequest::List => ServerResponse::Listed {
                status: ResponseStatus::Success,
                entities: self.list(),
            },
            ServerRequest::Inspect { dimension: _, entity_id } => {
                let record = self.lookup(entity_id);
                let status = if record.is_some() {
                    ResponseStatus::Success
                } else {
                    ResponseStatus::NotFound
                };
                ServerResponse::InspectResult { status, entity: record, message: None }
            },
            ServerRequest::Shutdown => {
                self.running = false;
                ServerResponse::Shutdown {
                    status: ResponseStatus::Success,
                    message: Some(String::from_str("shutdown requested")),
                }
            },
        };
        proof {
            use_type_invariant(&*self);
        }
        self.tick = self.tick.wrapping_add(1);
        let event = self.build_event(self.tick);
        proof {
            self.lemma_store_is_finite();
        }
        (ResponseEnvelope { id, payload: response }, event)
    }
}

} // verus!
