//! The foreground state of a session with a running engine: whether the
//! connection is still open, and the entities that the last listing showed.
//!
//! A session decides what to ask of the engine and what to make of the
//! answers; sending the requests is left to the caller.

use crate::error::{HarnessError, HarnessErrorView};
use crate::protocol::{
    EntitySummary, EntitySummaryView, ServerRequest, ServerRequestView, ServerResponse,
};
use crate::responses::{accept_list, list_outcome};
use crate::time::{TimeSpan, NANOS_PER_MILLI, NANOS_PER_SEC};
use std::collections::HashMap;
use vstd::prelude::*;

verus! {

/// View of a [`Session`].
pub ghost struct SessionView {
    /// Whether the connection is still open: true until shutdown begins.
    pub open: bool,
    /// The expected delay between engine ticks, in nanoseconds.
    pub tick_wait: nat,
    /// The dimension of each known entity, by entity id.
    pub dimensions: Map<u64, u32>,
    /// The entities of the last listing, or those created at setup.
    pub entities: Seq<EntitySummaryView>,
}

/// The dimension of each entity of a listing, by entity id. Where an id
/// occurs twice, its last entry counts.
pub open spec fn index_of(entities: Seq<EntitySummaryView>) -> Map<u64, u32>
    decreases entities.len(),
{
    if entities.len() == 0 {
        Map::empty()
    } else {
        index_of(entities.drop_last()).insert(
            entities.last().entity_id,
            entities.last().dimension,
        )
    }
}

/// The session that starts with `entities`: its connection is open.
pub open spec fn started(entities: Seq<EntitySummaryView>, tick_wait: nat) -> SessionView {
    SessionView { open: true, tick_wait, dimensions: index_of(entities), entities }
}

/// The session after a listing has replaced its entities.
pub open spec fn refreshed(s: SessionView, entities: Seq<EntitySummaryView>) -> SessionView {
    SessionView { dimensions: index_of(entities), entities, ..s }
}

/// The session after shutdown has begun: its connection is closed.
pub open spec fn closed(s: SessionView) -> SessionView {
    SessionView { open: false, ..s }
}

/// How long a shutdown waits for the engine to exit on its own: two seconds.
pub open spec fn shutdown_grace() -> nat {
    (2 * NANOS_PER_SEC) as nat
}

/// How long a shutdown sleeps between two looks at the engine: ten milliseconds.
pub open spec fn shutdown_pause() -> nat {
    (10 * NANOS_PER_MILLI) as nat
}

/// What a shutdown does next.
#[derive(Debug, Clone, Copy, PartialEq, Eq)]
pub enum ShutdownAction {
    /// Sleep for the given time, then look at the engine again.
    Wait(TimeSpan),
    /// Terminate the engine by force, wait for its exit, then finish.
    Kill,
    /// Release the connection and join the collectors: the engine has exited.
    Finish,
}

/// View of a [`ShutdownAction`]: the time to wait in nanoseconds.
pub ghost enum ShutdownActionView {
    Wait(nat),
    Kill,
    Finish,
}

impl View for ShutdownAction {
    type V = ShutdownActionView;

    open spec fn view(&self) -> ShutdownActionView {
        match *self {
            ShutdownAction::Wait(pause) => ShutdownActionView::Wait(pause@),
            ShutdownAction::Kill => ShutdownActionView::Kill,
            ShutdownAction::Finish => ShutdownActionView::Finish,
        }
    }
}

/// What a shutdown does when `elapsed` nanoseconds have passed since it
/// began: it finishes if the engine has exited, whenever that is seen;
/// else it waits within the grace period and kills the engine after it.
pub open spec fn shutdown_step(elapsed: nat, exited: bool) -> ShutdownActionView {
    if exited {
        ShutdownActionView::Finish
    } else if elapsed < shutdown_grace() {
        ShutdownActionView::Wait(shutdown_pause())
    } else {
        ShutdownActionView::Kill
    }
}

/// Decides what a shutdown does next, `elapsed` after it began.
pub fn shutdown_poll(elapsed: TimeSpan, exited: bool) -> (out: ShutdownAction)
    ensures
        out@ == shutdown_step(elapsed@, exited),
{
    let grace = TimeSpan::from_secs(2);
    if exited {
        ShutdownAction::Finish
    } else if elapsed.as_nanos() < grace.as_nanos() {
        ShutdownAction::Wait(TimeSpan::from_millis(10))
    } else {
        ShutdownAction::Kill
    }
}

/// Shutdown is idempotent: a second shutdown finds the connection closed
/// and changes nothing; and an engine that has exited is neither waited
/// for nor killed, however late that is seen.
pub proof fn lemma_shutdown_is_idempotent(s: SessionView, elapsed: nat)
    ensures
        closed(closed(s)) == closed(s),
        !closed(s).open,
        shutdown_step(elapsed, true) == ShutdownActionView::Finish,
{
}

/// A shutdown ends: it never waits once the grace period has passed, so
/// that after finitely many pauses it finishes or kills.
pub proof fn lemma_shutdown_ends(elapsed: nat, exited: bool)
    requires
        elapsed >= shutdown_grace(),
    ensures
        !(shutdown_step(elapsed, exited) is Wait),
        !exited ==> shutdown_step(elapsed, exited) == ShutdownActionView::Kill,
{
}

/// Active connection to a running engine process: the foreground state.
pub struct Session {
    open: bool,
    tick_wait: TimeSpan,
    entity_dimensions: HashMap<u64, u32>,
    entities: Vec<EntitySummary>,
}

impl View for Session {
    type V = SessionView;

    closed spec fn view(&self) -> SessionView {
        SessionView {
            open: self.open,
            tick_wait: self.tick_wait@,
            dimensions: self.entity_dimensions@,
            entities: self.entities.deep_view(),
        }
    }
}

/// The dimension of each entity of `entities`, by entity id.
fn build_index(entities: &Vec<EntitySummary>) -> (out: HashMap<u64, u32>)
    ensures
        out@ == index_of(entities.deep_view()),
{
    let mut out: HashMap<u64, u32> = HashMap::new();
    let mut i: usize = 0;
    assert(entities.deep_view().take(0) =~= Seq::empty());
    while i < entities.len()
        invariant
            i <= entities.len(),
            out@ == index_of(entities.deep_view().take(i as int)),
        decreases entities.len() - i,
    {
        proof {
            let upto = entities.deep_view().take(i + 1);
            assert(upto.drop_last() =~= entities.deep_view().take(i as int));
            assert(upto.last() == entities@[i as int]@);
        }
        out.insert(entities[i].entity_id, entities[i].dimension);
        i = i + 1;
    }
    assert(entities.deep_view().take(entities.len() as int) =~= entities.deep_view());
    out
}

impl Session {
    /// The session that starts with the entities created or found at setup.
    pub fn new(entities: Vec<EntitySummary>, tick_wait: TimeSpan) -> (out: Session)
        ensures
            out@ == started(entities.deep_view(), tick_wait@),
    {
        let entity_dimensions = build_index(&entities);
        Session { open: true, tick_wait, entity_dimensions, entities }
    }

    /// Return the entities created during scenario setup, or those of the last listing.
    pub fn entities(&self) -> (out: &Vec<EntitySummary>)
        ensures
            out.deep_view() == self@.entities,
    {
        &self.entities
    }

    /// Whether the connection is still open.
    pub fn is_open(&self) -> (out: bool)
        ensures
            out == self@.open,
    {
        self.open
    }

    /// The expected delay between engine ticks.
    pub fn tick_wait(&self) -> (out: TimeSpan)
        ensures
            out@ == self@.tick_wait,
    {
        self.tick_wait
    }

    /// The request that refreshes the cached entity list, or the
    /// closed-connection error after shutdown.
    pub fn list_request(&self) -> (out: Result<ServerRequest, HarnessError>)
        ensures
            self@.open ==> (out matches Ok(request) && request@ == ServerRequestView::List),
            !self@.open ==> (out matches Err(error) && error@
                == HarnessErrorView::ConnectionClosed),
    {
        if self.open {
            Ok(ServerRequest::List)
        } else {
            Err(HarnessError::ConnectionClosed)
        }
    }

    /// Refresh the cached entity list from the response to a list request.
    ///
    /// After shutdown this fails with the closed-connection error. Else the
    /// listed entities replace the cached ones if the response is a
    /// successful listing, and the unexpected-response error comes back if it
    /// is not. The session is unchanged whenever an error comes back.
    pub fn refresh_entities(&mut self, response: ServerResponse) -> (out: Result<(), HarnessError>)
        ensures
            !old(self)@.open ==> (out matches Err(error) && error@
                == HarnessErrorView::ConnectionClosed && final(self)@ == old(self)@),
            old(self)@.open ==> match list_outcome(response@) {
                Ok(entities) => out is Ok && final(self)@ == refreshed(old(self)@, entities),
                Err(expected) => out matches Err(error) && error@ == expected && final(self)@
                    == old(self)@,
            },
    {
        if !self.open {
            return Err(HarnessError::ConnectionClosed);
        }
        match accept_list(response) {
            Ok(entities) => {
                self.entity_dimensions = build_index(&entities);
                self.entities = entities;
                Ok(())
            },
            Err(error) => Err(error),
        }
    }

    /// The request that fetches the latest telemetry of `entity_id`.
    ///
    /// An entity that the session does not know has none to send: that is a
    /// valid empty result and no error, after shutdown too. For a known
    /// entity the request inspects it in its cached dimension; after
    /// shutdown the closed-connection error comes back instead.
    pub fn telemetry_for(&self, entity_id: u64) -> (out: Result<Option<ServerRequest>, HarnessError>)
        ensures
            !self@.dimensions.contains_key(entity_id) ==> out matches Ok(None),
            self@.dimensions.contains_key(entity_id) && self@.open ==> (out matches Ok(
                Some(request),
            ) && request@ == (ServerRequestView::Inspect {
                dimension: self@.dimensions[entity_id],
                entity_id,
            })),
            self@.dimensions.contains_key(entity_id) && !self@.open ==> (out matches Err(error)
                && error@ == HarnessErrorView::ConnectionClosed),
    {
        let dimension: u32 = match self.entity_dimensions.get(&entity_id) {
            Some(dimension) => *dimension,
            None => {
                return Ok(None);
            },
        };
        if !self.open {
            return Err(HarnessError::ConnectionClosed);
        }
        Ok(Some(ServerRequest::Inspect { dimension, entity_id }))
    }

    /// Begins a shutdown: closes the connection, and returns the shutdown
    /// request to send to the engine if the connection was still open. The
    /// request is sent on a best-effort basis: its response, or the failure
    /// to send it, is of no account.
    pub fn shutdown(&mut self) -> (out: Option<ServerRequest>)
        ensures
            final(self)@ == closed(old(self)@),
            old(self)@.open ==> (out matches Some(request) && request@
                == ServerRequestView::Shutdown),
            !old(self)@.open ==> out is None,
    {
        if self.open {
            self.open = false;
            Some(ServerRequest::Shutdown)
        } else {
            None
        }
    }
}

} // verus!
