//! From a configuration to a session: the plan of the launch, and the
//! seeding of the engine once it is reachable.
//!
//! Launching the process, talking to it and waiting are left to the caller.
//! This module says what to launch, which requests seed a scenario, in what
//! order, and what the responses amount to.

use crate::config::{
    copy_assignments, launch_args, spawn_request, EngineConfig, ScenarioConfig, SpawnSpec,
    SpawnSpecView,
};
use crate::error::{HarnessError, HarnessErrorView};
use crate::protocol::{
    EntitySummary, EntitySummaryView, ResponseStatus, ServerRequest, ServerRequestView,
    ServerResponse, ServerResponseView,
};
use crate::responses::{accept_list, accept_spawn, list_outcome, spawn_outcome};
use crate::session::{started, Session, SessionView};
use crate::startup::Handshake;
use crate::time::TimeSpan;
use vstd::prelude::*;
use vstd::string::*;

verus! {

/// What to launch, and how long to wait for it.
#[derive(Debug)]
pub struct LaunchPlan {
    /// The program to run.
    pub program: String,
    /// Its arguments.
    pub args: Vec<String>,
    /// The assignments to apply, in order, to the environment of the process.
    pub env: Vec<(String, String)>,
    /// The directory to run it in, if not the caller's.
    pub working_directory: Option<String>,
    /// The handshake that waits for the listen address.
    pub handshake: Handshake,
    /// The expected delay between engine ticks.
    pub tick_wait: TimeSpan,
}

/// Handle to a running engine process with an active protocol client, before
/// the session is set up.
#[derive(Debug)]
pub struct EngineHarness {
    tick_wait: TimeSpan,
}

impl View for EngineHarness {
    type V = nat;

    closed spec fn view(&self) -> nat {
        self.tick_wait@
    }
}

/// View of a [`PendingSeed`].
pub ghost struct PendingSeedView {
    /// The expected delay between engine ticks, in nanoseconds.
    pub tick_wait: nat,
    /// The spawn directives of the scenario.
    pub spawns: Seq<SpawnSpecView>,
    /// The index of the directive whose response is awaited.
    pub next: nat,
    /// The entities spawned so far, in the order of their directives.
    pub entities: Seq<EntitySummaryView>,
}

/// View of a [`Seeding`].
pub ghost enum SeedingView {
    Pending(PendingSeedView),
    Ready(SessionView),
}

/// How far a seeding has come when `next` directives have been answered:
/// it awaits the next response, or is ready with a session that starts
/// with the spawned entities.
pub open spec fn seeding(
    tick_wait: nat,
    spawns: Seq<SpawnSpecView>,
    next: nat,
    entities: Seq<EntitySummaryView>,
) -> SeedingView {
    if next < spawns.len() {
        SeedingView::Pending(PendingSeedView { tick_wait, spawns, next, entities })
    } else {
        SeedingView::Ready(started(entities, tick_wait))
    }
}

/// What a seeding that awaits a response makes of `response`: the error
/// that the response amounts to, which ends the seeding, or the seeding
/// with one more entity.
pub open spec fn seed_accepted(pending: PendingSeedView, response: ServerResponseView) -> Result<
    SeedingView,
    HarnessErrorView,
> {
    match spawn_outcome(pending.spawns[pending.next as int].entity_type, response) {
        Ok(entity) => Ok(
            seeding(
                pending.tick_wait,
                pending.spawns,
                pending.next + 1,
                pending.entities.push(entity),
            ),
        ),
        Err(error) => Err(error),
    }
}

/// What a seeding makes of `responses`, accepted in order: the first error
/// ends it, and a seeding that is ready accepts nothing more.
pub open spec fn seed_all(state: SeedingView, responses: Seq<ServerResponseView>) -> Result<
    SeedingView,
    HarnessErrorView,
>
    decreases responses.len(),
{
    if responses.len() == 0 {
        Ok(state)
    } else {
        match state {
            SeedingView::Pending(pending) => match seed_accepted(pending, responses.first()) {
                Ok(next) => seed_all(next, responses.drop_first()),
                Err(error) => Err(error),
            },
            SeedingView::Ready(_) => Ok(state),
        }
    }
}

/// The responses that report `entities` as spawned, one for each.
pub open spec fn spawned_replies(entities: Seq<EntitySummaryView>) -> Seq<ServerResponseView> {
    Seq::new(
        entities.len(),
        |i: int|
            ServerResponseView::Spawned {
                status: ResponseStatus::Success,
                entity: entities[i],
            },
    )
}

/// A scenario whose every directive is answered with a spawned entity ends
/// in a session that starts with those entities, in the order of the
/// directives.
pub proof fn lemma_seeding_collects(
    tick_wait: nat,
    spawns: Seq<SpawnSpecView>,
    next: nat,
    collected: Seq<EntitySummaryView>,
    entities: Seq<EntitySummaryView>,
)
    requires
        next <= spawns.len(),
        entities.len() == spawns.len() - next,
    ensures
        seed_all(seeding(tick_wait, spawns, next, collected), spawned_replies(entities)) == Ok::<
            SeedingView,
            HarnessErrorView,
        >(SeedingView::Ready(started(collected + entities, tick_wait))),
    decreases entities.len(),
{
    let replies = spawned_replies(entities);
    if entities.len() == 0 {
        assert(collected + entities =~= collected);
    } else {
        let rest = entities.drop_first();
        lemma_seeding_collects(tick_wait, spawns, next + 1, collected.push(entities.first()), rest);
        assert(replies.drop_first() =~= spawned_replies(rest));
        assert(collected.push(entities.first()) + rest =~= collected + entities);
    }
}

/// A scenario that is being seeded and awaits the response to a spawn request.
#[derive(Debug)]
pub struct PendingSeed {
    tick_wait: TimeSpan,
    spawns: Vec<SpawnSpec>,
    next: usize,
    entities: Vec<EntitySummary>,
}

impl View for PendingSeed {
    type V = PendingSeedView;

    closed spec fn view(&self) -> PendingSeedView {
        PendingSeedView {
            tick_wait: self.tick_wait@,
            spawns: self.spawns.deep_view(),
            next: self.next as nat,
            entities: self.entities.deep_view(),
        }
    }
}

/// The seeding of a scenario: under way, or done.
pub enum Seeding {
    /// A spawn request is to be sent and its response accepted.
    Pending(PendingSeed),
    /// Every directive has been answered: the session is set up.
    Ready(Session),
}

impl View for Seeding {
    type V = SeedingView;

    open spec fn view(&self) -> SeedingView {
        match *self {
            Seeding::Pending(pending) => SeedingView::Pending(pending@),
            Seeding::Ready(session) => SeedingView::Ready(session@),
        }
    }
}

/// The seeding at which `next` directives have been answered.
fn seeding_at(
    tick_wait: TimeSpan,
    spawns: Vec<SpawnSpec>,
    next: usize,
    entities: Vec<EntitySummary>,
) -> (out: Seeding)
    ensures
        out@ == seeding(tick_wait@, spawns.deep_view(), next as nat, entities.deep_view()),
{
    if next < spawns.len() {
        Seeding::Pending(PendingSeed { tick_wait, spawns, next, entities })
    } else {
        Seeding::Ready(Session::new(entities, tick_wait))
    }
}

impl PendingSeed {
    #[verifier::type_invariant]
    closed spec fn in_range(self) -> bool {
        self.next < self.spawns@.len()
    }

    /// The spawn request whose response the seeding awaits.
    pub fn request(&self) -> (out: ServerRequest)
        ensures
            self@.next < self@.spawns.len(),
            out@ == spawn_request(self@.spawns[self@.next as int]),
    {
        proof {
            use_type_invariant(self);
        }
        self.spawns[self.next].request()
    }

    /// Accepts the response to the awaited spawn request.
    ///
    /// A response that reports the spawned entity moves the seeding on to
    /// the next directive, or sets up the session after the last. Any other
    /// response ends the seeding with the error that it amounts to.
    pub fn accept(self, response: ServerResponse) -> (out: Result<Seeding, HarnessError>)
        ensures
            match out {
                Ok(seeding) => seed_accepted(self@, response@) == Ok::<
                    SeedingView,
                    HarnessErrorView,
                >(seeding@),
                Err(error) => seed_accepted(self@, response@) == Err::<
                    SeedingView,
                    HarnessErrorView,
                >(error@),
            },
    {
        proof {
            use_type_invariant(&self);
        }
        let PendingSeed { tick_wait, spawns, next, entities } = self;
        let mut entities = entities;
        assert(next < spawns.len());
        match accept_spawn(spawns[next].entity_type.as_str(), response) {
            Ok(entity) => {
                entities.push(entity);
                assert(entities.deep_view() =~= self.entities.deep_view().push(entity@));
                Ok(seeding_at(tick_wait, spawns, next + 1, entities))
            },
            Err(error) => Err(error),
        }
    }
}

impl EngineHarness {
    /// Plans the launch that `config` describes: the program, its
    /// arguments, its environment, its working directory, the handshake with
    /// the configured timeout, and the tick wait.
    pub fn spawn(config: &EngineConfig) -> (out: LaunchPlan)
        ensures
            out.program@ == config@.binary_path,
            out.args.deep_view() == launch_args(config@),
            out.env.deep_view() == config.env.deep_view(),
            out.working_directory.deep_view() == config@.working_directory,
            out.handshake@ == config@.startup_timeout,
            out.tick_wait@ == config@.tick_wait,
    {
        LaunchPlan {
            program: config.binary_path.clone(),
            args: config.launch_args(),
            env: copy_assignments(&config.env),
            working_directory: match &config.working_directory {
                Some(dir) => Some(dir.clone()),
                None => None,
            },
            handshake: Handshake::new(config.startup_timeout),
            tick_wait: config.tick_wait,
        }
    }

    /// The harness of an engine that listens and is connected to. Its view is
    /// the tick wait in nanoseconds.
    pub fn connected(tick_wait: TimeSpan) -> (out: EngineHarness)
        ensures
            out@ == tick_wait@,
    {
        EngineHarness { tick_wait }
    }

    /// Seed the running engine with the provided scenario: begins the
    /// seeding, which is ready at once for a scenario without directives.
    pub fn run_scenario(self, scenario: ScenarioConfig) -> (out: Seeding)
        ensures
            out@ == seeding(self@, scenario@, 0, Seq::empty()),
    {
        let entities: Vec<EntitySummary> = Vec::new();
        assert(entities.deep_view() =~= Seq::empty());
        seeding_at(self.tick_wait, scenario.spawns, 0, entities)
    }

    /// The request that lists the entities of a pre-seeded engine.
    pub fn attach_request(&self) -> (out: ServerRequest)
        ensures
            out@ == ServerRequestView::List,
    {
        ServerRequest::List
    }

    /// Connect to a pre-seeded engine: sets up the session with the entities
    /// that the response to the list request shows, or fails with the error
    /// that the response amounts to.
    pub fn attach(self, response: ServerResponse) -> (out: Result<Session, HarnessError>)
        ensures
            match list_outcome(response@) {
                Ok(entities) => out matches Ok(session) && session@ == started(entities, self@),
                Err(expected) => out matches Err(error) && error@ == expected,
            },
    {
        match accept_list(response) {
            Ok(entities) => Ok(Session::new(entities, self.tick_wait)),
            Err(error) => Err(error),
        }
    }
}

} // verus!
