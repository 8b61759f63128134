//! Messages of the engine's wire protocol: requests, responses and pushed events.
//!
//! Each message type has a view that holds its texts as `Seq<char>`; the
//! contracts of the library speak of those views.

use vstd::prelude::*;

verus! {

/// A real number of the protocol, held as the bit pattern of its IEEE 754
/// double-precision encoding. The library stores and echoes such numbers and
/// never computes with them.
#[derive(Debug, Clone, Copy, PartialEq, Eq, Structural)]
pub struct Scalar {
    pub bits: u64,
}

impl Scalar {
    /// The number with the given bit pattern.
    pub fn from_bits(bits: u64) -> (out: Scalar)
        ensures
            out.bits == bits,
    {
        Scalar { bits }
    }

    /// The bit pattern of the number.
    pub fn to_bits(&self) -> (out: u64)
        ensures
            out == self.bits,
    {
        self.bits
    }
}

/// Optional initial state of an entity to spawn.
#[derive(Debug, Clone, Copy, PartialEq, Eq)]
pub struct EntityParameters {
    pub position: Option<(Scalar, Scalar)>,
    pub velocity: Option<(Scalar, Scalar)>,
    pub mass: Option<Scalar>,
}

impl Default for EntityParameters {
    fn default() -> (out: EntityParameters)
        ensures
            out == (EntityParameters { position: None, velocity: None, mass: None }),
    {
        EntityParameters { position: None, velocity: None, mass: None }
    }
}

/// Outcome class of a response. On the wire `Success` is written `Ok`.
#[derive(Debug, Clone, Copy, PartialEq, Eq, Structural)]
pub enum ResponseStatus {
    Success,
    NotFound,
    Failed,
}

/// Full telemetry snapshot of one entity.
#[derive(Debug, PartialEq, Eq)]
pub struct EntityRecord {
    pub dimension: u32,
    pub entity_id: u64,
    pub kind: String,
    pub position: Option<(Scalar, Scalar)>,
    pub velocity: Option<(Scalar, Scalar)>,
    pub mass: Option<Scalar>,
}

/// View of an [`EntityRecord`].
pub ghost struct EntityRecordView {
    pub dimension: u32,
    pub entity_id: u64,
    pub kind: Seq<char>,
    pub position: Option<(Scalar, Scalar)>,
    pub velocity: Option<(Scalar, Scalar)>,
    pub mass: Option<Scalar>,
}

impl View for EntityRecord {
    type V = EntityRecordView;

    open spec fn view(&self) -> EntityRecordView {
        EntityRecordView {
            dimension: self.dimension,
            entity_id: self.entity_id,
            kind: self.kind@,
            position: self.position,
            velocity: self.velocity,
            mass: self.mass,
        }
    }
}

impl DeepView for EntityRecord {
    type V = EntityRecordView;

    open spec fn deep_view(&self) -> EntityRecordView {
        self@
    }
}

impl Clone for EntityRecord {
    fn clone(&self) -> (out: EntityRecord)
        ensures
            out@ == self@,
    {
        EntityRecord {
            dimension: self.dimension,
            entity_id: self.entity_id,
            kind: self.kind.clone(),
            position: self.position,
            velocity: self.velocity,
            mass: self.mass,
        }
    }
}

/// Reduced projection of an entity: what list and spawn operations return.
#[derive(Debug, PartialEq, Eq)]
pub struct EntitySummary {
    pub dimension: u32,
    pub entity_id: u64,
    pub kind: String,
    pub position: Option<(Scalar, Scalar)>,
}

/// View of an [`EntitySummary`].
pub ghost struct EntitySummaryView {
    pub dimension: u32,
    pub entity_id: u64,
    pub kind: Seq<char>,
    pub position: Option<(Scalar, Scalar)>,
}

impl View for EntitySummary {
    type V = EntitySummaryView;

    open spec fn view(&self) -> EntitySummaryView {
        EntitySummaryView {
            dimension: self.dimension,
            entity_id: self.entity_id,
            kind: self.kind@,
            position: self.position,
        }
    }
}

impl DeepView for EntitySummary {
    type V = EntitySummaryView;

    open spec fn deep_view(&self) -> EntitySummaryView {
        self@
    }
}

impl Clone for EntitySummary {
    fn clone(&self) -> (out: EntitySummary)
        ensures
            out@ == self@,
    {
        EntitySummary {
            dimension: self.dimension,
            entity_id: self.entity_id,
            kind: self.kind.clone(),
            position: self.position,
        }
    }
}

/// The summary that stands for a record.
pub open spec fn summary_of(record: EntityRecordView) -> EntitySummaryView {
    EntitySummaryView {
        dimension: record.dimension,
        entity_id: record.entity_id,
        kind: record.kind,
        position: record.position,
    }
}

impl EntityRecord {
    /// The reduced projection of this record.
    pub fn summary(&self) -> (out: EntitySummary)
        ensures
            out@ == summary_of(self@),
    {
        EntitySummary {
            dimension: self.dimension,
            entity_id: self.entity_id,
            kind: self.kind.clone(),
            position: self.position,
        }
    }
}

/// A request from the client to the engine.
#[derive(Debug, PartialEq, Eq)]
pub enum ServerRequest {
    Spawn { entity_type: String, parameters: EntityParameters, dimension: Option<u32> },
    List,
    Inspect { dimension: u32, entity_id: u64 },
    Shutdown,
}

/// View of a [`ServerRequest`].
pub ghost enum ServerRequestView {
    Spawn { entity_type: Seq<char>, parameters: EntityParameters, dimension: Option<u32> },
    List,
    Inspect { dimension: u32, entity_id: u64 },
    Shutdown,
}

impl View for ServerRequest {
    type V = ServerRequestView;

    open spec fn view(&self) -> ServerRequestView {
        match *self {
            ServerRequest::Spawn { entity_type, parameters, dimension } => ServerRequestView::Spawn {
                entity_type: entity_type@,
                parameters,
                dimension,
            },
            ServerRequest::List => ServerRequestView::List,
            ServerRequest::Inspect { dimension, entity_id } => ServerRequestView::Inspect {
                dimension,
                entity_id,
            },
            ServerRequest::Shutdown => ServerRequestView::Shutdown,
        }
    }
}

impl Clone for ServerRequest {
    fn clone(&self) -> (out: ServerRequest)
        ensures
            out@ == self@,
    {
        match self {
            ServerRequest::Spawn { entity_type, parameters, dimension } => ServerRequest::Spawn {
                entity_type: entity_type.clone(),
                parameters: *parameters,
                dimension: *dimension,
            },
            ServerRequest::List => ServerRequest::List,
            ServerRequest::Inspect { dimension, entity_id } => ServerRequest::Inspect {
                dimension: *dimension,
                entity_id: *entity_id,
            },
            ServerRequest::Shutdown => ServerRequest::Shutdown,
        }
    }
}

/// A response from the engine to one request.
#[allow(inconsistent_fields)]
#[derive(Debug, PartialEq, Eq)]
pub enum ServerResponse {
    Spawned { status: ResponseStatus, entity: EntitySummary },
    Listed { status: ResponseStatus, entities: Vec<EntitySummary> },
    InspectResult { status: ResponseStatus, entity: Option<EntityRecord>, message: Option<String> },
    Shutdown { status: ResponseStatus, message: Option<String> },
    Error { message: String },
}

/// View of a [`ServerResponse`].
#[allow(inconsistent_fields)]
pub ghost enum ServerResponseView {
    Spawned { status: ResponseStatus, entity: EntitySummaryView },
    Listed { status: ResponseStatus, entities: Seq<EntitySummaryView> },
    InspectResult {
        status: ResponseStatus,
        entity: Option<EntityRecordView>,
        message: Option<Seq<char>>,
    },
    Shutdown { status: ResponseStatus, message: Option<Seq<char>> },
    Error { message: Seq<char> },
}

impl View for ServerResponse {
    type V = ServerResponseView;

    open spec fn view(&self) -> ServerResponseView {
        match *self {
            ServerResponse::Spawned { status, entity } => ServerResponseView::Spawned {
                status,
                entity: entity@,
            },
            ServerResponse::Listed { status, entities } => ServerResponseView::Listed {
                status,
                entities: entities.deep_view(),
            },
            ServerResponse::InspectResult { status, entity, message } => {
                ServerResponseView::InspectResult {
                    status,
                    entity: entity.deep_view(),
                    message: message.deep_view(),
                }
            },
            ServerResponse::Shutdown { status, message } => ServerResponseView::Shutdown {
                status,
                message: message.deep_view(),
            },
            ServerResponse::Error { message } => ServerResponseView::Error { message: message@ },
        }
    }
}

/// A message that the engine pushes without being asked.
#[derive(Debug, PartialEq, Eq)]
pub enum ServerEvent {
    Telemetry { id: u64, tick: u64, ship: String, message: String },
    Log { message: String },
}

/// View of a [`ServerEvent`].
pub ghost enum ServerEventView {
    Telemetry { id: u64, tick: u64, ship: Seq<char>, message: Seq<char> },
    Log { message: Seq<char> },
}

impl View for ServerEvent {
    type V = ServerEventView;

    open spec fn view(&self) -> ServerEventView {
        match *self {
            ServerEvent::Telemetry { id, tick, ship, message } => ServerEventView::Telemetry {
                id,
                tick,
                ship: ship@,
                message: message@,
            },
            ServerEvent::Log { message } => ServerEventView::Log { message: message@ },
        }
    }
}

impl DeepView for ServerEvent {
    type V = ServerEventView;

    open spec fn deep_view(&self) -> ServerEventView {
        self@
    }
}

impl Clone for ServerEvent {
    fn clone(&self) -> (out: ServerEvent)
        ensures
            out@ == self@,
    {
        match self {
            ServerEvent::Telemetry { id, tick, ship, message } => ServerEvent::Telemetry {
                id: *id,
                tick: *tick,
                ship: ship.clone(),
                message: message.clone(),
            },
            ServerEvent::Log { message } => ServerEvent::Log { message: message.clone() },
        }
    }
}

/// A request together with the id that its response must echo.
#[derive(Debug, PartialEq, Eq)]
pub struct RequestEnvelope {
    pub id: u64,
    pub payload: ServerRequest,
}

/// View of a [`RequestEnvelope`].
pub ghost struct RequestEnvelopeView {
    pub id: u64,
    pub payload: ServerRequestView,
}

impl View for RequestEnvelope {
    type V = RequestEnvelopeView;

    open spec fn view(&self) -> RequestEnvelopeView {
        RequestEnvelopeView { id: self.id, payload: self.payload@ }
    }
}

/// A response together with the id of the request that it answers.
#[derive(Debug, PartialEq, Eq)]
pub struct ResponseEnvelope {
    pub id: u64,
    pub payload: ServerResponse,
}

/// View of a [`ResponseEnvelope`].
pub ghost struct ResponseEnvelopeView {
    pub id: u64,
    pub payload: ServerResponseView,
}

impl View for ResponseEnvelope {
    type V = ResponseEnvelopeView;

    open spec fn view(&self) -> ResponseEnvelopeView {
        ResponseEnvelopeView { id: self.id, payload: self.payload@ }
    }
}

} // verus!
