//! What the harness makes of the engine's responses: the value that a
//! response carries for the request that was sent, or the error for one that
//! does not fit it.

use crate::error::{HarnessError, HarnessErrorView};
use crate::protocol::{
    EntityRecord, EntityRecordView, EntitySummary, EntitySummaryView, ResponseStatus,
    ServerResponse, ServerResponseView,
};
use vstd::prelude::*;
use vstd::string::*;

verus! {

/// The name of a status as it is written on the wire.
pub open spec fn status_label(status: ResponseStatus) -> Seq<char> {
    match status {
        ResponseStatus::Success => "Ok"@,
        ResponseStatus::NotFound => "NotFound"@,
        ResponseStatus::Failed => "Failed"@,
    }
}

/// A short description of a response: the name of its variant, and for an
/// error response its message too.
pub open spec fn response_label(response: ServerResponseView) -> Seq<char> {
    match response {
        ServerResponseView::Spawned { .. } => "Spawned"@,
        ServerResponseView::Listed { .. } => "Listed"@,
        ServerResponseView::InspectResult { .. } => "InspectResult"@,
        ServerResponseView::Shutdown { .. } => "Shutdown"@,
        ServerResponseView::Error { message } => "Error: "@ + message,
    }
}

/// What a response to a spawn request for `entity_type` amounts to: the
/// spawned entity where the engine reports success, else an
/// unexpected-response error that says why.
pub open spec fn spawn_outcome(entity_type: Seq<char>, response: ServerResponseView) -> Result<
    EntitySummaryView,
    HarnessErrorView,
> {
    match response {
        ServerResponseView::Spawned { status, entity } => if status == ResponseStatus::Success {
            Ok(entity)
        } else {
            Err(
                HarnessErrorView::UnexpectedResponse(
                    "spawn for "@ + entity_type + " failed with status "@ + status_label(status),
                ),
            )
        },
        ServerResponseView::Error { message } => Err(HarnessErrorView::UnexpectedResponse(message)),
        _ => Err(
            HarnessErrorView::UnexpectedResponse(
                "spawn returned unexpected response: "@ + response_label(response),
            ),
        ),
    }
}

/// What a response to a list request amounts to: the listed entities where
/// the engine reports success, else an unexpected-response error.
pub open spec fn list_outcome(response: ServerResponseView) -> Result<
    Seq<EntitySummaryView>,
    HarnessErrorView,
> {
    match response {
        ServerResponseView::Listed { status, entities } => if status == ResponseStatus::Success {
            Ok(entities)
        } else {
            Err(
                HarnessErrorView::UnexpectedResponse(
                    "list failed with status "@ + status_label(status),
                ),
            )
        },
        _ => Err(
            HarnessErrorView::UnexpectedResponse(
                "list returned unexpected response: "@ + response_label(response),
            ),
        ),
    }
}

/// What a response to an inspect request amounts to: the record that it
/// carries, if any, whatever its status (an entity that is not found is no
/// error); an unexpected-response error for any other response.
pub open spec fn inspect_outcome(response: ServerResponseView) -> Result<
    Option<EntityRecordView>,
    HarnessErrorView,
> {
    match response {
        ServerResponseView::InspectResult { entity, .. } => Ok(entity),
        _ => Err(
            HarnessErrorView::UnexpectedResponse(
                "inspect returned unexpected response: "@ + response_label(response),
            ),
        ),
    }
}

/// The name of `status` as it is written on the wire.
pub fn label_status(status: ResponseStatus) -> (out: &'static str)
    ensures
        out@ == status_label(status),
{
    match status {
        ResponseStatus::Success => "Ok",
        ResponseStatus::NotFound => "NotFound",
        ResponseStatus::Failed => "Failed",
    }
}

/// Appends the short description of `response` to `out`.
fn push_response_label(out: &mut String, response: &ServerResponse)
    ensures
        final(out)@ == old(out)@ + response_label(response@),
{
    match response {
        ServerResponse::Spawned { .. } => out.append("Spawned"),
        ServerResponse::Listed { .. } => out.append("Listed"),
        ServerResponse::InspectResult { .. } => out.append("InspectResult"),
        ServerResponse::Shutdown { .. } => out.append("Shutdown"),
        ServerResponse::Error { message } => {
            out.append("Error: ");
            out.append(message.as_str());
            assert(out@ =~= old(out)@ + response_label(response@));
        },
    }
}

/// The error for a response that is of the wrong kind for the request that
/// `prefix` names.
fn wrong_kind(prefix: &str, response: &ServerResponse) -> (out: HarnessError)
    ensures
        out@ == HarnessErrorView::UnexpectedResponse(prefix@ + response_label(response@)),
{
    let mut message = String::from_str(prefix);
    push_response_label(&mut message, response);
    HarnessError::UnexpectedResponse(message)
}

/// Takes the spawned entity out of a response to a spawn request for `entity_type`.
pub fn accept_spawn(entity_type: &str, response: ServerResponse) -> (out: Result<
    EntitySummary,
    HarnessError,
>)
    ensures
        match out {
            Ok(entity) => spawn_outcome(entity_type@, response@) == Ok::<
                EntitySummaryView,
                HarnessErrorView,
            >(entity@),
            Err(error) => spawn_outcome(entity_type@, response@) == Err::<
                EntitySummaryView,
                HarnessErrorView,
            >(error@),
        },
{
    match response {
        ServerResponse::Spawned { status, entity } => {
            match status {
                ResponseStatus::Success => Ok(entity),
                _ => {
                    let mut message = String::from_str("spawn for ");
                    message.append(entity_type);
                    message.append(" failed with status ");
                    message.append(label_status(status));
                    assert(message@ =~= "spawn for "@ + entity_type@ + " failed with status "@
                        + status_label(status));
                    Err(HarnessError::UnexpectedResponse(message))
                },
            }
        },
        ServerResponse::Error { message } => Err(HarnessError::UnexpectedResponse(message)),
        other => Err(wrong_kind("spawn returned unexpected response: ", &other)),
    }
}

/// Takes the listed entities out of a response to a list request.
pub fn accept_list(response: ServerResponse) -> (out: Result<Vec<EntitySummary>, HarnessError>)
    ensures
        match out {
            Ok(entities) => list_outcome(response@) == Ok::<
                Seq<EntitySummaryView>,
                HarnessErrorView,
            >(entities.deep_view()),
            Err(error) => list_outcome(response@) == Err::<
                Seq<EntitySummaryView>,
                HarnessErrorView,
            >(error@),
        },
{
    match response {
        ServerResponse::Listed { status, entities } => {
            match status {
                ResponseStatus::Success => Ok(entities),
                _ => {
                    let mut message = String::from_str("list failed with status ");
                    message.append(label_status(status));
                    Err(HarnessError::UnexpectedResponse(message))
                },
            }
        },
        other => Err(wrong_kind("list returned unexpected response: ", &other)),
    }
}

/// Takes the record, if any, out of a response to an inspect request.
pub fn accept_inspect(response: ServerResponse) -> (out: Result<Option<EntityRecord>, HarnessError>)
    ensures
        match out {
            Ok(record) => inspect_outcome(response@) == Ok::<
                Option<EntityRecordView>,
                HarnessErrorView,
            >(record.deep_view()),
            Err(error) => inspect_outcome(response@) == Err::<
                Option<EntityRecordView>,
                HarnessErrorView,
            >(error@),
        },
{
    match response {
        ServerResponse::InspectResult { entity, .. } => Ok(entity),
        other => Err(wrong_kind("inspect returned unexpected response: ", &other)),
    }
}

} // verus!
