//! What the workers of the pool send back to the main loop.

use vstd::prelude::*;
use vstd::string::StringExecFns;

use crate::lsp_error::LspError;
use crate::message::{
    ErrorCode, MessageView, NotificationView, RawMessage, RawNotification, RawResponse, ResponseView,
};
use crate::protocol::unit_json;
use crate::sets::PendingRequests;

verus! {

/// A message of a worker to the client, which passes through the main loop.
#[derive(Debug, PartialEq, Eq)]
pub enum Task {
    Respond(RawResponse),
    Notify(RawNotification),
}

/// The content of a [`Task`].
pub enum TaskView {
    Respond(ResponseView),
    Notify(NotificationView),
}

impl View for Task {
    type V = TaskView;

    open spec fn view(&self) -> TaskView {
        match self {
            Task::Respond(response) => TaskView::Respond(response@),
            Task::Notify(notification) => TaskView::Notify(notification@),
        }
    }
}

/// The content of an optional message.
pub open spec fn message_view(message: Option<RawMessage>) -> Option<MessageView> {
    match message {
        Some(message) => Some(message@),
        None => None,
    }
}

/// The requests that are pending after a worker's message.
pub open spec fn pending_after_task(pending: Set<u64>, task: TaskView) -> Set<u64> {
    match task {
        TaskView::Respond(response) => pending.remove(response.id),
        TaskView::Notify(_) => pending,
    }
}

/// What the client is sent of a worker's message: a response only while its request is pending, a
/// notification always.
pub open spec fn sent_for_task(pending: Set<u64>, task: TaskView) -> Option<MessageView> {
    match task {
        TaskView::Respond(response) => if pending.contains(response.id) {
            Some(MessageView::Response(response))
        } else {
            None
        },
        TaskView::Notify(notification) => Some(MessageView::Notification(notification)),
    }
}

/// Passes a worker's message on; gives the message for the client, if there is one.
pub fn on_task(task: Task, pending_requests: &mut PendingRequests) -> (sent: Option<RawMessage>)
    ensures
        final(pending_requests)@ == pending_after_task(old(pending_requests)@, task@),
        message_view(sent) == sent_for_task(old(pending_requests)@, task@),
        task matches Task::Notify(notification) ==> sent == Some(
            RawMessage::Notification(notification),
        ),
        task matches Task::Respond(response) ==> sent == if old(pending_requests)@.contains(
            response.id,
        ) {
            Some(RawMessage::Response(response))
        } else {
            None
        },
{
    match task {
        Task::Respond(response) => {
            if pending_requests.remove(response.id) {
                Some(RawMessage::Response(response))
            } else {
                None
            }
        },
        Task::Notify(notification) => Some(RawMessage::Notification(notification)),
    }
}

/// Why a handler gave no result.
#[derive(Debug)]
pub enum HandlerError {
    /// The handler chose the error that the client gets.
    Lsp(LspError),
    /// The analysis was cut short, since what it works on has changed.
    Canceled,
    /// Any other failure, with its text and the text of its backtrace.
    Other { display: String, backtrace: String },
}

/// The response to a request whose handler ended so.
///
/// A canceled analysis is answered with an empty success: an error would make the client show a
/// message each time.
pub open spec fn handler_response_of(
    id: u64,
    outcome: Result<String, HandlerError>,
) -> ResponseView {
    match outcome {
        Ok(result) => crate::message::ok_response(id, result@),
        Err(HandlerError::Lsp(error)) => crate::message::err_response(
            id,
            error.code,
            error.message@,
        ),
        Err(HandlerError::Canceled) => crate::message::ok_response(id, "null"@),
        Err(HandlerError::Other { display, backtrace }) => crate::message::err_response(
            id,
            ErrorCode::InternalError.number(),
            display@ + "\n"@ + backtrace@,
        ),
    }
}

/// The response to a request whose handler ended so; a result is JSON text.
pub fn handler_response(id: u64, outcome: Result<String, HandlerError>) -> (response: RawResponse)
    ensures
        response@ == handler_response_of(id, outcome),
        response.id == id,
        outcome matches Ok(result) ==> response.result == Some(result) && response.error is None,
        response.error is Some <==> (outcome matches Err(error) && !(error is Canceled)),
        response.error is Some <==> response.result is None,
{
    match outcome {
        Ok(result) => RawResponse::ok(id, result),
        Err(HandlerError::Lsp(error)) => RawResponse::err(id, error.code, error.message),
        Err(HandlerError::Canceled) => RawResponse::ok(id, unit_json()),
        Err(HandlerError::Other { display, backtrace }) => {
            let message = display.concat("\n").concat(backtrace.as_str());
            RawResponse::err(id, ErrorCode::InternalError.code(), message)
        },
    }
}

/// The response bears the request's id and what the handler gave, whatever it is: a result as it
/// stands, also where it is `null`; an error if and only if the handler failed for another reason
/// than a cut short analysis, and then no result.
pub proof fn law_response_is_what_the_handler_gave(
    id: u64,
    outcome: Result<String, HandlerError>,
)
    ensures
        handler_response_of(id, outcome).id == id,
        outcome matches Ok(result) ==> handler_response_of(id, outcome).result == Some(result@)
            && handler_response_of(id, outcome).error is None,
        handler_response_of(id, outcome).error is Some <==> (outcome matches Err(error) && (
        error is Lsp || error is Other)),
        handler_response_of(id, outcome).error is Some <==> handler_response_of(
            id,
            outcome,
        ).result is None,
{
}

/// The client gets the code and the message that the handler chose, and of any other failure its
/// text and its backtrace, on lines of their own, under the code of internal errors.
pub proof fn law_failure_is_told_as_the_handler_gave_it(
    id: u64,
    chosen: LspError,
    display: String,
    backtrace: String,
)
    ensures
        handler_response_of(id, Err(HandlerError::Lsp(chosen))).error matches Some(error)
            && error.code == chosen.code && error.message == chosen.message@ && error.data is None,
        handler_response_of(id, Err(HandlerError::Other { display, backtrace })).error matches Some(
            error,
        ) && error.code == -32603 && error.message == display@ + seq!['\n'] + backtrace@
            && error.data is None,
{
    reveal_strlit("\n");
    assert("\n"@ == seq!['\n']);
}

/// A cut short analysis is answered as a handler without a result is.
pub proof fn law_cut_short_is_an_empty_success(id: u64, empty: String)
    requires
        empty@ == "null"@,
    ensures
        handler_response_of(id, Err(HandlerError::Canceled)) == handler_response_of(id, Ok(empty)),
        handler_response_of(id, Err(HandlerError::Canceled)).result == Some("null"@),
{
}

/// Of one worker's message the client gets every notification, and a response if and only if its
/// request is pending; what it gets is what the worker sent. A response ends the wait for its own
/// request and for no other.
pub proof fn law_worker_message_passes_unchanged(pending: Set<u64>, task: TaskView, id: u64)
    ensures
        task matches TaskView::Notify(notification) ==> sent_for_task(pending, task) == Some(
            MessageView::Notification(notification),
        ),
        task matches TaskView::Respond(response) ==> (sent_for_task(pending, task) is Some
            <==> pending.contains(response.id)),
        task matches TaskView::Respond(response) ==> (sent_for_task(pending, task) matches Some(
            message,
        ) ==> message == MessageView::Response(response)),
        pending_after_task(pending, task).contains(id) <==> pending.contains(id) && !(
        task matches TaskView::Respond(response) && response.id == id),
{
}

} // verus!
