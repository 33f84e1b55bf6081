//! What the main loop waits for.

use vstd::prelude::*;

use crate::errors::{LoopError, LoopErrorView};
use crate::message::{
    MessageView, RawMessage, RawResponseError, ResponseErrorView,
};
use crate::methods::{DID_CHANGE, DID_OPEN, PUBLISH_DECORATIONS, PUBLISH_DIAGNOSTICS};
use crate::tasks::{Task, TaskView};

verus! {

/// What starts a turn of the loop. `V` is a change that the virtual file system reports, `D` an
/// indexed library; the loop hands both on.
#[derive(Debug, PartialEq, Eq)]
pub enum Event<V, D> {
    Msg(RawMessage),
    Task(Task),
    Vfs(V),
    Lib(D),
}

/// The content of an [`Event`].
pub enum EventView<V, D> {
    Msg(MessageView),
    Task(TaskView),
    Vfs(V),
    Lib(D),
}

impl<V, D> View for Event<V, D> {
    type V = EventView<V, D>;

    open spec fn view(&self) -> EventView<V, D> {
        match self {
            Event::Msg(message) => EventView::Msg(message@),
            Event::Task(task) => EventView::Task(task@),
            Event::Vfs(change) => EventView::Vfs(*change),
            Event::Lib(library) => EventView::Lib(*library),
        }
    }
}

/// What a channel of the loop gave; `None` where its other side is gone.
#[derive(Debug, PartialEq, Eq)]
pub enum Received<V, D> {
    Msg(Option<RawMessage>),
    Task(Task),
    Vfs(Option<V>),
    Lib(D),
}

/// The event that a channel gave, or the error where its other side is gone.
pub open spec fn event_of<V, D>(received: Received<V, D>) -> Result<EventView<V, D>, LoopErrorView> {
    match received {
        Received::Msg(Some(message)) => Ok(EventView::Msg(message@)),
        Received::Msg(None) => Err(LoopErrorView::ClientExited),
        Received::Task(task) => Ok(EventView::Task(task@)),
        Received::Vfs(Some(change)) => Ok(EventView::Vfs(change)),
        Received::Vfs(None) => Err(LoopErrorView::VfsDied),
        Received::Lib(library) => Ok(EventView::Lib(library)),
    }
}

/// The event that a channel gave, or the error where its other side is gone.
pub fn received_event<V, D>(received: Received<V, D>) -> (res: Result<Event<V, D>, LoopError>)
    ensures
        (match res {
            Ok(event) => Ok(event@),
            Err(error) => Err(error@),
        }) == event_of(received),
        match received {
            Received::Msg(Some(message)) => res == Ok::<Event<V, D>, LoopError>(
                Event::Msg(message),
            ),
            Received::Msg(None) => res is Err && res->Err_0@ == LoopErrorView::ClientExited,
            Received::Task(task) => res == Ok::<Event<V, D>, LoopError>(Event::Task(task)),
            Received::Vfs(Some(change)) => res == Ok::<Event<V, D>, LoopError>(
                Event::Vfs(change),
            ),
            Received::Vfs(None) => res is Err && res->Err_0@ == LoopErrorView::VfsDied,
            Received::Lib(library) => res == Ok::<Event<V, D>, LoopError>(Event::Lib(library)),
        },
{
    match received {
        Received::Msg(Some(message)) => Ok(Event::Msg(message)),
        Received::Msg(None) => Err(LoopError::ClientExited),
        Received::Task(task) => Ok(Event::Task(task)),
        Received::Vfs(Some(change)) => Ok(Event::Vfs(change)),
        Received::Vfs(None) => Err(LoopError::VfsDied),
        Received::Lib(library) => Ok(Event::Lib(library)),
    }
}

/// How much of an event the log shows.
#[derive(Debug, PartialEq, Eq)]
pub enum Summary<'a> {
    /// Of a notification with a long text, the method.
    Notification { method: &'a String },
    /// Of a response, the id and the error, not the result.
    Response { id: u64, error: &'a Option<RawResponseError> },
    /// All of it.
    Full,
}

/// The content of a [`Summary`].
pub enum SummaryView {
    Notification { method: Seq<char> },
    Response { id: u64, error: Option<ResponseErrorView> },
    Full,
}

impl<'a> View for Summary<'a> {
    type V = SummaryView;

    open spec fn view(&self) -> SummaryView {
        match self {
            Summary::Notification { method } => SummaryView::Notification { method: method@ },
            Summary::Response { id, error } => SummaryView::Response {
                id: *id,
                error: crate::message::error_view(**error),
            },
            Summary::Full => SummaryView::Full,
        }
    }
}

/// How much of an event the log shows.
pub open spec fn summary_of<V, D>(event: EventView<V, D>) -> SummaryView {
    match event {
        EventView::Msg(MessageView::Notification(not)) => if not.method == DID_OPEN@ || not.method
            == DID_CHANGE@ {
            SummaryView::Notification { method: not.method }
        } else {
            SummaryView::Full
        },
        EventView::Task(TaskView::Notify(not)) => if not.method == PUBLISH_DECORATIONS@
            || not.method == PUBLISH_DIAGNOSTICS@ {
            SummaryView::Notification { method: not.method }
        } else {
            SummaryView::Full
        },
        EventView::Task(TaskView::Respond(response)) => SummaryView::Response {
            id: response.id,
            error: response.error,
        },
        _ => SummaryView::Full,
    }
}

impl<V, D> Event<V, D> {
    /// How much of the event the log shows: documents, diagnostics, decorations and results are
    /// too long for it.
    pub fn summary(&self) -> (summary: Summary<'_>)
        ensures
            summary@ == summary_of(self@),
    {
        match self {
            Event::Msg(RawMessage::Notification(not)) => {
                if not.is(DID_OPEN) || not.is(DID_CHANGE) {
                    Summary::Notification { method: &not.method }
                } else {
                    Summary::Full
                }
            },
            Event::Task(Task::Notify(not)) => {
                if not.is(PUBLISH_DECORATIONS) || not.is(PUBLISH_DIAGNOSTICS) {
                    Summary::Notification { method: &not.method }
                } else {
                    Summary::Full
                }
            },
            Event::Task(Task::Respond(response)) => Summary::Response {
                id: response.id,
                error: &response.error,
            },
            _ => Summary::Full,
        }
    }
}

/// The log shows every event in full, but for the documents that the client sends, the diagnostics
/// and decorations that workers send, of which it shows the method, and for the responses of workers,
/// of which it shows the id and the error.
pub proof fn law_log_leaves_out_long_texts<V, D>(event: EventView<V, D>)
    ensures
        summary_of(event) matches SummaryView::Notification { method } <==> {
            ||| event matches EventView::Msg(MessageView::Notification(not)) && (not.method
                == "textDocument/didOpen"@ || not.method == "textDocument/didChange"@)
            ||| event matches EventView::Task(TaskView::Notify(not)) && (not.method
                == "rust-analyzer/publishDecorations"@ || not.method
                == "textDocument/publishDiagnostics"@)
        },
        event matches EventView::Msg(MessageView::Notification(not)) ==> (summary_of(
            event,
        ) matches SummaryView::Notification { method } ==> method == not.method),
        event matches EventView::Task(TaskView::Notify(not)) ==> (summary_of(
            event,
        ) matches SummaryView::Notification { method } ==> method == not.method),
        event matches EventView::Task(TaskView::Respond(response)) ==> summary_of(event)
            == (SummaryView::Response { id: response.id, error: response.error }),
        summary_of(event) is Response <==> event matches EventView::Task(TaskView::Respond(_)),
{
}

/// Whatever a channel gives is an event of that channel. Only the end of the client and the end of the
/// virtual file system are errors, each one of its own.
pub proof fn law_what_a_channel_gives_is_an_event<V, D>(received: Received<V, D>)
    ensures
        event_of(received) is Err <==> {
            ||| received matches Received::Msg(None)
            ||| received matches Received::Vfs(None)
        },
        received matches Received::Msg(message) ==> (match message {
            Some(message) => event_of(received) == Ok::<EventView<V, D>, LoopErrorView>(
                EventView::Msg(message@),
            ),
            None => event_of(received) == Err::<EventView<V, D>, LoopErrorView>(
                LoopErrorView::ClientExited,
            ),
        }),
        received matches Received::Vfs(change) ==> (match change {
            Some(change) => event_of(received) == Ok::<EventView<V, D>, LoopErrorView>(
                EventView::Vfs(change),
            ),
            None => event_of(received) == Err::<EventView<V, D>, LoopErrorView>(
                LoopErrorView::VfsDied,
            ),
        }),
        received matches Received::Task(task) ==> event_of(received) == Ok::<
            EventView<V, D>,
            LoopErrorView,
        >(EventView::Task(task@)),
        received matches Received::Lib(library) ==> event_of(received) == Ok::<
            EventView<V, D>,
            LoopErrorView,
        >(EventView::Lib(library)),
{
}

} // verus!
