//! What each kind of event leads to, and what the end of a turn does, said of their inputs and results
//! alone.

use std::path::PathBuf;
use vstd::prelude::*;

use crate::errors::{LoopErrorView, RejectionView};
use crate::events::EventView;
use crate::main_loop::{InitializationOptions, LoopView, StepView, TurnErrorView, TurnView};
use crate::message::{MessageView, NotificationView, RequestView, ResponseView};
use crate::notices::DocumentStepView;
use crate::requests::{Handler, JobView, RequestStepView};
use crate::sets::FileId;
use crate::tasks::TaskView;

verus! {

/// Every notification of a worker goes to the client, whatever the state: diagnostics and decorations
/// are never held back.
pub proof fn law_worker_notification_is_sent<L, V, D>(
    state: LoopView<L>,
    notification: NotificationView,
)
    ensures
        crate::main_loop::turn_for::<L, V, D>(
            state,
            EventView::Task(TaskView::Notify(notification)),
        ) == Ok::<TurnView<V, D>, TurnErrorView>(
            TurnView {
                step: StepView::Send(MessageView::Notification(notification)),
                state_changed: false,
            },
        ),
        crate::main_loop::state_after_event::<L, V, D>(
            state,
            EventView::Task(TaskView::Notify(notification)),
        ) == state,
{
}

/// A response of a worker goes to the client if and only if its request is pending, and its request
/// is pending no more.
pub proof fn law_worker_response_is_sent_once<L, V, D>(state: LoopView<L>, response: ResponseView)
    ensures
        crate::main_loop::turn_for::<L, V, D>(
            state,
            EventView::Task(TaskView::Respond(response)),
        ) matches Ok(turn) && !turn.state_changed && (state.pending.contains(response.id)
            ==> turn.step == StepView::<V, D>::Send(MessageView::Response(response))) && (
        !state.pending.contains(response.id) ==> turn.step == StepView::<V, D>::Nothing),
        crate::main_loop::state_after_event::<L, V, D>(
            state,
            EventView::Task(TaskView::Respond(response)),
        ) == (LoopView { pending: state.pending.remove(response.id), ..state }),
{
}

/// While the loop runs, a worker's message is passed on as one that is left when it has ended.
pub proof fn law_tasks_pass_alike_in_and_after_the_loop<L, V, D>(
    state: LoopView<L>,
    task: TaskView,
)
    ensures
        crate::main_loop::turn_for::<L, V, D>(state, EventView::Task(task)) matches Ok(turn)
            && crate::laws::sent_for_tasks(state.pending, seq![task]) == match crate::laws::sent_by(
            turn.step,
        ) {
            Some(message) => seq![message],
            None => Seq::<MessageView>::empty(),
        },
        crate::main_loop::state_after_event::<L, V, D>(state, EventView::Task(task)).pending
            == crate::laws::pending_after_tasks(state.pending, seq![task]),
{
    assert(seq![task].drop_last() == Seq::<TaskView>::empty());
    assert(seq![task].last() == task);
    reveal_with_fuel(crate::laws::sent_for_tasks, 2);
    reveal_with_fuel(crate::laws::pending_after_tasks, 2);
    assert(crate::laws::sent_for_tasks(state.pending, Seq::empty()) == Seq::<MessageView>::empty());
    match crate::tasks::sent_for_task(state.pending, task) {
        Some(message) => {
            assert(Seq::<MessageView>::empty().push(message) == seq![message]);
        },
        None => {},
    }
}

/// A change on disk is taken in and has the open files brought up to date, whether or not the
/// workspace is loaded.
pub proof fn law_file_change_updates_files<L, V, D>(state: LoopView<L>, change: V)
    ensures
        crate::main_loop::turn_for::<L, V, D>(state, EventView::Vfs(change)) == Ok::<
            TurnView<V, D>,
            TurnErrorView,
        >(TurnView { step: StepView::HandleVfs(change), state_changed: true }),
        crate::main_loop::state_after_event::<L, V, D>(state, EventView::Vfs(change)) == state,
{
}

/// The open files are brought up to date after the changes on disk and the notifications of the
/// client, and after nothing else.
pub proof fn law_files_are_updated_after_changes<L, V, D>(
    state: LoopView<L>,
    event: EventView<V, D>,
)
    ensures
        crate::main_loop::turn_for(state, event) matches Ok(turn) ==> (turn.state_changed <==> {
            ||| event is Vfs
            ||| event matches EventView::Msg(MessageView::Notification(_))
        }),
{
}

/// An indexed library that was asked for is added, and one place for an index is free again; one that
/// nobody asked for is rejected.
pub proof fn law_indexed_library_is_added<L, V, D>(state: LoopView<L>, library: D)
    ensures
        state.in_flight > 0 ==> crate::main_loop::turn_for::<L, V, D>(
            state,
            EventView::Lib(library),
        ) == Ok::<TurnView<V, D>, TurnErrorView>(
            TurnView { step: StepView::AddLib(library), state_changed: false },
        ),
        state.in_flight > 0 ==> crate::main_loop::state_after_event::<L, V, D>(
            state,
            EventView::Lib(library),
        ) == (LoopView { in_flight: (state.in_flight - 1) as nat, ..state }),
        state.in_flight == 0 ==> crate::main_loop::turn_for::<L, V, D>(
            state,
            EventView::Lib(library),
        ) == Err::<TurnView<V, D>, TurnErrorView>(
            TurnErrorView::Rejected(RejectionView::UnexpectedLibrary),
        ),
{
}

/// A response of the client is only logged.
pub proof fn law_client_response_is_only_logged<L, V, D>(
    state: LoopView<L>,
    response: ResponseView,
)
    ensures
        crate::main_loop::turn_for::<L, V, D>(
            state,
            EventView::Msg(MessageView::Response(response)),
        ) == Ok::<TurnView<V, D>, TurnErrorView>(
            TurnView {
                step: StepView::Unhandled(MessageView::Response(response)),
                state_changed: false,
            },
        ),
        crate::main_loop::state_after_event::<L, V, D>(
            state,
            EventView::Msg(MessageView::Response(response)),
        ) == state,
{
}

/// A shutdown is answered with an empty success and leaves the loop, whatever the state; with
/// parameters it is rejected.
pub proof fn law_shutdown_leaves_the_loop<L, V, D>(state: LoopView<L>, req: RequestView)
    requires
        req.method == "shutdown"@,
    ensures
        crate::protocol::is_json_null(req.params) ==> crate::main_loop::turn_for::<L, V, D>(
            state,
            EventView::Msg(MessageView::Request(req)),
        ) == Ok::<TurnView<V, D>, TurnErrorView>(
            TurnView {
                step: StepView::Request(
                    RequestStepView::Exit(
                        MessageView::Response(
                            ResponseView { id: req.id, result: Some("null"@), error: None },
                        ),
                    ),
                ),
                state_changed: false,
            },
        ),
        !crate::protocol::is_json_null(req.params) ==> crate::main_loop::turn_for::<L, V, D>(
            state,
            EventView::Msg(MessageView::Request(req)),
        ) == Err::<TurnView<V, D>, TurnErrorView>(
            TurnErrorView::Rejected(RejectionView::BadParams(req.method)),
        ),
        crate::main_loop::state_after_event::<L, V, D>(
            state,
            EventView::Msg(MessageView::Request(req)),
        ) == state,
{
    crate::requests::law_requests_are_read_by_their_method(req);
}

/// Nothing but a shutdown leaves the loop without an error.
pub proof fn law_only_a_shutdown_leaves_the_loop<L, V, D>(
    state: LoopView<L>,
    event: EventView<V, D>,
)
    requires
        crate::main_loop::turn_for(state, event) matches Ok(turn) && turn.step matches StepView::Request(
            RequestStepView::Exit(_),
        ),
    ensures
        event matches EventView::Msg(MessageView::Request(req)) && req.method == "shutdown"@,
{
    if let EventView::Msg(MessageView::Request(req)) = event {
        crate::requests::law_requests_are_read_by_their_method(req);
    }
}

/// A request to collect garbage has it collected and is then answered with an empty success, whatever
/// the state; with parameters it is rejected.
pub proof fn law_garbage_is_collected_at_once<L, V, D>(state: LoopView<L>, req: RequestView)
    requires
        req.method == "rust-analyzer/collectGarbage"@,
    ensures
        crate::protocol::is_json_null(req.params) ==> crate::main_loop::turn_for::<L, V, D>(
            state,
            EventView::Msg(MessageView::Request(req)),
        ) == Ok::<TurnView<V, D>, TurnErrorView>(
            TurnView {
                step: StepView::Request(
                    RequestStepView::CollectGarbage(
                        MessageView::Response(
                            ResponseView { id: req.id, result: Some("null"@), error: None },
                        ),
                    ),
                ),
                state_changed: false,
            },
        ),
        !crate::protocol::is_json_null(req.params) ==> crate::main_loop::turn_for::<L, V, D>(
            state,
            EventView::Msg(MessageView::Request(req)),
        ) == Err::<TurnView<V, D>, TurnErrorView>(
            TurnErrorView::Rejected(RejectionView::BadParams(req.method)),
        ),
        crate::main_loop::state_after_event::<L, V, D>(
            state,
            EventView::Msg(MessageView::Request(req)),
        ) == state,
{
    crate::requests::law_requests_are_read_by_their_method(req);
}

/// A request of a handler goes to that handler with its id and its parameters, and is pending from
/// then on; one that bears the id of a pending request is rejected.
pub proof fn law_request_goes_to_its_handler<L, V, D>(
    state: LoopView<L>,
    req: RequestView,
    handler: Handler,
)
    requires
        req.method == handler.method_name(),
    ensures
        !state.pending.contains(req.id) ==> crate::main_loop::turn_for::<L, V, D>(
            state,
            EventView::Msg(MessageView::Request(req)),
        ) == Ok::<TurnView<V, D>, TurnErrorView>(
            TurnView {
                step: StepView::Request(
                    RequestStepView::Run(JobView { handler, id: req.id, params: req.params }),
                ),
                state_changed: false,
            },
        ),
        crate::main_loop::state_after_event::<L, V, D>(
            state,
            EventView::Msg(MessageView::Request(req)),
        ) == (LoopView { pending: state.pending.insert(req.id), ..state }),
        state.pending.contains(req.id) ==> crate::main_loop::turn_for::<L, V, D>(
            state,
            EventView::Msg(MessageView::Request(req)),
        ) == Err::<TurnView<V, D>, TurnErrorView>(
            TurnErrorView::Rejected(RejectionView::DuplicateRequest(req.id)),
        ),
{
    crate::requests::law_requests_are_read_by_their_method(req);
    crate::requests::law_handler_is_that_of_the_method(req.method, handler);
    crate::requests::law_loop_methods_have_no_handler();
}

/// A request that the loop does not answer itself and that no handler knows is answered with an
/// error, whatever the state, and is never pending.
pub proof fn law_unknown_request_is_answered<L, V, D>(state: LoopView<L>, req: RequestView)
    requires
        req.method != "shutdown"@,
        req.method != "rust-analyzer/collectGarbage"@,
        forall|handler: Handler| #[trigger] handler.method_name() != req.method,
    ensures
        crate::main_loop::turn_for::<L, V, D>(
            state,
            EventView::Msg(MessageView::Request(req)),
        ) matches Ok(turn) && !turn.state_changed && (turn.step matches StepView::Request(
            RequestStepView::Unknown { req: unknown, response: MessageView::Response(response) },
        ) && unknown == req && response.id == req.id && response.result is None && (
        response.error matches Some(error) && error.code == -32601 && error.message
            == "unknown request"@ && error.data is None)),
        crate::main_loop::state_after_event::<L, V, D>(
            state,
            EventView::Msg(MessageView::Request(req)),
        ) == state,
{
    crate::requests::law_requests_are_read_by_their_method(req);
    crate::requests::law_handler_is_that_of_the_method(req.method, Handler::Hover);
}

/// A cancellation of a pending request is answered at once with the code of canceled requests, and
/// ends the wait; one of any other request does nothing. An id that is a text, or none, is rejected.
pub proof fn law_cancellation_is_answered_at_once<L, V, D>(
    state: LoopView<L>,
    not: NotificationView,
)
    requires
        not.method == "$/cancelRequest"@,
    ensures
        ({
            let event = EventView::<V, D>::Msg(MessageView::Notification(not));
            let res = crate::main_loop::turn_for(state, event);
            let after = crate::main_loop::state_after_event(state, event);
            match crate::protocol::cancel_params_of(not.params) {
                Some(Ok(id)) => {
                    &&& after == LoopView { pending: state.pending.remove(id), ..state }
                    &&& res matches Ok(turn) && turn.state_changed
                    &&& state.pending.contains(id) ==> (res->Ok_0.step matches StepView::Send(
                        MessageView::Response(response),
                    ) && response.id == id && response.result is None && (
                    response.error matches Some(error) && error.code == -32800 && error.message
                        == "canceled by client"@ && error.data is None))
                    &&& !state.pending.contains(id) ==> res->Ok_0.step == StepView::<
                        V,
                        D,
                    >::Nothing
                },
                Some(Err(text)) => res == Err::<TurnView<V, D>, TurnErrorView>(
                    TurnErrorView::Rejected(RejectionView::TextRequestId(text)),
                ),
                None => res == Err::<TurnView<V, D>, TurnErrorView>(
                    TurnErrorView::Rejected(RejectionView::BadParams(not.method)),
                ),
            }
        }),
{
    crate::notices::law_notification_methods_are_distinct();
    if let Some(Ok(id)) = crate::protocol::cancel_params_of(not.params) {
        crate::notices::law_cancellation_answers_its_request(state.pending, id, id);
    }
}

/// A notification on a document is read by the reader of its own method, and leaves the state of the
/// loop as it is.
proof fn lemma_document_notification<L, V, D>(state: LoopView<L>, not: NotificationView)
    requires
        not.method == "textDocument/didOpen"@ || not.method == "textDocument/didChange"@
            || not.method == "textDocument/didClose"@,
    ensures
        not.method == "textDocument/didOpen"@ ==> crate::notices::notice_of(not)
            == crate::notices::open_notice_of(crate::documents::opened_of(not.params)),
        not.method == "textDocument/didChange"@ ==> crate::notices::notice_of(not)
            == crate::notices::change_notice_of(crate::documents::changed_of(not.params)),
        not.method == "textDocument/didClose"@ ==> crate::notices::notice_of(not)
            == crate::notices::close_notice_of(crate::documents::closed_of(not.params)),
        crate::main_loop::state_after_event::<L, V, D>(
            state,
            EventView::Msg(MessageView::Notification(not)),
        ) == state,
{
    crate::notices::law_notification_methods_are_distinct();
}

/// An opened document that stands for a file has its text laid over it; one that stands for none ends
/// the loop with an error, and parameters that cannot be read are rejected.
pub proof fn law_opened_document_is_laid_over_its_file<L, V, D>(
    state: LoopView<L>,
    not: NotificationView,
)
    requires
        not.method == "textDocument/didOpen"@,
    ensures
        ({
            let event = EventView::<V, D>::Msg(MessageView::Notification(not));
            let res = crate::main_loop::turn_for(state, event);
            &&& crate::main_loop::state_after_event(state, event) == state
            &&& match crate::documents::opened_of(not.params) {
                Some((uri, Some(path), text)) => res == Ok::<TurnView<V, D>, TurnErrorView>(
                    TurnView {
                        step: StepView::Document(DocumentStepView::Add { path, text }),
                        state_changed: true,
                    },
                ),
                Some((uri, None, text)) => res == Err::<TurnView<V, D>, TurnErrorView>(
                    TurnErrorView::Failed(LoopErrorView::InvalidUri(uri)),
                ),
                None => res == Err::<TurnView<V, D>, TurnErrorView>(
                    TurnErrorView::Rejected(RejectionView::BadParams(not.method)),
                ),
            }
        }),
{
    lemma_document_notification::<L, V, D>(state, not);
}

/// A changed document that stands for a file has the last of its texts laid over it, whatever texts
/// come before; a change without a text, or of a document that stands for no file, ends the loop with
/// an error, and parameters that cannot be read are rejected.
pub proof fn law_last_text_is_laid_over_the_file<L, V, D>(
    state: LoopView<L>,
    not: NotificationView,
    uri: Seq<char>,
    path: PathBuf,
    earlier: Seq<Seq<char>>,
    text: Seq<char>,
)
    requires
        not.method == "textDocument/didChange"@,
    ensures
        ({
            let event = EventView::<V, D>::Msg(MessageView::Notification(not));
            let res = crate::main_loop::turn_for(state, event);
            let read = crate::documents::changed_of(not.params);
            &&& crate::main_loop::state_after_event(state, event) == state
            &&& read == Some((uri, Some(path), earlier.push(text))) ==> res == Ok::<
                TurnView<V, D>,
                TurnErrorView,
            >(
                TurnView {
                    step: StepView::Document(DocumentStepView::Change { path, text }),
                    state_changed: true,
                },
            )
            &&& read == Some((uri, Some(path), Seq::<Seq<char>>::empty())) ==> res == Err::<
                TurnView<V, D>,
                TurnErrorView,
            >(TurnErrorView::Failed(LoopErrorView::EmptyChanges))
            &&& read == Some((uri, None::<PathBuf>, earlier)) ==> res == Err::<
                TurnView<V, D>,
                TurnErrorView,
            >(TurnErrorView::Failed(LoopErrorView::InvalidUri(uri)))
            &&& read is None ==> res == Err::<TurnView<V, D>, TurnErrorView>(
                TurnErrorView::Rejected(RejectionView::BadParams(not.method)),
            )
        }),
{
    lemma_document_notification::<L, V, D>(state, not);
    crate::notices::law_last_text_counts(earlier, text);
}

/// A closed document that stands for a file has its text taken off it and its diagnostics taken back;
/// one that stands for none ends the loop with an error, and parameters that cannot be read are
/// rejected.
pub proof fn law_closed_document_loses_text_and_diagnostics<L, V, D>(
    state: LoopView<L>,
    not: NotificationView,
)
    requires
        not.method == "textDocument/didClose"@,
    ensures
        ({
            let event = EventView::<V, D>::Msg(MessageView::Notification(not));
            let res = crate::main_loop::turn_for(state, event);
            &&& crate::main_loop::state_after_event(state, event) == state
            &&& match crate::documents::closed_of(not.params) {
                Some((uri, Some(path), cleared)) => res == Ok::<TurnView<V, D>, TurnErrorView>(
                    TurnView {
                        step: StepView::Document(
                            DocumentStepView::Remove {
                                path,
                                cleared: MessageView::Notification(
                                    NotificationView {
                                        method: "textDocument/publishDiagnostics"@,
                                        params: cleared,
                                    },
                                ),
                            },
                        ),
                        state_changed: true,
                    },
                ),
                Some((uri, None, cleared)) => res == Err::<TurnView<V, D>, TurnErrorView>(
                    TurnErrorView::Failed(LoopErrorView::InvalidUri(uri)),
                ),
                None => res == Err::<TurnView<V, D>, TurnErrorView>(
                    TurnErrorView::Rejected(RejectionView::BadParams(not.method)),
                ),
            }
        }),
{
    lemma_document_notification::<L, V, D>(state, not);
}

/// Any other notification is only logged, and never ends the loop.
pub proof fn law_other_notification_is_only_logged<L, V, D>(
    state: LoopView<L>,
    not: NotificationView,
)
    requires
        not.method != "$/cancelRequest"@,
        not.method != "textDocument/didOpen"@,
        not.method != "textDocument/didChange"@,
        not.method != "textDocument/didClose"@,
    ensures
        crate::main_loop::turn_for::<L, V, D>(
            state,
            EventView::Msg(MessageView::Notification(not)),
        ) == Ok::<TurnView<V, D>, TurnErrorView>(
            TurnView {
                step: StepView::Unhandled(MessageView::Notification(not)),
                state_changed: true,
            },
        ),
        crate::main_loop::state_after_event::<L, V, D>(
            state,
            EventView::Msg(MessageView::Notification(not)),
        ) == state,
{
}

/// No event changes the options, the open files, the libraries that wait or whether the workspace is
/// known to be loaded. Only an indexed library changes how many are being indexed.
pub proof fn law_events_change_no_more<L, V, D>(state: LoopView<L>, event: EventView<V, D>)
    ensures
        ({
            let after = crate::main_loop::state_after_event(state, event);
            &&& after.options == state.options
            &&& after.subs == state.subs
            &&& after.waiting == state.waiting
            &&& after.loading == state.loading
            &&& !(event is Lib) ==> after.in_flight == state.in_flight
            &&& event is Lib || event is Vfs ==> after.pending == state.pending
        }),
{
}

/// The workspace is noted as loaded at the end of the first turn that leaves no root to scan, no
/// library waiting and none being indexed, and not before. The user is told so at that moment, where
/// the options ask for it, and at no other.
pub proof fn law_loaded_means_nothing_is_left<L>(
    state: LoopView<L>,
    new: Seq<L>,
    roots_to_scan: nat,
    packages: nat,
)
    ensures
        ({
            let end = crate::main_loop::state_at_end(state, new, roots_to_scan);
            let message = crate::main_loop::message_at_end(state, new, roots_to_scan, packages);
            let nothing_left = roots_to_scan == 0 && end.waiting.len() == 0 && end.in_flight == 0;
            &&& end.loading <==> state.loading && !nothing_left
            &&& message is Some <==> state.loading && nothing_left
                && state.options.show_workspace_loaded
            &&& nothing_left ==> state.waiting.len() == 0 && new.len() == 0 && state.in_flight == 0
            &&& roots_to_scan > 0 ==> end.loading == state.loading && message is None
            &&& message matches Some(sent) ==> (sent matches MessageView::Notification(shown)
                && shown.method == "window/showMessage"@ && shown.params
                == crate::protocol::show_message_json(
                3,
                "workspace loaded, "@ + crate::decimal::decimal(packages) + " rust packages"@,
            ))
        }),
{
    crate::libraries::law_latest_libraries_are_started_first(
        state.in_flight,
        state.waiting + new,
    );
    let end = crate::main_loop::state_at_end(state, new, roots_to_scan);
    let started = crate::main_loop::started_at_end(state, new);
    assert((end.waiting + started.reverse()).len() == (state.waiting + new).len());
}

/// The end of a turn starts the libraries that waited or are new, the latest first, up to five that
/// are indexed at a time; the others go on waiting in their order.
pub proof fn law_end_of_turn_fills_the_free_places<L>(
    state: LoopView<L>,
    new: Seq<L>,
    roots_to_scan: nat,
)
    ensures
        ({
            let end = crate::main_loop::state_at_end(state, new, roots_to_scan);
            let started = crate::main_loop::started_at_end(state, new);
            &&& end.waiting + started.reverse() == state.waiting + new
            &&& end.in_flight == state.in_flight + started.len()
            &&& state.in_flight <= 5 ==> end.in_flight <= 5
            &&& state.in_flight <= 5 ==> end.waiting.len() == 0 || end.in_flight == 5
            &&& state.in_flight >= 5 ==> started.len() == 0
        }),
{
    crate::libraries::law_latest_libraries_are_started_first(
        state.in_flight,
        state.waiting + new,
    );
}

/// The end of a turn leaves the options, the pending requests and the open files as they are.
pub proof fn law_end_of_turn_changes_no_more<L>(
    state: LoopView<L>,
    new: Seq<L>,
    roots_to_scan: nat,
)
    ensures
        ({
            let end = crate::main_loop::state_at_end(state, new, roots_to_scan);
            &&& end.options == state.options
            &&& end.pending == state.pending
            &&& end.subs == state.subs
        }),
{
}

/// The loop starts with the options that it was given and with nothing in hand, and has yet to note
/// that the workspace is loaded.
pub proof fn law_loop_starts_with_nothing_in_hand<L>(options: InitializationOptions)
    ensures
        ({
            let state = crate::main_loop::initial_state::<L>(options);
            &&& state.options == options
            &&& state.loading
            &&& state.in_flight == 0
            &&& state.waiting.len() == 0
            &&& forall|id: u64| !(#[trigger] state.pending.contains(id))
            &&& forall|file: u32| !(#[trigger] state.subs.contains(file))
        }),
{
}

/// A file is open from the moment its document is laid over it until it is taken off; no other file
/// is concerned, and nothing else in the state. Opening it again changes nothing, closing it undoes
/// opening it.
pub proof fn law_files_are_open_until_closed<L>(state: LoopView<L>, file: FileId, other: u32)
    ensures
        ({
            let opened = crate::main_loop::state_after_added(state, Some(file));
            let closed = crate::main_loop::state_after_removed(state, Some(file));
            &&& opened.subs.contains(other) <==> state.subs.contains(other) || other == file.0
            &&& closed.subs.contains(other) <==> state.subs.contains(other) && other != file.0
            &&& opened == LoopView { subs: opened.subs, ..state }
            &&& closed == LoopView { subs: closed.subs, ..state }
            &&& crate::main_loop::state_after_added(opened, Some(file)) == opened
            &&& !state.subs.contains(file.0) ==> crate::main_loop::state_after_removed(
                opened,
                Some(file),
            ) == state
            &&& crate::main_loop::state_after_added(state, None) == state
            &&& crate::main_loop::state_after_removed(state, None) == state
        }),
{
    let opened = crate::main_loop::state_after_added(state, Some(file));
    assert(crate::main_loop::state_after_added(opened, Some(file)).subs =~= opened.subs);
    if !state.subs.contains(file.0) {
        assert(crate::main_loop::state_after_removed(opened, Some(file)).subs =~= state.subs);
    }
}

/// An event that ends the loop with an error or a rejection changes nothing, so what is pending can
/// still be answered; any other event changes what its own law says.
pub proof fn law_failed_event_changes_nothing<L, V, D>(state: LoopView<L>, event: EventView<V, D>)
    ensures
        crate::main_loop::turn_for(state, event) is Err ==> crate::main_loop::state_on_event(
            state,
            event,
        ) == state,
        crate::main_loop::turn_for(state, event) is Ok ==> crate::main_loop::state_on_event(
            state,
            event,
        ) == crate::main_loop::state_after_event(state, event),
{
}

} // verus!
