use lsp_main_loop::errors::{LoopError, Rejection};
use lsp_main_loop::events::{received_event, Event, Received, Summary};
use lsp_main_loop::libraries::{LibraryQueue, MAX_IN_FLIGHT, THREADPOOL_SIZE};
use lsp_main_loop::main_loop::{InitializationOptions, MainLoop, Step, Turn, TurnError};
use lsp_main_loop::notices::DocumentStep;
use lsp_main_loop::requests::{Handler, Job, RequestStep};
use lsp_main_loop::sets::{FileId, PendingRequests};
use lsp_main_loop::tasks::{on_task, Task};
use lsp_main_loop::updates::{file_jobs, report, FileJob, Published, Report, UpdateError};
use lsp_main_loop::user_messages::workspace_loaded;
use lsp_main_loop::{RawMessage, RawNotification, RawRequest, RawResponse};
use std::path::PathBuf;

type E = Event<&'static str, &'static str>;

fn new_loop(publish_decorations: bool, show_workspace_loaded: bool) -> MainLoop<u32> {
    MainLoop::new(InitializationOptions { publish_decorations, show_workspace_loaded })
}

fn request(id: u64, method: &str, params: &str) -> E {
    Event::Msg(RawMessage::Request(RawRequest {
        id,
        method: method.to_string(),
        params: params.to_string(),
    }))
}

fn raw_notification(method: &str, params: &str) -> RawNotification {
    RawNotification { method: method.to_string(), params: params.to_string() }
}

fn notification(method: &str, params: &str) -> E {
    Event::Msg(RawMessage::Notification(raw_notification(method, params)))
}

fn response(id: u64) -> RawResponse {
    RawResponse::ok(id, format!("\"{}\"", id))
}

fn turn(
    step: Step<&'static str, &'static str>,
    state_changed: bool,
) -> Result<Turn<&'static str, &'static str>, TurnError> {
    Ok(Turn { step, state_changed })
}

fn rejected(rejection: Rejection) -> Result<Turn<&'static str, &'static str>, TurnError> {
    Err(TurnError::Rejected(rejection))
}

fn canceled(id: u64) -> RawMessage {
    RawMessage::Response(RawResponse::err(id, -32800, "canceled by client".to_string()))
}

fn jobs(list: &[(u32, Published)]) -> Vec<FileJob> {
    list.iter().map(|(file, what)| FileJob { file: FileId(*file), what: *what }).collect()
}

#[test]
fn channels_give_events() {
    let message = || RawMessage::Response(response(1));
    assert_eq!(
        received_event::<u8, u8>(Received::Msg(Some(message()))),
        Ok(Event::Msg(message())),
    );
    assert_eq!(received_event::<u8, u8>(Received::Msg(None)), Err(LoopError::ClientExited));
    assert_eq!(
        received_event::<u8, u8>(Received::Task(Task::Respond(response(1)))),
        Ok(Event::Task(Task::Respond(response(1)))),
    );
    assert_eq!(received_event::<u8, u8>(Received::Vfs(Some(3))), Ok(Event::Vfs(3)));
    assert_eq!(received_event::<u8, u8>(Received::Vfs(None)), Err(LoopError::VfsDied));
    assert_eq!(received_event::<u8, u8>(Received::Lib(4)), Ok(Event::Lib(4)));
}

#[test]
fn log_leaves_long_texts_out() {
    for method in ["textDocument/didOpen", "textDocument/didChange"] {
        let event = notification(method, "{}");
        assert_eq!(event.summary(), Summary::Notification { method: &method.to_string() });
        let event: E = Event::Task(Task::Notify(raw_notification(method, "{}")));
        assert_eq!(event.summary(), Summary::Full);
    }
    for method in ["textDocument/publishDiagnostics", "rust-analyzer/publishDecorations"] {
        let event: E = Event::Task(Task::Notify(raw_notification(method, "{}")));
        assert_eq!(event.summary(), Summary::Notification { method: &method.to_string() });
        let event = notification(method, "{}");
        assert_eq!(event.summary(), Summary::Full);
    }
}

#[test]
fn log_shows_of_a_response_its_id_and_error() {
    let event: E = Event::Task(Task::Respond(response(5)));
    assert_eq!(event.summary(), Summary::Response { id: 5, error: &None });
    let failed = RawResponse::err(6, 1, "no".to_string());
    let error = RawResponse::err(6, 1, "no".to_string()).error;
    let event: E = Event::Task(Task::Respond(failed));
    assert_eq!(event.summary(), Summary::Response { id: 6, error: &error });
    let event: E = Event::Msg(RawMessage::Response(response(5)));
    assert_eq!(event.summary(), Summary::Full);
    assert_eq!(request(1, "shutdown", "null").summary(), Summary::Full);
    let event: E = Event::Vfs("change");
    assert_eq!(event.summary(), Summary::Full);
    let event: E = Event::Lib("library");
    assert_eq!(event.summary(), Summary::Full);
}

#[test]
fn responses_pass_only_while_pending() {
    let mut pending = PendingRequests::new();
    pending.insert(1);
    let sent = on_task(Task::Respond(response(1)), &mut pending);
    assert_eq!(sent, Some(RawMessage::Response(response(1))));
    assert_eq!(on_task(Task::Respond(response(1)), &mut pending), None);
    let not = || raw_notification("textDocument/publishDiagnostics", "{}");
    assert_eq!(
        on_task(Task::Notify(not()), &mut pending),
        Some(RawMessage::Notification(not())),
    );
}

#[test]
fn request_is_answered_by_its_worker() {
    let mut main_loop = new_loop(false, false);
    assert_eq!(
        main_loop.on_event(request(7, "textDocument/hover", "{}")),
        turn(
            Step::Request(RequestStep::Run(Job {
                handler: Handler::Hover,
                id: 7,
                params: "{}".to_string(),
            })),
            false,
        ),
    );
    assert_eq!(
        main_loop.on_event(E::Task(Task::Respond(response(7)))),
        turn(Step::Send(RawMessage::Response(response(7))), false),
    );
    assert_eq!(
        main_loop.on_event(E::Task(Task::Respond(response(7)))),
        turn(Step::Nothing, false),
    );
    assert!(main_loop.on_event(request(7, "textDocument/hover", "{}")).is_ok());
}

#[test]
fn canceled_request_drops_the_answer_of_its_worker() {
    let mut main_loop = new_loop(false, false);
    assert!(main_loop.on_event(request(7, "textDocument/hover", "{}")).is_ok());
    assert_eq!(
        main_loop.on_event(notification("$/cancelRequest", "{\"id\":7}")),
        turn(Step::Send(canceled(7)), true),
    );
    assert_eq!(
        main_loop.on_event(E::Task(Task::Respond(response(7)))),
        turn(Step::Nothing, false),
    );
}

#[test]
fn late_cancellation_does_nothing() {
    let mut main_loop = new_loop(false, false);
    assert!(main_loop.on_event(request(7, "textDocument/hover", "{}")).is_ok());
    assert_eq!(
        main_loop.on_task(Task::Respond(response(7))),
        Some(RawMessage::Response(response(7))),
    );
    assert_eq!(
        main_loop.on_event(notification("$/cancelRequest", "{\"id\":7}")),
        turn(Step::Nothing, true),
    );
}

#[test]
fn request_with_a_pending_id_is_rejected() {
    let mut main_loop = new_loop(false, false);
    assert!(main_loop.on_event(request(7, "textDocument/hover", "{}")).is_ok());
    assert_eq!(
        main_loop.on_event(request(7, "textDocument/rename", "{}")),
        rejected(Rejection::DuplicateRequest(7)),
    );
    assert_eq!(
        main_loop.on_event(request(7, "textDocument/unheard", "{}")),
        turn(
            Step::Request(RequestStep::Unknown {
                req: RawRequest {
                    id: 7,
                    method: "textDocument/unheard".to_string(),
                    params: "{}".to_string(),
                },
                response: RawMessage::Response(
                    RawResponse::err(7, -32601, "unknown request".to_string()),
                ),
            }),
            false,
        ),
    );
    assert_eq!(
        main_loop.on_event(E::Task(Task::Respond(response(7)))),
        turn(Step::Send(RawMessage::Response(response(7))), false),
    );
}

#[test]
fn shutdown_leaves_the_loop() {
    let mut main_loop = new_loop(false, false);
    assert_eq!(
        main_loop.on_event(request(1, "shutdown", "null")),
        turn(
            Step::Request(RequestStep::Exit(RawMessage::Response(
                RawResponse::ok(1, "null".to_string()),
            ))),
            false,
        ),
    );
    assert_eq!(
        main_loop.on_event(request(1, "shutdown", "[1]")),
        rejected(Rejection::BadParams("shutdown".to_string())),
    );
}

#[test]
fn garbage_collection_is_a_step() {
    let mut main_loop = new_loop(false, false);
    assert_eq!(
        main_loop.on_event(request(1, "rust-analyzer/collectGarbage", "null")),
        turn(
            Step::Request(RequestStep::CollectGarbage(RawMessage::Response(
                RawResponse::ok(1, "null".to_string()),
            ))),
            false,
        ),
    );
}

#[test]
fn responses_of_the_client_are_only_logged() {
    let mut main_loop = new_loop(false, false);
    assert_eq!(
        main_loop.on_event(E::Msg(RawMessage::Response(response(1)))),
        turn(Step::Unhandled(RawMessage::Response(response(1))), false),
    );
}

#[test]
fn other_notifications_are_only_logged() {
    let mut main_loop = new_loop(false, false);
    assert_eq!(
        main_loop.on_event(notification("textDocument/didSave", "{}")),
        turn(
            Step::Unhandled(RawMessage::Notification(
                raw_notification("textDocument/didSave", "{}"),
            )),
            true,
        ),
    );
}

#[test]
fn tasks_left_after_the_loop_are_passed_on_in_order() {
    let mut main_loop = new_loop(false, false);
    for id in [1, 2, 3] {
        assert!(main_loop.on_event(request(id, "textDocument/hover", "{}")).is_ok());
    }
    assert!(main_loop.on_event(notification("$/cancelRequest", "{\"id\":2}")).is_ok());
    assert!(main_loop.on_event(request(4, "shutdown", "null")).is_ok());
    let not = || raw_notification("textDocument/publishDiagnostics", "{}");
    let left = vec![
        Task::Respond(response(3)),
        Task::Respond(response(2)),
        Task::Notify(not()),
        Task::Respond(response(3)),
        Task::Respond(response(1)),
        Task::Notify(not()),
    ];
    let sent: Vec<RawMessage> =
        left.into_iter().filter_map(|task| main_loop.on_task(task)).collect();
    assert_eq!(
        sent,
        vec![
            RawMessage::Response(response(3)),
            RawMessage::Notification(not()),
            RawMessage::Response(response(1)),
            RawMessage::Notification(not()),
        ],
    );
}

#[test]
fn malformed_notifications_are_rejected() {
    let mut main_loop = new_loop(false, false);
    assert_eq!(
        main_loop.on_event(notification("$/cancelRequest", "{\"id\":\"x\"}")),
        rejected(Rejection::TextRequestId("x".to_string())),
    );
    assert_eq!(
        main_loop.on_event(notification("textDocument/didOpen", "{}")),
        rejected(Rejection::BadParams("textDocument/didOpen".to_string())),
    );
}

#[test]
fn document_without_a_file_fails_the_turn() {
    let mut main_loop = new_loop(false, false);
    let params = "{\"textDocument\":{\"uri\":\"untitled:a\"}}";
    assert_eq!(
        main_loop.on_event(notification("textDocument/didClose", params)),
        Err(TurnError::Failed(LoopError::InvalidUri("untitled:a".to_string()))),
    );
}

#[test]
fn opened_and_closed_document() {
    let mut main_loop = new_loop(true, false);
    let params = "{\"textDocument\":{\"uri\":\"file:///a.rs\",\"languageId\":\"rust\",\
                  \"version\":1,\"text\":\"x\"}}";
    assert_eq!(
        main_loop.on_event(notification("textDocument/didOpen", params)),
        turn(
            Step::Document(DocumentStep::Add {
                path: PathBuf::from("/a.rs"),
                text: "x".to_string(),
            }),
            true,
        ),
    );
    main_loop.overlay_added(Some(FileId(4)));
    let end = main_loop.end_turn(Vec::new(), 1, &Vec::new(), true);
    assert_eq!(
        end.updates,
        Some(jobs(&[(4, Published::Diagnostics), (4, Published::Decorations)])),
    );
    let params = "{\"textDocument\":{\"uri\":\"file:///a.rs\"}}";
    assert_eq!(
        main_loop.on_event(notification("textDocument/didClose", params)),
        turn(
            Step::Document(DocumentStep::Remove {
                path: PathBuf::from("/a.rs"),
                cleared: RawMessage::Notification(raw_notification(
                    "textDocument/publishDiagnostics",
                    "{\"uri\":\"file:///a.rs\",\"diagnostics\":[]}",
                )),
            }),
            true,
        ),
    );
    main_loop.overlay_removed(Some(FileId(4)));
    let end = main_loop.end_turn(Vec::new(), 1, &Vec::new(), true);
    assert_eq!(end.updates, Some(Vec::new()));
}

#[test]
fn document_that_the_file_system_does_not_know_is_not_subscribed() {
    let mut main_loop = new_loop(true, false);
    main_loop.overlay_added(Some(FileId(4)));
    main_loop.overlay_added(None);
    main_loop.overlay_removed(None);
    let end = main_loop.end_turn(Vec::new(), 1, &Vec::new(), true);
    assert_eq!(end.updates.unwrap().len(), 2);
}

#[test]
fn changed_document_is_a_step() {
    let mut main_loop = new_loop(false, false);
    let params = "{\"textDocument\":{\"uri\":\"file:///a.rs\",\"version\":null},\
                  \"contentChanges\":[{\"text\":\"one\"},{\"text\":\"two\"}]}";
    assert_eq!(
        main_loop.on_event(notification("textDocument/didChange", params)),
        turn(
            Step::Document(DocumentStep::Change {
                path: PathBuf::from("/a.rs"),
                text: "two".to_string(),
            }),
            true,
        ),
    );
}

#[test]
fn changes_of_files_bring_updates() {
    let mut main_loop = new_loop(false, false);
    main_loop.overlay_added(Some(FileId(1)));
    assert_eq!(main_loop.on_event(E::Vfs("change")), turn(Step::HandleVfs("change"), true));
    let end = main_loop.end_turn(Vec::new(), 1, &Vec::new(), true);
    assert_eq!(end.updates, Some(jobs(&[(1, Published::Diagnostics)])));
    let end = main_loop.end_turn(Vec::new(), 1, &Vec::new(), false);
    assert_eq!(end.updates, None);
}

#[test]
fn libraries_start_from_the_latest_while_workers_are_free() {
    assert_eq!(THREADPOOL_SIZE, 8);
    assert_eq!(MAX_IN_FLIGHT, 5);
    let mut queue: LibraryQueue<u32> = LibraryQueue::new();
    assert!(queue.is_idle());
    assert_eq!(queue.start(vec![1, 2]), vec![2, 1]);
    assert_eq!(queue.start(vec![3, 4, 5, 6, 7]), vec![7, 6, 5]);
    assert!(queue.start(vec![8]).is_empty());
    queue.finish();
    assert_eq!(queue.start(Vec::new()), vec![8]);
    for _ in 0..5 {
        queue.finish();
    }
    assert!(!queue.is_indexing());
    assert!(!queue.is_idle());
    assert_eq!(queue.start(Vec::new()), vec![4, 3]);
    queue.finish();
    assert!(queue.is_indexing());
    queue.finish();
    assert!(queue.is_idle());
}

#[test]
fn every_library_is_started_once() {
    let mut main_loop = new_loop(false, false);
    let mut started: Vec<u32> = Vec::new();
    let mut in_flight = 0;
    for round in 0..10u32 {
        let end = main_loop.end_turn(vec![2 * round, 2 * round + 1], 0, &Vec::new(), false);
        in_flight += end.start.len();
        started.extend(end.start);
        assert!(in_flight <= 5);
        assert_eq!(main_loop.on_event(E::Lib("done")), turn(Step::AddLib("done"), false));
        in_flight -= 1;
    }
    while in_flight > 0 {
        let end = main_loop.end_turn(Vec::new(), 0, &Vec::new(), false);
        in_flight += end.start.len();
        started.extend(end.start);
        assert!(main_loop.on_event(E::Lib("done")).is_ok());
        in_flight -= 1;
    }
    started.sort();
    assert_eq!(started, (0..20).collect::<Vec<u32>>());
}

#[test]
fn library_that_nobody_asked_for_is_rejected() {
    let mut main_loop = new_loop(false, false);
    assert_eq!(main_loop.on_event(E::Lib("done")), rejected(Rejection::UnexpectedLibrary));
    main_loop.end_turn(vec![1], 0, &Vec::new(), false);
    assert!(main_loop.on_event(E::Lib("done")).is_ok());
    assert_eq!(main_loop.on_event(E::Lib("done")), rejected(Rejection::UnexpectedLibrary));
}

#[test]
fn loaded_workspace_is_told_once() {
    let mut main_loop = new_loop(false, true);
    assert!(!main_loop.finds_loaded(&Vec::new(), 2));
    assert_eq!(main_loop.end_turn(Vec::new(), 2, &vec![3, 4], false).message, None);
    assert!(!main_loop.finds_loaded(&vec![1], 0));
    assert_eq!(main_loop.end_turn(vec![1], 0, &vec![3, 4], false).message, None);
    assert!(!main_loop.finds_loaded(&Vec::new(), 0));
    assert_eq!(main_loop.end_turn(Vec::new(), 0, &vec![3, 4], false).message, None);
    assert!(main_loop.on_event(E::Lib("done")).is_ok());
    assert!(main_loop.finds_loaded(&Vec::new(), 0));
    assert_eq!(
        main_loop.end_turn(Vec::new(), 0, &vec![3, 4], false).message,
        Some(workspace_loaded(7)),
    );
    assert!(!main_loop.finds_loaded(&Vec::new(), 0));
    assert_eq!(main_loop.end_turn(Vec::new(), 0, &vec![3, 4], false).message, None);
}

#[test]
fn loaded_workspace_is_not_told_unless_wanted() {
    let mut main_loop = new_loop(false, false);
    assert_eq!(main_loop.end_turn(Vec::new(), 0, &vec![1], false).message, None);
    assert_eq!(main_loop.end_turn(Vec::new(), 0, &vec![1], false).message, None);
}

#[test]
fn one_response_per_request() {
    let mut main_loop = new_loop(false, false);
    let mut answered: Vec<u64> = Vec::new();
    let events = vec![
        request(1, "textDocument/hover", "{}"),
        request(2, "textDocument/rename", "{}"),
        request(3, "no/such", "{}"),
        E::Task(Task::Respond(response(2))),
        notification("$/cancelRequest", "{\"id\":1}"),
        notification("$/cancelRequest", "{\"id\":2}"),
        E::Task(Task::Respond(response(1))),
        request(4, "rust-analyzer/collectGarbage", "null"),
        E::Task(Task::Respond(response(9))),
        request(1, "textDocument/hover", "{}"),
        E::Task(Task::Respond(response(1))),
        request(5, "shutdown", "null"),
    ];
    for event in events {
        let sent = match main_loop.on_event(event).unwrap().step {
            Step::Send(message) => Some(message),
            Step::Request(RequestStep::Exit(message)) => Some(message),
            Step::Request(RequestStep::CollectGarbage(message)) => Some(message),
            Step::Request(RequestStep::Unknown { response, .. }) => Some(response),
            _ => None,
        };
        if let Some(RawMessage::Response(response)) = sent {
            answered.push(response.id);
        }
    }
    answered.sort();
    assert_eq!(answered, vec![1, 1, 2, 3, 4, 5]);
}

#[test]
fn files_are_updated_in_order() {
    let files = vec![FileId(3), FileId(1)];
    assert_eq!(
        file_jobs(&files, true),
        jobs(&[
            (3, Published::Diagnostics),
            (3, Published::Decorations),
            (1, Published::Diagnostics),
            (1, Published::Decorations),
        ]),
    );
    assert_eq!(
        file_jobs(&files, false),
        jobs(&[(3, Published::Diagnostics), (1, Published::Diagnostics)]),
    );
    assert!(file_jobs(&Vec::new(), true).is_empty());
}

#[test]
fn results_of_updates_are_reported() {
    for (what, method) in [
        (Published::Diagnostics, "textDocument/publishDiagnostics"),
        (Published::Decorations, "rust-analyzer/publishDecorations"),
    ] {
        assert_eq!(what.method(), method);
        assert_eq!(
            report(what, Ok("{}".to_string())),
            Report::Notify(Task::Notify(raw_notification(method, "{}"))),
        );
        assert_eq!(report(what, Err(UpdateError::Canceled)), Report::Nothing);
        assert_eq!(report(what, Err(UpdateError::Failed)), Report::Log);
    }
}
