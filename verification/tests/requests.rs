use lsp_main_loop::errors::Rejection;
use lsp_main_loop::methods::{
    CANCEL, COLLECT_GARBAGE, DID_CHANGE, DID_CLOSE, DID_OPEN, PUBLISH_DECORATIONS,
    PUBLISH_DIAGNOSTICS, SHOW_MESSAGE, SHUTDOWN,
};
use lsp_main_loop::requests::{
    dispatch, is_handled, on_client_request, on_request, read_request, ClientRequest, Dispatch,
    Handler, Job, PoolDispatcher, RequestStep,
};
use lsp_main_loop::sets::{FileId, PendingRequests, Subscriptions};
use lsp_main_loop::{RawMessage, RawRequest, RawResponse};
use lsp_types::notification::Notification;
use lsp_types::request::Request;

fn request(id: u64, method: &str, params: &str) -> RawRequest {
    RawRequest { id, method: method.to_string(), params: params.to_string() }
}

const HANDLERS: [Handler; 27] = [
    Handler::AnalyzerStatus,
    Handler::SyntaxTree,
    Handler::ExtendSelection,
    Handler::SelectionRange,
    Handler::FindMatchingBrace,
    Handler::JoinLines,
    Handler::OnEnter,
    Handler::OnTypeFormatting,
    Handler::DocumentSymbol,
    Handler::WorkspaceSymbol,
    Handler::GotoDefinition,
    Handler::GotoImplementation,
    Handler::ParentModule,
    Handler::Runnables,
    Handler::Decorations,
    Handler::Completion,
    Handler::CodeAction,
    Handler::CodeLens,
    Handler::CodeLensResolve,
    Handler::FoldingRange,
    Handler::SignatureHelp,
    Handler::Hover,
    Handler::PrepareRename,
    Handler::Rename,
    Handler::References,
    Handler::Formatting,
    Handler::DocumentHighlight,
];

#[test]
fn standard_requests_have_the_methods_of_the_protocol() {
    let pairs = [
        (Handler::OnTypeFormatting, lsp_types::request::OnTypeFormatting::METHOD),
        (Handler::DocumentSymbol, lsp_types::request::DocumentSymbolRequest::METHOD),
        (Handler::WorkspaceSymbol, lsp_types::request::WorkspaceSymbol::METHOD),
        (Handler::GotoDefinition, lsp_types::request::GotoDefinition::METHOD),
        (Handler::GotoImplementation, lsp_types::request::GotoImplementation::METHOD),
        (Handler::Completion, lsp_types::request::Completion::METHOD),
        (Handler::CodeAction, lsp_types::request::CodeActionRequest::METHOD),
        (Handler::CodeLens, lsp_types::request::CodeLensRequest::METHOD),
        (Handler::CodeLensResolve, lsp_types::request::CodeLensResolve::METHOD),
        (Handler::FoldingRange, lsp_types::request::FoldingRangeRequest::METHOD),
        (Handler::SignatureHelp, lsp_types::request::SignatureHelpRequest::METHOD),
        (Handler::Hover, lsp_types::request::HoverRequest::METHOD),
        (Handler::PrepareRename, lsp_types::request::PrepareRenameRequest::METHOD),
        (Handler::Rename, lsp_types::request::Rename::METHOD),
        (Handler::References, lsp_types::request::References::METHOD),
        (Handler::Formatting, lsp_types::request::Formatting::METHOD),
        (Handler::DocumentHighlight, lsp_types::request::DocumentHighlightRequest::METHOD),
    ];
    for (handler, method) in pairs {
        assert_eq!(handler.method(), method);
    }
    assert_eq!(Handler::SelectionRange.method(), "textDocument/selectionRange");
    assert_eq!(SHUTDOWN, lsp_types::request::Shutdown::METHOD);
}

#[test]
fn requests_of_the_server_itself() {
    for (handler, name) in [
        (Handler::AnalyzerStatus, "analyzerStatus"),
        (Handler::SyntaxTree, "syntaxTree"),
        (Handler::ExtendSelection, "extendSelection"),
        (Handler::FindMatchingBrace, "findMatchingBrace"),
        (Handler::JoinLines, "joinLines"),
        (Handler::OnEnter, "onEnter"),
        (Handler::ParentModule, "parentModule"),
        (Handler::Runnables, "runnables"),
        (Handler::Decorations, "decorationsRequest"),
    ] {
        assert_eq!(handler.method(), format!("rust-analyzer/{}", name));
    }
    assert_eq!(COLLECT_GARBAGE, "rust-analyzer/collectGarbage");
    assert_eq!(PUBLISH_DECORATIONS, "rust-analyzer/publishDecorations");
}

#[test]
fn notifications_have_the_methods_of_the_protocol() {
    assert_eq!(CANCEL, lsp_types::notification::Cancel::METHOD);
    assert_eq!(DID_OPEN, lsp_types::notification::DidOpenTextDocument::METHOD);
    assert_eq!(DID_CHANGE, lsp_types::notification::DidChangeTextDocument::METHOD);
    assert_eq!(DID_CLOSE, lsp_types::notification::DidCloseTextDocument::METHOD);
    assert_eq!(PUBLISH_DIAGNOSTICS, lsp_types::notification::PublishDiagnostics::METHOD);
    assert_eq!(SHOW_MESSAGE, lsp_types::notification::ShowMessage::METHOD);
}

#[test]
fn every_handler_is_reached_by_its_own_method() {
    for (i, handler) in HANDLERS.iter().enumerate() {
        let method = handler.method();
        assert!(is_handled(&method.to_string()));
        assert_eq!(
            dispatch(request(i as u64, method, "[7]")),
            Dispatch::Accepted(Job { handler: *handler, id: i as u64, params: "[7]".to_string() }),
        );
        for other in HANDLERS.iter().skip(i + 1) {
            assert_ne!(method, other.method());
        }
    }
}

#[test]
fn loop_methods_have_no_handler() {
    assert!(!is_handled(&SHUTDOWN.to_string()));
    assert!(!is_handled(&COLLECT_GARBAGE.to_string()));
    assert!(!is_handled(&"textDocument/hove".to_string()));
    assert!(!is_handled(&String::new()));
}

#[test]
fn dispatcher_gives_the_request_to_the_first_handler_that_knows_it() {
    let mut dispatcher = PoolDispatcher::new(request(5, "textDocument/hover", "{}"));
    dispatcher.on(Handler::Rename);
    dispatcher.on(Handler::Hover);
    dispatcher.on(Handler::Hover);
    let job = Job { handler: Handler::Hover, id: 5, params: "{}".to_string() };
    assert_eq!(dispatcher.finish(), Ok(job));
}

#[test]
fn dispatcher_keeps_a_request_that_nobody_knows() {
    let mut dispatcher = PoolDispatcher::new(request(5, "textDocument/hover", "{}"));
    dispatcher.on(Handler::Rename);
    assert_eq!(dispatcher.finish(), Err(request(5, "textDocument/hover", "{}")));
}

#[test]
fn handled_request_is_pending() {
    let mut pending = PendingRequests::new();
    let res = on_request(&mut pending, request(5, "textDocument/hover", "{}"));
    assert_eq!(
        res,
        Dispatch::Accepted(Job { handler: Handler::Hover, id: 5, params: "{}".to_string() }),
    );
    assert!(pending.contains(5));
    assert!(!pending.contains(6));
}

#[test]
fn unknown_request_comes_back() {
    let mut pending = PendingRequests::new();
    let res = on_request(&mut pending, request(5, "textDocument/unheard", "{}"));
    assert_eq!(res, Dispatch::Unknown(request(5, "textDocument/unheard", "{}")));
    assert!(!pending.contains(5));
}

#[test]
fn shutdown_is_answered_and_ends_the_loop() {
    let req = read_request(request(2, "shutdown", "null")).unwrap();
    assert_eq!(req, ClientRequest::Shutdown(2));
    let mut pending = PendingRequests::new();
    assert_eq!(
        on_client_request(&mut pending, req),
        RequestStep::Exit(RawMessage::Response(RawResponse::ok(2, "null".to_string()))),
    );
    assert!(!pending.contains(2));
}

#[test]
fn garbage_is_collected_before_the_answer() {
    let req = read_request(request(3, "rust-analyzer/collectGarbage", " \n\tnull\r ")).unwrap();
    assert_eq!(req, ClientRequest::CollectGarbage(3));
    let mut pending = PendingRequests::new();
    assert_eq!(
        on_client_request(&mut pending, req),
        RequestStep::CollectGarbage(RawMessage::Response(RawResponse::ok(3, "null".to_string()))),
    );
}

#[test]
fn requests_without_parameters_take_none() {
    for params in ["", "{}", "[]", "nul", "nulll", "null null", "\"null\"", "null,", "\u{a0}null"] {
        assert_eq!(
            read_request(request(2, "shutdown", params)),
            Err(Rejection::BadParams("shutdown".to_string())),
        );
        assert_eq!(
            read_request(request(2, "rust-analyzer/collectGarbage", params)),
            Err(Rejection::BadParams("rust-analyzer/collectGarbage".to_string())),
        );
    }
}

#[test]
fn unknown_request_is_answered_with_an_error() {
    let req = read_request(request(4, "textDocument/unheard", "{}")).unwrap();
    assert_eq!(req, ClientRequest::Other(request(4, "textDocument/unheard", "{}")));
    let mut pending = PendingRequests::new();
    assert_eq!(
        on_client_request(&mut pending, req),
        RequestStep::Unknown {
            req: request(4, "textDocument/unheard", "{}"),
            response: RawMessage::Response(
                RawResponse::err(4, -32601, "unknown request".to_string()),
            ),
        },
    );
}

#[test]
fn pending_requests_are_a_set() {
    let mut pending = PendingRequests::new();
    assert!(pending.insert(1));
    assert!(!pending.insert(1));
    assert!(pending.insert(u64::MAX));
    assert!(pending.remove(1));
    assert!(!pending.remove(1));
    assert!(!pending.contains(1));
    assert!(pending.contains(u64::MAX));
}

#[test]
fn subscriptions_are_a_set() {
    let mut subs = Subscriptions::new();
    assert!(subs.subscriptions().is_empty());
    subs.add_sub(FileId(3));
    subs.add_sub(FileId(1));
    subs.add_sub(FileId(3));
    subs.add_sub(FileId(2));
    subs.remove_sub(FileId(1));
    subs.remove_sub(FileId(9));
    let mut files: Vec<u32> = subs.subscriptions().iter().map(|file| file.0).collect();
    files.sort();
    assert_eq!(files, vec![2, 3]);
}
