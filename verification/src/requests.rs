//! The methods that the main loop knows, and the dispatch of requests to the handlers of the pool.

use vstd::prelude::*;

use crate::errors::{Rejection, RejectionView};
use crate::message::{ErrorCode, MessageView, RawMessage, RawRequest, RawResponse, RequestView};
use crate::methods::{COLLECT_GARBAGE, SHUTDOWN};
use crate::protocol::{reads_as_unit, unit_json};
use crate::sets::PendingRequests;

verus! {

/// The requests that a worker of the pool answers, in the order in which they are tried.
#[derive(Debug, Clone, Copy, PartialEq, Eq, Structural)]
pub enum Handler {
    AnalyzerStatus,
    SyntaxTree,
    ExtendSelection,
    SelectionRange,
    FindMatchingBrace,
    JoinLines,
    OnEnter,
    OnTypeFormatting,
    DocumentSymbol,
    WorkspaceSymbol,
    GotoDefinition,
    GotoImplementation,
    ParentModule,
    Runnables,
    Decorations,
    Completion,
    CodeAction,
    CodeLens,
    CodeLensResolve,
    FoldingRange,
    SignatureHelp,
    Hover,
    PrepareRename,
    Rename,
    References,
    Formatting,
    DocumentHighlight,
}

impl Handler {
    /// The method that asks for the handler.
    pub open spec fn method_name(self) -> Seq<char> {
        match self {
            Handler::AnalyzerStatus => "rust-analyzer/analyzerStatus"@,
            Handler::SyntaxTree => "rust-analyzer/syntaxTree"@,
            Handler::ExtendSelection => "rust-analyzer/extendSelection"@,
            Handler::SelectionRange => "textDocument/selectionRange"@,
            Handler::FindMatchingBrace => "rust-analyzer/findMatchingBrace"@,
            Handler::JoinLines => "rust-analyzer/joinLines"@,
            Handler::OnEnter => "rust-analyzer/onEnter"@,
            Handler::OnTypeFormatting => "textDocument/onTypeFormatting"@,
            Handler::DocumentSymbol => "textDocument/documentSymbol"@,
            Handler::WorkspaceSymbol => "workspace/symbol"@,
            Handler::GotoDefinition => "textDocument/definition"@,
            Handler::GotoImplementation => "textDocument/implementation"@,
            Handler::ParentModule => "rust-analyzer/parentModule"@,
            Handler::Runnables => "rust-analyzer/runnables"@,
            Handler::Decorations => "rust-analyzer/decorationsRequest"@,
            Handler::Completion => "textDocument/completion"@,
            Handler::CodeAction => "textDocument/codeAction"@,
            Handler::CodeLens => "textDocument/codeLens"@,
            Handler::CodeLensResolve => "codeLens/resolve"@,
            Handler::FoldingRange => "textDocument/foldingRange"@,
            Handler::SignatureHelp => "textDocument/signatureHelp"@,
            Handler::Hover => "textDocument/hover"@,
            Handler::PrepareRename => "textDocument/prepareRename"@,
            Handler::Rename => "textDocument/rename"@,
            Handler::References => "textDocument/references"@,
            Handler::Formatting => "textDocument/formatting"@,
            Handler::DocumentHighlight => "textDocument/documentHighlight"@,
        }
    }

    /// The method that asks for the handler.
    pub fn method(self) -> (method: &'static str)
        ensures
            method@ == self.method_name(),
    {
        match self {
            Handler::AnalyzerStatus => "rust-analyzer/analyzerStatus",
            Handler::SyntaxTree => "rust-analyzer/syntaxTree",
            Handler::ExtendSelection => "rust-analyzer/extendSelection",
            Handler::SelectionRange => "textDocument/selectionRange",
            Handler::FindMatchingBrace => "rust-analyzer/findMatchingBrace",
            Handler::JoinLines => "rust-analyzer/joinLines",
            Handler::OnEnter => "rust-analyzer/onEnter",
            Handler::OnTypeFormatting => "textDocument/onTypeFormatting",
            Handler::DocumentSymbol => "textDocument/documentSymbol",
            Handler::WorkspaceSymbol => "workspace/symbol",
            Handler::GotoDefinition => "textDocument/definition",
            Handler::GotoImplementation => "textDocument/implementation",
            Handler::ParentModule => "rust-analyzer/parentModule",
            Handler::Runnables => "rust-analyzer/runnables",
            Handler::Decorations => "rust-analyzer/decorationsRequest",
            Handler::Completion => "textDocument/completion",
            Handler::CodeAction => "textDocument/codeAction",
            Handler::CodeLens => "textDocument/codeLens",
            Handler::CodeLensResolve => "codeLens/resolve",
            Handler::FoldingRange => "textDocument/foldingRange",
            Handler::SignatureHelp => "textDocument/signatureHelp",
            Handler::Hover => "textDocument/hover",
            Handler::PrepareRename => "textDocument/prepareRename",
            Handler::Rename => "textDocument/rename",
            Handler::References => "textDocument/references",
            Handler::Formatting => "textDocument/formatting",
            Handler::DocumentHighlight => "textDocument/documentHighlight",
        }
    }
}

/// The handler of a method, if it has one.
pub open spec fn handler_of(method: Seq<char>) -> Option<Handler> {
    if exists|handler: Handler| #[trigger] handler.method_name() == method {
        Some(choose|handler: Handler| #[trigger] handler.method_name() == method)
    } else {
        None
    }
}

/// What tells the methods of the handlers apart: the length and two characters.
spec fn method_key(method: Seq<char>) -> (nat, char, char) {
    (method.len(), method[13], method[15])
}

/// The [`method_key`] of each handler's method.
spec fn handler_key(handler: Handler) -> (nat, char, char) {
    match handler {
        Handler::AnalyzerStatus => (28, '/', 'n'),
        Handler::SyntaxTree => (24, '/', 'y'),
        Handler::ExtendSelection => (29, '/', 'x'),
        Handler::SelectionRange => (27, 's', 'l'),
        Handler::FindMatchingBrace => (31, '/', 'i'),
        Handler::JoinLines => (23, '/', 'o'),
        Handler::OnEnter => (21, '/', 'n'),
        Handler::OnTypeFormatting => (29, 'o', 'T'),
        Handler::DocumentSymbol => (27, 'd', 'c'),
        Handler::WorkspaceSymbol => (16, 'b', 'l'),
        Handler::GotoDefinition => (23, 'd', 'f'),
        Handler::GotoImplementation => (27, 'i', 'p'),
        Handler::ParentModule => (26, '/', 'a'),
        Handler::Runnables => (23, '/', 'u'),
        Handler::Decorations => (32, '/', 'e'),
        Handler::Completion => (23, 'c', 'm'),
        Handler::CodeAction => (23, 'c', 'd'),
        Handler::CodeLens => (21, 'c', 'd'),
        Handler::CodeLensResolve => (16, 'l', 'e'),
        Handler::FoldingRange => (25, 'f', 'l'),
        Handler::SignatureHelp => (26, 's', 'g'),
        Handler::Hover => (18, 'h', 'v'),
        Handler::PrepareRename => (26, 'p', 'e'),
        Handler::Rename => (19, 'r', 'n'),
        Handler::References => (23, 'r', 'f'),
        Handler::Formatting => (23, 'f', 'r'),
        Handler::DocumentHighlight => (30, 'd', 'c'),
    }
}

proof fn lemma_method_key(handler: Handler)
    ensures
        method_key(handler.method_name()) == handler_key(handler),
{
    match handler {
        Handler::AnalyzerStatus => {
            reveal_strlit("rust-analyzer/analyzerStatus");
        },
        Handler::SyntaxTree => {
            reveal_strlit("rust-analyzer/syntaxTree");
        },
        Handler::ExtendSelection => {
            reveal_strlit("rust-analyzer/extendSelection");
        },
        Handler::SelectionRange => {
            reveal_strlit("textDocument/selectionRange");
        },
        Handler::FindMatchingBrace => {
            reveal_strlit("rust-analyzer/findMatchingBrace");
        },
        Handler::JoinLines => {
            reveal_strlit("rust-analyzer/joinLines");
        },
        Handler::OnEnter => {
            reveal_strlit("rust-analyzer/onEnter");
        },
        Handler::OnTypeFormatting => {
            reveal_strlit("textDocument/onTypeFormatting");
        },
        Handler::DocumentSymbol => {
            reveal_strlit("textDocument/documentSymbol");
        },
        Handler::WorkspaceSymbol => {
            reveal_strlit("workspace/symbol");
        },
        Handler::GotoDefinition => {
            reveal_strlit("textDocument/definition");
        },
        Handler::GotoImplementation => {
            reveal_strlit("textDocument/implementation");
        },
        Handler::ParentModule => {
            reveal_strlit("rust-analyzer/parentModule");
        },
        Handler::Runnables => {
            reveal_strlit("rust-analyzer/runnables");
        },
        Handler::Decorations => {
            reveal_strlit("rust-analyzer/decorationsRequest");
        },
        Handler::Completion => {
            reveal_strlit("textDocument/completion");
        },
        Handler::CodeAction => {
            reveal_strlit("textDocument/codeAction");
        },
        Handler::CodeLens => {
            reveal_strlit("textDocument/codeLens");
        },
        Handler::CodeLensResolve => {
            reveal_strlit("codeLens/resolve");
        },
        Handler::FoldingRange => {
            reveal_strlit("textDocument/foldingRange");
        },
        Handler::SignatureHelp => {
            reveal_strlit("textDocument/signatureHelp");
        },
        Handler::Hover => {
            reveal_strlit("textDocument/hover");
        },
        Handler::PrepareRename => {
            reveal_strlit("textDocument/prepareRename");
        },
        Handler::Rename => {
            reveal_strlit("textDocument/rename");
        },
        Handler::References => {
            reveal_strlit("textDocument/references");
        },
        Handler::Formatting => {
            reveal_strlit("textDocument/formatting");
        },
        Handler::DocumentHighlight => {
            reveal_strlit("textDocument/documentHighlight");
        },
    }
}

/// No two handlers share a method, so a request reaches the handler of its method whatever the
/// order in which the handlers are tried.
pub proof fn law_methods_are_distinct(a: Handler, b: Handler)
    requires
        a.method_name() == b.method_name(),
    ensures
        a == b,
{
    lemma_method_key(a);
    lemma_method_key(b);
}

/// Every handler is reached by its own method.
pub proof fn law_every_handler_is_reached(handler: Handler)
    ensures
        handler_of(handler.method_name()) == Some(handler),
{
    let found = choose|found: Handler| #[trigger] found.method_name() == handler.method_name();
    law_methods_are_distinct(found, handler);
}

/// The requests that the loop answers itself are those of no handler.
pub proof fn law_loop_methods_have_no_handler()
    ensures
        handler_of(SHUTDOWN@) is None,
        handler_of(COLLECT_GARBAGE@) is None,
{
    reveal_strlit("shutdown");
    reveal_strlit("rust-analyzer/collectGarbage");
    assert forall|handler: Handler|
        #[trigger] handler.method_name() != SHUTDOWN@ && handler.method_name()
            != COLLECT_GARBAGE@ by {
        lemma_method_key(handler);
        if handler.method_name() == COLLECT_GARBAGE@ {
            assert(method_key(handler.method_name()) == method_key(COLLECT_GARBAGE@));
        }
    }
}

/// A request on its way to a worker.
#[derive(Debug, PartialEq, Eq)]
pub struct Job {
    pub handler: Handler,
    pub id: u64,
    pub params: String,
}

/// The content of a [`Job`].
pub struct JobView {
    pub handler: Handler,
    pub id: u64,
    pub params: Seq<char>,
}

impl View for Job {
    type V = JobView;

    open spec fn view(&self) -> JobView {
        JobView { handler: self.handler, id: self.id, params: self.params@ }
    }
}

/// A request that is offered to one handler after the other: until one of them takes it, the
/// dispatcher holds the request, then the job made of it.
pub struct PoolDispatcher {
    req: Option<RawRequest>,
    res: Option<Job>,
}

impl PoolDispatcher {
    /// The request, while no handler has taken it.
    pub closed spec fn request(self) -> Option<RawRequest> {
        self.req
    }

    /// The job, once a handler has taken the request.
    pub closed spec fn job(self) -> Option<Job> {
        self.res
    }

    /// The dispatcher holds either the request or the job, and not both.
    pub open spec fn wf(self) -> bool {
        self.request() is Some <==> self.job() is None
    }

    pub fn new(req: RawRequest) -> (dispatcher: PoolDispatcher)
        ensures
            dispatcher.wf(),
            dispatcher.request() == Some(req),
            dispatcher.job() is None,
    {
        PoolDispatcher { req: Some(req), res: None }
    }

    /// Offers the request to a handler, which takes it if the request names its method.
    pub fn on(&mut self, handler: Handler)
        ensures
            old(self).wf() ==> final(self).wf(),
            match old(self).request() {
                Some(req) if req@.method == handler.method_name() => {
                    &&& final(self).request() is None
                    &&& final(self).job() is Some
                    &&& final(self).job()->0@ == (JobView {
                        handler,
                        id: req@.id,
                        params: req@.params,
                    })
                },
                _ => final(self).request() == old(self).request() && final(self).job() == old(
                    self,
                ).job(),
            },
    {
        let req = match self.req.take() {
            None => return,
            Some(req) => req,
        };
        if req.is(handler.method()) {
            self.res = Some(Job { handler, id: req.id, params: req.params });
        } else {
            self.req = Some(req);
        }
    }

    /// Takes out the job, or the request where no handler took it. The dispatcher holds neither
    /// afterwards.
    pub fn finish(&mut self) -> (res: Result<Job, RawRequest>)
        requires
            old(self).wf(),
        ensures
            match res {
                Ok(job) => old(self).job() == Some(job),
                Err(req) => old(self).request() == Some(req),
            },
            final(self).job() is None,
            final(self).request() is None,
            !final(self).wf(),
    {
        match (self.res.take(), self.req.take()) {
            (Some(job), None) => Ok(job),
            (None, Some(req)) => Err(req),
            _ => vstd::pervasive::unreached(),
        }
    }
}

/// A dispatcher can be finished unless it holds both the request and a job, or neither. So it can be
/// finished once: what that leaves holds neither.
pub proof fn law_dispatcher_finishes_once(dispatcher: PoolDispatcher)
    ensures
        !dispatcher.wf() <==> {
            ||| dispatcher.request() is Some && dispatcher.job() is Some
            ||| dispatcher.request() is None && dispatcher.job() is None
        },
{
}

/// Where a request goes.
#[derive(Debug, PartialEq, Eq)]
pub enum Dispatch {
    /// To a worker.
    Accepted(Job),
    /// Nowhere: no handler knows its method.
    Unknown(RawRequest),
}

/// Offers a request to every handler.
pub fn dispatch(req: RawRequest) -> (dispatch: Dispatch)
    ensures
        match handler_of(req@.method) {
            Some(handler) => {
                &&& dispatch is Accepted
                &&& dispatch->Accepted_0@ == (JobView {
                    handler,
                    id: req@.id,
                    params: req@.params,
                })
            },
            None => dispatch == Dispatch::Unknown(req),
        },
{
    let ghost request: RequestView = req@;
    let mut dispatcher = PoolDispatcher::new(req);
    dispatcher.on(Handler::AnalyzerStatus);
    dispatcher.on(Handler::SyntaxTree);
    dispatcher.on(Handler::ExtendSelection);
    dispatcher.on(Handler::SelectionRange);
    dispatcher.on(Handler::FindMatchingBrace);
    dispatcher.on(Handler::JoinLines);
    dispatcher.on(Handler::OnEnter);
    dispatcher.on(Handler::OnTypeFormatting);
    dispatcher.on(Handler::DocumentSymbol);
    dispatcher.on(Handler::WorkspaceSymbol);
    dispatcher.on(Handler::GotoDefinition);
    dispatcher.on(Handler::GotoImplementation);
    dispatcher.on(Handler::ParentModule);
    dispatcher.on(Handler::Runnables);
    dispatcher.on(Handler::Decorations);
    dispatcher.on(Handler::Completion);
    dispatcher.on(Handler::CodeAction);
    dispatcher.on(Handler::CodeLens);
    dispatcher.on(Handler::CodeLensResolve);
    dispatcher.on(Handler::FoldingRange);
    dispatcher.on(Handler::SignatureHelp);
    dispatcher.on(Handler::Hover);
    dispatcher.on(Handler::PrepareRename);
    dispatcher.on(Handler::Rename);
    dispatcher.on(Handler::References);
    dispatcher.on(Handler::Formatting);
    dispatcher.on(Handler::DocumentHighlight);
    match dispatcher.finish() {
        Ok(job) => {
            proof {
                law_every_handler_is_reached(job.handler);
            }
            Dispatch::Accepted(job)
        },
        Err(req) => {
            assert(forall|handler: Handler| #[trigger]
                handler.method_name() != request.method);
            Dispatch::Unknown(req)
        },
    }
}

/// Whether a handler knows the method.
pub fn is_handled(method: &String) -> (res: bool)
    ensures
        res == (handler_of(method@) is Some),
{
    match dispatch(RawRequest { id: 0, method: method.clone(), params: String::new() }) {
        Dispatch::Accepted(_) => true,
        Dispatch::Unknown(_) => false,
    }
}

/// Hands a request to the handler of its method and notes it as pending.
///
/// A request that a handler takes must not bear the id of a pending request.
pub fn on_request(pending_requests: &mut PendingRequests, req: RawRequest) -> (res: Dispatch)
    requires
        handler_of(req@.method) is Some ==> !old(pending_requests)@.contains(req@.id),
    ensures
        match handler_of(req@.method) {
            Some(handler) => {
                &&& final(pending_requests)@ == old(pending_requests)@.insert(req@.id)
                &&& res is Accepted
                &&& res->Accepted_0@ == (JobView { handler, id: req@.id, params: req@.params })
            },
            None => {
                &&& final(pending_requests)@ == old(pending_requests)@
                &&& res == Dispatch::Unknown(req)
            },
        },
{
    match dispatch(req) {
        Dispatch::Accepted(job) => {
            let _ = pending_requests.insert(job.id);
            Dispatch::Accepted(job)
        },
        Dispatch::Unknown(req) => Dispatch::Unknown(req),
    }
}

/// A request of the client: the two that the loop answers itself, with their ids, or another.
#[derive(Debug, PartialEq, Eq)]
pub enum ClientRequest {
    Shutdown(u64),
    CollectGarbage(u64),
    Other(RawRequest),
}

/// The content of a [`ClientRequest`].
pub enum ClientRequestView {
    Shutdown(u64),
    CollectGarbage(u64),
    Other(RequestView),
}

impl View for ClientRequest {
    type V = ClientRequestView;

    open spec fn view(&self) -> ClientRequestView {
        match self {
            ClientRequest::Shutdown(id) => ClientRequestView::Shutdown(*id),
            ClientRequest::CollectGarbage(id) => ClientRequestView::CollectGarbage(*id),
            ClientRequest::Other(req) => ClientRequestView::Other(req@),
        }
    }
}

impl ClientRequestView {
    /// The id that the response has to bear.
    pub open spec fn id(self) -> u64 {
        match self {
            ClientRequestView::Shutdown(id) => id,
            ClientRequestView::CollectGarbage(id) => id,
            ClientRequestView::Other(req) => req.id,
        }
    }

    /// A worker has to answer the request.
    pub open spec fn is_for_worker(self) -> bool {
        self matches ClientRequestView::Other(req) && handler_of(req.method) is Some
    }
}

/// What a request asks for; the two requests that the loop answers itself take no parameters.
pub open spec fn client_request_of(req: RequestView) -> Result<ClientRequestView, RejectionView> {
    if req.method == SHUTDOWN@ {
        if crate::protocol::is_json_null(req.params) {
            Ok(ClientRequestView::Shutdown(req.id))
        } else {
            Err(RejectionView::BadParams(SHUTDOWN@))
        }
    } else if req.method == COLLECT_GARBAGE@ {
        if crate::protocol::is_json_null(req.params) {
            Ok(ClientRequestView::CollectGarbage(req.id))
        } else {
            Err(RejectionView::BadParams(COLLECT_GARBAGE@))
        }
    } else {
        Ok(ClientRequestView::Other(req))
    }
}

/// Reads a request.
pub fn read_request(req: RawRequest) -> (res: Result<ClientRequest, Rejection>)
    ensures
        (match res {
            Ok(request) => Ok(request@),
            Err(rejection) => Err(rejection@),
        }) == client_request_of(req@),
{
    if req.is(SHUTDOWN) {
        if reads_as_unit(req.params.as_str()) {
            Ok(ClientRequest::Shutdown(req.id))
        } else {
            Err(Rejection::BadParams(SHUTDOWN.to_string()))
        }
    } else if req.is(COLLECT_GARBAGE) {
        if reads_as_unit(req.params.as_str()) {
            Ok(ClientRequest::CollectGarbage(req.id))
        } else {
            Err(Rejection::BadParams(COLLECT_GARBAGE.to_string()))
        }
    } else {
        Ok(ClientRequest::Other(req))
    }
}

/// What a request of the client leads to.
#[derive(Debug, PartialEq, Eq)]
pub enum RequestStep {
    /// Send the response and leave the loop.
    Exit(RawMessage),
    /// Collect garbage, then send the response.
    CollectGarbage(RawMessage),
    /// Have a worker run the job.
    Run(Job),
    /// Write to the log that nobody knows the request, then send the response.
    Unknown { req: RawRequest, response: RawMessage },
}

/// The content of a [`RequestStep`].
pub enum RequestStepView {
    Exit(MessageView),
    CollectGarbage(MessageView),
    Run(JobView),
    Unknown { req: RequestView, response: MessageView },
}

impl View for RequestStep {
    type V = RequestStepView;

    open spec fn view(&self) -> RequestStepView {
        match self {
            RequestStep::Exit(message) => RequestStepView::Exit(message@),
            RequestStep::CollectGarbage(message) => RequestStepView::CollectGarbage(message@),
            RequestStep::Run(job) => RequestStepView::Run(job@),
            RequestStep::Unknown { req, response } => RequestStepView::Unknown {
                req: req@,
                response: response@,
            },
        }
    }
}

/// The response that reports success without a result.
pub open spec fn empty_response(id: u64) -> MessageView {
    MessageView::Response(crate::message::ok_response(id, "null"@))
}

/// The response to a request whose method nobody knows.
pub open spec fn unknown_response(id: u64) -> MessageView {
    MessageView::Response(
        crate::message::err_response(id, ErrorCode::MethodNotFound.number(), "unknown request"@),
    )
}

/// What a request leads to.
pub open spec fn step_for_request(request: ClientRequestView) -> RequestStepView {
    match request {
        ClientRequestView::Shutdown(id) => RequestStepView::Exit(empty_response(id)),
        ClientRequestView::CollectGarbage(id) => RequestStepView::CollectGarbage(
            empty_response(id),
        ),
        ClientRequestView::Other(req) => match handler_of(req.method) {
            Some(handler) => RequestStepView::Run(
                JobView { handler, id: req.id, params: req.params },
            ),
            None => RequestStepView::Unknown { req, response: unknown_response(req.id) },
        },
    }
}

/// The requests that are pending after a request: those that workers answer are, until they have.
pub open spec fn pending_after_request(pending: Set<u64>, request: ClientRequestView) -> Set<u64> {
    if request.is_for_worker() {
        pending.insert(request.id())
    } else {
        pending
    }
}

/// Answers a request of the client, or hands it to a worker.
///
/// A request for a worker must not bear the id of a pending request.
pub fn on_client_request(pending_requests: &mut PendingRequests, request: ClientRequest) -> (step:
    RequestStep)
    requires
        request@.is_for_worker() ==> !old(pending_requests)@.contains(request@.id()),
    ensures
        final(pending_requests)@ == pending_after_request(old(pending_requests)@, request@),
        step@ == step_for_request(request@),
{
    match request {
        ClientRequest::Shutdown(id) => {
            let response = RawResponse::ok(id, unit_json());
            RequestStep::Exit(RawMessage::Response(response))
        },
        ClientRequest::CollectGarbage(id) => {
            let response = RawResponse::ok(id, unit_json());
            RequestStep::CollectGarbage(RawMessage::Response(response))
        },
        ClientRequest::Other(req) => {
            match on_request(pending_requests, req) {
                Dispatch::Accepted(job) => RequestStep::Run(job),
                Dispatch::Unknown(req) => {
                    let response = RawResponse::err(
                        req.id,
                        ErrorCode::MethodNotFound.code(),
                        "unknown request".to_string(),
                    );
                    RequestStep::Unknown { req, response: RawMessage::Response(response) }
                },
            }
        },
    }
}

/// A method has a handler if and only if it is that handler's method.
pub proof fn law_handler_is_that_of_the_method(method: Seq<char>, handler: Handler)
    ensures
        handler_of(method) == Some(handler) <==> method == handler.method_name(),
        handler_of(method) is None <==> forall|any: Handler| #[trigger]
            any.method_name() != method,
{
    law_every_handler_is_reached(handler);
    if handler_of(method) is Some {
        let found = handler_of(method)->0;
        assert(found.method_name() == method);
    }
}

/// The two requests that the loop answers itself are read by their methods, and only without
/// parameters; every other request is read as it stands. The id is kept.
pub proof fn law_requests_are_read_by_their_method(req: RequestView)
    ensures
        req.method == "shutdown"@ && crate::protocol::is_json_null(req.params)
            <==> client_request_of(req) == Ok::<ClientRequestView, RejectionView>(
            ClientRequestView::Shutdown(req.id),
        ),
        req.method == "rust-analyzer/collectGarbage"@ && crate::protocol::is_json_null(req.params)
            <==> client_request_of(req) == Ok::<ClientRequestView, RejectionView>(
            ClientRequestView::CollectGarbage(req.id),
        ),
        req.method != "shutdown"@ && req.method != "rust-analyzer/collectGarbage"@
            <==> client_request_of(req) == Ok::<ClientRequestView, RejectionView>(
            ClientRequestView::Other(req),
        ),
        client_request_of(req) matches Err(rejection) ==> rejection == RejectionView::BadParams(
            req.method,
        ),
        client_request_of(req) matches Ok(request) ==> request.id() == req.id,
{
    reveal_strlit("shutdown");
    reveal_strlit("rust-analyzer/collectGarbage");
    assert(SHUTDOWN@.len() != COLLECT_GARBAGE@.len());
}

/// The loop answers a shutdown and a garbage collection at once with an empty success, hands a
/// request of a handler to it as it came, and answers any other with the code of unknown methods.
pub proof fn law_requests_are_answered_or_handed_on(id: u64, handler: Handler, req: RequestView)
    ensures
        step_for_request(ClientRequestView::Shutdown(id)) matches RequestStepView::Exit(
            MessageView::Response(response),
        ) && response.id == id && response.result == Some("null"@) && response.error is None,
        step_for_request(
            ClientRequestView::CollectGarbage(id),
        ) matches RequestStepView::CollectGarbage(MessageView::Response(response)) && response.id
            == id && response.result == Some("null"@) && response.error is None,
        req.method == handler.method_name() ==> step_for_request(ClientRequestView::Other(req))
            == RequestStepView::Run(JobView { handler, id: req.id, params: req.params }),
        (forall|any: Handler| #[trigger] any.method_name() != req.method) ==> (step_for_request(
            ClientRequestView::Other(req),
        ) matches RequestStepView::Unknown { req: unknown, response: MessageView::Response(response) }
            && unknown == req && response.id == req.id && response.result is None && (
        response.error matches Some(error) && error.code == -32601 && error.message
            == "unknown request"@ && error.data is None)),
{
    law_handler_is_that_of_the_method(req.method, handler);
}

/// A request becomes pending if and only if it has a handler, and no other becomes so or ceases to
/// be.
pub proof fn law_request_of_a_handler_becomes_pending(
    pending: Set<u64>,
    request: ClientRequestView,
    handler: Handler,
    id: u64,
)
    ensures
        request matches ClientRequestView::Other(req) ==> (req.method == handler.method_name()
            ==> pending_after_request(pending, request) == pending.insert(req.id)),
        request matches ClientRequestView::Other(req) ==> ((forall|any: Handler| #[trigger]
            any.method_name() != req.method) ==> pending_after_request(pending, request)
            == pending),
        !(request is Other) ==> pending_after_request(pending, request) == pending,
        pending_after_request(pending, request).contains(id) ==> pending.contains(id)
            || request.id() == id,
{
    if let ClientRequestView::Other(req) = request {
        law_handler_is_that_of_the_method(req.method, handler);
    }
}

} // verus!
