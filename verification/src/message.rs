//! The messages that the server and its client exchange.
//!
//! Parameters and results are carried as JSON text.

use vstd::prelude::*;

verus! {

/// A request of the client: it waits for the response that bears its id.
#[derive(Debug, PartialEq, Eq)]
pub struct RawRequest {
    pub id: u64,
    pub method: String,
    pub params: String,
}

/// A message that asks for no response.
#[derive(Debug, PartialEq, Eq)]
pub struct RawNotification {
    pub method: String,
    pub params: String,
}

/// The reason for which a request failed.
#[derive(Debug, PartialEq, Eq)]
pub struct RawResponseError {
    pub code: i32,
    pub message: String,
    pub data: Option<String>,
}

/// The answer to the request with the same id.
#[derive(Debug, PartialEq, Eq)]
pub struct RawResponse {
    pub id: u64,
    pub result: Option<String>,
    pub error: Option<RawResponseError>,
}

/// Any message on the wire.
#[derive(Debug, PartialEq, Eq)]
pub enum RawMessage {
    Request(RawRequest),
    Notification(RawNotification),
    Response(RawResponse),
}

/// The content of a [`RawRequest`].
pub struct RequestView {
    pub id: u64,
    pub method: Seq<char>,
    pub params: Seq<char>,
}

/// The content of a [`RawNotification`].
pub struct NotificationView {
    pub method: Seq<char>,
    pub params: Seq<char>,
}

/// The content of a [`RawResponseError`].
pub struct ResponseErrorView {
    pub code: i32,
    pub message: Seq<char>,
    pub data: Option<Seq<char>>,
}

/// The content of a [`RawResponse`].
pub struct ResponseView {
    pub id: u64,
    pub result: Option<Seq<char>>,
    pub error: Option<ResponseErrorView>,
}

/// The content of a [`RawMessage`].
pub enum MessageView {
    Request(RequestView),
    Notification(NotificationView),
    Response(ResponseView),
}

/// The content of an optional text.
pub open spec fn text_view(text: Option<String>) -> Option<Seq<char>> {
    match text {
        Some(text) => Some(text@),
        None => None,
    }
}

/// The content of an optional error.
pub open spec fn error_view(error: Option<RawResponseError>) -> Option<ResponseErrorView> {
    match error {
        Some(error) => Some(error@),
        None => None,
    }
}

impl View for RawRequest {
    type V = RequestView;

    open spec fn view(&self) -> RequestView {
        RequestView { id: self.id, method: self.method@, params: self.params@ }
    }
}

impl View for RawNotification {
    type V = NotificationView;

    open spec fn view(&self) -> NotificationView {
        NotificationView { method: self.method@, params: self.params@ }
    }
}

impl View for RawResponseError {
    type V = ResponseErrorView;

    open spec fn view(&self) -> ResponseErrorView {
        ResponseErrorView {
            code: self.code,
            message: self.message@,
            data: text_view(self.data),
        }
    }
}

impl View for RawResponse {
    type V = ResponseView;

    open spec fn view(&self) -> ResponseView {
        ResponseView {
            id: self.id,
            result: text_view(self.result),
            error: error_view(self.error),
        }
    }
}

impl View for RawMessage {
    type V = MessageView;

    open spec fn view(&self) -> MessageView {
        match self {
            RawMessage::Request(request) => MessageView::Request(request@),
            RawMessage::Notification(notification) => MessageView::Notification(notification@),
            RawMessage::Response(response) => MessageView::Response(response@),
        }
    }
}

/// The error codes of the protocol that the main loop answers with.
#[derive(Debug, Clone, Copy, PartialEq, Eq, Structural)]
pub enum ErrorCode {
    MethodNotFound,
    InternalError,
    RequestCanceled,
}

impl ErrorCode {
    /// The number that stands for the code on the wire.
    pub open spec fn number(self) -> i32 {
        match self {
            ErrorCode::MethodNotFound => (-32601) as i32,
            ErrorCode::InternalError => (-32603) as i32,
            ErrorCode::RequestCanceled => (-32800) as i32,
        }
    }

    /// The number that stands for the code on the wire.
    pub fn code(self) -> (code: i32)
        ensures
            code == self.number(),
    {
        match self {
            ErrorCode::MethodNotFound => -32601,
            ErrorCode::InternalError => -32603,
            ErrorCode::RequestCanceled => -32800,
        }
    }
}

/// The response that reports success with a result.
pub open spec fn ok_response(id: u64, result: Seq<char>) -> ResponseView {
    ResponseView { id, result: Some(result), error: None }
}

/// The response that reports a failure, without further data.
pub open spec fn err_response(id: u64, code: i32, message: Seq<char>) -> ResponseView {
    ResponseView { id, result: None, error: Some(ResponseErrorView { code, message, data: None }) }
}

impl RawRequest {
    /// Whether the request names this method.
    pub fn is(&self, method: &str) -> (res: bool)
        ensures
            res == (self@.method == method@),
    {
        self.method == method.to_string()
    }
}

impl RawNotification {
    pub fn new(method: &str, params: String) -> (notification: RawNotification)
        ensures
            notification@ == (NotificationView { method: method@, params: params@ }),
    {
        RawNotification { method: method.to_string(), params }
    }

    /// Whether the notification names this method.
    pub fn is(&self, method: &str) -> (res: bool)
        ensures
            res == (self@.method == method@),
    {
        self.method == method.to_string()
    }
}

impl RawResponse {
    /// The response that reports success; `result` is JSON text.
    pub fn ok(id: u64, result: String) -> (response: RawResponse)
        ensures
            response@ == ok_response(id, result@),
            response == (RawResponse { id, result: Some(result), error: None }),
    {
        RawResponse { id, result: Some(result), error: None }
    }

    /// The response that reports a failure.
    pub fn err(id: u64, code: i32, message: String) -> (response: RawResponse)
        ensures
            response@ == err_response(id, code, message@),
            response.id == id,
            response.result is None,
            response.error == Some(RawResponseError { code, message, data: None }),
    {
        let error = RawResponseError { code, message, data: None };
        RawResponse { id, result: None, error: Some(error) }
    }
}

/// A response reports either success or a failure: one with a result has no error, one with an error
/// has no result, and both bear the id, the result, the code and the message that they were made
/// with.
pub proof fn law_response_is_a_success_or_a_failure(
    id: u64,
    result: Seq<char>,
    code: i32,
    message: Seq<char>,
)
    ensures
        ok_response(id, result).id == id,
        ok_response(id, result).result == Some(result),
        ok_response(id, result).error is None,
        err_response(id, code, message).id == id,
        err_response(id, code, message).result is None,
        err_response(id, code, message).error matches Some(error) && error.code == code
            && error.message == message && error.data is None,
{
}

/// The codes are the numbers of the protocol.
pub proof fn law_error_codes_are_those_of_the_protocol(code: ErrorCode)
    ensures
        code == ErrorCode::MethodNotFound <==> code.number() == -32601,
        code == ErrorCode::InternalError <==> code.number() == -32603,
        code == ErrorCode::RequestCanceled <==> code.number() == -32800,
{
}

} // verus!
