use lsp_main_loop::decimal::{push_decimal, push_signed_decimal};
use lsp_main_loop::protocol::MessageType;
use lsp_main_loop::tasks::{handler_response, HandlerError};
use lsp_main_loop::user_messages::{
    loaded_workspaces, show_message, workspace_load_failed, workspace_loaded,
};
use lsp_main_loop::{
    ErrorCode, LspError, RawMessage, RawNotification, RawRequest, RawResponse, RawResponseError,
};

fn unsigned(n: u64) -> String {
    let mut text = String::new();
    push_decimal(&mut text, n);
    text
}

fn signed(i: i64) -> String {
    let mut text = "x=".to_string();
    push_signed_decimal(&mut text, i);
    text
}

fn notification(method: &str, params: &str) -> RawMessage {
    RawMessage::Notification(RawNotification {
        method: method.to_string(),
        params: params.to_string(),
    })
}

#[test]
fn decimal_text_of_unsigned_numbers() {
    for n in [0, 1, 9, 10, 11, 99, 100, 101, 1234567890, u64::MAX] {
        assert_eq!(unsigned(n), n.to_string());
    }
}

#[test]
fn decimal_text_of_signed_numbers() {
    for i in [0, 1, -1, 10, -10, -32603, i64::MAX, i64::MIN] {
        assert_eq!(signed(i), format!("x={}", i));
    }
}

#[test]
fn lsp_error_keeps_code_and_message() {
    let error = LspError::new(-32602, "bad position".to_string());
    assert_eq!(error.code, -32602);
    assert_eq!(error.message, "bad position");
}

#[test]
fn lsp_error_display() {
    let error = LspError::new(-32602, "bad position".to_string());
    assert_eq!(error.display(), "Language Server request failed with -32602. (bad position)");
    let error = LspError::new(i32::MIN, String::new());
    assert_eq!(error.display(), "Language Server request failed with -2147483648. ()");
}

#[test]
fn error_codes_of_the_protocol() {
    assert_eq!(ErrorCode::MethodNotFound.code(), -32601);
    assert_eq!(ErrorCode::InternalError.code(), -32603);
    assert_eq!(ErrorCode::RequestCanceled.code(), -32800);
}

#[test]
fn responses_hold_a_result_or_an_error() {
    assert_eq!(
        RawResponse::ok(3, "[1]".to_string()),
        RawResponse { id: 3, result: Some("[1]".to_string()), error: None },
    );
    assert_eq!(
        RawResponse::err(4, 7, "no".to_string()),
        RawResponse {
            id: 4,
            result: None,
            error: Some(RawResponseError { code: 7, message: "no".to_string(), data: None }),
        },
    );
}

#[test]
fn methods_are_compared_as_a_whole() {
    let req = RawRequest { id: 1, method: "shutdown".to_string(), params: "null".to_string() };
    assert!(req.is("shutdown"));
    assert!(!req.is("shut"));
    let not = RawNotification::new("exit", "null".to_string());
    assert!(not.is("exit"));
    assert!(!not.is("exits"));
}

#[test]
fn handler_result_is_passed_on() {
    assert_eq!(
        handler_response(9, Ok("{\"a\":1}".to_string())),
        RawResponse { id: 9, result: Some("{\"a\":1}".to_string()), error: None },
    );
}

#[test]
fn handler_error_of_its_own_keeps_its_code() {
    let error = HandlerError::Lsp(LspError::new(-32602, "bad position".to_string()));
    assert_eq!(
        handler_response(9, Err(error)),
        RawResponse::err(9, -32602, "bad position".to_string()),
    );
}

#[test]
fn canceled_analysis_is_answered_with_null() {
    assert_eq!(
        handler_response(9, Err(HandlerError::Canceled)),
        RawResponse { id: 9, result: Some("null".to_string()), error: None },
    );
}

#[test]
fn other_failures_are_internal_errors() {
    let error = HandlerError::Other {
        display: "no such file".to_string(),
        backtrace: "stack backtrace:".to_string(),
    };
    assert_eq!(
        handler_response(9, Err(error)),
        RawResponse::err(9, -32603, "no such file\nstack backtrace:".to_string()),
    );
}

#[test]
fn shown_messages_are_json() {
    for (typ, number) in [
        (MessageType::Error, 1),
        (MessageType::Warning, 2),
        (MessageType::Info, 3),
        (MessageType::Log, 4),
    ] {
        assert_eq!(
            show_message(typ, "say \"hi\"\n".to_string()),
            notification(
                "window/showMessage",
                &format!("{{\"type\":{},\"message\":\"say \\\"hi\\\"\\n\"}}", number),
            ),
        );
    }
}

#[test]
fn shown_messages_are_escaped() {
    assert_eq!(
        show_message(
            MessageType::Info,
            "\\ \u{8}\u{C}\r\t\u{0}\u{B}\u{1F} /\u{7F}\u{E9}\u{1F980}".to_string(),
        ),
        notification(
            "window/showMessage",
            "{\"type\":3,\"message\":\"\\\\ \\b\\f\\r\\t\\u0000\\u000b\\u001f \
             /\u{7F}\u{E9}\u{1F980}\"}",
        ),
    );
}

#[test]
fn failure_to_load_the_workspace_is_shown() {
    assert_eq!(
        workspace_load_failed(&"no Cargo.toml".to_string()),
        notification(
            "window/showMessage",
            "{\"type\":1,\"message\":\"rust-analyzer failed to load workspace: no Cargo.toml\"}",
        ),
    );
}

#[test]
fn loaded_workspace_is_shown_with_its_packages() {
    assert_eq!(
        workspace_loaded(120),
        notification(
            "window/showMessage",
            "{\"type\":3,\"message\":\"workspace loaded, 120 rust packages\"}",
        ),
    );
}

#[test]
fn workspaces_after_the_attempt_to_load_one() {
    let (workspaces, message) = loaded_workspaces::<u8>(Ok(5));
    assert_eq!(workspaces, vec![5]);
    assert_eq!(message, None);
    let (workspaces, message) = loaded_workspaces::<u8>(Err("gone".to_string()));
    assert!(workspaces.is_empty());
    assert_eq!(message, Some(workspace_load_failed(&"gone".to_string())));
}
