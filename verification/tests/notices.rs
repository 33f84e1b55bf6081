use lsp_main_loop::documents::{read_changed, read_closed, read_opened, ClosedDocument};
use lsp_main_loop::errors::{LoopError, Rejection};
use lsp_main_loop::notices::{
    cancel_notice, change_notice, close_notice, document_path, last_change, on_notification,
    open_notice, read_notification, DocumentStep, Notice, NoticeStep,
};
use lsp_main_loop::protocol::{CancelId, ChangeParams, OpenParams};
use lsp_main_loop::sets::PendingRequests;
use lsp_main_loop::uris::{half_a_windows_path, host_is_safe};
use lsp_main_loop::{RawMessage, RawNotification, RawResponse};
use std::path::PathBuf;

fn read(method: &str, params: &str) -> Result<Notice, Rejection> {
    read_notification(RawNotification {
        method: method.to_string(),
        params: params.to_string(),
    })
}

fn bad_params(method: &str) -> Result<Notice, Rejection> {
    Err(Rejection::BadParams(method.to_string()))
}

fn open_params(uri: &str) -> String {
    format!(
        "{{\"textDocument\":{{\"uri\":\"{}\",\"languageId\":\"rust\",\"version\":1,\
         \"text\":\"text\"}}}}",
        uri,
    )
}

fn change_params(uri: &str) -> String {
    format!(
        "{{\"textDocument\":{{\"uri\":\"{}\",\"version\":1}},\"contentChanges\":[]}}",
        uri,
    )
}

fn close_params(uri: &str) -> String {
    format!("{{\"textDocument\":{{\"uri\":\"{}\"}}}}", uri)
}

fn closed(uri: &str, path: Option<&str>) -> ClosedDocument {
    ClosedDocument {
        uri: uri.to_string(),
        path: path.map(PathBuf::from),
        cleared: format!("{{\"uri\":\"{}\",\"diagnostics\":[]}}", uri),
    }
}

#[test]
fn path_is_that_of_the_url_and_not_of_its_text() {
    for (uri, text, path) in [
        ("foo:/.//host/a", "foo://host/a", "//host/a"),
        ("foo:/.//localhost/x", "foo://localhost/x", "//localhost/x"),
        ("foo:/.//[/x", "foo://[/x", "//[/x"),
    ] {
        let path = PathBuf::from(path);
        assert_eq!(
            read("textDocument/didOpen", &open_params(uri)),
            Ok(Notice::Open(OpenParams {
                uri: text.to_string(),
                path: Some(path.clone()),
                text: "text".to_string(),
            })),
        );
        assert_eq!(
            read("textDocument/didChange", &change_params(uri)),
            Ok(Notice::Change(ChangeParams {
                uri: text.to_string(),
                path: Some(path.clone()),
                changes: Vec::new(),
            })),
        );
        let document = ClosedDocument {
            uri: text.to_string(),
            path: Some(path),
            cleared: format!("{{\"uri\":\"{}\",\"diagnostics\":[]}}", text),
        };
        assert_eq!(
            read("textDocument/didClose", &close_params(uri)),
            Ok(Notice::Close(document)),
        );
    }
}

#[test]
fn cancellation_by_number() {
    assert_eq!(read("$/cancelRequest", "{\"id\": 92}"), Ok(Notice::Cancel(92)));
    assert_eq!(
        read("$/cancelRequest", "{\"id\":18446744073709551615}"),
        Ok(Notice::Cancel(u64::MAX)),
    );
    assert_eq!(cancel_notice(Some(CancelId::Number(4))), Ok(Notice::Cancel(4)));
}

#[test]
fn cancellation_by_text_is_rejected() {
    assert_eq!(
        read("$/cancelRequest", "{\"id\": \"a7\"}"),
        Err(Rejection::TextRequestId("a7".to_string())),
    );
    assert_eq!(
        cancel_notice(Some(CancelId::Text("b".to_string()))),
        Err(Rejection::TextRequestId("b".to_string())),
    );
}

#[test]
fn cancellation_without_an_id_is_rejected() {
    for params in ["", "null", "{}", "{\"id\":-1}", "{\"id\":null}", "{\"id\":1"] {
        assert_eq!(read("$/cancelRequest", params), bad_params("$/cancelRequest"));
    }
    assert_eq!(cancel_notice(None), bad_params("$/cancelRequest"));
}

#[test]
fn opened_document_is_read() {
    let params = "{\"textDocument\":{\"uri\":\"file:///a/b.rs\",\"languageId\":\"rust\",\
                  \"version\":1,\"text\":\"fn f() {}\\n\"}}";
    assert_eq!(
        read("textDocument/didOpen", params),
        Ok(Notice::Open(OpenParams {
            uri: "file:///a/b.rs".to_string(),
            path: Some(PathBuf::from("/a/b.rs")),
            text: "fn f() {}\n".to_string(),
        })),
    );
    assert_eq!(read("textDocument/didOpen", "{}"), bad_params("textDocument/didOpen"));
    let no_url = params.replace("file:///a/b.rs", "a/b.rs");
    assert_eq!(read("textDocument/didOpen", &no_url), bad_params("textDocument/didOpen"));
    assert_eq!(open_notice(None), bad_params("textDocument/didOpen"));
}

#[test]
fn changed_document_is_read() {
    let params = "{\"textDocument\":{\"uri\":\"file:///a/b.rs\",\"version\":2},\
                  \"contentChanges\":[{\"text\":\"one\"},{\"text\":\"two\"}]}";
    assert_eq!(
        read("textDocument/didChange", params),
        Ok(Notice::Change(ChangeParams {
            uri: "file:///a/b.rs".to_string(),
            path: Some(PathBuf::from("/a/b.rs")),
            changes: vec!["one".to_string(), "two".to_string()],
        })),
    );
    assert_eq!(read("textDocument/didChange", "[]"), bad_params("textDocument/didChange"));
    assert_eq!(change_notice(None), bad_params("textDocument/didChange"));
}

#[test]
fn closed_document_is_read() {
    let params = "{\"textDocument\":{\"uri\":\"file:///a/b.rs\"}}";
    assert_eq!(
        read("textDocument/didClose", params),
        Ok(Notice::Close(closed("file:///a/b.rs", Some("/a/b.rs")))),
    );
    assert_eq!(read("textDocument/didClose", "7"), bad_params("textDocument/didClose"));
    assert_eq!(close_notice(None), bad_params("textDocument/didClose"));
}

#[test]
fn other_notifications_are_left_alone() {
    assert_eq!(
        read("textDocument/didSave", "{}"),
        Ok(Notice::Other(RawNotification {
            method: "textDocument/didSave".to_string(),
            params: "{}".to_string(),
        })),
    );
    let mut pending = PendingRequests::new();
    pending.insert(1);
    let notice = read("textDocument/didSave", "{}").unwrap();
    assert_eq!(
        on_notification(&mut pending, notice),
        Ok(NoticeStep::Unhandled(RawNotification {
            method: "textDocument/didSave".to_string(),
            params: "{}".to_string(),
        })),
    );
    assert!(pending.contains(1));
}

#[test]
fn cancellation_answers_a_pending_request_once() {
    let mut pending = PendingRequests::new();
    pending.insert(7);
    pending.insert(8);
    assert_eq!(
        on_notification(&mut pending, Notice::Cancel(7)),
        Ok(NoticeStep::Send(RawMessage::Response(
            RawResponse::err(7, -32800, "canceled by client".to_string()),
        ))),
    );
    assert!(!pending.contains(7));
    assert!(pending.contains(8));
    assert_eq!(on_notification(&mut pending, Notice::Cancel(7)), Ok(NoticeStep::Nothing));
}

#[test]
fn opened_document_is_laid_over_its_file() {
    let mut pending = PendingRequests::new();
    let notice = read("textDocument/didOpen", &open_params("file:///a/b%20c.rs")).unwrap();
    assert_eq!(
        on_notification(&mut pending, notice),
        Ok(NoticeStep::Document(DocumentStep::Add {
            path: PathBuf::from("/a/b c.rs"),
            text: "text".to_string(),
        })),
    );
}

#[test]
fn last_change_is_laid_over_the_file() {
    let mut pending = PendingRequests::new();
    let params = ChangeParams {
        uri: "file:///a/b.rs".to_string(),
        path: Some(PathBuf::from("/a/c.rs")),
        changes: vec!["one".to_string(), "two".to_string()],
    };
    assert_eq!(
        on_notification(&mut pending, Notice::Change(params)),
        Ok(NoticeStep::Document(DocumentStep::Change {
            path: PathBuf::from("/a/c.rs"),
            text: "two".to_string(),
        })),
    );
}

#[test]
fn closed_document_loses_its_diagnostics() {
    let mut pending = PendingRequests::new();
    assert_eq!(
        on_notification(&mut pending, Notice::Close(closed("file:///a/b.rs", Some("/a/b.rs")))),
        Ok(NoticeStep::Document(DocumentStep::Remove {
            path: PathBuf::from("/a/b.rs"),
            cleared: RawMessage::Notification(RawNotification {
                method: "textDocument/publishDiagnostics".to_string(),
                params: "{\"uri\":\"file:///a/b.rs\",\"diagnostics\":[]}".to_string(),
            }),
        })),
    );
}

#[test]
fn document_without_a_file_ends_the_loop() {
    let mut pending = PendingRequests::new();
    let uri = "untitled:Untitled-1".to_string();
    let close = "{\"textDocument\":{\"uri\":\"untitled:Untitled-1\"}}";
    let change = "{\"textDocument\":{\"uri\":\"untitled:Untitled-1\",\"version\":1},\
                  \"contentChanges\":[]}";
    for notice in [
        read("textDocument/didOpen", &open_params(&uri)).unwrap(),
        read("textDocument/didChange", change).unwrap(),
        read("textDocument/didClose", close).unwrap(),
        Notice::Close(closed(&uri, None)),
    ] {
        assert_eq!(
            on_notification(&mut pending, notice),
            Err(LoopError::InvalidUri(uri.clone())),
        );
    }
}

#[test]
fn change_without_changes_ends_the_loop() {
    let mut pending = PendingRequests::new();
    let params = ChangeParams {
        uri: "file:///a.rs".to_string(),
        path: Some(PathBuf::from("/a.rs")),
        changes: Vec::new(),
    };
    assert_eq!(
        on_notification(&mut pending, Notice::Change(params)),
        Err(LoopError::EmptyChanges),
    );
}

#[test]
fn path_and_text_from_what_was_found() {
    let uri = "file://elsewhere/a.rs".to_string();
    assert_eq!(document_path(&uri, Some(PathBuf::from("/a"))), Ok(PathBuf::from("/a")));
    assert_eq!(document_path(&uri, None), Err(LoopError::InvalidUri(uri.clone())));
    assert_eq!(last_change(vec!["a".to_string(), "b".to_string()]), Ok("b".to_string()));
    assert_eq!(last_change(Vec::new()), Err(LoopError::EmptyChanges));
}

#[test]
fn texts_of_the_errors() {
    assert_eq!(LoopError::ClientExited.display(), "client exited without shutdown");
    assert_eq!(LoopError::VfsDied.display(), "vfs died");
    assert_eq!(LoopError::EmptyChanges.display(), "empty changes");
    assert_eq!(
        LoopError::InvalidUri("untitled:a".to_string()).display(),
        "invalid uri: untitled:a",
    );
}

#[test]
fn host_too_long_to_be_read_is_rejected() {
    let label = "a".repeat(3855);
    for host in [
        format!("{}\u{10FF70}", label),
        format!("xn--{}", label),
        format!("{}%E4%B8%AD", label),
        "\u{FDFA}".repeat(215),
    ] {
        let uri = format!("file://{}/x", host);
        assert!(!host_is_safe(&uri));
        assert_eq!(
            read("textDocument/didOpen", &open_params(&uri)),
            bad_params("textDocument/didOpen"),
        );
        assert_eq!(
            read("textDocument/didChange", &change_params(&uri)),
            bad_params("textDocument/didChange"),
        );
        assert_eq!(
            read("textDocument/didClose", &close_params(&uri)),
            bad_params("textDocument/didClose"),
        );
    }
}

#[test]
fn long_host_without_encoded_labels_is_read() {
    let uri = format!("file://{}/x", "a".repeat(5000));
    assert!(host_is_safe(&uri));
    let opened = read_opened(&open_params(&uri)).unwrap();
    assert_eq!((opened.uri, opened.path), (uri.clone(), None));
    let changed = read_changed(&change_params(&uri)).unwrap();
    assert_eq!((changed.uri, changed.path), (uri.clone(), None));
    assert_eq!(read_closed(&close_params(&uri)), Some(closed(&uri, None)));
}

#[test]
fn longest_safe_hosts_are_read() {
    let label = "a".repeat(3847);
    let good = format!("file://{}\u{4E2D}/x", label);
    assert!(host_is_safe(&good));
    assert_eq!(read_opened(&open_params(&good)).unwrap().path, None);
    for bad in [format!("{}\u{10FF70}", label), "\u{FDFA}".repeat(214)] {
        let uri = format!("file://{}/x", bad);
        assert!(host_is_safe(&uri));
        assert_eq!(read_opened(&open_params(&uri)), None);
    }
    assert_eq!(
        read_closed(&close_params("file://b\u{FC}cher/x")),
        Some(closed("file://xn--bcher-kva/x", None)),
    );
}

#[test]
fn only_a_domain_is_measured() {
    let long = format!("{}\u{10FF70}", "a".repeat(4000));
    for uri in [
        format!("file:///{}", long),
        format!("file:/{}", long),
        format!("file:{}", long),
        format!("file://a/{}", long),
        format!("file://a?{}", long),
        format!("untitled://{}", long),
        format!("http://a\\{}", long),
        long.clone(),
    ] {
        assert!(host_is_safe(&uri), "{}", uri);
    }
    for uri in [
        format!("file:\\\\{}", long),
        format!("FiLe://{}", long),
        format!(" \u{1}fi\tle:/\n/{}", long),
        format!("http:{}", long),
        format!("https:////{}/", long),
        format!("ws://user@{}:1", long),
        format!("WSS:/{}", long),
        format!("ftp://{}#", long),
        format!("gopher://{}", long),
    ] {
        assert!(!host_is_safe(&uri), "{}", uri);
    }
}

#[test]
fn file_behind_any_local_path_is_read() {
    let uri = format!("file:///{}", "%E4%B8%AD--".repeat(1000));
    let path = format!("/{}", "\u{4E2D}--".repeat(1000));
    let opened = read_opened(&open_params(&uri)).unwrap();
    assert_eq!(opened.path, Some(PathBuf::from(path)));
}

#[test]
fn last_of_two_uris_counts() {
    let long = format!("file://{}\u{10FF70}/x", "a".repeat(3855));
    for (first, second, good) in
        [("file:///a", long.as_str(), false), (long.as_str(), "file:///a", true)]
    {
        let params = format!(
            "{{\"textDocument\":{{\"uri\":\"{}\",\"uri\":\"{}\"}}}}",
            first,
            second,
        );
        let expected = if good { Some(closed("file:///a", Some("/a"))) } else { None };
        assert_eq!(read_closed(&params), expected);
    }
}

#[test]
fn parameters_in_a_list_are_read() {
    let long = format!("file://{}\u{10FF70}/x", "a".repeat(3855));
    assert_eq!(read_closed("[[\"file:///a\"]]"), Some(closed("file:///a", Some("/a"))));
    assert_eq!(read_closed(&format!("[[\"{}\"]]", long)), None);
    assert_eq!(
        read_changed("[{\"uri\":\"file:///a\"},[{\"text\":\"b\"}]]"),
        Some(ChangeParams {
            uri: "file:///a".to_string(),
            path: Some(PathBuf::from("/a")),
            changes: vec!["b".to_string()],
        }),
    );
    assert_eq!(read_closed("[]"), None);
    assert_eq!(read_closed("[[7]]"), None);
    assert_eq!(read_closed("{\"textDocument\":\"file:///a\"}"), None);
}

#[test]
fn url_is_written_as_it_is_read() {
    assert_eq!(
        read_closed(&close_params("FILE:/a/../b c#\\\"")),
        Some(ClosedDocument {
            uri: "file:///b%20c#\"".to_string(),
            path: Some(PathBuf::from("/b c")),
            cleared: "{\"uri\":\"file:///b%20c#\\\"\",\"diagnostics\":[]}".to_string(),
        }),
    );
}

#[test]
fn drives_and_servers_alone_are_half_a_path() {
    for url in [
        "file:///C:",
        "file:///c%3A",
        "file:///Z%3a?q#f",
        "foo:/C:",
        "file:///C:?/",
        "file:///a/C:#/x",
        "file://server/",
        "file://server",
        "file://server//x",
        "file://server/%2fx",
        "file://server/%5Cx",
    ] {
        assert!(half_a_windows_path(url), "{}", url);
    }
    for url in [
        "file:///C:/",
        "file:///C:/a.rs",
        "file:///c%3A/a.rs",
        "file:///CC:",
        "file:///1:",
        "file://server/share",
        "file://server/%E4/x",
        "foo://server/",
        "file:///",
        "x:",
        "",
    ] {
        assert!(!half_a_windows_path(url), "{}", url);
    }
}
