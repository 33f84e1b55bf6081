//! The documents that the notifications of the client name.

use std::path::PathBuf;
use vstd::prelude::*;

use crate::protocol::{
    file_path, parse_url, read_change_texts, read_document_uri, read_open_text, reads_as_close,
    write_no_diagnostics, ChangeParams, OpenParams,
};
use crate::uris::{half_a_windows_path, host_is_safe};

verus! {

/// A closed document: its URI, the path of the file that it stands for, if there is one, and the
/// parameters, as JSON text, of the message that takes back its diagnostics.
#[derive(Debug, PartialEq, Eq)]
pub struct ClosedDocument {
    pub uri: String,
    pub path: Option<PathBuf>,
    pub cleared: String,
}

impl View for ClosedDocument {
    type V = (Seq<char>, Option<PathBuf>, Seq<char>);

    open spec fn view(&self) -> (Seq<char>, Option<PathBuf>, Seq<char>) {
        (self.uri@, self.path, self.cleared@)
    }
}

/// The path of the file that a URI stands for, if there is one. On Windows a drive with no path on it
/// and a server with no share are none.
pub open spec fn path_of(uri: Seq<char>, url: Seq<char>) -> Option<PathBuf> {
    let windows = crate::protocol::is_path_separator('\\');
    if windows && crate::uris::is_half_a_windows_path(url) {
        None
    } else {
        crate::protocol::file_path_of(uri, windows)
    }
}

/// The document that the parameters name: its URI as it stands there, the URL that it is read as, and
/// the path of the file that it stands for. There is none where the parameters hold no URI, where its
/// host is too long to be read, or where it is no URL.
pub open spec fn document_of(params: Seq<char>) -> Option<
    (Seq<char>, Seq<char>, Option<PathBuf>),
> {
    match crate::protocol::document_uri_of(params) {
        Some(uri) => if crate::uris::has_safe_host(uri) {
            match crate::protocol::url_text_of(uri) {
                Some(url) => Some((uri, url, path_of(uri, url))),
                None => None,
            }
        } else {
            None
        },
        None => None,
    }
}

/// What the parameters of an opened document say: the URL, the path and the text.
pub open spec fn opened_of(params: Seq<char>) -> Option<(Seq<char>, Option<PathBuf>, Seq<char>)> {
    match (document_of(params), crate::protocol::open_text_of(params)) {
        (Some((uri, url, path)), Some(text)) => Some((url, path, text)),
        _ => None,
    }
}

/// What the parameters of a changed document say: the URL, the path and the text of each change.
pub open spec fn changed_of(params: Seq<char>) -> Option<
    (Seq<char>, Option<PathBuf>, Seq<Seq<char>>),
> {
    match (document_of(params), crate::protocol::change_texts_of(params)) {
        (Some((uri, url, path)), Some(changes)) => Some((url, path, changes)),
        _ => None,
    }
}

/// What the parameters of a closed document say: the URL, the path, and what takes back the
/// diagnostics of the URL.
pub open spec fn closed_of(params: Seq<char>) -> Option<(Seq<char>, Option<PathBuf>, Seq<char>)> {
    match document_of(params) {
        Some((uri, url, path)) => if crate::protocol::are_close_params(params) {
            Some((url, path, crate::protocol::no_diagnostics_json(url)))
        } else {
            None
        },
        None => None,
    }
}

/// A document that the parameters of a notification name.
struct Document {
    /// The URI as it stands in the parameters.
    source: String,
    /// The URL that the URI is read as.
    uri: String,
    path: Option<PathBuf>,
}

/// The path of the file that a URI stands for, if there is one.
fn find_path(uri: &str, url: &str) -> (path: Option<PathBuf>)
    requires
        crate::uris::has_safe_host(uri@),
        crate::protocol::url_text_of(uri@) == Some(url@),
    ensures
        path == path_of(uri@, url@),
{
    if std::path::is_separator('\\') && half_a_windows_path(url) {
        None
    } else {
        file_path(uri)
    }
}

/// The document that the parameters name.
fn read_document(params: &str) -> (document: Option<Document>)
    ensures
        (match document {
            Some(document) => Some((document.source@, document.uri@, document.path)),
            None => None,
        }) == document_of(params@),
{
    match read_document_uri(params) {
        Some(source) => if host_is_safe(source.as_str()) {
            match parse_url(source.as_str()) {
                Some(uri) => {
                    let path = find_path(source.as_str(), uri.as_str());
                    Some(Document { source, uri, path })
                },
                None => None,
            }
        } else {
            None
        },
        None => None,
    }
}

/// Reads the parameters of `textDocument/didOpen`.
pub fn read_opened(params: &str) -> (opened: Option<OpenParams>)
    ensures
        (match opened {
            Some(opened) => Some(opened@),
            None => None,
        }) == opened_of(params@),
{
    match read_document(params) {
        Some(Document { source: _, uri, path }) => match read_open_text(params) {
            Some(text) => Some(OpenParams { uri, path, text }),
            None => None,
        },
        None => None,
    }
}

/// Reads the parameters of `textDocument/didChange`.
pub fn read_changed(params: &str) -> (changed: Option<ChangeParams>)
    ensures
        (match changed {
            Some(changed) => Some(changed@),
            None => None,
        }) == changed_of(params@),
{
    match read_document(params) {
        Some(Document { source: _, uri, path }) => match read_change_texts(params) {
            Some(changes) => Some(ChangeParams { uri, path, changes }),
            None => None,
        },
        None => None,
    }
}

/// Reads the parameters of `textDocument/didClose`.
pub fn read_closed(params: &str) -> (closed: Option<ClosedDocument>)
    ensures
        (match closed {
            Some(closed) => Some(closed@),
            None => None,
        }) == closed_of(params@),
{
    match read_document(params) {
        Some(Document { source, uri, path }) => if reads_as_close(params) {
            let cleared = write_no_diagnostics(source.as_str());
            Some(ClosedDocument { uri, path, cleared })
        } else {
            None
        },
        None => None,
    }
}

/// A document whose URI can be read is known by the URL's own text and by the path that the URL gives,
/// which on Windows has to be a whole one, whichever notification names it. The text is the one in the
/// parameters, and what takes back the diagnostics bears the URL.
pub proof fn law_documents_are_known_by_url_and_path(
    params: Seq<char>,
    uri: Seq<char>,
    url: Seq<char>,
    path: Option<PathBuf>,
)
    requires
        crate::protocol::document_uri_of(params) == Some(uri),
        crate::uris::has_safe_host(uri),
        crate::protocol::url_text_of(uri) == Some(url),
        !crate::protocol::is_path_separator('\\') ==> path == crate::protocol::file_path_of(
            uri,
            false,
        ),
        crate::protocol::is_path_separator('\\') && !crate::uris::is_half_a_windows_path(url)
            ==> path == crate::protocol::file_path_of(uri, true),
        crate::protocol::is_path_separator('\\') && crate::uris::is_half_a_windows_path(url)
            ==> path is None,
    ensures
        crate::protocol::open_text_of(params) matches Some(text) ==> opened_of(params) == Some(
            (url, path, text),
        ),
        crate::protocol::open_text_of(params) is None ==> opened_of(params) is None,
        crate::protocol::change_texts_of(params) matches Some(changes) ==> changed_of(params)
            == Some((url, path, changes)),
        crate::protocol::change_texts_of(params) is None ==> changed_of(params) is None,
        crate::protocol::are_close_params(params) ==> closed_of(params) == Some(
            (
                url,
                path,
                "{\"uri\":"@ + crate::protocol::json_string(url) + ",\"diagnostics\":[]}"@,
            ),
        ),
        !crate::protocol::are_close_params(params) ==> closed_of(params) is None,
{
}

/// Parameters that hold no URI, or one that cannot be read as a URL, name no document.
pub proof fn law_no_document_without_a_url(params: Seq<char>)
    requires
        crate::protocol::document_uri_of(params) matches Some(uri) ==> !crate::uris::has_safe_host(
            uri,
        ) || crate::protocol::url_text_of(uri) is None,
    ensures
        opened_of(params) is None,
        changed_of(params) is None,
        closed_of(params) is None,
{
}

} // verus!
