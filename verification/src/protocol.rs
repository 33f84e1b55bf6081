//! The calls into `serde_json`, `lsp_types` and its `url` crate: the parameters that the main loop
//! reads out of JSON text and those that it writes as JSON text.
//!
//! Every function here is believed, not proved: its doc comment names the outside function and says
//! what is claimed of it.

use std::path::PathBuf;
use vstd::prelude::*;

verus! {

/// `std::path::PathBuf`, which is handed on and never looked into.
#[verifier::external_type_specification]
#[verifier::external_body]
pub struct ExPathBuf(std::path::PathBuf);

/// The id in the parameters of `$/cancelRequest`.
#[derive(Debug, PartialEq, Eq)]
pub enum CancelId {
    Number(u64),
    Text(String),
}

impl View for CancelId {
    type V = Result<u64, Seq<char>>;

    /// `Ok` with a number, `Err` with a text.
    open spec fn view(&self) -> Result<u64, Seq<char>> {
        match self {
            CancelId::Number(id) => Ok(*id),
            CancelId::Text(id) => Err(id@),
        }
    }
}

/// What the main loop reads of the parameters of `textDocument/didOpen`: the document, the path of
/// the file that it stands for, if there is one, and its text.
#[derive(Debug, PartialEq, Eq)]
pub struct OpenParams {
    pub uri: String,
    pub path: Option<PathBuf>,
    pub text: String,
}

/// What the main loop reads of the parameters of `textDocument/didChange`: the document, the path
/// of the file that it stands for, if there is one, and the new text of each change in order.
#[derive(Debug, PartialEq, Eq)]
pub struct ChangeParams {
    pub uri: String,
    pub path: Option<PathBuf>,
    pub changes: Vec<String>,
}

impl View for OpenParams {
    type V = (Seq<char>, Option<PathBuf>, Seq<char>);

    open spec fn view(&self) -> (Seq<char>, Option<PathBuf>, Seq<char>) {
        (self.uri@, self.path, self.text@)
    }
}

/// The content of a list of texts.
pub open spec fn texts(list: Seq<String>) -> Seq<Seq<char>> {
    list.map_values(|text: String| text@)
}

impl View for ChangeParams {
    type V = (Seq<char>, Option<PathBuf>, Seq<Seq<char>>);

    open spec fn view(&self) -> (Seq<char>, Option<PathBuf>, Seq<Seq<char>>) {
        (self.uri@, self.path, texts(self.changes@))
    }
}

/// The kinds of message that the client shows to its user.
#[derive(Debug, Clone, Copy, PartialEq, Eq, Structural)]
pub enum MessageType {
    Error,
    Warning,
    Info,
    Log,
}

impl MessageType {
    /// The number that stands for the kind on the wire.
    pub open spec fn number(self) -> u8 {
        match self {
            MessageType::Error => 1,
            MessageType::Warning => 2,
            MessageType::Info => 3,
            MessageType::Log => 4,
        }
    }
}

/// JSON's white space.
pub open spec fn is_json_space(c: char) -> bool {
    c == ' ' || c == '\n' || c == '\t' || c == '\r'
}

/// The text is the JSON value `null` with its first character at `start`, between white space.
pub open spec fn is_json_null_at(text: Seq<char>, start: int) -> bool {
    &&& 0 <= start <= text.len() - 4
    &&& text.subrange(start, start + 4) == "null"@
    &&& forall|i: int|
        0 <= i < text.len() && !(start <= i < start + 4) ==> is_json_space(#[trigger] text[i])
}

/// The text is the JSON value `null`, with white space around it or not.
pub open spec fn is_json_null(text: Seq<char>) -> bool {
    exists|start: int| is_json_null_at(text, start)
}

/// What `serde_json` reads as `lsp_types::CancelParams`: `None` where the text is no such value,
/// else the id, `Ok` with a number and `Err` with a text.
pub uninterp spec fn cancel_params_of(params: Seq<char>) -> Option<Result<u64, Seq<char>>>;

/// The text that stands for the document's URI in the JSON text of the parameters of a notification
/// on a text document: `None` where the text is no JSON, or holds no text in that place.
pub uninterp spec fn document_uri_of(params: Seq<char>) -> Option<Seq<char>>;

/// What `Url::parse` makes of a URI: `None` where it is no URL, else the URL's own text.
pub uninterp spec fn url_text_of(uri: Seq<char>) -> Option<Seq<char>>;

/// The path that `Url::to_file_path` gives for the URL that `Url::parse` makes of a URI, by the rules
/// of Windows or by those of Unix.
pub uninterp spec fn file_path_of(uri: Seq<char>, windows: bool) -> Option<PathBuf>;

/// The document's text in what `serde_json` reads as `lsp_types::DidOpenTextDocumentParams`: `None`
/// where the parameters are no such value.
pub uninterp spec fn open_text_of(params: Seq<char>) -> Option<Seq<char>>;

/// The new text of each change in what `serde_json` reads as
/// `lsp_types::DidChangeTextDocumentParams`: `None` where the parameters are no such value.
pub uninterp spec fn change_texts_of(params: Seq<char>) -> Option<Seq<Seq<char>>>;

/// The parameters are what `serde_json` reads as `lsp_types::DidCloseTextDocumentParams`.
pub uninterp spec fn are_close_params(params: Seq<char>) -> bool;

/// The character separates the components of a path on the target that the library is built for. A
/// backslash does so on Windows and not on Unix.
pub uninterp spec fn is_path_separator(c: char) -> bool;

/// A hexadecimal digit.
pub open spec fn hex_digit(digit: nat) -> char
    recommends
        digit < 16,
{
    if digit < 10 {
        crate::decimal::digit_char(digit)
    } else {
        (digit + 87) as char
    }
}

/// A character as it stands in a JSON string.
pub open spec fn json_char(c: char) -> Seq<char> {
    if c == '"' || c == '\\' {
        seq!['\\', c]
    } else if c == '\u{8}' {
        seq!['\\', 'b']
    } else if c == '\u{C}' {
        seq!['\\', 'f']
    } else if c == '\n' {
        seq!['\\', 'n']
    } else if c == '\r' {
        seq!['\\', 'r']
    } else if c == '\t' {
        seq!['\\', 't']
    } else if c <= '\u{1F}' {
        seq!['\\', 'u', '0', '0', hex_digit(c as nat / 16), hex_digit(c as nat % 16)]
    } else {
        seq![c]
    }
}

/// What stands between the quotes of a JSON string.
pub open spec fn json_chars(text: Seq<char>) -> Seq<char>
    decreases text.len(),
{
    if text.len() == 0 {
        Seq::empty()
    } else {
        json_chars(text.drop_last()) + json_char(text.last())
    }
}

/// A text as a JSON string.
pub open spec fn json_string(text: Seq<char>) -> Seq<char> {
    seq!['"'] + json_chars(text) + seq!['"']
}

/// The parameters of `textDocument/publishDiagnostics` with no diagnostics, as JSON text.
pub open spec fn no_diagnostics_json(uri: Seq<char>) -> Seq<char> {
    "{\"uri\":"@ + json_string(uri) + ",\"diagnostics\":[]}"@
}

/// The parameters of `window/showMessage` as JSON text.
pub open spec fn show_message_json(typ: u8, message: Seq<char>) -> Seq<char> {
    "{\"type\":"@ + crate::decimal::decimal(typ as nat) + ",\"message\":"@ + json_string(message)
        + "}"@
}

/// `std::path::is_separator`, whose answer is fixed by the target that the library is built for.
pub assume_specification[ std::path::is_separator ](c: char) -> (res: bool)
    ensures
        res == is_path_separator(c),
;

/// Whether the parameters are those of a method without parameters.
///
/// `serde_json::from_str` into `()` succeeds exactly on the JSON value `null`, with white space
/// around it or not.
#[verifier::external_body]
pub(crate) fn reads_as_unit(params: &str) -> (res: bool)
    ensures
        res == is_json_null(params@),
{
    serde_json::from_str::<()>(params).is_ok()
}

/// The result of a method that gives none.
///
/// `serde_json::to_string` writes `()` as `null`.
#[verifier::external_body]
pub(crate) fn unit_json() -> (json: String)
    ensures
        json@ == "null"@,
{
    serde_json::to_string(&()).unwrap()
}

/// Reads the parameters of `$/cancelRequest`.
///
/// `serde_json::from_str` into a JSON value and `serde_json::from_value` of it into
/// `lsp_types::CancelParams`. The result depends on the text alone and is named by
/// [`cancel_params_of`].
#[verifier::external_body]
pub(crate) fn read_cancel_params(params: &str) -> (id: Option<CancelId>)
    ensures
        (match id {
            Some(id) => Some(id@),
            None => None,
        }) == cancel_params_of(params@),
{
    let value: serde_json::Value = serde_json::from_str(params).ok()?;
    match serde_json::from_value::<lsp_types::CancelParams>(value) {
        Ok(params) => Some(match params.id {
            lsp_types::NumberOrString::Number(id) => CancelId::Number(id),
            lsp_types::NumberOrString::String(id) => CancelId::Text(id),
        }),
        Err(_) => None,
    }
}

/// Reads the document's URI in the parameters of a notification on a text document.
///
/// `serde_json::from_str` into a JSON value, and the text in it that `serde_json::from_value` hands
/// to `Url::parse` for each of the parameters that have a document: the first field, `textDocument`,
/// of the parameters, and in it the first field, `uri`. A value may give its fields by name or, in a
/// list, by their order. The result depends on the text alone and is named by [`document_uri_of`].
#[verifier::external_body]
pub(crate) fn read_document_uri(params: &str) -> (uri: Option<String>)
    ensures
        crate::message::text_view(uri) == document_uri_of(params@),
{
    let value: serde_json::Value = serde_json::from_str(params).ok()?;
    let document = value.get("textDocument").or(value.get(0))?;
    let uri = document.get("uri").or(document.get(0))?;
    uri.as_str().map(String::from)
}

/// Reads a URI as a URL, and gives the URL's own text.
///
/// `Url::parse` and `Url::into_string`. The result depends on the URI alone and is named by
/// [`url_text_of`]. The host has to be safe: where a label of it is long, the `idna` crate can
/// overflow a counter.
#[verifier::external_body]
pub(crate) fn parse_url(uri: &str) -> (url: Option<String>)
    requires
        crate::uris::has_safe_host(uri@),
    ensures
        crate::message::text_view(url) == url_text_of(uri@),
{
    lsp_types::Url::parse(uri).ok().map(lsp_types::Url::into_string)
}

/// The path of the file that a URI stands for.
///
/// `Url::parse` of the URI, which has to be a URL with a safe host, and `Url::to_file_path`. The
/// result depends on the URI and on the target, and is named by [`file_path_of`]. On Windows the
/// path has to be absolute, which `to_file_path` asserts.
#[verifier::external_body]
pub(crate) fn file_path(uri: &str) -> (path: Option<PathBuf>)
    requires
        crate::uris::has_safe_host(uri@),
        url_text_of(uri@) is Some,
        is_path_separator('\\') ==> !crate::uris::is_half_a_windows_path(url_text_of(uri@)->0),
    ensures
        path == file_path_of(uri@, is_path_separator('\\')),
{
    lsp_types::Url::parse(uri).unwrap().to_file_path().ok()
}

/// The document in the parameters, if there is one, has a URI with a safe host.
pub open spec fn document_is_safe(params: Seq<char>) -> bool {
    document_uri_of(params) matches Some(uri) ==> crate::uris::has_safe_host(uri)
}

/// Reads the text in the parameters of `textDocument/didOpen`.
///
/// `serde_json::from_str` into a JSON value and `serde_json::from_value` of it into
/// `lsp_types::DidOpenTextDocumentParams`, which reads the document's URI as a URL, so its host has
/// to be safe. The result depends on the parameters alone and is named by [`open_text_of`].
#[verifier::external_body]
pub(crate) fn read_open_text(params: &str) -> (text: Option<String>)
    requires
        document_is_safe(params@),
    ensures
        crate::message::text_view(text) == open_text_of(params@),
{
    let value: serde_json::Value = serde_json::from_str(params).ok()?;
    match serde_json::from_value::<lsp_types::DidOpenTextDocumentParams>(value) {
        Ok(params) => Some(params.text_document.text),
        Err(_) => None,
    }
}

/// Reads the text of each change in the parameters of `textDocument/didChange`.
///
/// `serde_json::from_str` into a JSON value and `serde_json::from_value` of it into
/// `lsp_types::DidChangeTextDocumentParams`, which reads the document's URI as a URL, so its host
/// has to be safe. The result depends on the parameters alone and is named by [`change_texts_of`].
#[verifier::external_body]
pub(crate) fn read_change_texts(params: &str) -> (changes: Option<Vec<String>>)
    requires
        document_is_safe(params@),
    ensures
        (match changes {
            Some(changes) => Some(texts(changes@)),
            None => None,
        }) == change_texts_of(params@),
{
    let value: serde_json::Value = serde_json::from_str(params).ok()?;
    match serde_json::from_value::<lsp_types::DidChangeTextDocumentParams>(value) {
        Ok(params) => Some(params.content_changes.into_iter().map(|change| change.text).collect()),
        Err(_) => None,
    }
}

/// Whether the parameters are those of `textDocument/didClose`.
///
/// `serde_json::from_str` into a JSON value and `serde_json::from_value` of it into
/// `lsp_types::DidCloseTextDocumentParams`, which reads the document's URI as a URL, so its host has
/// to be safe. The result depends on the parameters alone and is named by [`are_close_params`].
#[verifier::external_body]
pub(crate) fn reads_as_close(params: &str) -> (res: bool)
    requires
        document_is_safe(params@),
    ensures
        res == are_close_params(params@),
{
    serde_json::from_str::<serde_json::Value>(params)
        .and_then(serde_json::from_value::<lsp_types::DidCloseTextDocumentParams>)
        .is_ok()
}

/// The parameters of `textDocument/publishDiagnostics` that take back all diagnostics of the
/// document with this URI.
///
/// `serde_json::to_string` of `lsp_types::PublishDiagnosticsParams` with no diagnostics and the URL
/// that `Url::parse` makes of the URI, which has to be one with a safe host. It succeeds on every
/// value, and writes the URL's own text and an empty list.
#[verifier::external_body]
pub(crate) fn write_no_diagnostics(uri: &str) -> (json: String)
    requires
        crate::uris::has_safe_host(uri@),
        url_text_of(uri@) is Some,
    ensures
        json@ == no_diagnostics_json(url_text_of(uri@)->0),
{
    let url = lsp_types::Url::parse(uri).unwrap();
    let params = lsp_types::PublishDiagnosticsParams::new(url, Vec::new());
    serde_json::to_string(&params).unwrap()
}

/// The parameters of `window/showMessage`.
///
/// `serde_json::to_string` of `lsp_types::ShowMessageParams`, which succeeds on every value and
/// writes the number of the kind and the message.
#[verifier::external_body]
pub(crate) fn write_show_message(typ: MessageType, message: String) -> (json: String)
    ensures
        json@ == show_message_json(typ.number(), message@),
{
    let typ = match typ {
        MessageType::Error => lsp_types::MessageType::Error,
        MessageType::Warning => lsp_types::MessageType::Warning,
        MessageType::Info => lsp_types::MessageType::Info,
        MessageType::Log => lsp_types::MessageType::Log,
    };
    serde_json::to_string(&lsp_types::ShowMessageParams { typ, message }).unwrap()
}

/// `null` is read as such whatever white space stands around it.
pub proof fn law_null_may_stand_in_white_space(before: Seq<char>, after: Seq<char>)
    requires
        forall|i: int| 0 <= i < before.len() ==> is_json_space(#[trigger] before[i]),
        forall|i: int| 0 <= i < after.len() ==> is_json_space(#[trigger] after[i]),
    ensures
        is_json_null(before + "null"@ + after),
{
    reveal_strlit("null");
    let text = before + "null"@ + after;
    let start = before.len() as int;
    assert(text.subrange(start, start + 4) == "null"@);
    assert forall|i: int| 0 <= i < text.len() && !(start <= i < start + 4) implies is_json_space(
        #[trigger] text[i],
    ) by {
        if i < start {
            assert(text[i] == before[i]);
        } else {
            assert(text[i] == after[i - start - 4]);
        }
    }
    assert(is_json_null_at(text, start));
}

} // verus!
