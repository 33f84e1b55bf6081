//! The notifications of the client.

use std::path::PathBuf;
use vstd::prelude::*;

use crate::documents::{read_changed, read_closed, read_opened, ClosedDocument};
use crate::errors::{LoopError, LoopErrorView, Rejection, RejectionView};
use crate::message::{
    ErrorCode, MessageView, NotificationView, RawMessage, RawNotification, RawResponse,
};
use crate::methods::{CANCEL, DID_CHANGE, DID_CLOSE, DID_OPEN, PUBLISH_DIAGNOSTICS};
use crate::protocol::{read_cancel_params, CancelId, ChangeParams, OpenParams};
use crate::sets::PendingRequests;

verus! {

/// A notification with its parameters read.
#[derive(Debug, PartialEq, Eq)]
pub enum Notice {
    Cancel(u64),
    Open(OpenParams),
    Change(ChangeParams),
    Close(ClosedDocument),
    /// A notification that the main loop takes no notice of.
    Other(RawNotification),
}

/// The content of a [`Notice`].
pub enum NoticeView {
    Cancel(u64),
    Open { uri: Seq<char>, path: Option<PathBuf>, text: Seq<char> },
    Change { uri: Seq<char>, path: Option<PathBuf>, changes: Seq<Seq<char>> },
    Close { uri: Seq<char>, path: Option<PathBuf>, cleared: Seq<char> },
    Other(NotificationView),
}

impl View for Notice {
    type V = NoticeView;

    open spec fn view(&self) -> NoticeView {
        match self {
            Notice::Cancel(id) => NoticeView::Cancel(*id),
            Notice::Open(params) => NoticeView::Open {
                uri: params@.0,
                path: params@.1,
                text: params@.2,
            },
            Notice::Change(params) => NoticeView::Change {
                uri: params@.0,
                path: params@.1,
                changes: params@.2,
            },
            Notice::Close(document) => NoticeView::Close {
                uri: document@.0,
                path: document@.1,
                cleared: document@.2,
            },
            Notice::Other(notification) => NoticeView::Other(notification@),
        }
    }
}

/// The content of a notice or of the reason why there is none.
pub open spec fn notice_result_view(res: Result<Notice, Rejection>) -> Result<
    NoticeView,
    RejectionView,
> {
    match res {
        Ok(notice) => Ok(notice@),
        Err(rejection) => Err(rejection@),
    }
}

/// The notice that the parameters of a cancellation make.
pub open spec fn cancel_notice_of(params: Option<Result<u64, Seq<char>>>) -> Result<
    NoticeView,
    RejectionView,
> {
    match params {
        Some(Ok(id)) => Ok(NoticeView::Cancel(id)),
        Some(Err(id)) => Err(RejectionView::TextRequestId(id)),
        None => Err(RejectionView::BadParams(CANCEL@)),
    }
}

/// The notice that the parameters of an opened document make.
pub open spec fn open_notice_of(
    params: Option<(Seq<char>, Option<PathBuf>, Seq<char>)>,
) -> Result<NoticeView, RejectionView> {
    match params {
        Some((uri, path, text)) => Ok(NoticeView::Open { uri, path, text }),
        None => Err(RejectionView::BadParams(DID_OPEN@)),
    }
}

/// The notice that the parameters of a changed document make.
pub open spec fn change_notice_of(
    params: Option<(Seq<char>, Option<PathBuf>, Seq<Seq<char>>)>,
) -> Result<NoticeView, RejectionView> {
    match params {
        Some((uri, path, changes)) => Ok(NoticeView::Change { uri, path, changes }),
        None => Err(RejectionView::BadParams(DID_CHANGE@)),
    }
}

/// The notice that a closed document makes.
pub open spec fn close_notice_of(
    document: Option<(Seq<char>, Option<PathBuf>, Seq<char>)>,
) -> Result<NoticeView, RejectionView> {
    match document {
        Some((uri, path, cleared)) => Ok(NoticeView::Close { uri, path, cleared }),
        None => Err(RejectionView::BadParams(DID_CLOSE@)),
    }
}

/// What a notification says, by its method and its parameters.
pub open spec fn notice_of(notification: NotificationView) -> Result<NoticeView, RejectionView> {
    let params = notification.params;
    if notification.method == CANCEL@ {
        cancel_notice_of(crate::protocol::cancel_params_of(params))
    } else if notification.method == DID_OPEN@ {
        open_notice_of(crate::documents::opened_of(params))
    } else if notification.method == DID_CHANGE@ {
        change_notice_of(crate::documents::changed_of(params))
    } else if notification.method == DID_CLOSE@ {
        close_notice_of(crate::documents::closed_of(params))
    } else {
        Ok(NoticeView::Other(notification))
    }
}

/// The notifications that the loop reads have methods of their own, so each is read by its own
/// reader whatever the order in which the methods are compared.
pub proof fn law_notification_methods_are_distinct()
    ensures
        CANCEL@ != DID_OPEN@,
        CANCEL@ != DID_CHANGE@,
        CANCEL@ != DID_CLOSE@,
        DID_OPEN@ != DID_CHANGE@,
        DID_OPEN@ != DID_CLOSE@,
        DID_CHANGE@ != DID_CLOSE@,
{
    reveal_strlit("$/cancelRequest");
    reveal_strlit("textDocument/didOpen");
    reveal_strlit("textDocument/didChange");
    reveal_strlit("textDocument/didClose");
    assert(CANCEL@.len() == 15);
    assert(DID_OPEN@.len() == 20);
    assert(DID_CHANGE@.len() == 22);
    assert(DID_CLOSE@.len() == 21);
}

/// The notice of a cancellation, from its parameters as they were read.
pub fn cancel_notice(params: Option<CancelId>) -> (res: Result<Notice, Rejection>)
    ensures
        notice_result_view(res) == cancel_notice_of(
            match params {
                Some(id) => Some(id@),
                None => None,
            },
        ),
{
    match params {
        Some(CancelId::Number(id)) => Ok(Notice::Cancel(id)),
        Some(CancelId::Text(id)) => Err(Rejection::TextRequestId(id)),
        None => Err(Rejection::BadParams(CANCEL.to_string())),
    }
}

/// The notice of an opened document, from its parameters as they were read.
pub fn open_notice(params: Option<OpenParams>) -> (res: Result<Notice, Rejection>)
    ensures
        notice_result_view(res) == open_notice_of(
            match params {
                Some(params) => Some(params@),
                None => None,
            },
        ),
{
    match params {
        Some(params) => Ok(Notice::Open(params)),
        None => Err(Rejection::BadParams(DID_OPEN.to_string())),
    }
}

/// The notice of a changed document, from its parameters as they were read.
pub fn change_notice(params: Option<ChangeParams>) -> (res: Result<Notice, Rejection>)
    ensures
        notice_result_view(res) == change_notice_of(
            match params {
                Some(params) => Some(params@),
                None => None,
            },
        ),
{
    match params {
        Some(params) => Ok(Notice::Change(params)),
        None => Err(Rejection::BadParams(DID_CHANGE.to_string())),
    }
}

/// The notice of a closed document, as it was read.
pub fn close_notice(document: Option<ClosedDocument>) -> (res: Result<Notice, Rejection>)
    ensures
        notice_result_view(res) == close_notice_of(
            match document {
                Some(document) => Some(document@),
                None => None,
            },
        ),
{
    match document {
        Some(document) => Ok(Notice::Close(document)),
        None => Err(Rejection::BadParams(DID_CLOSE.to_string())),
    }
}

/// Reads a notification.
pub fn read_notification(not: RawNotification) -> (res: Result<Notice, Rejection>)
    ensures
        notice_result_view(res) == notice_of(not@),
{
    if not.is(CANCEL) {
        cancel_notice(read_cancel_params(not.params.as_str()))
    } else if not.is(DID_OPEN) {
        open_notice(read_opened(not.params.as_str()))
    } else if not.is(DID_CHANGE) {
        change_notice(read_changed(not.params.as_str()))
    } else if not.is(DID_CLOSE) {
        close_notice(read_closed(not.params.as_str()))
    } else {
        Ok(Notice::Other(not))
    }
}

/// A step on the texts that overlay the files of the virtual file system.
#[derive(Debug, PartialEq, Eq)]
pub enum DocumentStep {
    /// Lay the text over the file, and report the file that the path names.
    Add { path: PathBuf, text: String },
    /// Lay the new text over the file.
    Change { path: PathBuf, text: String },
    /// Take the text off the file, report the file that the path names, then send the message.
    Remove { path: PathBuf, cleared: RawMessage },
}

/// The content of a [`DocumentStep`].
pub enum DocumentStepView {
    Add { path: PathBuf, text: Seq<char> },
    Change { path: PathBuf, text: Seq<char> },
    Remove { path: PathBuf, cleared: MessageView },
}

impl View for DocumentStep {
    type V = DocumentStepView;

    open spec fn view(&self) -> DocumentStepView {
        match self {
            DocumentStep::Add { path, text } => DocumentStepView::Add { path: *path, text: text@ },
            DocumentStep::Change { path, text } => DocumentStepView::Change {
                path: *path,
                text: text@,
            },
            DocumentStep::Remove { path, cleared } => DocumentStepView::Remove {
                path: *path,
                cleared: cleared@,
            },
        }
    }
}

/// What a notice asks for.
#[derive(Debug, PartialEq, Eq)]
pub enum NoticeStep {
    Nothing,
    Send(RawMessage),
    Document(DocumentStep),
    /// Write to the log that nobody handles the notification.
    Unhandled(RawNotification),
}

/// The content of a [`NoticeStep`].
pub enum NoticeStepView {
    Nothing,
    Send(MessageView),
    Document(DocumentStepView),
    Unhandled(NotificationView),
}

impl View for NoticeStep {
    type V = NoticeStepView;

    open spec fn view(&self) -> NoticeStepView {
        match self {
            NoticeStep::Nothing => NoticeStepView::Nothing,
            NoticeStep::Send(message) => NoticeStepView::Send(message@),
            NoticeStep::Document(step) => NoticeStepView::Document(step@),
            NoticeStep::Unhandled(notification) => NoticeStepView::Unhandled(notification@),
        }
    }
}

/// The answer to a pending request that the client has canceled.
pub open spec fn canceled_response(id: u64) -> MessageView {
    MessageView::Response(
        crate::message::err_response(
            id,
            ErrorCode::RequestCanceled.number(),
            "canceled by client"@,
        ),
    )
}

/// The message that takes back all diagnostics of a document, with its parameters.
pub open spec fn cleared_diagnostics(params: Seq<char>) -> MessageView {
    MessageView::Notification(NotificationView { method: PUBLISH_DIAGNOSTICS@, params })
}

/// The requests that are pending after a notice: a cancellation ends the wait for its request.
pub open spec fn pending_after_notice(pending: Set<u64>, notice: NoticeView) -> Set<u64> {
    match notice {
        NoticeView::Cancel(id) => pending.remove(id),
        _ => pending,
    }
}

/// The path of a document, or the error where its URI has none.
pub open spec fn path_or_error(uri: Seq<char>, path: Option<PathBuf>) -> Result<
    PathBuf,
    LoopErrorView,
> {
    match path {
        Some(path) => Ok(path),
        None => Err(LoopErrorView::InvalidUri(uri)),
    }
}

/// The text after a list of changes, each of which is the whole text: the last one.
pub open spec fn last_text(changes: Seq<Seq<char>>) -> Result<Seq<char>, LoopErrorView> {
    if changes.len() == 0 {
        Err(LoopErrorView::EmptyChanges)
    } else {
        Ok(changes.last())
    }
}

/// What a notice asks for while these requests are pending.
pub open spec fn step_for_notice(pending: Set<u64>, notice: NoticeView) -> Result<
    NoticeStepView,
    LoopErrorView,
> {
    match notice {
        NoticeView::Cancel(id) => Ok(
            if pending.contains(id) {
                NoticeStepView::Send(canceled_response(id))
            } else {
                NoticeStepView::Nothing
            },
        ),
        NoticeView::Open { uri, path, text } => match path_or_error(uri, path) {
            Ok(path) => Ok(NoticeStepView::Document(DocumentStepView::Add { path, text })),
            Err(error) => Err(error),
        },
        NoticeView::Change { uri, path, changes } => match path_or_error(uri, path) {
            Ok(path) => match last_text(changes) {
                Ok(text) => Ok(NoticeStepView::Document(DocumentStepView::Change { path, text })),
                Err(error) => Err(error),
            },
            Err(error) => Err(error),
        },
        NoticeView::Close { uri, path, cleared } => match path_or_error(uri, path) {
            Ok(path) => Ok(
                NoticeStepView::Document(
                    DocumentStepView::Remove { path, cleared: cleared_diagnostics(cleared) },
                ),
            ),
            Err(error) => Err(error),
        },
        NoticeView::Other(notification) => Ok(NoticeStepView::Unhandled(notification)),
    }
}

/// The path of a document, as it was found for its URI, or the error where it has none.
pub fn document_path(uri: &String, path: Option<PathBuf>) -> (res: Result<PathBuf, LoopError>)
    ensures
        (match res {
            Ok(path) => Ok(path),
            Err(error) => Err(error@),
        }) == path_or_error(uri@, path),
        path matches Some(path) ==> res == Ok::<PathBuf, LoopError>(path),
        path is None ==> (res matches Err(LoopError::InvalidUri(named)) && named@ == uri@),
{
    match path {
        Some(path) => Ok(path),
        None => Err(LoopError::InvalidUri(uri.clone())),
    }
}

/// The text after a list of changes: the last one, since each is the whole text.
pub fn last_change(changes: Vec<String>) -> (res: Result<String, LoopError>)
    ensures
        (match res {
            Ok(text) => Ok(text@),
            Err(error) => Err(error@),
        }) == last_text(crate::protocol::texts(changes@)),
        changes@.len() > 0 ==> res == Ok::<String, LoopError>(changes@.last()),
        changes@.len() == 0 ==> res == Err::<String, LoopError>(LoopError::EmptyChanges),
{
    let mut changes = changes;
    match changes.pop() {
        Some(text) => Ok(text),
        None => Err(LoopError::EmptyChanges),
    }
}

/// The content of a step or of the error in its place.
pub open spec fn notice_step_view(res: Result<NoticeStep, LoopError>) -> Result<
    NoticeStepView,
    LoopErrorView,
> {
    match res {
        Ok(step) => Ok(step@),
        Err(error) => Err(error@),
    }
}

/// Answers a notice of the client.
pub fn on_notification(pending_requests: &mut PendingRequests, notice: Notice) -> (res: Result<
    NoticeStep,
    LoopError,
>)
    ensures
        final(pending_requests)@ == pending_after_notice(old(pending_requests)@, notice@),
        notice_step_view(res) == step_for_notice(old(pending_requests)@, notice@),
{
    match notice {
        Notice::Cancel(id) => {
            if pending_requests.remove(id) {
                let response = RawResponse::err(
                    id,
                    ErrorCode::RequestCanceled.code(),
                    "canceled by client".to_string(),
                );
                Ok(NoticeStep::Send(RawMessage::Response(response)))
            } else {
                Ok(NoticeStep::Nothing)
            }
        },
        Notice::Open(params) => {
            match document_path(&params.uri, params.path) {
                Ok(path) => Ok(
                    NoticeStep::Document(DocumentStep::Add { path, text: params.text }),
                ),
                Err(error) => Err(error),
            }
        },
        Notice::Change(params) => {
            match document_path(&params.uri, params.path) {
                Ok(path) => match last_change(params.changes) {
                    Ok(text) => Ok(NoticeStep::Document(DocumentStep::Change { path, text })),
                    Err(error) => Err(error),
                },
                Err(error) => Err(error),
            }
        },
        Notice::Close(document) => {
            match document_path(&document.uri, document.path) {
                Ok(path) => {
                    let cleared = RawNotification::new(PUBLISH_DIAGNOSTICS, document.cleared);
                    Ok(
                        NoticeStep::Document(
                            DocumentStep::Remove {
                                path,
                                cleared: RawMessage::Notification(cleared),
                            },
                        ),
                    )
                },
                Err(error) => Err(error),
            }
        },
        Notice::Other(notification) => Ok(NoticeStep::Unhandled(notification)),
    }
}

/// Whatever changes come before it, the last text of a list is the one that counts: only a list
/// without a text has none.
pub proof fn law_last_text_counts(earlier: Seq<Seq<char>>, text: Seq<char>)
    ensures
        last_text(earlier.push(text)) == Ok::<Seq<char>, LoopErrorView>(text),
        last_text(Seq::empty()) == Err::<Seq<char>, LoopErrorView>(LoopErrorView::EmptyChanges),
        forall|changes: Seq<Seq<char>>| #[trigger]
            last_text(changes) is Err ==> changes == Seq::<Seq<char>>::empty(),
{
    assert(earlier.push(text).last() == text);
    assert forall|changes: Seq<Seq<char>>| #[trigger] last_text(changes) is Err implies changes
        == Seq::<Seq<char>>::empty() by {
        if changes.len() > 0 {
            assert(last_text(changes) is Ok);
        }
    }
}

/// A cancellation answers its request if and only if the request is pending, with the code of
/// canceled requests and no result, and ends the wait for that request and for no other.
pub proof fn law_cancellation_answers_its_request(pending: Set<u64>, id: u64, other: u64)
    ensures
        pending.contains(id) ==> (step_for_notice(pending, NoticeView::Cancel(id)) matches Ok(
            NoticeStepView::Send(MessageView::Response(response)),
        ) && response.id == id && response.result is None && (response.error matches Some(error)
            && error.code == -32800 && error.message == "canceled by client"@
            && error.data is None)),
        !pending.contains(id) ==> step_for_notice(pending, NoticeView::Cancel(id))
            == Ok::<NoticeStepView, LoopErrorView>(NoticeStepView::Nothing),
        pending_after_notice(pending, NoticeView::Cancel(id)).contains(other)
            <==> pending.contains(other) && other != id,
{
}

/// A document that stands for a file is opened with its whole text, changed to its last text, or
/// closed with the message that takes back its diagnostics, under the path that was found for it.
pub proof fn law_document_steps_bear_path_and_text(
    pending: Set<u64>,
    uri: Seq<char>,
    path: PathBuf,
    text: Seq<char>,
    earlier: Seq<Seq<char>>,
    cleared: Seq<char>,
)
    ensures
        step_for_notice(pending, NoticeView::Open { uri, path: Some(path), text })
            == Ok::<NoticeStepView, LoopErrorView>(
            NoticeStepView::Document(DocumentStepView::Add { path, text }),
        ),
        step_for_notice(
            pending,
            NoticeView::Change { uri, path: Some(path), changes: earlier.push(text) },
        ) == Ok::<NoticeStepView, LoopErrorView>(
            NoticeStepView::Document(DocumentStepView::Change { path, text }),
        ),
        step_for_notice(
            pending,
            NoticeView::Change { uri, path: Some(path), changes: Seq::empty() },
        ) == Err::<NoticeStepView, LoopErrorView>(LoopErrorView::EmptyChanges),
        step_for_notice(pending, NoticeView::Close { uri, path: Some(path), cleared }) matches Ok(
            NoticeStepView::Document(DocumentStepView::Remove { path: removed, cleared: message }),
        ) && removed == path && (message matches MessageView::Notification(sent) && sent.method
            == "textDocument/publishDiagnostics"@ && sent.params == cleared),
{
    law_last_text_counts(earlier, text);
}

/// A document that stands for no file ends the loop with an error that names its URI, whatever is
/// done to it.
pub proof fn law_document_without_a_file_is_an_error(
    pending: Set<u64>,
    uri: Seq<char>,
    text: Seq<char>,
    changes: Seq<Seq<char>>,
)
    ensures
        step_for_notice(pending, NoticeView::Open { uri, path: None, text })
            == Err::<NoticeStepView, LoopErrorView>(LoopErrorView::InvalidUri(uri)),
        step_for_notice(pending, NoticeView::Change { uri, path: None, changes })
            == Err::<NoticeStepView, LoopErrorView>(LoopErrorView::InvalidUri(uri)),
        step_for_notice(pending, NoticeView::Close { uri, path: None, cleared: text })
            == Err::<NoticeStepView, LoopErrorView>(LoopErrorView::InvalidUri(uri)),
{
}

/// Only a cancellation changes which requests are pending, and a notification that the loop takes no
/// notice of is handed to the log as it is.
pub proof fn law_other_notices_leave_requests_alone(pending: Set<u64>, notice: NoticeView)
    requires
        !(notice is Cancel),
    ensures
        pending_after_notice(pending, notice) == pending,
        notice matches NoticeView::Other(notification) ==> step_for_notice(pending, notice)
            == Ok::<NoticeStepView, LoopErrorView>(NoticeStepView::Unhandled(notification)),
{
}

} // verus!
