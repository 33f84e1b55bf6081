//! The failures of the main loop.

use vstd::prelude::*;
use vstd::string::StringExecFns;

verus! {

/// A failure that ends the main loop.
#[derive(Debug, PartialEq, Eq)]
pub enum LoopError {
    /// The client closed its side without a shutdown request.
    ClientExited,
    /// The virtual file system is gone.
    VfsDied,
    /// A document's URI stands for no file.
    InvalidUri(String),
    /// A change notification without a change.
    EmptyChanges,
}

/// The content of a [`LoopError`].
pub enum LoopErrorView {
    ClientExited,
    VfsDied,
    InvalidUri(Seq<char>),
    EmptyChanges,
}

impl View for LoopError {
    type V = LoopErrorView;

    open spec fn view(&self) -> LoopErrorView {
        match self {
            LoopError::ClientExited => LoopErrorView::ClientExited,
            LoopError::VfsDied => LoopErrorView::VfsDied,
            LoopError::InvalidUri(uri) => LoopErrorView::InvalidUri(uri@),
            LoopError::EmptyChanges => LoopErrorView::EmptyChanges,
        }
    }
}

impl LoopErrorView {
    /// The text that the error shows.
    pub open spec fn display_text(self) -> Seq<char> {
        match self {
            LoopErrorView::ClientExited => "client exited without shutdown"@,
            LoopErrorView::VfsDied => "vfs died"@,
            LoopErrorView::InvalidUri(uri) => "invalid uri: "@ + uri,
            LoopErrorView::EmptyChanges => "empty changes"@,
        }
    }
}

impl LoopError {
    /// The text of the error for a person to read.
    pub fn display(&self) -> (text: String)
        ensures
            text@ == self@.display_text(),
    {
        match self {
            LoopError::ClientExited => "client exited without shutdown".to_string(),
            LoopError::VfsDied => "vfs died".to_string(),
            LoopError::InvalidUri(uri) => "invalid uri: ".to_string().concat(uri.as_str()),
            LoopError::EmptyChanges => "empty changes".to_string(),
        }
    }
}

/// A message that breaks what the main loop takes for granted of its client and its workers. The
/// loop cannot go on after it.
#[derive(Debug, PartialEq, Eq)]
pub enum Rejection {
    /// The parameters of this method are not what the method takes.
    BadParams(String),
    /// A request is canceled by a text, where ids are numbers.
    TextRequestId(String),
    /// The id of a new request is that of a pending one.
    DuplicateRequest(u64),
    /// An indexed library arrives that nobody asked for.
    UnexpectedLibrary,
}

/// The content of a [`Rejection`].
pub enum RejectionView {
    BadParams(Seq<char>),
    TextRequestId(Seq<char>),
    DuplicateRequest(u64),
    UnexpectedLibrary,
}

impl View for Rejection {
    type V = RejectionView;

    open spec fn view(&self) -> RejectionView {
        match self {
            Rejection::BadParams(method) => RejectionView::BadParams(method@),
            Rejection::TextRequestId(id) => RejectionView::TextRequestId(id@),
            Rejection::DuplicateRequest(id) => RejectionView::DuplicateRequest(*id),
            Rejection::UnexpectedLibrary => RejectionView::UnexpectedLibrary,
        }
    }
}

/// Each failure has the text by which a person knows it; an invalid URI is named in full.
pub proof fn law_failures_have_their_texts(uri: Seq<char>)
    ensures
        LoopErrorView::ClientExited.display_text() == "client exited without shutdown"@,
        LoopErrorView::VfsDied.display_text() == "vfs died"@,
        LoopErrorView::InvalidUri(uri).display_text() == "invalid uri: "@ + uri,
        LoopErrorView::EmptyChanges.display_text() == "empty changes"@,
{
}

} // verus!
