//! The methods that the main loop itself answers, reads or sends.

use vstd::prelude::*;

verus! {

/// The request that ends the session.
pub const SHUTDOWN: &'static str = "shutdown";

/// The request to collect garbage at once.
pub const COLLECT_GARBAGE: &'static str = "rust-analyzer/collectGarbage";

/// The client no longer waits for a response.
pub const CANCEL: &'static str = "$/cancelRequest";

/// The client has opened a document.
pub const DID_OPEN: &'static str = "textDocument/didOpen";

/// The client has changed an open document.
pub const DID_CHANGE: &'static str = "textDocument/didChange";

/// The client has closed a document.
pub const DID_CLOSE: &'static str = "textDocument/didClose";

/// The server tells the diagnostics of a document.
pub const PUBLISH_DIAGNOSTICS: &'static str = "textDocument/publishDiagnostics";

/// The server tells the highlighting of a document.
pub const PUBLISH_DECORATIONS: &'static str = "rust-analyzer/publishDecorations";

/// The server has a message for the user.
pub const SHOW_MESSAGE: &'static str = "window/showMessage";

} // verus!
