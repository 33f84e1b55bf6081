//! The decisions of a language server's main loop.
//!
//! The loop waits for an event (a message of the client, a result of a worker, a change in the
//! virtual file system, an indexed library), decides what to do with it, and ends its turn by
//! starting index jobs and file notifications. This crate holds the state and the decisions; the
//! program around it owns the channels, the thread pool and the files, performs the steps that the
//! crate hands out, and hands back the events.

pub mod decimal;
pub mod documents;
pub mod errors;
pub mod event_laws;
pub mod events;
pub mod laws;
pub mod libraries;
pub mod lsp_error;
pub mod main_loop;
pub mod message;
pub mod methods;
pub mod notices;
pub mod protocol;
pub mod requests;
pub mod sets;
pub mod tasks;
pub mod updates;
pub mod uris;
pub mod user_messages;

pub use lsp_error::LspError;
pub use message::{
    ErrorCode, RawMessage, RawNotification, RawRequest, RawResponse, RawResponseError,
};
