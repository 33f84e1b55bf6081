//! The messages that the client shows to its user.

use vstd::prelude::*;
use vstd::string::StringExecFns;

use crate::decimal::push_decimal;
use crate::message::{MessageView, NotificationView, RawMessage, RawNotification};
use crate::methods::SHOW_MESSAGE;
use crate::protocol::{write_show_message, MessageType};

verus! {

/// The notification that has the client show a message.
pub open spec fn shown(typ: MessageType, message: Seq<char>) -> MessageView {
    MessageView::Notification(
        NotificationView {
            method: SHOW_MESSAGE@,
            params: crate::protocol::show_message_json(typ.number(), message),
        },
    )
}

/// Has the client show a message.
pub fn show_message(typ: MessageType, message: String) -> (sent: RawMessage)
    ensures
        sent@ == shown(typ, message@),
{
    RawMessage::Notification(
        RawNotification::new(SHOW_MESSAGE, write_show_message(typ, message)),
    )
}

/// What the user reads when the workspace cannot be loaded.
pub open spec fn load_failure_text(error: Seq<char>) -> Seq<char> {
    "rust-analyzer failed to load workspace: "@ + error
}

/// Tells the user that the workspace could not be loaded, and why.
pub fn workspace_load_failed(error: &String) -> (sent: RawMessage)
    ensures
        sent@ == shown(MessageType::Error, load_failure_text(error@)),
{
    let message = "rust-analyzer failed to load workspace: ".to_string().concat(error.as_str());
    show_message(MessageType::Error, message)
}

/// The workspaces to work on after an attempt to load one.
pub open spec fn workspaces_of<W>(outcome: Result<W, String>) -> Seq<W> {
    match outcome {
        Ok(workspace) => seq![workspace],
        Err(_) => Seq::empty(),
    }
}

/// The message to the user after an attempt to load a workspace.
pub open spec fn load_message_of<W>(outcome: Result<W, String>) -> Option<MessageView> {
    match outcome {
        Ok(_) => None,
        Err(error) => Some(shown(MessageType::Error, load_failure_text(error@))),
    }
}

/// The workspaces to work on, from the outcome of the attempt to load one, and the message to the
/// user where it failed: the server then goes on without a workspace.
pub fn loaded_workspaces<W>(outcome: Result<W, String>) -> (res: (Vec<W>, Option<RawMessage>))
    ensures
        res.0@ == workspaces_of(outcome),
        crate::tasks::message_view(res.1) == load_message_of(outcome),
        match outcome {
            Ok(workspace) => res.0@ == seq![workspace] && res.1 is None,
            Err(error) => res.0@.len() == 0 && res.1 is Some && res.1->0@ == shown(
                MessageType::Error,
                load_failure_text(error@),
            ),
        },
{
    match outcome {
        Ok(workspace) => {
            let mut workspaces: Vec<W> = Vec::new();
            workspaces.push(workspace);
            (workspaces, None)
        },
        Err(error) => (Vec::new(), Some(workspace_load_failed(&error))),
    }
}

/// What the user reads when the workspace is loaded.
pub open spec fn workspace_loaded_text(packages: nat) -> Seq<char> {
    "workspace loaded, "@ + crate::decimal::decimal(packages) + " rust packages"@
}

/// Tells the user that the workspace is loaded, and how many packages it has.
pub fn workspace_loaded(packages: usize) -> (sent: RawMessage)
    ensures
        sent@ == shown(MessageType::Info, workspace_loaded_text(packages as nat)),
{
    let mut message = "workspace loaded, ".to_string();
    push_decimal(&mut message, packages as u64);
    message.append(" rust packages");
    show_message(MessageType::Info, message)
}

/// The client is asked to show the message itself, under the number of its kind.
pub proof fn law_message_is_shown_as_it_is(typ: MessageType, message: Seq<char>)
    ensures
        shown(typ, message) matches MessageView::Notification(sent) && sent.method
            == "window/showMessage"@ && sent.params == crate::protocol::show_message_json(
            match typ {
                MessageType::Error => 1,
                MessageType::Warning => 2,
                MessageType::Info => 3,
                MessageType::Log => 4,
            },
            message,
        ),
{
}

/// The user reads why the workspace could not be loaded, and how many packages a loaded one has.
pub proof fn law_user_reads_the_error_and_the_number(error: Seq<char>, packages: nat)
    ensures
        load_failure_text(error) == "rust-analyzer failed to load workspace: "@ + error,
        workspace_loaded_text(packages) == "workspace loaded, "@ + crate::decimal::decimal(packages)
            + " rust packages"@,
        ({
            let text = workspace_loaded_text(packages);
            crate::decimal::number_of(text.subrange(18, text.len() - 14)) == packages
        }),
{
    reveal_strlit("workspace loaded, ");
    reveal_strlit(" rust packages");
    let text = workspace_loaded_text(packages);
    assert(text.subrange(18, text.len() - 14) == crate::decimal::decimal(packages));
    crate::decimal::law_decimal_reads_back(packages);
}

/// A workspace that was loaded is worked on and needs no message; where none was loaded, the server
/// works on none, and the user reads the whole error, as an error.
pub proof fn law_loaded_workspace_or_the_error<W>(workspace: W, error: String)
    ensures
        workspaces_of(Ok::<W, String>(workspace)) == seq![workspace],
        load_message_of(Ok::<W, String>(workspace)) is None,
        workspaces_of(Err::<W, String>(error)).len() == 0,
        load_message_of(Err::<W, String>(error)) matches Some(MessageView::Notification(sent))
            && sent.method == "window/showMessage"@ && sent.params
            == crate::protocol::show_message_json(
            1,
            "rust-analyzer failed to load workspace: "@ + error@,
        ),
{
}

} // verus!
