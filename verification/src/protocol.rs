//! Messages exchanged between the user interface and the conversation
//! worker.

use vstd::prelude::*;
use crate::error::UserFacingError;
use crate::ui::message::Message;

verus! {

/// A request from the user interface to the worker.
#[derive(Debug)]
pub enum ApplicationCommand {
    /// Send `input` to the model; replies carry `generation` back.
    Chat { generation: u64, input: String },
    /// Drop the conversation history and any pending request.
    Clear,
}

/// A command with its text as a character sequence.
pub enum CommandView {
    Chat { generation: u64, input: Seq<char> },
    Clear,
}

/// The view of a command.
pub open spec fn command_view(c: ApplicationCommand) -> CommandView {
    match c {
        ApplicationCommand::Chat { generation, input } => CommandView::Chat { generation, input: input@ },
        ApplicationCommand::Clear => CommandView::Clear,
    }
}

/// A report from the worker, tagged with the generation of the request.
#[derive(Debug)]
pub struct ApplicationEvent {
    pub generation: u64,
    pub kind: ConversationEvent,
}

/// What happened to the current reply.
#[derive(Debug)]
pub enum ConversationEvent {
    /// More reply text arrived.
    ReplyDelta(String),
    /// The model retried its turn; the text so far is discarded.
    ReplyReset,
    /// The reply is complete.
    Reply(String),
    /// The reply failed.
    Error(UserFacingError),
}

/// An update from a streaming reply.
#[derive(Debug)]
pub enum StreamUpdate {
    Text(String),
    Reset,
}

/// A request in the single-turn protocol (no streaming, no generations).
#[derive(Debug)]
pub enum AgentCommand {
    Chat(String),
    Clear,
}

/// A report in the single-turn protocol.
#[derive(Debug)]
pub enum AgentEvent {
    Reply(Message),
    Error(String),
}

} // verus!
