//! The decisions of the conversation worker: which command to act on next,
//! what a command means while a reply is running, and which events to
//! report. The worker loop itself, which awaits the model, runs outside.

use vstd::prelude::*;
use std::collections::VecDeque;
use crate::error::{AppError, model_failure_message};
use crate::protocol::{ApplicationCommand, ApplicationEvent, ConversationEvent, CommandView, StreamUpdate, command_view};

verus! {

/// Commands that arrived while a reply was running, oldest first.
pub struct Worker {
    pending: VecDeque<ApplicationCommand>,
}

/// What to do with a command when no reply is running.
#[derive(Debug)]
pub enum WorkerAction {
    /// Drop the conversation history.
    ClearConversation,
    /// Ask the model for a reply to `input`, reporting under `generation`.
    StartReply { generation: u64, input: String },
}

/// What a command that arrives during a reply means for that reply.
#[derive(Clone, Copy, Debug, PartialEq, Eq, Structural)]
pub enum ReplyControl {
    /// Keep waiting for the reply.
    Continue,
    /// Abandon the reply and drop the conversation history.
    Cancel,
}

impl View for Worker {
    type V = Seq<CommandView>;

    closed spec fn view(&self) -> Seq<CommandView> {
        self.pending@.map_values(|c: ApplicationCommand| command_view(c))
    }
}

impl Worker {
    /// A worker with nothing pending.
    pub fn new() -> (r: Self)
        ensures
            r@ == Seq::<CommandView>::empty(),
    {
        let r = Worker { pending: VecDeque::new() };
        assert(r@ =~= Seq::<CommandView>::empty());
        r
    }

    /// The oldest pending command, if any, removed from the queue.
    pub fn take_pending(&mut self) -> (r: Option<ApplicationCommand>)
        ensures
            old(self)@.len() == 0 ==> r is None && final(self)@ == old(self)@,
            old(self)@.len() > 0 ==> (r matches Some(c) && command_view(c) == old(self)@[0])
                && final(self)@ == old(self)@.drop_first(),
    {
        let r = self.pending.pop_front();
        assert(self@ =~= if old(self)@.len() == 0 { old(self)@ } else { old(self)@.drop_first() });
        r
    }

    /// What to do with a command when no reply is running: a clear also
    /// drops everything pending.
    pub fn on_command(&mut self, command: ApplicationCommand) -> (r: WorkerAction)
        ensures
            command_view(command) == CommandView::Clear ==> (r is ClearConversation
                && final(self)@ == Seq::<CommandView>::empty()),
            command_view(command) != CommandView::Clear ==> final(self)@ == old(self)@ && (r matches
                WorkerAction::StartReply { generation, input } && command_view(command)
                == (CommandView::Chat { generation, input: input@ })),
    {
        match command {
            ApplicationCommand::Clear => {
                self.pending.clear();
                assert(self@ =~= Seq::<CommandView>::empty());
                WorkerAction::ClearConversation
            },
            ApplicationCommand::Chat { generation, input } => WorkerAction::StartReply { generation, input },
        }
    }

    /// What a command arriving during a reply means: a clear abandons the
    /// reply and drops everything pending; a chat waits its turn.
    pub fn during_reply(&mut self, command: ApplicationCommand) -> (r: ReplyControl)
        ensures
            command_view(command) == CommandView::Clear ==> r == ReplyControl::Cancel
                && final(self)@ == Seq::<CommandView>::empty(),
            command_view(command) != CommandView::Clear ==> r == ReplyControl::Continue
                && final(self)@ == old(self)@.push(command_view(command)),
    {
        match command {
            ApplicationCommand::Clear => {
                self.pending.clear();
                assert(self@ =~= Seq::<CommandView>::empty());
                ReplyControl::Cancel
            },
            ApplicationCommand::Chat { generation, input } => {
                let ghost v = command_view(ApplicationCommand::Chat { generation, input });
                self.pending.push_back(ApplicationCommand::Chat { generation, input });
                assert(self@ =~= old(self)@.push(v));
                ReplyControl::Continue
            },
        }
    }
}

/// Commands queued during a reply are taken out in the order they arrived:
/// after queueing `c` behind `q`, the next command taken is the oldest of
/// `q`, or `c` itself when `q` was empty, and `c` stays behind the rest.
pub proof fn lemma_pending_first_in_first_out(q: Seq<CommandView>, c: CommandView)
    ensures
        q.len() > 0 ==> q.push(c)[0] == q[0] && q.push(c).drop_first() == q.drop_first().push(c),
        q.len() == 0 ==> q.push(c)[0] == c && q.push(c).drop_first() == Seq::<CommandView>::empty(),
{
    if q.len() > 0 {
        assert(q.push(c).drop_first() =~= q.drop_first().push(c));
    } else {
        assert(q.push(c).drop_first() =~= Seq::<CommandView>::empty());
    }
}

/// The event that reports a finished reply: its text, or the user-facing
/// form of its error.
pub fn reply_event(generation: u64, result: Result<String, AppError>) -> (r: ApplicationEvent)
    ensures
        r.generation == generation,
        match result {
            Ok(text) => r.kind matches ConversationEvent::Reply(t) && t@ == text@,
            Err(_) => r.kind matches ConversationEvent::Error(e) && e.message_view() == model_failure_message()
                && e.retryable_view(),
        },
{
    let kind = match result {
        Ok(text) => ConversationEvent::Reply(text),
        Err(error) => ConversationEvent::Error(error.user_facing()),
    };
    ApplicationEvent { generation, kind }
}

/// The event that reports a streaming update.
pub fn stream_event(generation: u64, update: StreamUpdate) -> (r: ApplicationEvent)
    ensures
        r.generation == generation,
        match update {
            StreamUpdate::Text(text) => r.kind matches ConversationEvent::ReplyDelta(t) && t@ == text@,
            StreamUpdate::Reset => r.kind is ReplyReset,
        },
{
    let kind = match update {
        StreamUpdate::Text(text) => ConversationEvent::ReplyDelta(text),
        StreamUpdate::Reset => ConversationEvent::ReplyReset,
    };
    ApplicationEvent { generation, kind }
}

} // verus!
