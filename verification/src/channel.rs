//! The channels between the chat screen and the conversation worker
//! (`tokio::sync::mpsc` unbounded channels).

use vstd::prelude::*;
use tokio::sync::mpsc::{UnboundedReceiver, UnboundedSender};
use tokio::sync::mpsc::error::TryRecvError;
use crate::protocol::{ApplicationCommand, ApplicationEvent, CommandView, command_view};

verus! {

#[verifier::external_type_specification]
#[verifier::external_body]
#[verifier::reject_recursive_types(T)]
pub struct ExUnboundedSender<T>(UnboundedSender<T>);

#[verifier::external_type_specification]
#[verifier::external_body]
#[verifier::reject_recursive_types(T)]
pub struct ExUnboundedReceiver<T>(UnboundedReceiver<T>);

/// The sending end of the command channel, with the log of every command
/// handed to it, in order, each with the channel's answer: whether the
/// worker was still there to take it. Only `send` adds to the log.
pub struct CommandLink {
    sender: UnboundedSender<ApplicationCommand>,
    handed: Ghost<Seq<(CommandView, bool)>>,
}

impl CommandLink {
    /// The commands handed to the channel so far, oldest first, each with
    /// whether the channel accepted it.
    pub closed spec fn handed(&self) -> Seq<(CommandView, bool)> {
        self.handed@
    }

    /// A link over `sender` that has handed nothing yet.
    pub fn new(sender: UnboundedSender<ApplicationCommand>) -> (r: Self)
        ensures
            r.handed() == Seq::<(CommandView, bool)>::empty(),
    {
        CommandLink { sender, handed: Ghost(Seq::empty()) }
    }

    /// Hands `command` to the channel and logs it with the channel's answer,
    /// which it returns: whether the channel accepted it, which depends on
    /// whether the worker still runs.
    pub fn send(&mut self, command: ApplicationCommand) -> (accepted: bool)
        ensures
            final(self).handed() == old(self).handed().push((command_view(command), accepted)),
    {
        let ghost view = command_view(command);
        let accepted = send_command(&self.sender, command);
        self.handed = Ghost(self.handed@.push((view, accepted)));
        accepted
    }
}

/// What one look at the event channel found.
#[derive(Debug)]
pub enum Received {
    Event(ApplicationEvent),
    Empty,
    Disconnected,
}

/// `UnboundedSender::send`: queues `command` for the worker. Whether the
/// queue accepts it depends on whether the receiving side is still open,
/// which nothing here knows, so nothing is stated of the result.
#[verifier::external_body]
pub(crate) fn send_command(commands: &UnboundedSender<ApplicationCommand>, command: ApplicationCommand) -> (accepted: bool) {
    commands.send(command).is_ok()
}

/// `UnboundedReceiver::try_recv`: takes the next queued event, if any. What
/// comes back depends on the worker, so nothing is stated of it.
#[verifier::external_body]
pub(crate) fn try_receive(events: &mut UnboundedReceiver<ApplicationEvent>) -> (r: Received) {
    match events.try_recv() {
        Ok(event) => Received::Event(event),
        Err(TryRecvError::Empty) => Received::Empty,
        Err(TryRecvError::Disconnected) => Received::Disconnected,
    }
}

} // verus!
