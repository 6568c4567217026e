//! Following a streamed reply: what each item of the model's stream means
//! for the screen, and what the reply comes to when the stream ends. The
//! stream itself is awaited outside.

use vstd::prelude::*;
use crate::error::AppError;
use crate::protocol::StreamUpdate;

verus! {

/// One item of the model's stream, as far as the reply cares.
#[derive(Debug)]
pub enum StreamItem {
    /// A piece of assistant text.
    Text(String),
    /// The model's turn was retried; the text shown so far is void.
    Retried,
    /// The final response, with its output text.
    Final(String),
    /// The stream reported an error.
    Failed,
    /// Anything else: tool calls, tool results, reasoning.
    Other,
}

/// What to do after one stream item.
#[derive(Debug)]
pub enum ItemAction {
    /// Show this update and read on.
    Show(StreamUpdate),
    /// Read on.
    Continue,
    /// Stop reading: the reply failed.
    Fail(AppError),
}

/// The reply so far: the output of the final response, once one arrived.
pub struct ReplyProgress {
    output: Option<String>,
}

impl View for ReplyProgress {
    type V = Option<Seq<char>>;

    closed spec fn view(&self) -> Option<Seq<char>> {
        match self.output {
            Some(s) => Some(s@),
            None => None,
        }
    }
}

impl ReplyProgress {
    /// No final response yet.
    pub fn new() -> (r: Self)
        ensures
            r@ is None,
    {
        ReplyProgress { output: None }
    }

    /// Takes in one stream item: text and retries are shown, the final
    /// response is kept (a later one replaces an earlier one), an error ends
    /// the reply as a failed model request, and anything else is passed over.
    pub fn on_item(&mut self, item: StreamItem) -> (a: ItemAction)
        ensures
            match item {
                StreamItem::Text(t) => (a matches ItemAction::Show(StreamUpdate::Text(u)) && u@ == t@)
                    && final(self)@ == old(self)@,
                StreamItem::Retried => (a matches ItemAction::Show(StreamUpdate::Reset))
                    && final(self)@ == old(self)@,
                StreamItem::Final(o) => a is Continue && final(self)@ == Some(o@),
                StreamItem::Failed => (a matches ItemAction::Fail(AppError::ModelRequest))
                    && final(self)@ == old(self)@,
                StreamItem::Other => a is Continue && final(self)@ == old(self)@,
            },
    {
        match item {
            StreamItem::Text(t) => ItemAction::Show(StreamUpdate::Text(t)),
            StreamItem::Retried => ItemAction::Show(StreamUpdate::Reset),
            StreamItem::Final(o) => {
                self.output = Some(o);
                ItemAction::Continue
            },
            StreamItem::Failed => ItemAction::Fail(AppError::ModelRequest),
            StreamItem::Other => ItemAction::Continue,
        }
    }

    /// What the reply comes to once the stream has ended: the output of the
    /// final response, or an error if none arrived. The conversation history
    /// takes the turn only when this is `Ok`.
    pub fn finish(self) -> (r: Result<String, AppError>)
        ensures
            match self@ {
                Some(o) => r matches Ok(s) && s@ == o,
                None => r matches Err(AppError::MissingFinalResponse),
            },
    {
        match self.output {
            Some(o) => Ok(o),
            None => Err(AppError::MissingFinalResponse),
        }
    }
}

/// The conversation history: the messages of the completed turns, oldest
/// first.
pub struct History<M> {
    messages: Vec<M>,
}

impl<M> View for History<M> {
    type V = Seq<M>;

    closed spec fn view(&self) -> Seq<M> {
        self.messages@
    }
}

impl<M> History<M> {
    /// An empty history.
    pub fn new() -> (r: Self)
        ensures
            r@ == Seq::<M>::empty(),
    {
        History { messages: Vec::new() }
    }

    /// The messages, oldest first.
    pub fn messages(&self) -> (r: &[M])
        ensures
            r@ == self@,
    {
        self.messages.as_slice()
    }

    /// Forgets every turn.
    pub fn clear(&mut self)
        ensures
            final(self)@ == Seq::<M>::empty(),
    {
        self.messages = Vec::new();
    }

    /// Takes in how a reply ended. Only a reply that succeeded, and whose
    /// final response carried the turn's messages, replaces the history with
    /// them; a failed reply leaves the history as it was.
    pub fn settle(&mut self, outcome: &Result<String, AppError>, turn: Option<Vec<M>>)
        ensures
            outcome is Ok && turn is Some ==> final(self)@ == turn.unwrap()@,
            !(outcome is Ok && turn is Some) ==> final(self)@ == old(self)@,
    {
        if outcome.is_ok() {
            if let Some(messages) = turn {
                self.messages = messages;
            }
        }
    }
}

} // verus!
