//! The questions that this library puts to a connection, and the answers it takes back.
//!
//! The library never touches a connection. An operation that needs the daemon is written as a
//! dialogue: the function takes the answers that the connection has given so far and returns
//! a [`Step`], which is either the next question or the operation's result. The caller starts
//! with no answers, puts each question to its connection, adds the answer to the end of the
//! list and calls again, until the step is [`Step::Done`].

use vstd::prelude::*;
use crate::error::{DetailView, ErrorDetail};

verus! {

/// A question to the connection.
#[derive(Clone, Copy, Debug, PartialEq, Eq)]
pub enum Command {
    /// Send the request for the list of outputs.
    SendOutputs,
    /// Receive the next output of the list that is being delivered.
    RecvOutput,
    /// Read the error that the connection has recorded, if any.
    LastError,
    /// Switch on the output with this id.
    EnableOutput(u32),
    /// Switch off the output with this id.
    DisableOutput(u32),
    /// Flip the output with this id.
    ToggleOutput(u32),
}

/// One output as the connection hands it over.
#[derive(Debug, PartialEq, Eq)]
pub struct RawOutput {
    pub id: u32,
    pub name: String,
    pub enabled: bool,
}

/// The mathematical value of an output: its id, its name as a sequence of characters, and
/// whether it is switched on.
pub struct OutputView {
    pub id: u32,
    pub name: Seq<char>,
    pub enabled: bool,
}

impl View for RawOutput {
    type V = OutputView;

    open spec fn view(&self) -> OutputView {
        OutputView { id: self.id, name: self.name@, enabled: self.enabled }
    }
}

impl Clone for RawOutput {
    fn clone(&self) -> (copy: Self)
        ensures
            copy@ == self@,
    {
        RawOutput { id: self.id, name: self.name.clone(), enabled: self.enabled }
    }
}

/// An answer of the connection.
#[derive(Debug, PartialEq, Eq)]
pub enum Reply {
    /// Whether a request was sent or a command ran: the answer to every command but the two
    /// below.
    Status(bool),
    /// The output that was received, or none: the answer to [`Command::RecvOutput`].
    Output(Option<RawOutput>),
    /// The recorded error, or none: the answer to [`Command::LastError`].
    Error(Option<ErrorDetail>),
}

/// The mathematical value of a [`Reply`].
pub enum ReplyView {
    Status(bool),
    Output(Option<OutputView>),
    Error(Option<DetailView>),
}

impl View for Reply {
    type V = ReplyView;

    open spec fn view(&self) -> ReplyView {
        match self {
            Reply::Status(ok) => ReplyView::Status(*ok),
            Reply::Output(None) => ReplyView::Output(None),
            Reply::Output(Some(output)) => ReplyView::Output(Some(output@)),
            Reply::Error(None) => ReplyView::Error(None),
            Reply::Error(Some(detail)) => ReplyView::Error(Some(detail@)),
        }
    }
}

impl Clone for Reply {
    fn clone(&self) -> (copy: Self)
        ensures
            copy@ == self@,
    {
        match self {
            Reply::Status(ok) => Reply::Status(*ok),
            Reply::Output(None) => Reply::Output(None),
            Reply::Output(Some(output)) => Reply::Output(Some(output.clone())),
            Reply::Error(None) => Reply::Error(None),
            Reply::Error(Some(detail)) => Reply::Error(Some(detail.clone())),
        }
    }
}

/// The values of the answers given so far, in their order.
pub open spec fn replies_view(replies: Seq<Reply>) -> Seq<ReplyView> {
    replies.map_values(|reply: Reply| reply@)
}

/// Where a dialogue stands: at a question, or at its result.
#[derive(Debug, PartialEq, Eq)]
pub enum Step<T> {
    /// The connection is to answer this question.
    Ask(Command),
    /// The dialogue is over, with this result.
    Done(T),
}

} // verus!
