//! What the library remembers of a connection: whether a response is still being delivered.
//!
//! A connection carries one response at a time. While the list of outputs is being delivered,
//! any other command would be answered with the rest of that list, so such a command is
//! refused here, before it reaches the daemon. A list stays in flight until its enumeration has
//! yielded the end or an error: an enumeration is to be drained, and a connection whose
//! enumeration was given up half way accepts no further command.

use vstd::prelude::*;
use crate::dialogue::{replies_view, Command, Reply, ReplyView, Step};
use crate::error::{ErrorView, MpdError, MpdResult};

verus! {

/// The state of one connection to the daemon.
#[derive(Debug, PartialEq, Eq)]
pub struct MpdConnection {
    in_flight: bool,
}

/// Where the dialogue of a command that is answered by a status stands.
///
/// A connection with a response in flight refuses the command without asking anything.
/// Otherwise the command is asked; if it ran, the dialogue is over; if it did not, the
/// connection is asked for its last error, which becomes the detail of the failure.
pub open spec fn run_step(in_flight: bool, command: Command, replies: Seq<ReplyView>) -> Step<
    Result<(), ErrorView>,
> {
    if in_flight {
        Step::Done(Err(ErrorView::ResponseInFlight))
    } else if replies.len() == 0 {
        Step::Ask(command)
    } else {
        match replies[0] {
            ReplyView::Status(true) => Step::Done(Ok(())),
            ReplyView::Status(false) => if replies.len() == 1 {
                Step::Ask(Command::LastError)
            } else {
                match replies[1] {
                    ReplyView::Error(Some(detail)) => Step::Done(
                        Err(ErrorView::RequestFailed(detail)),
                    ),
                    _ => Step::Done(Err(ErrorView::UnexpectedReply)),
                }
            },
            _ => Step::Done(Err(ErrorView::UnexpectedReply)),
        }
    }
}

/// The value of a step of such a dialogue.
pub open spec fn ran_view(step: Step<MpdResult<()>>) -> Step<Result<(), ErrorView>> {
    match step {
        Step::Ask(command) => Step::Ask(command),
        Step::Done(Ok(())) => Step::Done(Ok(())),
        Step::Done(Err(error)) => Step::Done(Err(error@)),
    }
}

impl MpdConnection {
    /// Whether a response is being delivered on this connection.
    pub closed spec fn in_flight(&self) -> bool {
        self.in_flight
    }

    /// The state of a connection that has just been opened: no response is in flight.
    pub fn new() -> (conn: MpdConnection)
        ensures
            !conn.in_flight(),
    {
        MpdConnection { in_flight: false }
    }

    /// Whether a response is being delivered on this connection.
    pub fn is_in_flight(&self) -> (busy: bool)
        ensures
            busy == self.in_flight(),
    {
        self.in_flight
    }

    /// Notes that a response has begun on this connection.
    pub(crate) fn begin_response(&mut self)
        ensures
            final(self).in_flight(),
    {
        self.in_flight = true;
    }

    /// Notes that the response on this connection is over.
    pub(crate) fn end_response(&mut self)
        ensures
            !final(self).in_flight(),
    {
        self.in_flight = false;
    }

    /// Carries on the dialogue of `command`, which the connection answers with a status.
    pub(crate) fn run(&self, command: Command, replies: &[Reply]) -> (step: Step<MpdResult<()>>)
        ensures
            ran_view(step) == run_step(self.in_flight(), command, replies_view(replies@)),
    {
        if self.in_flight {
            return Step::Done(Err(MpdError::ResponseInFlight));
        }
        if replies.len() == 0 {
            return Step::Ask(command);
        }
        match &replies[0] {
            Reply::Status(true) => Step::Done(Ok(())),
            Reply::Status(false) => {
                if replies.len() == 1 {
                    Step::Ask(Command::LastError)
                } else {
                    match &replies[1] {
                        Reply::Error(Some(detail)) => Step::Done(
                            Err(MpdError::RequestFailed(detail.clone())),
                        ),
                        _ => Step::Done(Err(MpdError::UnexpectedReply)),
                    }
                }
            },
            _ => Step::Done(Err(MpdError::UnexpectedReply)),
        }
    }
}

} // verus!
