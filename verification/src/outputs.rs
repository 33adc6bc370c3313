//! The outputs of the daemon: the enumeration of their list, and the handle of one output.

use vstd::prelude::*;
use crate::connection::{ran_view, run_step, MpdConnection};
use crate::dialogue::{replies_view, Command, OutputView, RawOutput, Reply, ReplyView, Step};
use crate::encode::{encoded, encoded_list, Field, Record, Value};
use crate::error::{ErrorView, MpdError, MpdResult};
use crate::text::{decimal_string, rendered, truth_text};

verus! {

/// One output of the daemon, as the list reported it.
///
/// The handle keeps what the daemon said when the list was read. Switching the output on or
/// off does not change the handle: read the list again for the new state.
#[derive(Debug, PartialEq, Eq)]
pub struct MpdOutput {
    record: RawOutput,
}

impl View for MpdOutput {
    type V = OutputView;

    closed spec fn view(&self) -> OutputView {
        self.record@
    }
}

/// An enumeration of the daemon's outputs: the list is delivered one output at a time, once.
#[derive(Debug, PartialEq, Eq)]
pub struct MpdOutputs {
    finished: bool,
}

/// The value of one result of an enumeration: an output, an error, or the end.
pub type Yield = Option<Result<OutputView, ErrorView>>;

/// Where the dialogue that starts an enumeration stands; the result says whether it started.
///
/// A connection with a response in flight starts nothing and is asked nothing. Otherwise the
/// request is sent, and the enumeration starts if and only if the connection says that it was.
pub open spec fn start_step(in_flight: bool, replies: Seq<ReplyView>) -> Step<bool> {
    if in_flight {
        Step::Done(false)
    } else if replies.len() == 0 {
        Step::Ask(Command::SendOutputs)
    } else {
        Step::Done(replies[0] == ReplyView::Status(true))
    }
}

/// The value of a step of that dialogue.
pub open spec fn started_view(step: Step<Option<MpdOutputs>>) -> Step<bool> {
    match step {
        Step::Ask(command) => Step::Ask(command),
        Step::Done(started) => Step::Done(started is Some),
    }
}

/// Where the dialogue that takes the next output stands. `live` says that the enumeration has
/// not ended and that its list is in flight.
///
/// An enumeration that is not live yields the end and asks nothing. A live one receives: an
/// output is yielded as it is. Where none was received, the connection's last error decides:
/// with none recorded the list has ended, with one recorded it has broken off.
pub open spec fn next_step(live: bool, replies: Seq<ReplyView>) -> Step<Yield> {
    if !live {
        Step::Done(None)
    } else if replies.len() == 0 {
        Step::Ask(Command::RecvOutput)
    } else {
        match replies[0] {
            ReplyView::Output(Some(output)) => Step::Done(Some(Ok(output))),
            ReplyView::Output(None) => if replies.len() == 1 {
                Step::Ask(Command::LastError)
            } else {
                match replies[1] {
                    ReplyView::Error(None) => Step::Done(None),
                    ReplyView::Error(Some(detail)) => Step::Done(
                        Some(Err(ErrorView::StreamError(detail))),
                    ),
                    _ => Step::Done(Some(Err(ErrorView::UnexpectedReply))),
                }
            },
            _ => Step::Done(Some(Err(ErrorView::UnexpectedReply))),
        }
    }
}

/// The value of a step of that dialogue.
pub open spec fn next_view(step: Step<Option<MpdResult<MpdOutput>>>) -> Step<Yield> {
    match step {
        Step::Ask(command) => Step::Ask(command),
        Step::Done(None) => Step::Done(None),
        Step::Done(Some(Ok(output))) => Step::Done(Some(Ok(output@))),
        Step::Done(Some(Err(error))) => Step::Done(Some(Err(error@))),
    }
}

/// Whether a step ends the enumeration: it is a result, and no output.
pub open spec fn ends(step: Step<Yield>) -> bool {
    match step {
        Step::Ask(_) => false,
        Step::Done(Some(Ok(_))) => false,
        Step::Done(_) => true,
    }
}

/// The command that sets an output's state.
pub open spec fn enable_command(id: u32, enabled: bool) -> Command {
    if enabled {
        Command::EnableOutput(id)
    } else {
        Command::DisableOutput(id)
    }
}

/// What setting an output's state comes to: the handle after the call, which is the handle
/// before it, and the step of the command's dialogue.
pub open spec fn enable_outcome(
    output: OutputView,
    in_flight: bool,
    enabled: bool,
    replies: Seq<ReplyView>,
) -> (OutputView, Step<Result<(), ErrorView>>) {
    (output, run_step(in_flight, enable_command(output.id, enabled), replies))
}

/// What flipping an output comes to: the handle after the call, which is the handle before it,
/// and the step of the command's dialogue.
pub open spec fn toggle_outcome(output: OutputView, in_flight: bool, replies: Seq<ReplyView>) -> (
    OutputView,
    Step<Result<(), ErrorView>>,
) {
    (output, run_step(in_flight, Command::ToggleOutput(output.id), replies))
}

impl MpdOutputs {
    /// Whether the enumeration has yielded its end or an error.
    pub closed spec fn finished(&self) -> bool {
        self.finished
    }

    /// Whether the next call of [`MpdOutputs::next`] on `conn` can still yield an output.
    pub open spec fn live(&self, conn: &MpdConnection) -> bool {
        !self.finished() && conn.in_flight()
    }

    /// Starts an enumeration of the outputs on `conn`.
    ///
    /// The result is `None` where the request could not be sent, and where `conn` already has
    /// a response in flight. Once an enumeration has started, its list is in flight on `conn`.
    pub fn from_conn(conn: &mut MpdConnection, replies: &[Reply]) -> (step: Step<
        Option<MpdOutputs>,
    >)
        ensures
            started_view(step) == start_step(old(conn).in_flight(), replies_view(replies@)),
            step matches Step::Done(Some(outputs)) ==> !outputs.finished(),
            final(conn).in_flight() == (old(conn).in_flight() || started_view(step)
                == Step::Done(true)),
    {
        if conn.is_in_flight() {
            return Step::Done(None);
        }
        if replies.len() == 0 {
            return Step::Ask(Command::SendOutputs);
        }
        match &replies[0] {
            Reply::Status(true) => {
                conn.begin_response();
                Step::Done(Some(MpdOutputs { finished: false }))
            },
            _ => Step::Done(None),
        }
    }

    /// Takes the next output of the list.
    ///
    /// The result is `Some(Ok(..))` for each output, in the daemon's order; `None` at the end
    /// of the list; `Some(Err(..))` once where the list breaks off, and `None` from then on.
    /// The first result that is no output ends the enumeration, and with it the response on
    /// `conn`.
    pub fn next(&mut self, conn: &mut MpdConnection, replies: &[Reply]) -> (step: Step<
        Option<MpdResult<MpdOutput>>,
    >)
        ensures
            next_view(step) == next_step(old(self).live(old(conn)), replies_view(replies@)),
            final(self).finished() == (old(self).finished() || ends(next_view(step))),
            final(conn).in_flight() == (old(conn).in_flight() && !(old(self).live(old(conn))
                && ends(next_view(step)))),
            final(self).live(final(conn)) == (old(self).live(old(conn)) && !ends(next_view(step))),
    {
        if self.finished || !conn.is_in_flight() {
            self.finished = true;
            return Step::Done(None);
        }
        if replies.len() == 0 {
            return Step::Ask(Command::RecvOutput);
        }
        let item = match &replies[0] {
            Reply::Output(received) => {
                match MpdOutput::from_conn(received) {
                    Some(output) => {
                        return Step::Done(Some(Ok(output)));
                    },
                    None => {
                        if replies.len() == 1 {
                            return Step::Ask(Command::LastError);
                        }
                        match &replies[1] {
                            Reply::Error(None) => None,
                            Reply::Error(Some(detail)) => Some(
                                Err(MpdError::StreamError(detail.clone())),
                            ),
                            _ => Some(Err(MpdError::UnexpectedReply)),
                        }
                    },
                }
            },
            _ => Some(Err(MpdError::UnexpectedReply)),
        };
        self.finished = true;
        conn.end_response();
        Step::Done(item)
    }

    /// The records of the outputs of a list, in the order of the list.
    pub fn encode(outputs: &[MpdOutput]) -> (records: Vec<Record>)
        ensures
            records@.map_values(|record: Record| record@) == encoded_list(
                outputs@.map_values(|output: MpdOutput| output@),
            ),
    {
        let mut records: Vec<Record> = Vec::new();
        let mut done: usize = 0;
        while done < outputs.len()
            invariant
                done <= outputs.len(),
                records@.len() == done,
                forall|i: int| 0 <= i < done ==> (#[trigger] records@[i])@ == encoded(outputs@[i]@),
            decreases outputs.len() - done,
        {
            records.push(outputs[done].encode());
            done = done + 1;
        }
        assert(records@.map_values(|record: Record| record@) =~= encoded_list(
            outputs@.map_values(|output: MpdOutput| output@),
        ));
        records
    }
}

impl MpdOutput {
    /// The handle of the output that was received, if one was.
    fn from_conn(received: &Option<RawOutput>) -> (output: Option<MpdOutput>)
        ensures
            output is Some == received is Some,
            output matches Some(handle) ==> handle@ == received->0@,
    {
        match received {
            Some(record) => Some(MpdOutput { record: record.clone() }),
            None => None,
        }
    }

    /// The id by which the daemon knows this output.
    pub fn id(&self) -> (id: usize)
        ensures
            id == self@.id,
    {
        self.record.id as usize
    }

    /// A copy of the output's name.
    pub fn name(&self) -> (name: String)
        ensures
            name@ == self@.name,
    {
        self.record.name.clone()
    }

    /// Whether the output was switched on when the list was read.
    pub fn enabled(&self) -> (enabled: bool)
        ensures
            enabled == self@.enabled,
    {
        self.record.enabled
    }

    /// Switches the output on, or off: one command, addressed by the output's id.
    ///
    /// The command is refused where `conn` has a response in flight. The handle stays as it
    /// is, whatever the daemon answers.
    pub fn enable(&mut self, conn: &MpdConnection, enabled: bool, replies: &[Reply]) -> (step:
        Step<MpdResult<()>>)
        ensures
            (final(self)@, ran_view(step)) == enable_outcome(
                old(self)@,
                conn.in_flight(),
                enabled,
                replies_view(replies@),
            ),
            *final(self) == *old(self),
    {
        let command = if enabled {
            Command::EnableOutput(self.record.id)
        } else {
            Command::DisableOutput(self.record.id)
        };
        conn.run(command, replies)
    }

    /// Flips the output: one command, addressed by the output's id.
    ///
    /// The command is refused where `conn` has a response in flight. The handle stays as it
    /// is, whatever the daemon answers.
    pub fn toggle(&mut self, conn: &MpdConnection, replies: &[Reply]) -> (step: Step<
        MpdResult<()>,
    >)
        ensures
            (final(self)@, ran_view(step)) == toggle_outcome(
                old(self)@,
                conn.in_flight(),
                replies_view(replies@),
            ),
            *final(self) == *old(self),
    {
        conn.run(Command::ToggleOutput(self.record.id), replies)
    }

    /// The text form of the output: its name, its id and its state, each under its label.
    pub fn render(&self) -> (text: String)
        ensures
            text@ == rendered(self@),
    {
        let mut text = String::from_str("MpdOutput { name: ");
        text.append(self.record.name.as_str());
        text.append(", id: ");
        text.append(decimal_string(self.id()).as_str());
        text.append(", enabled: ");
        text.append(truth_text(self.record.enabled));
        text.append(" }");
        text
    }

    /// The structured form of the output: a record of its name, its id and its state.
    pub fn encode(&self) -> (record: Record)
        ensures
            record@ == encoded(self@),
    {
        let mut fields: Vec<Field> = Vec::new();
        fields.push(Field { key: "name", value: Value::Str(self.name()) });
        fields.push(Field { key: "id", value: Value::Uint(self.id()) });
        fields.push(Field { key: "enabled", value: Value::Bool(self.enabled()) });
        let record = Record { name: "MpdOutput", fields };
        assert(record@.fields =~= encoded(self@).fields);
        record
    }
}

} // verus!
