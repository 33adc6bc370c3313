//! What an enumeration yields, call after call, against a given list.
//!
//! A [`Delivery`] describes what a connection has in store: the outputs it will hand over, and
//! whether the list then ends or breaks off. [`carry`] is the caller's part of a dialogue as
//! a function, and [`yields`] the results of successive calls of
//! [`MpdOutputs::next`](crate::outputs::MpdOutputs::next). The laws below say what these
//! results are, for every delivery.

use vstd::prelude::*;
use crate::connection::{run_step, MpdConnection};
use crate::dialogue::{Command, OutputView, ReplyView, Step};
use crate::error::{DetailView, ErrorView};
use crate::outputs::{
    enable_outcome, ends, next_step, start_step, MpdOutputs, Yield,
};

verus! {

/// What is left of a list on its connection: the outputs that have not been received, in their
/// order, and the error that the connection records once they are used up, if the list
/// breaks off there.
pub struct Delivery {
    pub outputs: Seq<OutputView>,
    pub failure: Option<DetailView>,
}

impl Delivery {
    /// The connection's answer to `command`. Of the commands, a delivery knows the two that
    /// read a list; it lets no other command run.
    pub open spec fn answer(self, command: Command) -> ReplyView {
        match command {
            Command::RecvOutput => if self.outputs.len() > 0 {
                ReplyView::Output(Some(self.outputs[0]))
            } else {
                ReplyView::Output(None)
            },
            Command::LastError => if self.outputs.len() > 0 {
                ReplyView::Error(None)
            } else {
                ReplyView::Error(self.failure)
            },
            _ => ReplyView::Status(false),
        }
    }

    /// What is left once `command` has been answered: receiving takes the first output away.
    pub open spec fn after(self, command: Command) -> Delivery {
        match command {
            Command::RecvOutput => if self.outputs.len() > 0 {
                Delivery { outputs: self.outputs.drop_first(), failure: self.failure }
            } else {
                self
            },
            _ => self,
        }
    }

    /// What the call of `next` with the number `call`, counted from 0, is to yield on a fresh
    /// enumeration of this delivery: the outputs one by one, then the error if the list
    /// breaks off, and the end from then on.
    pub open spec fn expected(self, call: nat) -> Yield {
        if call < self.outputs.len() {
            Some(Ok(self.outputs[call as int]))
        } else if call == self.outputs.len() {
            match self.failure {
                Some(detail) => Some(Err(ErrorView::StreamError(detail))),
                None => None,
            }
        } else {
            None
        }
    }
}

/// Carries a dialogue to its result as a caller does: each question is put to the delivery,
/// and the answer is added to the replies. The result comes with what is left of the
/// delivery. It is `None` where the dialogue asks more than `patience` questions.
pub open spec fn carry<T>(
    dialogue: spec_fn(Seq<ReplyView>) -> Step<T>,
    delivery: Delivery,
    replies: Seq<ReplyView>,
    patience: nat,
) -> Option<(T, Delivery)>
    decreases patience,
{
    match dialogue(replies) {
        Step::Done(result) => Some((result, delivery)),
        Step::Ask(command) => if patience == 0 {
            None
        } else {
            carry(
                dialogue,
                delivery.after(command),
                replies.push(delivery.answer(command)),
                (patience - 1) as nat,
            )
        },
    }
}

/// One call of `next`, carried to its result, on an enumeration that is live or not.
pub open spec fn pull(live: bool, delivery: Delivery) -> Option<(Yield, Delivery)> {
    carry(|replies: Seq<ReplyView>| next_step(live, replies), delivery, Seq::empty(), 2)
}

/// The results of the first `calls` calls of `next`.
pub open spec fn yields(live: bool, delivery: Delivery, calls: nat) -> Seq<Yield>
    decreases calls,
{
    if calls == 0 {
        Seq::empty()
    } else {
        match pull(live, delivery) {
            Some((item, rest)) => seq![item] + yields(
                live && !ends(Step::Done(item)),
                rest,
                (calls - 1) as nat,
            ),
            None => Seq::empty(),
        }
    }
}

/// A call of `next` asks at most two questions. On a live enumeration it yields what the
/// delivery holds first, which is its first output, else the error if the list breaks off,
/// else the end, and it takes that output away. On an enumeration that is not live it yields
/// the end and leaves the delivery alone.
pub proof fn lemma_pull(live: bool, delivery: Delivery)
    ensures
        pull(live, delivery) == Some(
            if live {
                (delivery.expected(0), delivery.after(Command::RecvOutput))
            } else {
                (None::<Result<OutputView, ErrorView>>, delivery)
            },
        ),
{
    reveal_with_fuel(carry, 3);
    let dialogue = |replies: Seq<ReplyView>| next_step(live, replies);
    let first = Seq::<ReplyView>::empty().push(delivery.answer(Command::RecvOutput));
    let second = first.push(delivery.after(Command::RecvOutput).answer(Command::LastError));
    assert(dialogue(Seq::<ReplyView>::empty()) == next_step(live, Seq::<ReplyView>::empty()));
    assert(dialogue(first) == next_step(live, first));
    assert(dialogue(second) == next_step(live, second));
}

/// Each call of `next` on a fresh enumeration yields what the delivery expects of it.
proof fn lemma_yields_from(delivery: Delivery, calls: nat)
    ensures
        yields(true, delivery, calls).len() == calls,
        forall|call: int|
            0 <= call < calls ==> #[trigger] yields(true, delivery, calls)[call]
                == delivery.expected(call as nat),
    decreases calls,
{
    if calls > 0 {
        lemma_pull(true, delivery);
        let rest = delivery.after(Command::RecvOutput);
        let rest_calls = (calls - 1) as nat;
        if delivery.outputs.len() > 0 {
            lemma_yields_from(rest, rest_calls);
            assert forall|call: int| 0 <= call < calls implies #[trigger] yields(
                true,
                delivery,
                calls,
            )[call] == delivery.expected(call as nat) by {
                if call > 0 {
                    assert(yields(true, delivery, calls)[call] == yields(true, rest, rest_calls)[call
                        - 1]);
                    assert(rest.expected((call - 1) as nat) == delivery.expected(call as nat));
                }
            }
        } else {
            lemma_yields_ended(rest, rest_calls);
        }
    }
}

/// An enumeration that is not live yields the end at every call.
proof fn lemma_yields_ended(delivery: Delivery, calls: nat)
    ensures
        yields(false, delivery, calls).len() == calls,
        forall|call: int|
            0 <= call < calls ==> #[trigger] yields(false, delivery, calls)[call] == None::<
                Result<OutputView, ErrorView>,
            >,
    decreases calls,
{
    if calls > 0 {
        lemma_pull(false, delivery);
        lemma_yields_ended(delivery, (calls - 1) as nat);
    }
}

/// Against a list of n outputs that ends cleanly, the first n calls of `next` yield the
/// outputs in their order, and every later call yields the end: no call yields an error.
pub proof fn lemma_clean_list(delivery: Delivery, calls: nat)
    requires
        delivery.failure is None,
    ensures
        yields(true, delivery, calls).len() == calls,
        forall|call: int|
            0 <= call < calls ==> #[trigger] yields(true, delivery, calls)[call] == (if call
                < delivery.outputs.len() {
                Some(Ok::<OutputView, ErrorView>(delivery.outputs[call]))
            } else {
                None
            }),
{
    lemma_yields_from(delivery, calls);
}

/// Against a list that breaks off after k outputs, the first k calls of `next` yield the
/// outputs in their order, the next call yields the error, with the detail that the connection
/// recorded, and every later call yields the end: the error comes once.
pub proof fn lemma_broken_list(delivery: Delivery, detail: DetailView, calls: nat)
    requires
        delivery.failure == Some(detail),
    ensures
        yields(true, delivery, calls).len() == calls,
        forall|call: int|
            0 <= call < calls ==> #[trigger] yields(true, delivery, calls)[call] == (if call
                < delivery.outputs.len() {
                Some(Ok::<OutputView, ErrorView>(delivery.outputs[call]))
            } else if call == delivery.outputs.len() {
                Some(Err(ErrorView::StreamError(detail)))
            } else {
                None
            }),
{
    lemma_yields_from(delivery, calls);
}

/// Against a daemon that has no outputs, the first call of `next` yields the end.
pub proof fn lemma_empty_list(delivery: Delivery)
    requires
        delivery.outputs.len() == 0,
        delivery.failure is None,
    ensures
        yields(true, delivery, 1) == seq![None::<Result<OutputView, ErrorView>>],
{
    lemma_yields_from(delivery, 1);
    assert(yields(true, delivery, 1) =~= seq![None::<Result<OutputView, ErrorView>>]);
}

/// Whether an enumeration is still live after `calls` calls of `next`.
pub open spec fn live_after(live: bool, delivery: Delivery, calls: nat) -> bool
    decreases calls,
{
    if calls == 0 {
        live
    } else {
        match pull(live, delivery) {
            Some((item, rest)) => live_after(
                live && !ends(Step::Done(item)),
                rest,
                (calls - 1) as nat,
            ),
            None => false,
        }
    }
}

/// An enumeration stays live for as long as each of its calls has yielded an output: against a
/// list of n outputs it is live after n calls or fewer, and after no more.
pub proof fn lemma_live_until_the_end(delivery: Delivery, calls: nat)
    ensures
        live_after(true, delivery, calls) == (calls <= delivery.outputs.len()),
    decreases calls,
{
    if calls > 0 {
        lemma_pull(true, delivery);
        let rest = delivery.after(Command::RecvOutput);
        let rest_calls = (calls - 1) as nat;
        if delivery.outputs.len() > 0 {
            lemma_live_until_the_end(rest, rest_calls);
        } else {
            lemma_ended_stays_ended(rest, rest_calls);
        }
    }
}

/// An enumeration that is not live does not come to life again.
proof fn lemma_ended_stays_ended(delivery: Delivery, calls: nat)
    ensures
        !live_after(false, delivery, calls),
    decreases calls,
{
    if calls > 0 {
        lemma_pull(false, delivery);
        lemma_ended_stays_ended(delivery, (calls - 1) as nat);
    }
}

/// While an enumeration is live on a connection, a command on that connection is refused,
/// whatever the answers are, and nothing is asked of the connection.
pub proof fn lemma_refused_while_live(
    outputs: MpdOutputs,
    conn: MpdConnection,
    command: Command,
    replies: Seq<ReplyView>,
)
    requires
        outputs.live(&conn),
    ensures
        run_step(conn.in_flight(), command, replies) == Step::Done(
            Err::<(), ErrorView>(ErrorView::ResponseInFlight),
        ),
{
}

/// Switching an output on and then off, on a connection that is free, asks the daemon to
/// enable and then to disable the output of the handle's id. The step of each call follows
/// from the answers to that call alone, and the handle is after both calls what it was
/// before: neither what the first call was answered nor its result has any part in the
/// second, and the state that the handle reports is not touched.
pub proof fn lemma_on_then_off(output: OutputView, on: Seq<ReplyView>, off: Seq<ReplyView>)
    ensures
        ({
            let (after_on, first) = enable_outcome(output, false, true, on);
            let (after_off, second) = enable_outcome(after_on, false, false, off);
            &&& first == run_step(false, Command::EnableOutput(output.id), on)
            &&& second == run_step(false, Command::DisableOutput(output.id), off)
            &&& after_on == output
            &&& after_off == output
        }),
{
}

/// No dialogue of this library asks a third question, whatever the connection answers: to
/// start an enumeration takes one answer at most, to take an output or to run a command two.
pub proof fn lemma_dialogues_end(
    in_flight: bool,
    live: bool,
    command: Command,
    replies: Seq<ReplyView>,
)
    ensures
        replies.len() >= 1 ==> start_step(in_flight, replies) is Done,
        replies.len() >= 2 ==> next_step(live, replies) is Done,
        replies.len() >= 2 ==> run_step(in_flight, command, replies) is Done,
{
}

} // verus!
