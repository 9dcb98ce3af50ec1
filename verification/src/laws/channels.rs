//! What holds of the two channels together with what goes through them.

use crossbeam_channel::{Receiver, Sender};
use vstd::prelude::*;

use crate::channels::{GuiCmd, NetEvent, Received};

verus! {

/// What the render thread takes out of the channel of events is what the network
/// thread put in, in the same order, none left out and none twice: of the events
/// that were brought and those that were accepted, one list is how the other
/// begins; and where every answer was yes, all that was sent was accepted.
pub proof fn events_come_as_they_were_sent(tx: Sender<NetEvent>, rx: Receiver<NetEvent>)
    requires
        crate::channels::events_in_step(tx, rx),
    ensures
        ({
            let sent = crate::channels::accepted_among(
                crate::channels::events_sent(tx),
                crate::channels::event_answers(tx),
            );
            let taken = crate::channels::brought(crate::channels::event_looks(rx));
            if taken.len() <= sent.len() {
                taken.is_prefix_of(sent)
            } else {
                sent.is_prefix_of(taken)
            }
        }),
        (forall|i: int|
            0 <= i < crate::channels::event_answers(tx).len()
                ==> #[trigger] crate::channels::event_answers(tx)[i])
            ==> crate::channels::accepted_among(
            crate::channels::events_sent(tx),
            crate::channels::event_answers(tx),
        ) == crate::channels::events_sent(tx),
{
    if forall|i: int|
        0 <= i < crate::channels::event_answers(tx).len() ==> #[trigger] crate::channels::event_answers(
            tx,
        )[i] {
        nothing_is_lost_on_the_way(
            crate::channels::events_sent(tx),
            crate::channels::event_answers(tx),
        );
    }
    lemma_beginnings_agree(
        crate::channels::accepted_among(
            crate::channels::events_sent(tx),
            crate::channels::event_answers(tx),
        ),
        crate::channels::brought(crate::channels::event_looks(rx)),
        crate::channels::event_stream(rx),
    );
}

/// What the network thread takes out of the channel of commands is what the
/// render thread put in, in the same order, none left out and none twice; and
/// where every answer was yes, all that was sent was accepted.
pub proof fn commands_come_as_they_were_sent(tx: Sender<GuiCmd>, rx: Receiver<GuiCmd>)
    requires
        crate::channels::commands_in_step(tx, rx),
    ensures
        ({
            let sent = crate::channels::accepted_among(
                crate::channels::commands_sent(tx),
                crate::channels::command_answers(tx),
            );
            let taken = crate::channels::brought(crate::channels::command_looks(rx));
            if taken.len() <= sent.len() {
                taken.is_prefix_of(sent)
            } else {
                sent.is_prefix_of(taken)
            }
        }),
        (forall|i: int|
            0 <= i < crate::channels::command_answers(tx).len()
                ==> #[trigger] crate::channels::command_answers(tx)[i])
            ==> crate::channels::accepted_among(
            crate::channels::commands_sent(tx),
            crate::channels::command_answers(tx),
        ) == crate::channels::commands_sent(tx),
{
    if forall|i: int|
        0 <= i < crate::channels::command_answers(tx).len() ==> #[trigger] crate::channels::command_answers(
            tx,
        )[i] {
        nothing_is_lost_on_the_way(
            crate::channels::commands_sent(tx),
            crate::channels::command_answers(tx),
        );
    }
    lemma_beginnings_agree(
        crate::channels::accepted_among(
            crate::channels::commands_sent(tx),
            crate::channels::command_answers(tx),
        ),
        crate::channels::brought(crate::channels::command_looks(rx)),
        crate::channels::command_stream(rx),
    );
}

/// No event is lost at the end: once the render thread finds the network thread
/// gone, it has taken out all that was accepted; and once the network thread is
/// refused, nothing but what was accepted before can have been taken out.
pub proof fn no_event_is_lost_at_the_end(tx: Sender<NetEvent>, rx: Receiver<NetEvent>)
    requires
        crate::channels::events_in_step(tx, rx),
    ensures
        ({
            let accepted = crate::channels::accepted_among(
                crate::channels::events_sent(tx),
                crate::channels::event_answers(tx),
            );
            let taken = crate::channels::brought(crate::channels::event_looks(rx));
            let looks = crate::channels::event_looks(rx);
            let answers = crate::channels::event_answers(tx);
            &&& looks.len() > 0 && looks[looks.len() - 1] is Closed ==> accepted.is_prefix_of(taken)
            &&& answers.len() > 0 && !answers[answers.len() - 1] ==> taken.is_prefix_of(accepted)
        }),
{
}

/// No command is lost at the end: once the network thread finds the render thread
/// gone, it has taken out all that was accepted; and once the render thread is
/// refused, nothing but what was accepted before can have been taken out.
pub proof fn no_command_is_lost_at_the_end(tx: Sender<GuiCmd>, rx: Receiver<GuiCmd>)
    requires
        crate::channels::commands_in_step(tx, rx),
    ensures
        ({
            let accepted = crate::channels::accepted_among(
                crate::channels::commands_sent(tx),
                crate::channels::command_answers(tx),
            );
            let taken = crate::channels::brought(crate::channels::command_looks(rx));
            let looks = crate::channels::command_looks(rx);
            let answers = crate::channels::command_answers(tx);
            &&& looks.len() > 0 && looks[looks.len() - 1] is Closed ==> accepted.is_prefix_of(taken)
            &&& answers.len() > 0 && !answers[answers.len() - 1] ==> taken.is_prefix_of(accepted)
        }),
{
}

/// Of two beginnings of one sequence the shorter is how the longer begins.
proof fn lemma_beginnings_agree<T>(a: Seq<T>, b: Seq<T>, whole: Seq<T>)
    requires
        a.is_prefix_of(whole),
        b.is_prefix_of(whole),
    ensures
        b.len() <= a.len() ==> b.is_prefix_of(a),
        a.len() <= b.len() ==> a.is_prefix_of(b),
{
    if b.len() <= a.len() {
        assert(b =~= a.subrange(0, b.len() as int));
    }
    if a.len() <= b.len() {
        assert(a =~= b.subrange(0, a.len() as int));
    }
}

/// Where the channel accepted everything, what was accepted is all that was sent.
pub proof fn nothing_is_lost_on_the_way<T>(sent: Seq<T>, answers: Seq<bool>)
    requires
        sent.len() == answers.len(),
        forall|i: int| 0 <= i < answers.len() ==> #[trigger] answers[i],
    ensures
        crate::channels::accepted_among(sent, answers) == sent,
    decreases sent.len(),
{
    if sent.len() > 0 {
        assert forall|i: int| 0 <= i < answers.len() - 1 implies #[trigger] answers.drop_last()[i] by {
            assert(answers[i]);
        }
        nothing_is_lost_on_the_way(sent.drop_last(), answers.drop_last());
        assert(answers[answers.len() - 1]);
        assert(sent.drop_last().push(sent.last()) =~= sent);
    }
}

/// A message that is accepted joins those that were, and one that is refused does
/// not.
pub proof fn accepted_messages_join_the_others<T>(
    sent: Seq<T>,
    answers: Seq<bool>,
    message: T,
    accepted: bool,
)
    ensures
        crate::channels::accepted_among(sent.push(message), answers.push(accepted))
            == if accepted {
            crate::channels::accepted_among(sent, answers).push(message)
        } else {
            crate::channels::accepted_among(sent, answers)
        },
        crate::channels::accepted_among(Seq::<T>::empty(), answers).len() == 0,
{
    assert(sent.push(message).drop_last() =~= sent);
    assert(answers.push(accepted).drop_last() =~= answers);
}

/// A look that brings a message adds it to those that were brought, and one that
/// brings none adds nothing.
pub proof fn looks_bring_what_they_bring<T>(looks: Seq<Received<T>>, look: Received<T>)
    ensures
        look matches Received::Got(message) ==> crate::channels::brought(looks.push(look))
            == crate::channels::brought(looks).push(message),
        !(look is Got) ==> crate::channels::brought(looks.push(look)) == crate::channels::brought(
            looks,
        ),
        crate::channels::brought(Seq::<Received<T>>::empty()).len() == 0,
{
    assert(looks.push(look).drop_last() =~= looks);
}

/// A frame leaves no waiting event behind: it goes on looking as long as looks
/// bring events, and ends with the first look that brings none.
pub proof fn a_frame_looks_until_nothing_comes(
    looks: Seq<Received<NetEvent<Seq<char>>>>,
    i: int,
)
    requires
        crate::world::drained(looks),
        looks.len() < u64::MAX,
    ensures
        looks.len() > 0,
        !(looks[looks.len() - 1] is Got),
        0 <= i < looks.len() - 1 ==> looks[i] is Got,
{
}

/// What was handed over is as much of the messages as was answered, in order, and
/// comes after what was handed over before.
pub proof fn as_much_is_sent_as_is_answered(
    before: Sender<NetEvent>,
    after: Sender<NetEvent>,
    events: Seq<NetEvent<Seq<char>>>,
    answers: Seq<bool>,
    i: int,
)
    requires
        crate::driver::handed(before, after, events, answers),
        answers.len() <= events.len(),
    ensures
        ({
            let old_sent = crate::channels::events_sent(before);
            let sent = crate::channels::events_sent(after);
            let old_answers = crate::channels::event_answers(before);
            let all_answers = crate::channels::event_answers(after);
            &&& sent.len() == old_sent.len() + answers.len()
            &&& all_answers.len() == old_answers.len() + answers.len()
            &&& 0 <= i < old_sent.len() ==> sent[i] == old_sent[i]
            &&& 0 <= i < old_answers.len() ==> all_answers[i] == old_answers[i]
            &&& 0 <= i < answers.len() ==> sent[old_sent.len() + i] == events[i]
            &&& 0 <= i < answers.len() ==> all_answers[old_answers.len() + i] == answers[i]
        }),
{
}

} // verus!
