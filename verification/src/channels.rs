//! The wire between the render thread and the network thread: two unbounded
//! channels, one for each direction.
//!
//! A floating-point value travels as its IEEE 754 bit pattern: `u32` for a
//! single-precision value, `u64` for a double-precision one.

use crossbeam_channel::{Receiver, Sender, TryRecvError};
use vstd::prelude::*;

verus! {

/// Messages from the network thread to the render thread. `S` is the type of
/// the text that a message carries; in contracts it is `Seq<char>`.
#[derive(Debug, Clone)]
#[allow(inconsistent_fields)]
pub enum NetEvent<S = String> {
    /// Progress of the connection, shown in the HUD.
    Status(S),
    /// The shard accepted the session.
    SessionOpened { player_id: u32, persistent_id: u32, origin_x: u64, origin_z: u64, shard_id: u32 },
    /// The shard rejected the session.
    AuthFailed { reason: u8 },
    /// Periodic state of the local player, relative to the shard's origin.
    StateAck { server_tick: u32, x: u64, y: u64, z: u64, hp: u32, stamina: u64 },
    /// An entity moved, relative to the shard's origin.
    EntityMoved { entity_id: u32, x: u32, y: u32, z: u32, orientation: u32, source_shard_hash: u32 },
    /// Damage landed on an entity.
    HitConfirm { target_id: u32, damage: u32, target_hp: u32 },
    /// Full health of an entity.
    EntityHealth { entity_id: u32, hp: u32, max_hp: u32 },
    /// Combat state of an entity.
    EntityStateChanged { entity_id: u32, state_id: u16, param_a: u32 },
    /// The server rejected an action.
    ActionRejected { reason: u8 },
    /// The session is being moved to another shard; the local player is
    /// dead-reckoned until that shard's first `StateAck`.
    HandoffStarted,
    /// The session is gone.
    Disconnected,
    /// Round-trip time in milliseconds.
    RttSample(u32),
}

impl View for NetEvent<String> {
    type V = NetEvent<Seq<char>>;

    open spec fn view(&self) -> NetEvent<Seq<char>> {
        match *self {
            NetEvent::Status(s) => NetEvent::Status(s@),
            NetEvent::SessionOpened { player_id, persistent_id, origin_x, origin_z, shard_id } => {
                NetEvent::SessionOpened { player_id, persistent_id, origin_x, origin_z, shard_id }
            },
            NetEvent::AuthFailed { reason } => NetEvent::AuthFailed { reason },
            NetEvent::StateAck { server_tick, x, y, z, hp, stamina } => {
                NetEvent::StateAck { server_tick, x, y, z, hp, stamina }
            },
            NetEvent::EntityMoved { entity_id, x, y, z, orientation, source_shard_hash } => {
                NetEvent::EntityMoved { entity_id, x, y, z, orientation, source_shard_hash }
            },
            NetEvent::HitConfirm { target_id, damage, target_hp } => {
                NetEvent::HitConfirm { target_id, damage, target_hp }
            },
            NetEvent::EntityHealth { entity_id, hp, max_hp } => {
                NetEvent::EntityHealth { entity_id, hp, max_hp }
            },
            NetEvent::EntityStateChanged { entity_id, state_id, param_a } => {
                NetEvent::EntityStateChanged { entity_id, state_id, param_a }
            },
            NetEvent::ActionRejected { reason } => NetEvent::ActionRejected { reason },
            NetEvent::HandoffStarted => NetEvent::HandoffStarted,
            NetEvent::Disconnected => NetEvent::Disconnected,
            NetEvent::RttSample(ms) => NetEvent::RttSample(ms),
        }
    }
}

/// Messages from the render thread to the network thread.
#[derive(Debug, Clone, Copy, PartialEq, Eq, Structural)]
pub enum GuiCmd {
    /// Movement as a unit vector in world space, the facing in radians, and a
    /// button mask.
    Move { move_x: u32, move_z: u32, orientation: u32, buttons: u32 },
    /// A one-shot action, by its protocol code.
    Action { action_type: u8 },
    /// The viewer is shutting down.
    Quit,
}

/// What a look into a channel brought.
#[derive(Debug, Clone)]
pub enum Received<T> {
    /// The next message.
    Got(T),
    /// No message is waiting.
    Empty,
    /// No message is waiting and the other side is gone.
    Closed,
}

/// The sending half of a channel.
#[verifier::external_type_specification]
#[verifier::external_body]
#[verifier::reject_recursive_types(T)]
pub struct ExSender<T>(crossbeam_channel::Sender<T>);

/// The receiving half of a channel.
#[verifier::external_type_specification]
#[verifier::external_body]
#[verifier::reject_recursive_types(T)]
pub struct ExReceiver<T>(crossbeam_channel::Receiver<T>);

/// The two are the ends of one unbounded channel of events, and it has no others.
pub uninterp spec fn event_ends(tx: Sender<NetEvent>, rx: Receiver<NetEvent>) -> bool;

/// The two are the ends of one unbounded channel of commands, and it has no
/// others.
pub uninterp spec fn command_ends(tx: Sender<GuiCmd>, rx: Receiver<GuiCmd>) -> bool;

/// The sending end of an unbounded channel of events.
pub open spec fn is_event_end(tx: Sender<NetEvent>) -> bool {
    exists|rx: Receiver<NetEvent>| event_ends(tx, rx)
}

/// The sending end of an unbounded channel of commands.
pub open spec fn is_command_end(tx: Sender<GuiCmd>) -> bool {
    exists|rx: Receiver<GuiCmd>| command_ends(tx, rx)
}

/// The events that were handed to the channel through this end, in order,
/// since the channel was opened.
pub uninterp spec fn events_sent(tx: Sender<NetEvent>) -> Seq<NetEvent<Seq<char>>>;

/// The commands that were handed to the channel through this end, in order,
/// since the channel was opened.
pub uninterp spec fn commands_sent(tx: Sender<GuiCmd>) -> Seq<GuiCmd>;

/// Whether the channel accepted each of the events that were handed to it
/// through this end.
pub uninterp spec fn event_answers(tx: Sender<NetEvent>) -> Seq<bool>;

/// Whether the channel accepted each of the commands that were handed to it
/// through this end.
pub uninterp spec fn command_answers(tx: Sender<GuiCmd>) -> Seq<bool>;

/// What each look into the channel through this end brought, in order, since
/// the channel was opened.
pub uninterp spec fn event_looks(rx: Receiver<NetEvent>) -> Seq<Received<NetEvent<Seq<char>>>>;

/// What each look into the channel through this end brought, in order, since
/// the channel was opened.
pub uninterp spec fn command_looks(rx: Receiver<GuiCmd>) -> Seq<Received<GuiCmd>>;

/// All events that the channel of this end carries from its opening to its
/// close, in order.
pub uninterp spec fn event_stream(rx: Receiver<NetEvent>) -> Seq<NetEvent<Seq<char>>>;

/// All commands that the channel of this end carries from its opening to its
/// close, in order.
pub uninterp spec fn command_stream(rx: Receiver<GuiCmd>) -> Seq<GuiCmd>;

/// The messages that were accepted, of those that were handed over.
pub open spec fn accepted_among<T>(sent: Seq<T>, answers: Seq<bool>) -> Seq<T>
    decreases sent.len(),
{
    if sent.len() == 0 {
        seq![]
    } else {
        let before = accepted_among(sent.drop_last(), answers.drop_last());
        if answers.last() {
            before.push(sent.last())
        } else {
            before
        }
    }
}

/// The messages that a run of looks brought.
pub open spec fn brought<T>(looks: Seq<Received<T>>) -> Seq<T> {
    looks.filter_map(
        |look: Received<T>|
            match look {
                Received::Got(message) => Some(message),
                _ => None,
            },
    )
}

/// The last look found the other side gone.
pub open spec fn ends_closed<T>(looks: Seq<Received<T>>) -> bool {
    looks.len() > 0 && looks.last() is Closed
}

/// The last message was refused.
pub open spec fn ends_refused(answers: Seq<bool>) -> bool {
    answers.len() > 0 && !answers.last()
}

/// The model of what a look brought.
pub open spec fn look_model(got: Received<NetEvent>) -> Received<NetEvent<Seq<char>>> {
    match got {
        Received::Got(event) => Received::Got(event@),
        Received::Empty => Received::Empty,
        Received::Closed => Received::Closed,
    }
}

/// The two ends of a channel of events keep step: what was accepted through the
/// one, and what was brought through the other, is how the stream begins; once a
/// look finds the other side gone, all of it was brought; and once a message is
/// refused, all of it was accepted.
pub open spec fn events_in_step(tx: Sender<NetEvent>, rx: Receiver<NetEvent>) -> bool {
    &&& event_ends(tx, rx)
    &&& events_sent(tx).len() == event_answers(tx).len()
    &&& accepted_among(events_sent(tx), event_answers(tx)).is_prefix_of(event_stream(rx))
    &&& brought(event_looks(rx)).is_prefix_of(event_stream(rx))
    &&& ends_closed(event_looks(rx)) ==> brought(event_looks(rx)) == event_stream(rx)
    &&& ends_refused(event_answers(tx)) ==> accepted_among(events_sent(tx), event_answers(tx))
        == event_stream(rx)
}

/// The two ends of a channel of commands keep step.
pub open spec fn commands_in_step(tx: Sender<GuiCmd>, rx: Receiver<GuiCmd>) -> bool {
    &&& command_ends(tx, rx)
    &&& commands_sent(tx).len() == command_answers(tx).len()
    &&& accepted_among(commands_sent(tx), command_answers(tx)).is_prefix_of(command_stream(rx))
    &&& brought(command_looks(rx)).is_prefix_of(command_stream(rx))
    &&& ends_closed(command_looks(rx)) ==> brought(command_looks(rx)) == command_stream(rx)
    &&& ends_refused(command_answers(tx)) ==> accepted_among(commands_sent(tx), command_answers(tx))
        == command_stream(rx)
}

/// Calls `crossbeam_channel::unbounded` for events. Believed of it: the two
/// halves that it hands out are the ends of one channel without a bound, and the
/// only ones; nothing has gone through either.
#[verifier::external_body]
fn unbounded_events() -> (ends: (Sender<NetEvent>, Receiver<NetEvent>))
    ensures
        event_ends(ends.0, ends.1),
        events_sent(ends.0) == Seq::<NetEvent<Seq<char>>>::empty(),
        event_answers(ends.0) == Seq::<bool>::empty(),
        event_looks(ends.1) == Seq::<Received<NetEvent<Seq<char>>>>::empty(),
{
    crossbeam_channel::unbounded()
}

/// Calls `crossbeam_channel::unbounded` for commands. Believed of it: the two
/// halves that it hands out are the ends of one channel without a bound, and the
/// only ones; nothing has gone through either.
#[verifier::external_body]
fn unbounded_commands() -> (ends: (Sender<GuiCmd>, Receiver<GuiCmd>))
    ensures
        command_ends(ends.0, ends.1),
        commands_sent(ends.0) == Seq::<GuiCmd>::empty(),
        command_answers(ends.0) == Seq::<bool>::empty(),
        command_looks(ends.1) == Seq::<Received<GuiCmd>>::empty(),
{
    crossbeam_channel::unbounded()
}

/// Calls `crossbeam_channel::Receiver::try_recv` for an event; the call does not
/// block. Believed of it: it is one look through this end, and what it brings is
/// what that look brought; the end stays an end of its channel, which carries
/// what it carries; and through the only receiving end the messages come in the
/// order of the channel, none left out and none twice; it finds the other side
/// gone only when nothing is left to bring and nothing more can come. Whether a
/// message is there yet is left unsaid: that rests on the other thread.
#[verifier::external_body]
pub(crate) fn receive_event(rx: &mut Receiver<NetEvent>) -> (got: Received<NetEvent>)
    ensures
        event_looks(*final(rx)) == event_looks(*old(rx)).push(look_model(got)),
        event_stream(*final(rx)) == event_stream(*old(rx)),
        forall|tx: Sender<NetEvent>|
            #[trigger] event_ends(tx, *final(rx)) == event_ends(tx, *old(rx)),
        forall|tx: Sender<NetEvent>| #[trigger]
            event_ends(tx, *final(rx)) ==> brought(event_looks(*final(rx))).is_prefix_of(
                event_stream(*final(rx)),
            ),
        forall|tx: Sender<NetEvent>| #[trigger]
            event_ends(tx, *final(rx)) && got is Closed ==> brought(event_looks(*final(rx)))
                == event_stream(*final(rx)),
{
    match rx.try_recv() {
        Ok(event) => Received::Got(event),
        Err(TryRecvError::Empty) => Received::Empty,
        Err(TryRecvError::Disconnected) => Received::Closed,
    }
}

/// Calls `crossbeam_channel::Receiver::try_recv` for a command; the call does
/// not block. Believed of it: it is one look through this end, and what it
/// brings is what that look brought; the end stays an end of its channel, which
/// carries what it carries; and through the only receiving end the messages come
/// in the order of the channel, none left out and none twice; it finds the other
/// side gone only when nothing is left to bring and nothing more can come.
/// Whether a message is there yet is left unsaid: that rests on the other thread.
#[verifier::external_body]
pub(crate) fn receive_command(rx: &mut Receiver<GuiCmd>) -> (got: Received<GuiCmd>)
    ensures
        command_looks(*final(rx)) == command_looks(*old(rx)).push(got),
        command_stream(*final(rx)) == command_stream(*old(rx)),
        forall|tx: Sender<GuiCmd>|
            #[trigger] command_ends(tx, *final(rx)) == command_ends(tx, *old(rx)),
        forall|tx: Sender<GuiCmd>| #[trigger]
            command_ends(tx, *final(rx)) ==> brought(command_looks(*final(rx))).is_prefix_of(
                command_stream(*final(rx)),
            ),
        forall|tx: Sender<GuiCmd>| #[trigger]
            command_ends(tx, *final(rx)) && got is Closed ==> brought(command_looks(*final(rx)))
                == command_stream(*final(rx)),
{
    match rx.try_recv() {
        Ok(cmd) => Received::Got(cmd),
        Err(TryRecvError::Empty) => Received::Empty,
        Err(TryRecvError::Disconnected) => Received::Closed,
    }
}

/// Calls `crossbeam_channel::Sender::send` with an event. The channel has no
/// bound, so the call does not block. Believed of it: the event has been handed
/// to the channel through this end, and the answer is the channel's; the end
/// stays an end of its channel; and what was accepted through the only sending
/// end is what the channel carries, in that order; a refusal is final, so that
/// nothing more is carried after it. Which answer comes is left unsaid: that
/// rests on the other thread.
#[verifier::external_body]
pub(crate) fn send_event(tx: &mut Sender<NetEvent>, event: NetEvent) -> (accepted: bool)
    requires
        is_event_end(*old(tx)),
    ensures
        events_sent(*final(tx)) == events_sent(*old(tx)).push(event@),
        event_answers(*final(tx)) == event_answers(*old(tx)).push(accepted),
        forall|rx: Receiver<NetEvent>|
            #[trigger] event_ends(*final(tx), rx) == event_ends(*old(tx), rx),
        forall|rx: Receiver<NetEvent>| #[trigger]
            event_ends(*final(tx), rx) ==> accepted_among(
                events_sent(*final(tx)),
                event_answers(*final(tx)),
            ).is_prefix_of(event_stream(rx)),
        forall|rx: Receiver<NetEvent>| #[trigger]
            event_ends(*final(tx), rx) && !accepted ==> accepted_among(
                events_sent(*final(tx)),
                event_answers(*final(tx)),
            ) == event_stream(rx),
{
    tx.send(event).is_ok()
}

/// Calls `crossbeam_channel::Sender::send` with a command. The channel has no
/// bound, so the call does not block. Believed of it: the command has been
/// handed to the channel through this end, and the answer is the channel's; the
/// end stays an end of its channel; and what was accepted through the only
/// sending end is what the channel carries, in that order; a refusal is final, so
/// that nothing more is carried after it. Which answer comes is left unsaid: that
/// rests on the other thread.
#[verifier::external_body]
pub(crate) fn send_command(tx: &mut Sender<GuiCmd>, cmd: GuiCmd) -> (accepted: bool)
    requires
        is_command_end(*old(tx)),
    ensures
        commands_sent(*final(tx)) == commands_sent(*old(tx)).push(cmd),
        command_answers(*final(tx)) == command_answers(*old(tx)).push(accepted),
        forall|rx: Receiver<GuiCmd>|
            #[trigger] command_ends(*final(tx), rx) == command_ends(*old(tx), rx),
        forall|rx: Receiver<GuiCmd>| #[trigger]
            command_ends(*final(tx), rx) ==> accepted_among(
                commands_sent(*final(tx)),
                command_answers(*final(tx)),
            ).is_prefix_of(command_stream(rx)),
        forall|rx: Receiver<GuiCmd>| #[trigger]
            command_ends(*final(tx), rx) && !accepted ==> accepted_among(
                commands_sent(*final(tx)),
                command_answers(*final(tx)),
            ) == command_stream(rx),
{
    tx.send(cmd).is_ok()
}

/// The ends that the render thread holds.
pub struct GuiChannels {
    pub net_events: Receiver<NetEvent>,
    pub gui_cmds: Sender<GuiCmd>,
}

/// The ends that the network thread holds.
pub struct NetChannels {
    pub net_events: Sender<NetEvent>,
    pub gui_cmds: Receiver<GuiCmd>,
}

impl GuiChannels {
    /// The sending end belongs to an unbounded channel.
    pub open spec fn wf(&self) -> bool {
        is_command_end(self.gui_cmds)
    }
}

impl NetChannels {
    /// The sending end belongs to an unbounded channel.
    pub open spec fn wf(&self) -> bool {
        is_event_end(self.net_events)
    }
}

/// Opens the two channels, one for each direction. Nothing has gone through
/// them.
pub fn make_channels() -> (ends: (GuiChannels, NetChannels))
    ensures
        event_ends(ends.1.net_events, ends.0.net_events),
        command_ends(ends.0.gui_cmds, ends.1.gui_cmds),
        events_in_step(ends.1.net_events, ends.0.net_events),
        commands_in_step(ends.0.gui_cmds, ends.1.gui_cmds),
        events_sent(ends.1.net_events) == Seq::<NetEvent<Seq<char>>>::empty(),
        event_answers(ends.1.net_events) == Seq::<bool>::empty(),
        event_looks(ends.0.net_events) == Seq::<Received<NetEvent<Seq<char>>>>::empty(),
        commands_sent(ends.0.gui_cmds) == Seq::<GuiCmd>::empty(),
        command_answers(ends.0.gui_cmds) == Seq::<bool>::empty(),
        command_looks(ends.1.gui_cmds) == Seq::<Received<GuiCmd>>::empty(),
        ends.0.wf(),
        ends.1.wf(),
{
    let (ev_tx, ev_rx) = unbounded_events();
    let (cmd_tx, cmd_rx) = unbounded_commands();
    (
        GuiChannels { net_events: ev_rx, gui_cmds: cmd_tx },
        NetChannels { net_events: ev_tx, gui_cmds: cmd_rx },
    )
}

} // verus!
