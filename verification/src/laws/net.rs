//! What holds of the network thread over all of its steps.

use vstd::prelude::*;

use crate::channels::{GuiCmd, NetEvent, Received};
use crate::driver::{
    Action, ActionModel, Driver, DriverModel, MoveInput, Outgoing, Phase, Reply, ReplyModel,
    SessionInfo, GRACE_POLLS,
};
use crate::net::{GameEvent, Handoff, Spot};

verus! {

/// The driver's invariant: the old session is forwarded throughout a handoff
/// and until it is closed on the way out, at most in a reroute besides, and
/// never elsewhere; a grace period has polls left.
pub open spec fn consistent(d: DriverModel) -> bool {
    &&& crate::machine::handing_off(d.phase) ==> d.bridging
    &&& d.phase is RerouteSettling || d.phase is Unbridging || d.phase is Abandoning ==> d.bridging
    &&& d.bridging ==> crate::machine::handing_off(d.phase) || crate::machine::rerouting(d.phase)
        || d.phase is Unbridging || d.phase is Abandoning
    &&& d.phase matches Phase::Grace { left, .. } ==> 1 <= left <= GRACE_POLLS
}

/// A new driver meets the invariant, before and after its start.
pub proof fn a_new_driver_is_consistent(
    cfg: crate::config::ViewerConfig<Seq<char>>,
    emit: crate::driver::EmitModel,
    next: ActionModel,
)
    ensures
        consistent(crate::machine::fresh(cfg)),
        consistent(
            crate::machine::turn(crate::machine::fresh(cfg), Phase::ConnectingAuth, emit, next).0,
        ),
{
}

/// Every step keeps the invariant, and so does the loss of the renderer.
pub proof fn steps_keep_consistent(d: DriverModel, reply: ReplyModel, now: u64)
    requires
        consistent(d),
    ensures
        consistent(crate::machine::step(d, reply, now).0),
        consistent(crate::machine::abandoned(d).0),
{
}

/// The forwarding from the old session is begun only when there is none,
/// stopped only when there is one, and never outlives the thread.
pub proof fn the_bridge_is_closed(d: DriverModel, reply: ReplyModel, now: u64)
    requires
        consistent(d),
    ensures
        ({
            let (after, s) = crate::machine::step(d, reply, now);
            &&& s.next is BeginHandoff ==> !d.bridging && after.bridging
            &&& s.next is StopBridge ==> d.bridging
            &&& after.bridging && !d.bridging ==> s.next is BeginHandoff
            &&& s.next is Exit ==> !after.bridging
        }),
        crate::machine::abandoned(d).1.next is StopBridge ==> d.bridging,
{
}

/// The thread leaves exactly once: leaving turns to the final phase, and in the
/// final phase nothing happens any more.
pub proof fn leaving_is_final(d: DriverModel, reply: ReplyModel, now: u64)
    ensures
        ({
            let (after, s) = crate::machine::step(d, reply, now);
            &&& d.phase is Done ==> after == d && s.next is Keep && s.emit.len() == 0
            &&& !(d.phase is Done) ==> (s.next is Exit <==> after.phase is Done)
        }),
{
}

/// Leaving the hot loop is announced by the last message.
pub proof fn leaving_the_hot_loop_is_announced(d: DriverModel, reply: ReplyModel, now: u64)
    requires
        !crate::machine::setting_up(d.phase),
    ensures
        ({
            let (_, s) = crate::machine::step(d, reply, now);
            s.next is Exit ==> s.emit.len() > 0 && s.emit.last() == crate::machine::status(
                "net loop exited"@,
            )
        }),
{
}

/// The status shows every failure that counts: whatever the thread was doing,
/// but for the two attempts that may fail, the first message gives the reason.
pub proof fn failures_are_shown(d: DriverModel, why: Seq<char>, now: u64)
    ensures
        ({
            let (_, s) = crate::machine::step(d, Reply::Failed(why), now);
            ||| s.next is Keep
            ||| d.phase is Registering
            ||| d.phase is LoadingState
            ||| s.emit.len() > 0 && exists|prefix: Seq<char>|
                s.emit[0] == #[trigger] crate::machine::status(prefix + why)
        }),
{
    let (_, s) = crate::machine::step(d, Reply::Failed(why), now);
    if !(s.next is Keep || d.phase is Registering || d.phase is LoadingState) {
        let prefix = match d.phase {
            Phase::ConnectingAuth => "auth-service unreachable: "@,
            Phase::LoggingIn => "login failed: "@,
            Phase::ConnectingGateway => "gateway unreachable: "@,
            Phase::Assigning => "gateway rejection: "@,
            Phase::ConnectingShard => "shard connect failed: "@,
            Phase::HandoffConnecting => "✗ Handoff connect failed: "@,
            Phase::RerouteAssigning => "✗ Gateway re-route failed: "@,
            _ => "✗ Reconnect failed: "@,
        };
        assert(s.emit[0] == crate::machine::status(prefix + why));
    }
}

/// The status shows every session that was denied: the first message gives the
/// cause, or all that was said.
pub proof fn denials_are_shown(d: DriverModel, cause: Seq<char>, text: Seq<char>, now: u64)
    requires
        d.phase is Opening || d.phase is HandoffOpening || d.phase is RerouteOpening,
    ensures
        ({
            let (_, s) = crate::machine::step(d, Reply::Denied { cause, text }, now);
            s.emit.len() > 0 && exists|prefix: Seq<char>|
                {
                    ||| s.emit[0] == #[trigger] crate::machine::status(prefix + text)
                    ||| s.emit[0] == crate::machine::status(prefix + cause)
                }
        }),
{
    let (_, s) = crate::machine::step(d, Reply::Denied { cause, text }, now);
    if d.phase is HandoffOpening {
        let prefix = "✗ Handoff auth failed: "@;
        let shown = crate::machine::status(prefix + text);
        assert(s.emit[0] == crate::machine::status(prefix + cause));
    } else {
        let prefix = if d.phase is Opening {
            "session auth failed: "@
        } else {
            "✗ Session auth after gateway retry failed: "@
        };
        assert(s.emit[0] == crate::machine::status(prefix + text));
    }
}

/// What is forwarded of a batch never tells that the session is gone.
proof fn lemma_loss_is_not_forwarded(events: Seq<GameEvent<Seq<char>>>, i: int)
    requires
        0 <= i < crate::net::forwarded_batch(events).len(),
    ensures
        !(crate::net::forwarded_batch(events)[i] is Disconnected),
        !(crate::net::forwarded_batch(events)[i] is HandoffStarted),
        !(crate::net::forwarded_batch(events)[i] is SessionOpened),
{
    let f = |ev: GameEvent<Seq<char>>| crate::net::forwarded(ev);
    let out = crate::net::forwarded_batch(events);
    assert(out.contains(out[i]));
    events.lemma_filter_map_contains(f, out[i]);
}

/// The renderer is told that the session is gone only when the thread is on its
/// way out: neither a lost session nor a handoff shows before its recovery has
/// failed.
pub proof fn the_loss_shows_only_on_the_way_out(
    d: DriverModel,
    reply: ReplyModel,
    now: u64,
    i: int,
)
    requires
        0 <= i < crate::machine::step(d, reply, now).1.emit.len(),
        crate::machine::step(d, reply, now).1.emit[i].event is Disconnected,
    ensures
        ({
            let (after, _) = crate::machine::step(d, reply, now);
            after.phase is Done || after.phase is Unbridging
        }),
{
    if d.phase is Polling {
        if let Reply::Events { events, rtt_us } = reply {
            let emit = crate::machine::batch_emit(events, d.last_rtt_us, rtt_us);
            let shown = crate::net::forwarded_batch(events);
            assert forall|j: int| 0 <= j < emit.len() implies !((#[trigger] emit[j]).event
                is Disconnected) by {
                if shown.len() > 0 && rtt_us != d.last_rtt_us {
                    if j > 0 {
                        lemma_loss_is_not_forwarded(events, j - 1);
                        assert(emit[j].event == shown[j - 1]);
                    }
                } else {
                    lemma_loss_is_not_forwarded(events, j);
                    assert(emit[j].event == shown[j]);
                }
            }
        }
    }
}

/// The renderer must take what is forwarded of a polled batch and what it is told
/// of a handoff, and nothing else is required of it.
pub proof fn batches_and_handoffs_are_required(
    d: DriverModel,
    reply: ReplyModel,
    now: u64,
    i: int,
)
    requires
        consistent(d),
        0 <= i < crate::machine::step(d, reply, now).1.emit.len(),
        crate::machine::step(d, reply, now).1.emit[i].required,
    ensures
        d.phase is Polling || d.bridging || crate::machine::step(d, reply, now).1.next
            is BeginHandoff,
{
}

/// A handoff does not go on without the renderer: the step that begins it, the
/// step that turns it to the gateway, and the step that tells of its new session
/// each hold a required message.
pub proof fn a_handoff_needs_the_renderer(d: DriverModel, reply: ReplyModel, now: u64)
    requires
        consistent(d),
    ensures
        ({
            let (after, s) = crate::machine::step(d, reply, now);
            let begins = s.next is BeginHandoff;
            let turns = d.bridging && s.next is AskGateway;
            let opens = d.phase is HandoffSettling && s.next is Tick || d.phase is RerouteOpening
                && after.phase is RerouteSettling;
            begins || turns || opens ==> s.emit.len() > 0 && s.emit.last().required
        }),
{
}

/// Without the renderer the thread leaves, and does nothing else on its way: it
/// closes the old session if that is still forwarded, stops the game client, and
/// is gone.
pub proof fn a_lost_renderer_ends_the_thread(d: DriverModel, first: u64, second: u64)
    ensures
        ({
            let (gone, s) = crate::machine::abandoned(d);
            let (stopping, t) = if s.next is StopBridge {
                crate::machine::step(gone, Reply::Done, first)
            } else {
                (gone, s)
            };
            let (after, u) = crate::machine::step(stopping, Reply::Done, second);
            &&& s.next is StopBridge || s.next is StopClient
            &&& s.emit.len() == 0
            &&& t.next is StopClient
            &&& t.emit.len() == 0
            &&& u.next is Exit
            &&& after.phase is Done
            &&& !after.bridging
        }),
{
}

/// A handoff in a polled batch is followed, whatever else the batch holds.
pub proof fn a_handoff_wins(
    d: DriverModel,
    events: Seq<GameEvent<Seq<char>>>,
    rtt_us: u64,
    now: u64,
    target: Handoff<Seq<char>>,
)
    requires
        d.phase is Polling,
        crate::net::first_handoff(events) == Some(target),
    ensures
        ({
            let (after, s) = crate::machine::step(d, Reply::Events { events, rtt_us }, now);
            &&& after.phase is HandoffConnecting
            &&& s.next == (Action::BeginHandoff {
                target,
                persistent_id: d.persistent_id,
                jwt: d.jwt,
            })
        }),
{
}

/// Of a polled batch everything that is forwarded reaches the renderer's queue,
/// in its order, whatever the batch leads to.
pub proof fn a_batch_is_shown_in_full(
    d: DriverModel,
    events: Seq<GameEvent<Seq<char>>>,
    rtt_us: u64,
    now: u64,
    i: int,
)
    requires
        d.phase is Polling,
        0 <= i < crate::net::forwarded_batch(events).len(),
    ensures
        ({
            let (_, s) = crate::machine::step(d, Reply::Events { events, rtt_us }, now);
            let skipped: int = if rtt_us != d.last_rtt_us {
                1
            } else {
                0
            };
            &&& skipped + i < s.emit.len()
            &&& s.emit[skipped + i] == (Outgoing {
                event: crate::net::forwarded_batch(events)[i],
                required: true,
            })
        }),
{
}

/// A batch's first handoff is the earliest of its handoffs.
pub proof fn first_handoff_is_the_earliest(events: Seq<GameEvent<Seq<char>>>, i: int)
    requires
        0 <= i < events.len(),
        events[i] is ShardHandoffReceived,
        forall|j: int| 0 <= j < i ==> !(#[trigger] events[j] is ShardHandoffReceived),
    ensures
        crate::net::first_handoff(events) == crate::net::handoff_of(events[i]),
    decreases events.len(),
{
    let rest = events.drop_last();
    if i == events.len() - 1 {
        assert forall|j: int| 0 <= j < rest.len() implies !(#[trigger] rest[j]
            is ShardHandoffReceived) by {
            assert(rest[j] == events[j]);
        }
        no_handoff_is_found(rest);
    } else {
        assert forall|j: int| 0 <= j < i implies !(#[trigger] rest[j] is ShardHandoffReceived) by {
            assert(rest[j] == events[j]);
        }
        first_handoff_is_the_earliest(rest, i);
    }
}

/// A batch without handoffs has no first one.
pub proof fn no_handoff_is_found(events: Seq<GameEvent<Seq<char>>>)
    requires
        forall|j: int| 0 <= j < events.len() ==> !(#[trigger] events[j] is ShardHandoffReceived),
    ensures
        crate::net::first_handoff(events) is None,
    decreases events.len(),
{
    if events.len() > 0 {
        let rest = events.drop_last();
        assert forall|j: int| 0 <= j < rest.len() implies !(#[trigger] rest[j]
            is ShardHandoffReceived) by {
            assert(rest[j] == events[j]);
        }
        no_handoff_is_found(rest);
    }
}

/// The position that the driver keeps is that of the latest state of the local
/// player.
pub proof fn last_ack_is_the_latest(events: Seq<GameEvent<Seq<char>>>, i: int)
    requires
        0 <= i < events.len(),
        events[i] is StateAck,
        forall|j: int| i < j < events.len() ==> !(#[trigger] events[j] is StateAck),
    ensures
        events[i] matches GameEvent::StateAck { x, z, .. } && crate::net::last_ack(events) == Some(
            Spot::Wide { x, z },
        ),
    decreases events.len(),
{
    if i < events.len() - 1 {
        let rest = events.drop_last();
        assert(!(events[events.len() - 1] is StateAck));
        assert forall|j: int| i < j < rest.len() implies !(#[trigger] rest[j] is StateAck) by {
            assert(rest[j] == events[j]);
        }
        last_ack_is_the_latest(rest, i);
    }
}

/// The driver after sleeping and polling once for each of `batches`, and its
/// last step.
pub open spec fn after_polls(
    d: DriverModel,
    batches: Seq<Seq<GameEvent<Seq<char>>>>,
    now: u64,
) -> (DriverModel, crate::driver::StepModel)
    decreases batches.len(),
{
    let woken = crate::machine::step(d, Reply::Done, now).0;
    let polled = crate::machine::step(
        woken,
        Reply::Events { events: batches.first(), rtt_us: d.last_rtt_us },
        now,
    );
    if batches.len() <= 1 {
        polled
    } else {
        after_polls(polled.0, batches.drop_first(), now)
    }
}

/// A lost session without a handoff enters the grace period, of a quarter of a
/// second in all: ten polls, 25 milliseconds apart.
pub proof fn a_lost_session_gets_grace(
    d: DriverModel,
    events: Seq<GameEvent<Seq<char>>>,
    rtt_us: u64,
    now: u64,
)
    requires
        d.phase is Polling,
        crate::net::first_handoff(events) is None,
        crate::net::session_lost(events),
    ensures
        ({
            let (after, s) = crate::machine::step(d, Reply::Events { events, rtt_us }, now);
            &&& after.phase == (Phase::Grace { left: 10, asleep: true })
            &&& s.next == (Action::<Seq<char>>::Sleep { ms: 25 })
        }),
{
}

/// A grace period in which no handoff comes ends in a reroute to the last known
/// position, and not before its polls are used up.
pub proof fn grace_ends_in_a_reroute(
    d: DriverModel,
    left: u8,
    batches: Seq<Seq<GameEvent<Seq<char>>>>,
    now: u64,
)
    requires
        d.phase == (Phase::Grace { left, asleep: true }),
        1 <= batches.len() <= left,
        forall|i: int|
            0 <= i < batches.len() ==> crate::net::first_handoff(#[trigger] batches[i]) is None,
    ensures
        ({
            let (after, s) = after_polls(d, batches, now);
            if batches.len() == left {
                &&& after.phase is RerouteAssigning
                &&& s.next == (Action::AskGateway { jwt: d.jwt, spot: d.last_pos })
            } else {
                &&& after.phase == (Phase::Grace {
                    left: (left - batches.len()) as u8,
                    asleep: true,
                })
                &&& s.next == (Action::<Seq<char>>::Sleep { ms: 25 })
            }
        }),
    decreases batches.len(),
{
    assert(crate::net::first_handoff(batches[0]) is None);
    if batches.len() > 1 {
        let woken = crate::machine::step(d, Reply::Done, now).0;
        let polled = crate::machine::step(
            woken,
            Reply::Events { events: batches.first(), rtt_us: d.last_rtt_us },
            now,
        ).0;
        let rest = batches.drop_first();
        assert forall|i: int| 0 <= i < rest.len() implies crate::net::first_handoff(
            #[trigger] rest[i],
        ) is None by {
            assert(rest[i] == batches[i + 1]);
        }
        grace_ends_in_a_reroute(polled, (left - 1) as u8, rest, now);
    }
}

/// A handoff that comes within the grace period is followed.
pub proof fn a_late_handoff_is_followed(
    d: DriverModel,
    left: u8,
    batches: Seq<Seq<GameEvent<Seq<char>>>>,
    target: Handoff<Seq<char>>,
    now: u64,
)
    requires
        d.phase == (Phase::Grace { left, asleep: true }),
        1 <= batches.len() <= left,
        forall|i: int|
            0 <= i < batches.len() - 1 ==> crate::net::first_handoff(#[trigger] batches[i]) is None,
        crate::net::first_handoff(batches.last()) == Some(target),
    ensures
        ({
            let (after, s) = after_polls(d, batches, now);
            &&& after.phase is HandoffConnecting
            &&& s.next == (Action::BeginHandoff {
                target,
                persistent_id: d.persistent_id,
                jwt: d.jwt,
            })
        }),
    decreases batches.len(),
{
    if batches.len() > 1 {
        assert(crate::net::first_handoff(batches[0]) is None);
        let woken = crate::machine::step(d, Reply::Done, now).0;
        let polled = crate::machine::step(
            woken,
            Reply::Events { events: batches.first(), rtt_us: d.last_rtt_us },
            now,
        ).0;
        let rest = batches.drop_first();
        assert forall|i: int| 0 <= i < rest.len() - 1 implies crate::net::first_handoff(
            #[trigger] rest[i],
        ) is None by {
            assert(rest[i] == batches[i + 1]);
        }
        a_late_handoff_is_followed(polled, (left - 1) as u8, rest, target, now);
    }
}

/// A session that neither moves nor ends is rerouted exactly if the last state
/// of the local player lies longer ago than the limit; a batch that brings one
/// is never too late.
pub proof fn silence_is_rerouted(
    d: DriverModel,
    events: Seq<GameEvent<Seq<char>>>,
    rtt_us: u64,
    now: u64,
)
    requires
        d.phase is Polling,
        crate::net::first_handoff(events) is None,
        !crate::net::session_lost(events),
    ensures
        ({
            let (after, s) = crate::machine::step(d, Reply::Events { events, rtt_us }, now);
            let silent = crate::net::last_ack(events) is None && crate::clock::elapsed(
                now,
                d.last_state_ack,
            ) > 3_000_000_000;
            &&& silent ==> s.next == (Action::AskGateway { jwt: d.jwt, spot: d.last_pos })
            &&& !silent ==> s.next is Tick && after.phase is Ticking
        }),
{
}

/// The session with which the driver goes on when `reply` comes.
pub open spec fn session_at_hand(d: DriverModel, reply: ReplyModel) -> Option<SessionInfo> {
    match d.phase {
        Phase::HandoffSettling { session } => Some(session),
        Phase::RerouteSettling { session } => Some(session),
        _ => match reply {
            Reply::Opened(session) => Some(session),
            _ => None,
        },
    }
}

/// A recovery that succeeds leaves the old session closed, the position at the
/// new origin, and the liveness clock at that moment.
pub proof fn a_recovery_starts_anew(d: DriverModel, reply: ReplyModel, now: u64)
    requires
        crate::machine::handing_off(d.phase) || crate::machine::rerouting(d.phase),
        crate::machine::step(d, reply, now).1.next is Tick,
    ensures
        ({
            let (after, _) = crate::machine::step(d, reply, now);
            &&& session_at_hand(d, reply) matches Some(session) && after.last_pos == (Spot::Wide {
                x: session.origin_x,
                z: session.origin_z,
            })
            &&& after.last_state_ack == now
            &&& !after.bridging
            &&& after.phase is Ticking
        }),
{
}

/// The renderer is told of every session that is opened, before the thread
/// goes on with it: a step that goes on either publishes the session or
/// follows the step that did.
pub proof fn each_session_is_published(d: DriverModel, session: SessionInfo, now: u64)
    ensures
        ({
            let (after, s) = crate::machine::step(d, Reply::Opened(session), now);
            let told = crate::machine::opened_event(session);
            &&& d.phase is Opening ==> s.emit == seq![crate::machine::notice(told)] && s.next
                is ReadCommand
            &&& d.phase is RerouteOpening ==> s.emit == seq![crate::machine::bulletin(d, told)]
            &&& d.phase is HandoffOpening ==> {
                let settled = crate::machine::step(after, Reply::Done, now).1;
                s.next is StopBridge && settled.emit == seq![crate::machine::demand(told)]
                    && settled.next is Tick
            }
        }),
{
}

/// Movement packets are at least the configured interval apart and carry the
/// latest input; pings are at least half a second apart; and the driver's
/// clocks are the times of the last ones.
pub proof fn sending_keeps_its_pace(d: DriverModel, reply: ReplyModel, now: u64)
    requires
        !(d.phase is Opening),
    ensures
        ({
            let (after, s) = crate::machine::step(d, reply, now);
            let moved = s.next matches Action::Tick { send_move: Some(_), .. };
            let pinged = s.next matches Action::Tick { ping: true, .. };
            &&& moved ==> crate::clock::elapsed(now, d.last_input_tx)
                >= crate::machine::input_interval_ns(d.cfg.client.input_hz) && after.last_input_tx
                == now
            &&& !moved ==> after.last_input_tx == d.last_input_tx
            &&& s.next matches Action::Tick { send_move: Some(m), .. } ==> m == after.input
            &&& pinged ==> crate::clock::elapsed(now, d.last_ping_tx) >= 500_000_000
                && after.last_ping_tx == now
            &&& !pinged ==> after.last_ping_tx == d.last_ping_tx
        }),
{
}

/// The settings never change, the token only with a login, the identity only
/// with the first session, the input only with a move.
pub proof fn what_stays(d: DriverModel, reply: ReplyModel, now: u64)
    ensures
        ({
            let (after, _) = crate::machine::step(d, reply, now);
            &&& after.cfg == d.cfg
            &&& !(d.phase is LoggingIn) ==> after.jwt == d.jwt
            &&& !(d.phase is Opening) ==> after.persistent_id == d.persistent_id
            &&& !(d.phase is Commands) ==> after.input == d.input
        }),
{
}

/// A quit, or the end of the command channel, stops the game client and then
/// leaves.
pub proof fn a_quit_stops_and_leaves(d: DriverModel, got: Received<GuiCmd>, now: u64, later: u64)
    requires
        d.phase is Commands,
        got is Closed || got == Received::Got(GuiCmd::Quit),
    ensures
        ({
            let (stopping, first) = crate::machine::step(d, Reply::Command(got), now);
            let (after, second) = crate::machine::step(stopping, Reply::Done, later);
            &&& first.next is StopClient
            &&& second.next is Exit
            &&& after.phase is Done
        }),
{
}

/// A move that is read takes effect at once, and the next one is read.
pub proof fn the_latest_move_counts(d: DriverModel, input: MoveInput, now: u64)
    requires
        d.phase is Commands,
    ensures
        ({
            let cmd = GuiCmd::Move {
                move_x: input.move_x,
                move_z: input.move_z,
                orientation: input.orientation,
                buttons: input.buttons,
            };
            let (after, s) = crate::machine::step(d, Reply::Command(Received::Got(cmd)), now);
            &&& after == (Driver { input, ..d })
            &&& s.next is ReadCommand
            &&& s.emit.len() == 0
        }),
{
}

/// What is forwarded from the shard that is being left is never a state of the
/// local player, an end or an opening of a session, or the start of a handoff.
pub proof fn the_bridge_leaves_out_the_own_state(events: Seq<GameEvent<Seq<char>>>, i: int)
    requires
        0 <= i < crate::net::bridged_batch(events).len(),
    ensures
        ({
            let ev = crate::net::bridged_batch(events)[i];
            &&& !(ev is StateAck)
            &&& !(ev is Disconnected)
            &&& !(ev is SessionOpened)
            &&& !(ev is HandoffStarted)
        }),
{
    let f = |ev: GameEvent<Seq<char>>| crate::net::bridged(ev);
    let out = crate::net::bridged_batch(events);
    assert(out.contains(out[i]));
    events.lemma_filter_map_contains(f, out[i]);
}

/// The forwarding from the old session goes on until it is told to stop or the
/// renderer is gone; once told, it polls exactly once more; and only then, or
/// without the renderer, is the old game client stopped.
pub proof fn the_bridge_polls_once_more(told: bool, alive: bool, drained: bool)
    ensures
        crate::machine::bridge_step(told, alive, drained) is StopOld ==> !alive || (told
            && drained),
        crate::machine::bridge_step(false, true, false) is Poll,
        crate::machine::bridge_step(true, true, false) is LastPoll,
        crate::machine::bridge_step(true, alive, true) is StopOld,
        crate::machine::bridge_step(told, false, drained) is StopOld,
{
}

/// Of an event of the game client nothing is dropped but the opening of a
/// session and a handoff.
pub proof fn only_lifecycle_is_dropped(ev: GameEvent<Seq<char>>)
    ensures
        crate::net::mapped(ev) is None <==> ev is SessionOpened || ev is ShardHandoffReceived,
{
}

/// The driver after a run of replies, each with its time.
pub open spec fn run(d: DriverModel, replies: Seq<(ReplyModel, u64)>) -> DriverModel
    decreases replies.len(),
{
    if replies.len() == 0 {
        d
    } else {
        let before = run(d, replies.drop_last());
        crate::machine::step(before, replies.last().0, replies.last().1).0
    }
}

/// The invariant holds after every run.
pub proof fn runs_keep_consistent(d: DriverModel, replies: Seq<(ReplyModel, u64)>)
    requires
        consistent(d),
    ensures
        consistent(run(d, replies)),
    decreases replies.len(),
{
    if replies.len() > 0 {
        runs_keep_consistent(d, replies.drop_last());
        steps_keep_consistent(
            run(d, replies.drop_last()),
            replies.last().0,
            replies.last().1,
        );
    }
}

/// The set-up, once it is over, does not come again.
pub proof fn the_setup_is_once(d: DriverModel, reply: ReplyModel, now: u64)
    requires
        !crate::machine::setting_up(d.phase),
    ensures
        !crate::machine::setting_up(crate::machine::step(d, reply, now).0.phase),
{
}

/// The step sends a movement packet.
pub open spec fn sends_move(d: DriverModel, reply: ReplyModel, now: u64) -> bool {
    crate::machine::step(d, reply, now).1.next matches Action::Tick { send_move: Some(_), .. }
}

/// No step of the run sends a movement packet.
pub open spec fn sends_no_move(d: DriverModel, replies: Seq<(ReplyModel, u64)>) -> bool
    decreases replies.len(),
{
    replies.len() > 0 ==> {
        let before = replies.drop_last();
        sends_no_move(d, before) && !sends_move(
            run(d, before),
            replies.last().0,
            replies.last().1,
        )
    }
}

/// Between two movement packets, however many steps lie between them, passes at
/// least the configured interval.
pub proof fn moves_are_spaced(
    d: DriverModel,
    first: (ReplyModel, u64),
    between: Seq<(ReplyModel, u64)>,
    second: (ReplyModel, u64),
)
    requires
        !crate::machine::setting_up(d.phase),
        sends_move(d, first.0, first.1),
        sends_no_move(crate::machine::step(d, first.0, first.1).0, between),
        sends_move(
            run(crate::machine::step(d, first.0, first.1).0, between),
            second.0,
            second.1,
        ),
    ensures
        crate::clock::elapsed(second.1, first.1) >= crate::machine::input_interval_ns(
            d.cfg.client.input_hz,
        ),
{
    sending_keeps_its_pace(d, first.0, first.1);
    the_setup_is_once(d, first.0, first.1);
    let sent = crate::machine::step(d, first.0, first.1).0;
    lemma_clock_stands(sent, between);
    sending_keeps_its_pace(run(sent, between), second.0, second.1);
}

/// The step sends a ping.
pub open spec fn sends_ping(d: DriverModel, reply: ReplyModel, now: u64) -> bool {
    crate::machine::step(d, reply, now).1.next matches Action::Tick { ping: true, .. }
}

/// No step of the run sends a ping.
pub open spec fn sends_no_ping(d: DriverModel, replies: Seq<(ReplyModel, u64)>) -> bool
    decreases replies.len(),
{
    replies.len() > 0 ==> {
        let before = replies.drop_last();
        sends_no_ping(d, before) && !sends_ping(
            run(d, before),
            replies.last().0,
            replies.last().1,
        )
    }
}

/// Between two pings, however many steps lie between them, passes at least half a
/// second.
pub proof fn pings_are_spaced(
    d: DriverModel,
    first: (ReplyModel, u64),
    between: Seq<(ReplyModel, u64)>,
    second: (ReplyModel, u64),
)
    requires
        !crate::machine::setting_up(d.phase),
        sends_ping(d, first.0, first.1),
        sends_no_ping(crate::machine::step(d, first.0, first.1).0, between),
        sends_ping(
            run(crate::machine::step(d, first.0, first.1).0, between),
            second.0,
            second.1,
        ),
    ensures
        crate::clock::elapsed(second.1, first.1) >= 500_000_000,
{
    sending_keeps_its_pace(d, first.0, first.1);
    the_setup_is_once(d, first.0, first.1);
    let sent = crate::machine::step(d, first.0, first.1).0;
    lemma_ping_clock_stands(sent, between);
    sending_keeps_its_pace(run(sent, between), second.0, second.1);
}

/// The clock of the pings stands while none is sent.
proof fn lemma_ping_clock_stands(d: DriverModel, replies: Seq<(ReplyModel, u64)>)
    requires
        !crate::machine::setting_up(d.phase),
        sends_no_ping(d, replies),
    ensures
        run(d, replies).last_ping_tx == d.last_ping_tx,
        !crate::machine::setting_up(run(d, replies).phase),
    decreases replies.len(),
{
    if replies.len() > 0 {
        let before = replies.drop_last();
        lemma_ping_clock_stands(d, before);
        sending_keeps_its_pace(run(d, before), replies.last().0, replies.last().1);
        the_setup_is_once(run(d, before), replies.last().0, replies.last().1);
    }
}

/// The clock of the movement packets stands while none is sent.
proof fn lemma_clock_stands(d: DriverModel, replies: Seq<(ReplyModel, u64)>)
    requires
        !crate::machine::setting_up(d.phase),
        sends_no_move(d, replies),
    ensures
        run(d, replies).last_input_tx == d.last_input_tx,
        run(d, replies).cfg == d.cfg,
        !crate::machine::setting_up(run(d, replies).phase),
    decreases replies.len(),
{
    if replies.len() > 0 {
        let before = replies.drop_last();
        lemma_clock_stands(d, before);
        sending_keeps_its_pace(run(d, before), replies.last().0, replies.last().1);
        the_setup_is_once(run(d, before), replies.last().0, replies.last().1);
    }
}

/// The event tells of the session: its ids, its shard and its origin.
pub open spec fn tells_of(ev: NetEvent<Seq<char>>, session: SessionInfo) -> bool {
    ev matches NetEvent::SessionOpened { player_id, persistent_id, origin_x, origin_z, shard_id }
        && {
        &&& player_id == session.player_id
        &&& persistent_id == session.persistent_id
        &&& origin_x == session.origin_x
        &&& origin_z == session.origin_z
        &&& shard_id == session.shard_id
    }
}

/// The renderer is told of a session as the shard opened it, whether it is the
/// first, the target of a handoff, or the end of a reroute.
pub proof fn the_renderer_is_told_the_opened_session(
    d: DriverModel,
    session: SessionInfo,
    now: u64,
    later: u64,
)
    ensures
        tells_of(crate::machine::opened_event(session), session),
        ({
            let (after, s) = crate::machine::step(d, Reply::Opened(session), now);
            &&& d.phase is Opening || d.phase is RerouteOpening ==> s.emit.len() == 1 && tells_of(
                s.emit[0].event,
                session,
            )
            &&& d.phase is HandoffOpening ==> {
                let settled = crate::machine::step(after, Reply::Done, later).1;
                settled.emit.len() == 1 && tells_of(settled.emit[0].event, session)
            }
        }),
{
}

/// A batch in which anything tells that the session is gone, wherever in the
/// batch it stands, and nothing tells of a handoff, begins the grace period.
pub proof fn a_loss_anywhere_in_a_batch_is_noticed(
    d: DriverModel,
    events: Seq<GameEvent<Seq<char>>>,
    rtt_us: u64,
    now: u64,
    i: int,
)
    requires
        d.phase is Polling,
        0 <= i < events.len(),
        events[i] is Disconnected || events[i] is SessionAuthFailed,
        forall|j: int| 0 <= j < events.len() ==> !(#[trigger] events[j] is ShardHandoffReceived),
    ensures
        ({
            let (after, s) = crate::machine::step(d, Reply::Events { events, rtt_us }, now);
            &&& after.phase == (Phase::Grace { left: 10, asleep: true })
            &&& s.next == (Action::<Seq<char>>::Sleep { ms: 25 })
        }),
{
    no_handoff_is_found(events);
}

/// A batch in which nothing tells that the session is gone, nor of a handoff,
/// begins no grace period: the round goes on, or the silence has lasted too long.
pub proof fn no_loss_is_made_up(
    d: DriverModel,
    events: Seq<GameEvent<Seq<char>>>,
    rtt_us: u64,
    now: u64,
)
    requires
        d.phase is Polling,
        forall|j: int|
            0 <= j < events.len() ==> !(#[trigger] events[j] is Disconnected) && !(events[j]
                is SessionAuthFailed) && !(events[j] is ShardHandoffReceived),
    ensures
        ({
            let (after, s) = crate::machine::step(d, Reply::Events { events, rtt_us }, now);
            &&& s.next is Tick || s.next is AskGateway
            &&& s.next is Tick ==> after.phase is Ticking
            &&& s.next is AskGateway ==> now > d.last_state_ack + 3_000_000_000
            &&& now <= d.last_state_ack + 3_000_000_000 ==> s.next is Tick
        }),
{
    no_handoff_is_found(events);
}

/// A batch that brings a state of the local player keeps the round going, however
/// long there was silence before, and the driver notes where and when it was.
pub proof fn a_state_ends_the_silence(
    d: DriverModel,
    events: Seq<GameEvent<Seq<char>>>,
    rtt_us: u64,
    now: u64,
    i: int,
)
    requires
        d.phase is Polling,
        0 <= i < events.len(),
        events[i] is StateAck,
        forall|j: int| i < j < events.len() ==> !(#[trigger] events[j] is StateAck),
    ensures
        ({
            let (after, s) = crate::machine::step(d, Reply::Events { events, rtt_us }, now);
            &&& after.last_state_ack == now
            &&& events[i] matches GameEvent::StateAck { x, z, .. } && after.last_pos
                == (Spot::Wide { x, z })
            &&& !(s.next is AskGateway)
        }),
{
    last_ack_is_the_latest(events, i);
}

/// A batch without a state of the local player leaves the known position and the
/// time of the last state.
pub proof fn without_a_state_the_position_stays(
    d: DriverModel,
    events: Seq<GameEvent<Seq<char>>>,
    rtt_us: u64,
    now: u64,
)
    requires
        d.phase is Polling,
        forall|j: int| 0 <= j < events.len() ==> !(#[trigger] events[j] is StateAck),
    ensures
        ({
            let (after, _) = crate::machine::step(d, Reply::Events { events, rtt_us }, now);
            &&& after.last_pos == d.last_pos
            &&& after.last_state_ack == d.last_state_ack
        }),
{
    lemma_no_ack(events);
}

/// A batch without states has no last one.
proof fn lemma_no_ack(events: Seq<GameEvent<Seq<char>>>)
    requires
        forall|j: int| 0 <= j < events.len() ==> !(#[trigger] events[j] is StateAck),
    ensures
        crate::net::last_ack(events) is None,
    decreases events.len(),
{
    if events.len() > 0 {
        let rest = events.drop_last();
        assert(!(events[events.len() - 1] is StateAck));
        assert forall|j: int| 0 <= j < rest.len() implies !(#[trigger] rest[j] is StateAck) by {
            assert(rest[j] == events[j]);
        }
        lemma_no_ack(rest);
    }
}

/// The handoff that is followed is the earliest of the batch, with the address,
/// the shard and the token that it names, under the identity and the token of the
/// driver; and the renderer reads where it leads.
pub proof fn the_earliest_handoff_is_followed(
    d: DriverModel,
    events: Seq<GameEvent<Seq<char>>>,
    rtt_us: u64,
    now: u64,
    i: int,
)
    requires
        d.phase is Polling || d.phase matches Phase::Grace { asleep: false, .. },
        0 <= i < events.len(),
        events[i] is ShardHandoffReceived,
        forall|j: int| 0 <= j < i ==> !(#[trigger] events[j] is ShardHandoffReceived),
    ensures
        ({
            let (after, s) = crate::machine::step(d, Reply::Events { events, rtt_us }, now);
            &&& after.phase is HandoffConnecting
            &&& after.bridging
            &&& events[i] matches GameEvent::ShardHandoffReceived {
                new_ip,
                new_port,
                new_shard_id,
                handoff_token,
            } && {
                &&& s.next matches Action::BeginHandoff { target, persistent_id, jwt } && {
                    &&& target.ip == new_ip
                    &&& target.port == new_port
                    &&& target.shard_id == new_shard_id
                    &&& target.token == handoff_token
                    &&& persistent_id == d.persistent_id
                    &&& jwt == d.jwt
                }
                &&& s.emit.len() >= 2
                &&& s.emit[s.emit.len() - 2].event == NetEvent::Status(
                    "⟳ Handoff → shard 0x"@ + (crate::text::hexadecimal(new_shard_id as nat)
                        + " at "@ + new_ip + ":"@ + crate::text::decimal(new_port as nat)),
                )
                &&& s.emit[s.emit.len() - 1].event is HandoffStarted
                &&& d.phase is Grace ==> s.emit.len() == 3 && s.emit[0].event == NetEvent::Status(
                    "⟳ Handoff (late) → shard 0x"@ + (crate::text::hexadecimal(
                        new_shard_id as nat,
                    ) + " at "@ + new_ip + ":"@ + crate::text::decimal(new_port as nat)),
                )
            }
        }),
{
    first_handoff_is_the_earliest(events, i);
}

/// An event of the game client reaches the renderer with every field as it was.
pub proof fn translation_keeps_every_field(ev: GameEvent<Seq<char>>)
    ensures
        ev matches GameEvent::SessionAuthFailed { reason } ==> crate::net::mapped(ev) == Some(
            NetEvent::<Seq<char>>::AuthFailed { reason },
        ),
        ev matches GameEvent::StateAck { server_tick, x, y, z, hp, stamina } ==> crate::net::mapped(
            ev,
        ) == Some(NetEvent::<Seq<char>>::StateAck { server_tick, x, y, z, hp, stamina }),
        ev matches GameEvent::EntityMoved {
            entity_id,
            x,
            y,
            z,
            orientation,
            source_shard_hash,
        } ==> crate::net::mapped(ev) == Some(
            NetEvent::<Seq<char>>::EntityMoved {
                entity_id,
                x,
                y,
                z,
                orientation,
                source_shard_hash,
            },
        ),
        ev matches GameEvent::HitConfirm { target_id, damage, target_hp } ==> crate::net::mapped(
            ev,
        ) == Some(NetEvent::<Seq<char>>::HitConfirm { target_id, damage, target_hp }),
        ev matches GameEvent::EntityHealth { entity_id, hp, max_hp } ==> crate::net::mapped(ev)
            == Some(NetEvent::<Seq<char>>::EntityHealth { entity_id, hp, max_hp }),
        ev matches GameEvent::EntityStateChanged {
            entity_id,
            state_id,
            param_a,
        } ==> crate::net::mapped(ev) == Some(
            NetEvent::<Seq<char>>::EntityStateChanged { entity_id, state_id, param_a },
        ),
        ev matches GameEvent::ActionRejected { reason } ==> crate::net::mapped(ev) == Some(
            NetEvent::<Seq<char>>::ActionRejected { reason },
        ),
        ev is Disconnected ==> crate::net::mapped(ev) == Some(NetEvent::<Seq<char>>::Disconnected),
{
}

/// The hot loop holds back the lifecycle of a session alone, the bridge the own
/// state besides; whatever they let through is the translated event.
pub proof fn only_so_much_is_held_back(ev: GameEvent<Seq<char>>)
    ensures
        crate::net::forwarded(ev) is None <==> ev is SessionOpened || ev is ShardHandoffReceived
            || ev is Disconnected,
        crate::net::bridged(ev) is None <==> ev is SessionOpened || ev is ShardHandoffReceived
            || ev is Disconnected || ev is StateAck,
        crate::net::forwarded(ev) is Some ==> crate::net::forwarded(ev) == crate::net::mapped(ev),
        crate::net::bridged(ev) is Some ==> crate::net::bridged(ev) == crate::net::mapped(ev),
{
}

/// A batch is forwarded event by event and in order: what is forwarded of two
/// batches in a row is what is forwarded of the first and then of the second, and
/// of a batch of one event it is that event, if it is forwarded.
pub proof fn batches_are_forwarded_event_by_event(
    first: Seq<GameEvent<Seq<char>>>,
    second: Seq<GameEvent<Seq<char>>>,
    ev: GameEvent<Seq<char>>,
)
    ensures
        crate::net::forwarded_batch(first + second) == crate::net::forwarded_batch(first)
            + crate::net::forwarded_batch(second),
        crate::net::bridged_batch(first + second) == crate::net::bridged_batch(first)
            + crate::net::bridged_batch(second),
        crate::net::forwarded_batch(seq![ev]) == match crate::net::forwarded(ev) {
            Some(shown) => seq![shown],
            None => seq![],
        },
        crate::net::bridged_batch(seq![ev]) == match crate::net::bridged(ev) {
            Some(shown) => seq![shown],
            None => seq![],
        },
{
    lemma_filter_map_joined(first, second, |e: GameEvent<Seq<char>>| crate::net::forwarded(e));
    lemma_filter_map_joined(first, second, |e: GameEvent<Seq<char>>| crate::net::bridged(e));
    lemma_filter_map_single(ev, |e: GameEvent<Seq<char>>| crate::net::forwarded(e));
    lemma_filter_map_single(ev, |e: GameEvent<Seq<char>>| crate::net::bridged(e));
}

/// Filtering splits where sequences are joined.
pub(crate) proof fn lemma_filter_map_joined<A, B>(
    first: Seq<A>,
    second: Seq<A>,
    f: spec_fn(A) -> Option<B>,
)
    ensures
        (first + second).filter_map(f) == first.filter_map(f) + second.filter_map(f),
    decreases second.len(),
{
    if second.len() == 0 {
        assert(first + second =~= first);
        assert(second.filter_map(f) =~= seq![]);
        assert(first.filter_map(f) + second.filter_map(f) =~= first.filter_map(f));
    } else {
        assert((first + second).drop_last() =~= first + second.drop_last());
        lemma_filter_map_joined(first, second.drop_last(), f);
        assert((first + second).filter_map(f) =~= first.filter_map(f) + second.filter_map(f));
    }
}

/// Filtering a single item keeps or drops it.
pub(crate) proof fn lemma_filter_map_single<A, B>(x: A, f: spec_fn(A) -> Option<B>)
    ensures
        seq![x].filter_map(f) == match f(x) {
            Some(y) => seq![y],
            None => seq![],
        },
{
    reveal_with_fuel(Seq::filter_map, 2);
    assert(seq![x].drop_last() =~= seq![]);
    assert(seq![x].filter_map(f) =~= match f(x) {
        Some(y) => seq![y],
        None => seq![],
    });
}

/// A round that goes on tells the renderer what is forwarded of its batch and, if
/// it changed, the round-trip time in front, in whole milliseconds; and nothing
/// else. The time counts as told only if something was forwarded.
pub proof fn a_round_tells_the_batch_and_a_new_round_trip(
    d: DriverModel,
    events: Seq<GameEvent<Seq<char>>>,
    rtt_us: u64,
    now: u64,
)
    requires
        d.phase is Polling,
        crate::machine::step(d, Reply::Events { events, rtt_us }, now).1.next is Tick,
    ensures
        ({
            let (after, s) = crate::machine::step(d, Reply::Events { events, rtt_us }, now);
            let n = crate::net::forwarded_batch(events).len();
            &&& n == 0 ==> s.emit.len() == 0 && after.last_rtt_us == d.last_rtt_us
            &&& n > 0 ==> after.last_rtt_us == rtt_us
            &&& n > 0 && rtt_us == d.last_rtt_us ==> s.emit.len() == n
            &&& n > 0 && rtt_us != d.last_rtt_us ==> s.emit.len() == n + 1 && (
            s.emit[0].event matches NetEvent::RttSample(ms) && (rtt_us < 4_294_967_296_000 ==> ms
                * 1000 <= rtt_us < ms * 1000 + 1000))
        }),
{
}

/// The set-up asks for what it was given: the configured services, the account,
/// the token that the login issued, the stored position or else the configured
/// one, and the shard that was assigned.
pub proof fn the_setup_asks_for_what_it_was_given(
    cfg: crate::config::ViewerConfig<Seq<char>>,
    registered: ReplyModel,
    jwt: Seq<char>,
    stored: ReplyModel,
    ip: Seq<char>,
    port: u16,
    session: SessionInfo,
    now: u64,
)
    ensures
        ({
            let connecting = Driver {
                phase: Phase::ConnectingAuth,
                ..crate::machine::fresh(cfg)
            };
            let (d1, s1) = crate::machine::step(connecting, Reply::Done, now);
            let (d2, s2) = crate::machine::step(d1, registered, now);
            let (d3, s3) = crate::machine::step(d2, Reply::Token(jwt), now);
            let (d4, s4) = crate::machine::step(d3, stored, now);
            let (d5, s5) = crate::machine::step(d4, Reply::Done, now);
            let (d6, s6) = crate::machine::step(d5, Reply::Assigned { ip, port }, now);
            let (d7, s7) = crate::machine::step(d6, Reply::Done, now);
            let (d8, s8) = crate::machine::step(d7, Reply::Opened(session), now);
            &&& s1.next == (Action::Register { username: cfg.username, password: cfg.password })
            &&& s2.next == (Action::Login { username: cfg.username, password: cfg.password })
            &&& s3.next == (Action::LoadState { jwt })
            &&& s4.next == (Action::ConnectGateway { url: cfg.client.gateway_url })
            &&& s5.next matches Action::AskGateway { jwt: shown, spot } && shown == jwt && match stored {
                Reply::Saved { found: true, x, z } => spot == (Spot::Wide { x, z }),
                _ => spot == (Spot::Narrow { x: cfg.start_x, z: cfg.start_z }),
            }
            &&& s6.next == (Action::ConnectShard { ip, port, jwt })
            &&& s7.next is AwaitOpen
            &&& s8.next is ReadCommand
            &&& d8.phase is Commands
            &&& d8.persistent_id == session.persistent_id
            &&& d8.last_pos == (Spot::Wide { x: session.origin_x, z: session.origin_z })
            &&& d8.last_input_tx == now && d8.last_ping_tx == now && d8.last_state_ack == now
            &&& d8.jwt == jwt
            &&& d8.cfg == cfg
            &&& !d8.bridging
            &&& d8.last_rtt_us == 0
            &&& s1.emit.len() == 0 && s3.emit.len() == 0 && s5.emit.len() == 0 && s7.emit.len()
                == 0
            &&& s2.emit.len() == 1 && s2.emit[0].event == NetEvent::Status("logging in…"@)
            &&& s4.emit.len() == 1 && s4.emit[0].event == NetEvent::Status(
                "asking gateway for shard assignment…"@,
            )
            &&& s6.emit.len() == 1 && s6.emit[0].event == NetEvent::Status(
                "connecting to shard "@ + ip + ":"@ + crate::text::decimal(port as nat) + "…"@,
            )
        }),
{
}

/// What the status says in front of the reason for which a step failed.
pub open spec fn failure_heading(phase: Phase) -> Option<Seq<char>> {
    match phase {
        Phase::ConnectingAuth => Some("auth-service unreachable: "@),
        Phase::LoggingIn => Some("login failed: "@),
        Phase::ConnectingGateway => Some("gateway unreachable: "@),
        Phase::Assigning => Some("gateway rejection: "@),
        Phase::ConnectingShard => Some("shard connect failed: "@),
        Phase::HandoffConnecting => Some("✗ Handoff connect failed: "@),
        Phase::RerouteAssigning => Some("✗ Gateway re-route failed: "@),
        Phase::RerouteConnecting => Some("✗ Reconnect failed: "@),
        _ => None,
    }
}

/// A step of the set-up that fails says why and leaves; a step of a recovery that
/// fails says why, tells that the session is gone, and leaves, after the old
/// session is closed if it is still forwarded.
pub proof fn a_failure_says_why_and_leaves(d: DriverModel, why: Seq<char>, now: u64)
    requires
        failure_heading(d.phase) is Some,
    ensures
        ({
            let (after, s) = crate::machine::step(d, Reply::Failed(why), now);
            let setup = crate::machine::setting_up(d.phase);
            &&& failure_heading(d.phase) matches Some(heading) && s.emit.len() > 0
                && s.emit[0].event == NetEvent::Status(heading + why)
            &&& setup ==> s.emit.len() == 1 && s.next is Exit && after.phase is Done
            &&& !setup ==> s.emit.len() >= 2 && s.emit[1].event is Disconnected
            &&& !setup && d.bridging ==> s.next is StopBridge && after.phase is Unbridging
            &&& !setup && !d.bridging ==> s.next is Exit && after.phase is Done
        }),
{
}

/// A session that is denied is answered in the same way: in a handoff with the
/// cause alone, else with all that was said; a shard that drains turns a handoff
/// to the gateway and fails anything else.
pub proof fn a_denial_says_why_and_leaves(
    d: DriverModel,
    cause: Seq<char>,
    text: Seq<char>,
    now: u64,
)
    ensures
        ({
            let (after, s) = crate::machine::step(d, Reply::Denied { cause, text }, now);
            let (turned, t) = crate::machine::step(d, Reply::Draining(text), now);
            &&& d.phase is Opening ==> {
                &&& s.emit.len() == 1
                &&& s.emit[0].event == NetEvent::Status("session auth failed: "@ + text)
                &&& s.next is Exit
                &&& t == s
            }
            &&& d.phase is HandoffOpening ==> {
                &&& s.emit.len() >= 2
                &&& s.emit[0].event == NetEvent::Status("✗ Handoff auth failed: "@ + cause)
                &&& s.emit[1].event is Disconnected
                &&& t.next == (Action::AskGateway { jwt: d.jwt, spot: d.last_pos })
                &&& t.emit.len() == 1
                &&& t.emit[0].event == NetEvent::Status("⟳ Target draining — re-asking gateway…"@)
                &&& turned.phase is RerouteAssigning
                &&& turned.bridging == d.bridging
            }
            &&& d.phase is RerouteOpening ==> {
                &&& s.emit.len() >= 2
                &&& s.emit[0].event == NetEvent::Status(
                    "✗ Session auth after gateway retry failed: "@ + text,
                )
                &&& s.emit[1].event is Disconnected
                &&& t == s
            }
        }),
{
}

/// A reroute connects to the shard that the gateway assigned, waits for the
/// session, and goes on with it: at once, or after the old session is closed.
pub proof fn a_reroute_goes_where_it_was_sent(
    d: DriverModel,
    ip: Seq<char>,
    port: u16,
    session: SessionInfo,
    now: u64,
)
    requires
        d.phase is RerouteAssigning,
    ensures
        ({
            let (d1, s1) = crate::machine::step(d, Reply::Assigned { ip, port }, now);
            let (d2, s2) = crate::machine::step(d1, Reply::Done, now);
            let (d3, s3) = crate::machine::step(d2, Reply::Opened(session), now);
            let (d4, s4) = crate::machine::step(d3, Reply::Done, now);
            &&& s1.next == (Action::Reconnect { ip, port, jwt: d.jwt })
            &&& s2.next is AwaitOpen
            &&& s1.emit.len() == 0 && s2.emit.len() == 0
            &&& !d.bridging ==> s3.next is Tick && d3.phase is Ticking
            &&& d.bridging ==> s3.next is StopBridge && s4.next is Tick && s4.emit.len() == 0
                && !d4.bridging && d4.last_pos == (Spot::Wide {
                x: session.origin_x,
                z: session.origin_z,
            }) && d4.last_state_ack == now
        }),
{
}

/// A handoff that succeeds opens the new session while the old one is still
/// forwarded, then closes the old one, tells of the new one, and goes on.
pub proof fn a_handoff_keeps_the_old_session_until_the_new_one_is_open(
    d: DriverModel,
    session: SessionInfo,
    now: u64,
)
    requires
        d.phase is HandoffConnecting,
        d.bridging,
    ensures
        ({
            let (d1, s1) = crate::machine::step(d, Reply::Done, now);
            let (d2, s2) = crate::machine::step(d1, Reply::Opened(session), now);
            let (d3, s3) = crate::machine::step(d2, Reply::Done, now);
            &&& s1.next is AwaitOpen && s1.emit.len() == 0 && d1.bridging
            &&& s2.next is StopBridge && s2.emit.len() == 0 && d2.bridging
            &&& s3.next is Tick && s3.emit.len() == 1 && !d3.bridging && d3.phase is Ticking
            &&& tells_of(s3.emit[0].event, session)
            &&& d3.last_pos == (Spot::Wide { x: session.origin_x, z: session.origin_z })
            &&& d3.last_state_ack == now
        }),
{
}

/// A round reads commands until none waits, sends each action as it was asked
/// for, then polls; and after its end the next round begins with the commands.
pub proof fn a_round_takes_its_course(d: DriverModel, action_type: u8, left: u8, now: u64)
    ensures
        d.phase is Commands ==> {
            let (acting, s) = crate::machine::step(
                d,
                Reply::Command(Received::Got(GuiCmd::Action { action_type })),
                now,
            );
            let (back, t) = crate::machine::step(acting, Reply::Done, now);
            let (polling, u) = crate::machine::step(d, Reply::Command(Received::Empty), now);
            &&& s.next == (Action::<Seq<char>>::SendAction { action_type })
            &&& t.next is ReadCommand
            &&& back == d
            &&& u.next is PollEvents
            &&& polling == (Driver { phase: Phase::Polling, ..d })
            &&& s.emit.len() == 0 && t.emit.len() == 0 && u.emit.len() == 0
        },
        d.phase is Ticking ==> {
            let (after, s) = crate::machine::step(d, Reply::Done, now);
            s.next is ReadCommand && s.emit.len() == 0 && after == (Driver {
                phase: Phase::Commands,
                ..d
            })
        },
        d.phase == (Phase::Grace { left, asleep: true }) ==> {
            let (after, s) = crate::machine::step(d, Reply::Done, now);
            s.next is PollEvents && s.emit.len() == 0 && after == (Driver {
                phase: Phase::Grace { left, asleep: false },
                ..d
            })
        },
{
}

/// At the end of a round the latest input is sent exactly if its interval has
/// passed, a ping exactly if half a second has, and the thread sleeps 5 ms.
pub proof fn what_is_due_is_sent(
    d: DriverModel,
    events: Seq<GameEvent<Seq<char>>>,
    rtt_us: u64,
    now: u64,
)
    requires
        d.phase is Polling,
        d.last_input_tx <= now,
        d.last_ping_tx <= now,
        crate::machine::step(d, Reply::Events { events, rtt_us }, now).1.next is Tick,
    ensures
        crate::machine::step(d, Reply::Events { events, rtt_us }, now).1.next matches Action::Tick {
            send_move,
            ping,
            sleep_ms,
        } && {
            &&& send_move is Some <==> now - d.last_input_tx >= crate::machine::input_interval_ns(
                d.cfg.client.input_hz,
            )
            &&& send_move matches Some(m) ==> m == d.input
            &&& ping <==> now - d.last_ping_tx >= 500_000_000
            &&& sleep_ms == 5
        },
{
}

/// The interval is that of the configured rate, in whole microseconds: so many
/// intervals fit into a second, and no longer one would. A rate of zero counts as
/// one.
pub proof fn the_interval_fits_the_rate(input_hz: u32)
    ensures
        ({
            let interval = crate::machine::input_interval_ns(input_hz);
            &&& interval % 1000 == 0
            &&& input_hz >= 1 ==> input_hz * interval <= 1_000_000_000 < input_hz * (interval
                + 1000)
            &&& input_hz == 0 ==> interval == 1_000_000_000
        }),
{
    if input_hz >= 1 {
        let hz = input_hz as int;
        let q = 1_000_000int / hz;
        let interval = crate::machine::input_interval_ns(input_hz);
        assert(interval == q * 1000);
        assert(hz * q <= 1_000_000 < hz * (q + 1)) by (nonlinear_arith)
            requires
                hz >= 1,
                q == 1_000_000int / hz,
        ;
        assert(hz * (q * 1000) == (hz * q) * 1000) by (nonlinear_arith);
        assert(hz * (q * 1000 + 1000) == (hz * (q + 1)) * 1000) by (nonlinear_arith);
    }
}

/// A silence and a loss that are answered by a reroute say so first.
pub proof fn a_reroute_says_why(
    d: DriverModel,
    events: Seq<GameEvent<Seq<char>>>,
    rtt_us: u64,
    now: u64,
)
    requires
        d.phase is Polling || d.phase matches Phase::Grace { asleep: false, .. },
        crate::machine::step(d, Reply::Events { events, rtt_us }, now).1.next is AskGateway,
    ensures
        ({
            let (_, s) = crate::machine::step(d, Reply::Events { events, rtt_us }, now);
            let n = s.emit.len();
            &&& n >= 2
            &&& s.emit[n - 1].event == NetEvent::Status("⟳ Target draining — re-asking gateway…"@)
            &&& d.phase is Polling ==> s.emit[n - 2].event == NetEvent::Status(
                "⟳ StateAck stale — recovering via gateway"@,
            )
            &&& d.phase is Grace ==> n == 2 && s.emit[0].event == NetEvent::Status(
                "⟳ Disconnect — recovering via gateway"@,
            )
        }),
{
}

/// The loss of the renderer is found exactly by a required message that is
/// refused: everything is handed over as long as none is, and nothing after it.
pub proof fn a_refusal_of_a_required_message_tells(
    required: Seq<bool>,
    answers: Seq<bool>,
    alive: bool,
)
    requires
        crate::driver::reaches(required, answers, alive),
    ensures
        alive ==> answers.len() == required.len(),
        alive <==> forall|i: int|
            #![trigger answers[i]]
            0 <= i < answers.len() ==> !(required[i] && !answers[i]),
        !alive ==> 0 < answers.len() <= required.len() && required[answers.len() - 1]
            && !answers[answers.len() - 1],
        forall|i: int|
            #![trigger answers[i]]
            0 <= i < answers.len() - 1 ==> !(required[i] && !answers[i]),
{
    if !alive {
        assert(!answers[answers.len() - 1]);
        assert forall|i: int| #![trigger answers[i]] 0 <= i < answers.len() - 1 implies !(
        required[i] && !answers[i]) by {
            assert(answers.drop_last()[i] == answers[i]);
        }
    }
}

/// Everything that is bridged during a reroute must be accepted: the renderer is
/// there exactly if it accepted all of a batch, and nothing is handed over after
/// the first refusal.
pub proof fn every_bridged_message_must_be_accepted(
    n: nat,
    answers: Seq<bool>,
    alive: bool,
    i: int,
)
    requires
        crate::driver::reaches(crate::driver::all_required(n), answers, alive),
    ensures
        alive ==> answers.len() == n,
        !alive ==> 0 < answers.len() <= n && !answers[answers.len() - 1],
        0 <= i < answers.len() && (alive || i < answers.len() - 1) ==> answers[i],
{
    if 0 <= i < answers.len() - 1 {
        assert(answers.drop_last()[i] == answers[i]);
    }
}

/// The messages of a step are handed over with their own events and demands.
pub proof fn messages_keep_event_and_demand(emit: Seq<Outgoing>, i: int)
    requires
        0 <= i < emit.len(),
    ensures
        crate::driver::events_of(crate::driver::out_models(emit)).len() == emit.len(),
        crate::driver::events_of(crate::driver::out_models(emit))[i] == emit[i].event@,
        crate::driver::required_of(emit).len() == emit.len(),
        crate::driver::required_of(emit)[i] == emit[i].required,
{
}

/// A driver begins with its settings, at the configured position, and with nothing
/// else.
pub proof fn a_driver_begins_with_its_settings(cfg: crate::config::ViewerConfig<Seq<char>>)
    ensures
        ({
            let d = crate::machine::fresh(cfg);
            &&& d.cfg == cfg
            &&& d.phase is Fresh
            &&& d.persistent_id == 0
            &&& d.input.move_x == 0 && d.input.move_z == 0 && d.input.orientation == 0
                && d.input.buttons == 0
            &&& d.last_pos == (Spot::Narrow { x: cfg.start_x, z: cfg.start_z })
            &&& d.last_rtt_us == 0
            &&& d.last_input_tx == 0 && d.last_ping_tx == 0 && d.last_state_ack == 0
            &&& d.jwt == ""@
            &&& !d.bridging
        }),
{
}

/// The settings that hold by default.
pub proof fn the_defaults_suit_a_local_stack()
    ensures
        ({
            let cfg = crate::config::default_config();
            &&& cfg.client.auth_service_url == "http://127.0.0.1:50051"@
            &&& cfg.client.gateway_url == "http://127.0.0.1:8090"@
            &&& cfg.client.session_auth_retries == 3
            &&& cfg.client.session_auth_timeout_ms == 5000
            &&& cfg.client.input_hz == 30
            &&& cfg.client.input_redundancy == 3
            &&& cfg.username == "viewer"@
            &&& cfg.password == "viewer"@
            &&& cfg.start_x == 0 && cfg.start_z == 0
            &&& cfg.view_range == 0x42A0_0000
            &&& cfg.stale_entity_secs == 0x40A0_0000
            &&& cfg.world_coord_url == ""@
        }),
{
}

/// The reply is an outcome of what the driver is waiting for.
pub open spec fn answers(phase: Phase, reply: ReplyModel) -> bool {
    match phase {
        Phase::Fresh | Phase::Done => false,
        Phase::Registering | Phase::LoadingState => true,
        Phase::ConnectingAuth
        | Phase::ConnectingGateway
        | Phase::ConnectingShard
        | Phase::HandoffConnecting
        | Phase::RerouteConnecting => reply is Done || reply is Failed,
        Phase::LoggingIn => reply is Token || reply is Failed,
        Phase::Assigning | Phase::RerouteAssigning => reply is Assigned || reply is Failed,
        Phase::Opening | Phase::HandoffOpening | Phase::RerouteOpening => reply is Opened || reply
            is Draining || reply is Denied,
        Phase::Commands => reply is Command,
        Phase::Polling => reply is Events,
        Phase::Grace { asleep, .. } => if asleep {
            reply is Done
        } else {
            reply is Events
        },
        Phase::Acting
        | Phase::HandoffSettling { .. }
        | Phase::RerouteSettling { .. }
        | Phase::Ticking
        | Phase::Stopping
        | Phase::Unbridging
        | Phase::Abandoning => reply is Done,
    }
}

/// A reply that answers nothing changes nothing and is not acted on; one that does
/// is.
pub proof fn only_answers_are_acted_on(d: DriverModel, reply: ReplyModel, now: u64)
    ensures
        ({
            let (after, s) = crate::machine::step(d, reply, now);
            &&& !answers(d.phase, reply) ==> after == d && s.next is Keep && s.emit.len() == 0
            &&& answers(d.phase, reply) ==> !(s.next is Keep)
        }),
{
}

/// The known position, the time of the last state and the round-trip time change
/// with what brings them: a polled batch, the stored position, a session.
pub proof fn knowledge_changes_with_what_brings_it(
    d: DriverModel,
    reply: ReplyModel,
    now: u64,
)
    ensures
        ({
            let (after, _) = crate::machine::step(d, reply, now);
            let opened = reply is Opened && (d.phase is Opening || d.phase is RerouteOpening);
            let settled = d.phase is HandoffSettling || d.phase is RerouteSettling;
            &&& !(d.phase is Polling || d.phase is LoadingState || opened || settled)
                ==> after.last_pos == d.last_pos
            &&& !(d.phase is Polling || opened || settled) ==> after.last_state_ack
                == d.last_state_ack
            &&& !(d.phase is Polling) ==> after.last_rtt_us == d.last_rtt_us
            &&& !(reply is Token) ==> after.jwt == d.jwt
            &&& !(reply is Opened) ==> after.persistent_id == d.persistent_id
            &&& !(reply is Command) ==> after.input == d.input
        }),
{
}

} // verus!
