//! The network thread's state machine: for every phase and every reply, what
//! the renderer is told and what is done next.

use vstd::prelude::*;

use crate::channels::{GuiCmd, NetEvent, Received};
use crate::config::ViewerConfig;
use crate::driver::{
    Action, ActionModel, BridgeAction, Driver, DriverModel, EmitModel, MoveInput, Outgoing, Phase, Reply,
    ReplyModel, SessionInfo, Step, StepModel, GRACE_POLLS, GRACE_SLEEP_MS, LIVENESS_TIMEOUT_NS,
    PING_INTERVAL_NS, TICK_SLEEP_MS,
};
use crate::net::{GameEvent, Handoff, Spot};

verus! {

/// A message whose delivery nothing depends on.
pub open spec fn notice(event: NetEvent<Seq<char>>) -> Outgoing<Seq<char>> {
    Outgoing { event, required: false }
}

/// A message that the renderer must take.
pub open spec fn demand(event: NetEvent<Seq<char>>) -> Outgoing<Seq<char>> {
    Outgoing { event, required: true }
}

/// A message that the renderer must take while a handoff is under way.
pub open spec fn bulletin(d: DriverModel, event: NetEvent<Seq<char>>) -> Outgoing<Seq<char>> {
    Outgoing { event, required: d.bridging }
}

/// A status line.
pub open spec fn status(text: Seq<char>) -> Outgoing<Seq<char>> {
    notice(NetEvent::Status(text))
}

/// The session as the renderer is told of it.
pub open spec fn opened_event<S>(session: SessionInfo) -> NetEvent<S> {
    NetEvent::SessionOpened {
        player_id: session.player_id,
        persistent_id: session.persistent_id,
        origin_x: session.origin_x,
        origin_z: session.origin_z,
        shard_id: session.shard_id,
    }
}

/// Where a handoff leads.
pub open spec fn target_text(target: Handoff<Seq<char>>) -> Seq<char> {
    crate::text::hexadecimal(target.shard_id as nat) + " at "@ + target.ip + ":"@
        + crate::text::decimal(target.port as nat)
}

/// The status line of a handoff.
pub open spec fn handoff_text(target: Handoff<Seq<char>>) -> Seq<char> {
    "⟳ Handoff → shard 0x"@ + target_text(target)
}

/// The status line of a handoff that came after the session was lost.
pub open spec fn late_handoff_text(target: Handoff<Seq<char>>) -> Seq<char> {
    "⟳ Handoff (late) → shard 0x"@ + target_text(target)
}

/// The status line while the assigned shard is being connected.
pub open spec fn connecting_text(ip: Seq<char>, port: u16) -> Seq<char> {
    "connecting to shard "@ + ip + ":"@ + crate::text::decimal(port as nat) + "…"@
}

/// The round-trip time in whole milliseconds, modulo the range of the message.
pub open spec fn rtt_sample_ms(rtt_us: u64) -> u32 {
    ((rtt_us / 1000) % 0x1_0000_0000) as u32
}

/// What is emitted of a polled batch: the events that are forwarded, each of
/// them required, and in front of them the round-trip time if it changed.
pub open spec fn batch_emit(
    events: Seq<GameEvent<Seq<char>>>,
    old_rtt_us: u64,
    rtt_us: u64,
) -> EmitModel {
    let shown = crate::net::forwarded_batch(events).map_values(
        |ev: NetEvent<Seq<char>>| Outgoing { event: ev, required: true },
    );
    if shown.len() > 0 && rtt_us != old_rtt_us {
        seq![notice(NetEvent::RttSample(rtt_sample_ms(rtt_us)))] + shown
    } else {
        shown
    }
}

// ---------------------------------------------------------------------------
// The state machine

/// The time between two movement packets.
pub open spec fn input_interval_ns(input_hz: u32) -> int {
    let hz: int = if input_hz >= 1 {
        input_hz as int
    } else {
        1
    };
    (1_000_000int / hz) * 1000
}

/// A driver before its start.
pub open spec fn fresh(cfg: ViewerConfig<Seq<char>>) -> DriverModel {
    Driver {
        cfg,
        phase: Phase::Fresh,
        jwt: ""@,
        persistent_id: 0,
        input: MoveInput { move_x: 0, move_z: 0, orientation: 0, buttons: 0 },
        last_input_tx: 0,
        last_ping_tx: 0,
        last_rtt_us: 0,
        last_state_ack: 0,
        last_pos: Spot::Narrow { x: cfg.start_x, z: cfg.start_z },
        bridging: false,
    }
}

/// The driver turns to `phase`, emits and acts.
pub open spec fn turn(
    d: DriverModel,
    phase: Phase,
    emit: EmitModel,
    next: ActionModel,
) -> (DriverModel, StepModel) {
    (Driver { phase, ..d }, Step { emit, next })
}

/// The set-up failed: it says why and leaves.
pub open spec fn given_up(d: DriverModel, why: Seq<char>) -> (DriverModel, StepModel) {
    turn(d, Phase::Done, seq![status(why)], Action::Exit)
}

/// The hot loop is left.
pub open spec fn left(d: DriverModel, emit: EmitModel) -> (DriverModel, StepModel) {
    turn(d, Phase::Done, emit.push(status("net loop exited"@)), Action::Exit)
}

/// A recovery failed: it says why, tells that the session is gone, closes the
/// old session if it is still open, and leaves.
pub open spec fn recovery_failed(d: DriverModel, why: Seq<char>) -> (DriverModel, StepModel) {
    let emit = seq![status(why), notice(NetEvent::Disconnected)];
    if d.bridging {
        turn(d, Phase::Unbridging, emit, Action::StopBridge)
    } else {
        left(d, emit)
    }
}

/// The end of a round of the hot loop: the input and a ping if they are due.
pub open spec fn ticked(d: DriverModel, emit: EmitModel, now: u64) -> (DriverModel, StepModel) {
    let move_due = crate::clock::elapsed(now, d.last_input_tx) >= input_interval_ns(d.cfg.client.input_hz);
    let ping_due = crate::clock::elapsed(now, d.last_ping_tx) >= PING_INTERVAL_NS;
    (
        Driver {
            phase: Phase::Ticking,
            last_input_tx: if move_due {
                now
            } else {
                d.last_input_tx
            },
            last_ping_tx: if ping_due {
                now
            } else {
                d.last_ping_tx
            },
            ..d
        },
        Step {
            emit,
            next: Action::Tick {
                send_move: if move_due {
                    Some(d.input)
                } else {
                    None
                },
                ping: ping_due,
                sleep_ms: TICK_SLEEP_MS,
            },
        },
    )
}

/// A recovery succeeded: the position starts at the new origin, the liveness
/// clock anew, and the round goes on.
pub open spec fn recovered(
    d: DriverModel,
    session: SessionInfo,
    emit: EmitModel,
    now: u64,
) -> (DriverModel, StepModel) {
    ticked(
        Driver {
            last_pos: Spot::Wide { x: session.origin_x, z: session.origin_z },
            last_state_ack: now,
            ..d
        },
        emit,
        now,
    )
}

/// A handoff begins. The old session is forwarded until it is over. The renderer
/// must take what it is told of the handoff.
pub open spec fn handed_off(
    d: DriverModel,
    target: Handoff<Seq<char>>,
    emit: EmitModel,
) -> (DriverModel, StepModel) {
    turn(
        Driver { bridging: true, ..d },
        Phase::HandoffConnecting,
        emit.push(demand(NetEvent::Status(handoff_text(target)))).push(
            demand(NetEvent::HandoffStarted),
        ),
        Action::BeginHandoff { target, persistent_id: d.persistent_id, jwt: d.jwt },
    )
}

/// The gateway is asked for a shard near the last known position.
pub open spec fn rerouted(d: DriverModel, emit: EmitModel) -> (DriverModel, StepModel) {
    turn(
        d,
        Phase::RerouteAssigning,
        emit.push(bulletin(d, NetEvent::Status("⟳ Target draining — re-asking gateway…"@))),
        Action::AskGateway { jwt: d.jwt, spot: d.last_pos },
    )
}

/// The game client is stopped, then the thread leaves.
pub open spec fn stopped(d: DriverModel) -> (DriverModel, StepModel) {
    turn(d, Phase::Stopping, seq![], Action::StopClient)
}

/// The renderer is gone, and the action that was to follow is not begun: the old
/// session is closed if it is still forwarded, the game client is stopped, then
/// the thread leaves. A handoff that was about to begin has opened no forwarding.
pub open spec fn abandoned(d: DriverModel) -> (DriverModel, StepModel) {
    if d.bridging && !(d.phase is HandoffConnecting) {
        turn(d, Phase::Abandoning, seq![], Action::StopBridge)
    } else {
        stopped(Driver { bridging: false, ..d })
    }
}

/// A reply that answers no action changes nothing.
pub open spec fn ignored(d: DriverModel) -> (DriverModel, StepModel) {
    (d, Step { emit: seq![], next: Action::Keep })
}

/// The driver's knowledge after a polled batch.
pub open spec fn informed(
    d: DriverModel,
    events: Seq<GameEvent<Seq<char>>>,
    rtt_us: u64,
    now: u64,
) -> DriverModel {
    let ack = crate::net::last_ack(events);
    Driver {
        last_pos: match ack {
            Some(spot) => spot,
            None => d.last_pos,
        },
        last_state_ack: if ack is Some {
            now
        } else {
            d.last_state_ack
        },
        last_rtt_us: if crate::net::forwarded_batch(events).len() > 0 {
            rtt_us
        } else {
            d.last_rtt_us
        },
        ..d
    }
}

/// A polled batch: a handoff is followed; a lost session gets the grace
/// period; a session that fell silent is rerouted; else the round goes on.
pub open spec fn polled(
    d: DriverModel,
    events: Seq<GameEvent<Seq<char>>>,
    rtt_us: u64,
    now: u64,
) -> (DriverModel, StepModel) {
    let emit = batch_emit(events, d.last_rtt_us, rtt_us);
    let known = informed(d, events, rtt_us, now);
    match crate::net::first_handoff(events) {
        Some(target) => handed_off(known, target, emit),
        None => if crate::net::session_lost(events) {
            turn(
                known,
                Phase::Grace { left: GRACE_POLLS, asleep: true },
                emit,
                Action::Sleep { ms: GRACE_SLEEP_MS },
            )
        } else if crate::clock::elapsed(now, known.last_state_ack) > LIVENESS_TIMEOUT_NS {
            rerouted(known, emit.push(status("⟳ StateAck stale — recovering via gateway"@)))
        } else {
            ticked(known, emit, now)
        },
    }
}

/// One poll of the grace period. Only a handoff counts.
pub open spec fn grace_polled(
    d: DriverModel,
    remaining: u8,
    events: Seq<GameEvent<Seq<char>>>,
) -> (DriverModel, StepModel) {
    match crate::net::first_handoff(events) {
        Some(target) => handed_off(d, target, seq![status(late_handoff_text(target))]),
        None => if remaining > 1 {
            turn(
                d,
                Phase::Grace { left: (remaining - 1) as u8, asleep: true },
                seq![],
                Action::Sleep { ms: GRACE_SLEEP_MS },
            )
        } else {
            rerouted(d, seq![status("⟳ Disconnect — recovering via gateway"@)])
        },
    }
}

/// A step of the set-up.
pub open spec fn setup_step(d: DriverModel, reply: ReplyModel, now: u64) -> (
    DriverModel,
    StepModel,
) {
    match (d.phase, reply) {
        (Phase::ConnectingAuth, Reply::Done) => turn(
            d,
            Phase::Registering,
            seq![],
            Action::Register { username: d.cfg.username, password: d.cfg.password },
        ),
        (Phase::ConnectingAuth, Reply::Failed(why)) => given_up(
            d,
            "auth-service unreachable: "@ + why,
        ),
        (Phase::Registering, _) => turn(
            d,
            Phase::LoggingIn,
            seq![status("logging in…"@)],
            Action::Login { username: d.cfg.username, password: d.cfg.password },
        ),
        (Phase::LoggingIn, Reply::Token(jwt)) => turn(
            Driver { jwt, ..d },
            Phase::LoadingState,
            seq![],
            Action::LoadState { jwt },
        ),
        (Phase::LoggingIn, Reply::Failed(why)) => given_up(d, "login failed: "@ + why),
        (Phase::LoadingState, _) => turn(
            Driver {
                last_pos: match reply {
                    Reply::Saved { found: true, x, z } => Spot::Wide { x, z },
                    _ => Spot::Narrow { x: d.cfg.start_x, z: d.cfg.start_z },
                },
                ..d
            },
            Phase::ConnectingGateway,
            seq![status("asking gateway for shard assignment…"@)],
            Action::ConnectGateway { url: d.cfg.client.gateway_url },
        ),
        (Phase::ConnectingGateway, Reply::Done) => turn(
            d,
            Phase::Assigning,
            seq![],
            Action::AskGateway { jwt: d.jwt, spot: d.last_pos },
        ),
        (Phase::ConnectingGateway, Reply::Failed(why)) => given_up(
            d,
            "gateway unreachable: "@ + why,
        ),
        (Phase::Assigning, Reply::Assigned { ip, port }) => turn(
            d,
            Phase::ConnectingShard,
            seq![status(connecting_text(ip, port))],
            Action::ConnectShard { ip, port, jwt: d.jwt },
        ),
        (Phase::Assigning, Reply::Failed(why)) => given_up(d, "gateway rejection: "@ + why),
        (Phase::ConnectingShard, Reply::Done) => turn(d, Phase::Opening, seq![], Action::AwaitOpen),
        (Phase::ConnectingShard, Reply::Failed(why)) => given_up(
            d,
            "shard connect failed: "@ + why,
        ),
        (Phase::Opening, Reply::Opened(session)) => turn(
            Driver {
                persistent_id: session.persistent_id,
                last_input_tx: now,
                last_ping_tx: now,
                last_state_ack: now,
                last_pos: Spot::Wide { x: session.origin_x, z: session.origin_z },
                ..d
            },
            Phase::Commands,
            seq![notice(opened_event(session))],
            Action::ReadCommand,
        ),
        (Phase::Opening, Reply::Draining(why)) => given_up(d, "session auth failed: "@ + why),
        (Phase::Opening, Reply::Denied { text, .. }) => given_up(
            d,
            "session auth failed: "@ + text,
        ),
        _ => ignored(d),
    }
}

/// A step of the hot loop.
pub open spec fn hot_step(d: DriverModel, reply: ReplyModel, now: u64) -> (DriverModel, StepModel) {
    match (d.phase, reply) {
        (Phase::Commands, Reply::Command(got)) => match got {
            Received::Got(
                GuiCmd::Move { move_x, move_z, orientation, buttons },
            ) => turn(
                Driver { input: MoveInput { move_x, move_z, orientation, buttons }, ..d },
                Phase::Commands,
                seq![],
                Action::ReadCommand,
            ),
            Received::Got(GuiCmd::Action { action_type }) => turn(
                d,
                Phase::Acting,
                seq![],
                Action::SendAction { action_type },
            ),
            Received::Got(GuiCmd::Quit) => stopped(d),
            Received::Empty => turn(d, Phase::Polling, seq![], Action::PollEvents),
            Received::Closed => stopped(d),
        },
        (Phase::Acting, Reply::Done) => turn(d, Phase::Commands, seq![], Action::ReadCommand),
        (Phase::Polling, Reply::Events { events, rtt_us }) => polled(d, events, rtt_us, now),
        (Phase::Grace { left, asleep: true }, Reply::Done) => turn(
            d,
            Phase::Grace { left, asleep: false },
            seq![],
            Action::PollEvents,
        ),
        (Phase::Grace { left, asleep: false }, Reply::Events { events, .. }) => grace_polled(
            d,
            left,
            events,
        ),
        (Phase::Ticking, Reply::Done) => turn(d, Phase::Commands, seq![], Action::ReadCommand),
        (Phase::Stopping, Reply::Done) => left(d, seq![]),
        (Phase::Unbridging, Reply::Done) => left(Driver { bridging: false, ..d }, seq![]),
        (Phase::Abandoning, Reply::Done) => stopped(Driver { bridging: false, ..d }),
        _ => ignored(d),
    }
}

/// A step of a handoff.
pub open spec fn handoff_step(d: DriverModel, reply: ReplyModel, now: u64) -> (
    DriverModel,
    StepModel,
) {
    match (d.phase, reply) {
        (Phase::HandoffConnecting, Reply::Done) => turn(
            d,
            Phase::HandoffOpening,
            seq![],
            Action::AwaitOpen,
        ),
        (Phase::HandoffConnecting, Reply::Failed(why)) => recovery_failed(
            d,
            "✗ Handoff connect failed: "@ + why,
        ),
        (Phase::HandoffOpening, Reply::Opened(session)) => turn(
            d,
            Phase::HandoffSettling { session },
            seq![],
            Action::StopBridge,
        ),
        (Phase::HandoffOpening, Reply::Draining(_)) => rerouted(d, seq![]),
        (Phase::HandoffOpening, Reply::Denied { cause, .. }) => recovery_failed(
            d,
            "✗ Handoff auth failed: "@ + cause,
        ),
        (Phase::HandoffSettling { session }, Reply::Done) => recovered(
            Driver { bridging: false, ..d },
            session,
            seq![demand(opened_event(session))],
            now,
        ),
        _ => ignored(d),
    }
}

/// A step of a reroute through the gateway.
pub open spec fn reroute_step(d: DriverModel, reply: ReplyModel, now: u64) -> (
    DriverModel,
    StepModel,
) {
    match (d.phase, reply) {
        (Phase::RerouteAssigning, Reply::Assigned { ip, port }) => turn(
            d,
            Phase::RerouteConnecting,
            seq![],
            Action::Reconnect { ip, port, jwt: d.jwt },
        ),
        (Phase::RerouteAssigning, Reply::Failed(why)) => recovery_failed(
            d,
            "✗ Gateway re-route failed: "@ + why,
        ),
        (Phase::RerouteConnecting, Reply::Done) => turn(
            d,
            Phase::RerouteOpening,
            seq![],
            Action::AwaitOpen,
        ),
        (Phase::RerouteConnecting, Reply::Failed(why)) => recovery_failed(
            d,
            "✗ Reconnect failed: "@ + why,
        ),
        (Phase::RerouteOpening, Reply::Opened(session)) => {
            let emit = seq![bulletin(d, opened_event(session))];
            if d.bridging {
                turn(d, Phase::RerouteSettling { session }, emit, Action::StopBridge)
            } else {
                recovered(d, session, emit, now)
            }
        },
        (Phase::RerouteOpening, Reply::Draining(why)) => recovery_failed(
            d,
            "✗ Session auth after gateway retry failed: "@ + why,
        ),
        (Phase::RerouteOpening, Reply::Denied { text, .. }) => recovery_failed(
            d,
            "✗ Session auth after gateway retry failed: "@ + text,
        ),
        (Phase::RerouteSettling { session }, Reply::Done) => recovered(
            Driver { bridging: false, ..d },
            session,
            seq![],
            now,
        ),
        _ => ignored(d),
    }
}

/// What the forwarding from an old session does next, by whether it has been told
/// to stop, whether the renderer still takes what is forwarded, and whether it
/// has polled for the last time.
pub open spec fn bridge_step(told: bool, alive: bool, drained: bool) -> BridgeAction {
    if !alive || (told && drained) {
        BridgeAction::StopOld
    } else if told {
        BridgeAction::LastPoll
    } else {
        BridgeAction::Poll
    }
}

/// The phases of the set-up.
pub open spec fn setting_up(phase: Phase) -> bool {
    phase is ConnectingAuth || phase is Registering || phase is LoggingIn || phase is LoadingState
        || phase is ConnectingGateway || phase is Assigning || phase is ConnectingShard
        || phase is Opening
}

/// The phases of a handoff.
pub open spec fn handing_off(phase: Phase) -> bool {
    phase is HandoffConnecting || phase is HandoffOpening || phase is HandoffSettling
}

/// The phases of a reroute.
pub open spec fn rerouting(phase: Phase) -> bool {
    phase is RerouteAssigning || phase is RerouteConnecting || phase is RerouteOpening
        || phase is RerouteSettling
}

/// What a reply does.
pub open spec fn step(d: DriverModel, reply: ReplyModel, now: u64) -> (DriverModel, StepModel) {
    if setting_up(d.phase) {
        setup_step(d, reply, now)
    } else if handing_off(d.phase) {
        handoff_step(d, reply, now)
    } else if rerouting(d.phase) {
        reroute_step(d, reply, now)
    } else {
        hot_step(d, reply, now)
    }
}

} // verus!
