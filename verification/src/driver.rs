//! The network thread as a state machine.
//!
//! The thread performs one action at a time (a call to the auth service, the
//! gateway or the game client, a sleep, a look at the command channel) and
//! hands the outcome to [`Driver::step`], which says what to tell the renderer
//! and what to do next. First the session is set up; then the hot loop runs:
//! read the commands, poll the game client, recover if the session moved or
//! was lost, send the input and a ping when they are due, sleep.
//!
//! Times are nanoseconds on one monotonic clock.

use crossbeam_channel::{Receiver, Sender};
use vstd::prelude::*;
use vstd::string::StringExecFns;

use crate::channels::{GuiCmd, NetChannels, NetEvent, Received};
use crate::config::ViewerConfig;
use crate::net::{
    bridge_batch, find_handoff, find_last_ack, find_loss, forward_event, GameEvent, Handoff, Spot,
};
use crate::text::push_numeral;

verus! {

/// How often the game client is polled for a late handoff.
pub const GRACE_POLLS: u8 = 10;

/// The sleep before each of those polls.
pub const GRACE_SLEEP_MS: u64 = 25;

/// The silence after which a session counts as lost.
pub const LIVENESS_TIMEOUT_NS: u64 = 3_000_000_000;

/// The time between two pings.
pub const PING_INTERVAL_NS: u64 = 500_000_000;

/// The sleep between two rounds of the hot loop.
pub const TICK_SLEEP_MS: u64 = 5;

/// A session as the shard opened it. The origin is double precision.
#[derive(Debug, Clone, Copy, PartialEq, Eq, Structural)]
pub struct SessionInfo {
    pub player_id: u32,
    pub persistent_id: u32,
    pub origin_x: u64,
    pub origin_z: u64,
    pub shard_id: u32,
}

/// The latest movement input. The vector and the facing are single precision.
#[derive(Debug, Clone, Copy, PartialEq, Eq, Structural)]
pub struct MoveInput {
    pub move_x: u32,
    pub move_z: u32,
    pub orientation: u32,
    pub buttons: u32,
}

/// What the driver is waiting for.
#[derive(Debug, Clone, Copy, PartialEq, Eq, Structural)]
pub enum Phase {
    /// Not started.
    Fresh,
    /// Setting up: the auth service is being connected.
    ConnectingAuth,
    /// Setting up: the account is being registered.
    Registering,
    /// Setting up: the account is being logged in.
    LoggingIn,
    /// Setting up: the stored position is being loaded.
    LoadingState,
    /// Setting up: the gateway is being connected.
    ConnectingGateway,
    /// Setting up: the gateway is choosing a shard.
    Assigning,
    /// Setting up: the shard is being connected.
    ConnectingShard,
    /// Setting up: the session is being opened.
    Opening,
    /// Hot loop: the next command is being read.
    Commands,
    /// Hot loop: an action is being sent.
    Acting,
    /// Hot loop: the game client is being polled.
    Polling,
    /// The session was lost; a late handoff is being waited for.
    Grace { left: u8, asleep: bool },
    /// Handoff: the new shard is being connected.
    HandoffConnecting,
    /// Handoff: the session on the new shard is being opened.
    HandoffOpening,
    /// Handoff: the session is open, the old one is being closed.
    HandoffSettling { session: SessionInfo },
    /// Rerouting: the gateway is choosing a shard.
    RerouteAssigning,
    /// Rerouting: the shard is being connected.
    RerouteConnecting,
    /// Rerouting: the session is being opened.
    RerouteOpening,
    /// Rerouting: the session is open, the old one is being closed.
    RerouteSettling { session: SessionInfo },
    /// Hot loop: the input is being sent, then the thread sleeps.
    Ticking,
    /// Leaving: the game client is being stopped.
    Stopping,
    /// Leaving: the old session is being closed.
    Unbridging,
    /// Leaving without a renderer: the old session is being closed, then the
    /// game client is stopped.
    Abandoning,
    /// Gone.
    Done,
}

/// The network thread's state. `S` is the type of text; in contracts it is
/// `Seq<char>`.
#[derive(Debug, Clone)]
pub struct Driver<S = String> {
    pub cfg: ViewerConfig<S>,
    pub phase: Phase,
    /// The token that the auth service issued.
    pub jwt: S,
    /// The identity that survives handoffs.
    pub persistent_id: u32,
    pub input: MoveInput,
    pub last_input_tx: u64,
    pub last_ping_tx: u64,
    pub last_rtt_us: u64,
    pub last_state_ack: u64,
    /// Where the player was last known to be.
    pub last_pos: Spot,
    /// The old shard's session is still being forwarded.
    pub bridging: bool,
}

/// The outcome of an action. `L` is the type of a batch of events.
#[derive(Debug, Clone)]
pub enum Reply<S = String, L = Vec<GameEvent>> {
    /// It succeeded, with nothing to report.
    Done,
    /// It failed, for a reason that is worth showing.
    Failed(S),
    /// The shard is draining and takes no session; the text says so.
    Draining(S),
    /// The shard denied the session: the cause by itself, and all that was said.
    Denied { cause: S, text: S },
    /// The login succeeded.
    Token(S),
    /// The stored position was read.
    Saved { found: bool, x: u64, z: u64 },
    /// The gateway chose a shard.
    Assigned { ip: S, port: u16 },
    /// The session is open.
    Opened(SessionInfo),
    /// The look at the command channel.
    Command(Received<GuiCmd>),
    /// What the game client reported, and its latest round-trip time.
    Events { events: L, rtt_us: u64 },
}

/// What to do next.
#[derive(Debug, Clone)]
pub enum Action<S = String> {
    ConnectAuth { url: S },
    Register { username: S, password: S },
    Login { username: S, password: S },
    LoadState { jwt: S },
    ConnectGateway { url: S },
    /// Ask the gateway for a shard near `spot`.
    AskGateway { jwt: S, spot: Spot },
    /// Connect a fresh game client.
    ConnectShard { ip: S, port: u16, jwt: S },
    /// Wait until the session is open.
    AwaitOpen,
    /// Look at the command channel.
    ReadCommand,
    SendAction { action_type: u8 },
    /// Poll the game client.
    PollEvents,
    Sleep { ms: u64 },
    /// Keep forwarding from the current game client in the background, and
    /// connect a fresh one to `target`.
    BeginHandoff { target: Handoff<S>, persistent_id: u32, jwt: S },
    /// Stop the forwarding from the old game client.
    StopBridge,
    /// Stop the current game client and connect a fresh one.
    Reconnect { ip: S, port: u16, jwt: S },
    /// Send the input and a ping if they are due, then sleep.
    Tick { send_move: Option<MoveInput>, ping: bool, sleep_ms: u64 },
    /// Stop the game client.
    StopClient,
    /// Leave.
    Exit,
    /// The reply answered no action; the pending one still stands.
    Keep,
}

/// What the forwarding from an old session does next.
#[derive(Debug, Clone, Copy, PartialEq, Eq, Structural)]
pub enum BridgeAction {
    /// Wait a moment, poll the old game client and forward.
    Poll,
    /// Poll the old game client and forward, for the last time.
    LastPoll,
    /// Stop the old game client and end.
    StopOld,
}

/// A message for the renderer. If a required one cannot be delivered, the
/// renderer is gone and the thread leaves.
#[derive(Debug, Clone)]
pub struct Outgoing<S = String> {
    pub event: NetEvent<S>,
    pub required: bool,
}

/// What to tell the renderer, in order, and what to do then.
#[derive(Debug, Clone)]
pub struct Step<S = String, L = Vec<Outgoing>> {
    pub emit: L,
    pub next: Action<S>,
}

impl View for Driver<String> {
    type V = Driver<Seq<char>>;

    open spec fn view(&self) -> Driver<Seq<char>> {
        Driver {
            cfg: self.cfg@,
            phase: self.phase,
            jwt: self.jwt@,
            persistent_id: self.persistent_id,
            input: self.input,
            last_input_tx: self.last_input_tx,
            last_ping_tx: self.last_ping_tx,
            last_rtt_us: self.last_rtt_us,
            last_state_ack: self.last_state_ack,
            last_pos: self.last_pos,
            bridging: self.bridging,
        }
    }
}

impl View for Reply<String, Vec<GameEvent>> {
    type V = Reply<Seq<char>, Seq<GameEvent<Seq<char>>>>;

    open spec fn view(&self) -> Reply<Seq<char>, Seq<GameEvent<Seq<char>>>> {
        match *self {
            Reply::Done => Reply::Done,
            Reply::Failed(reason) => Reply::Failed(reason@),
            Reply::Draining(reason) => Reply::Draining(reason@),
            Reply::Denied { cause, text } => Reply::Denied { cause: cause@, text: text@ },
            Reply::Token(jwt) => Reply::Token(jwt@),
            Reply::Saved { found, x, z } => Reply::Saved { found, x, z },
            Reply::Assigned { ip, port } => Reply::Assigned { ip: ip@, port },
            Reply::Opened(session) => Reply::Opened(session),
            Reply::Command(got) => Reply::Command(got),
            Reply::Events { events, rtt_us } => {
                Reply::Events { events: crate::net::models(events@), rtt_us }
            },
        }
    }
}

impl View for Action<String> {
    type V = Action<Seq<char>>;

    open spec fn view(&self) -> Action<Seq<char>> {
        match *self {
            Action::ConnectAuth { url } => Action::ConnectAuth { url: url@ },
            Action::Register { username, password } => {
                Action::Register { username: username@, password: password@ }
            },
            Action::Login { username, password } => {
                Action::Login { username: username@, password: password@ }
            },
            Action::LoadState { jwt } => Action::LoadState { jwt: jwt@ },
            Action::ConnectGateway { url } => Action::ConnectGateway { url: url@ },
            Action::AskGateway { jwt, spot } => Action::AskGateway { jwt: jwt@, spot },
            Action::ConnectShard { ip, port, jwt } => {
                Action::ConnectShard { ip: ip@, port, jwt: jwt@ }
            },
            Action::AwaitOpen => Action::AwaitOpen,
            Action::ReadCommand => Action::ReadCommand,
            Action::SendAction { action_type } => Action::SendAction { action_type },
            Action::PollEvents => Action::PollEvents,
            Action::Sleep { ms } => Action::Sleep { ms },
            Action::BeginHandoff { target, persistent_id, jwt } => {
                Action::BeginHandoff { target: target@, persistent_id, jwt: jwt@ }
            },
            Action::StopBridge => Action::StopBridge,
            Action::Reconnect { ip, port, jwt } => Action::Reconnect { ip: ip@, port, jwt: jwt@ },
            Action::Tick { send_move, ping, sleep_ms } => Action::Tick { send_move, ping, sleep_ms },
            Action::StopClient => Action::StopClient,
            Action::Exit => Action::Exit,
            Action::Keep => Action::Keep,
        }
    }
}

impl View for Outgoing<String> {
    type V = Outgoing<Seq<char>>;

    open spec fn view(&self) -> Outgoing<Seq<char>> {
        Outgoing { event: self.event@, required: self.required }
    }
}

/// The models of a list of messages.
pub open spec fn out_models(emit: Seq<Outgoing>) -> Seq<Outgoing<Seq<char>>> {
    emit.map_values(|out: Outgoing| out@)
}

impl View for Step<String, Vec<Outgoing>> {
    type V = Step<Seq<char>, Seq<Outgoing<Seq<char>>>>;

    open spec fn view(&self) -> Step<Seq<char>, Seq<Outgoing<Seq<char>>>> {
        Step { emit: out_models(self.emit@), next: self.next@ }
    }
}

/// The driver in contracts.
pub type DriverModel = Driver<Seq<char>>;

/// A reply in contracts.
pub type ReplyModel = Reply<Seq<char>, Seq<GameEvent<Seq<char>>>>;

/// An action in contracts.
pub type ActionModel = Action<Seq<char>>;

/// Messages for the renderer in contracts.
pub type EmitModel = Seq<Outgoing<Seq<char>>>;

/// A step in contracts.
pub type StepModel = Step<Seq<char>, Seq<Outgoing<Seq<char>>>>;

/// `prefix` followed by `reason`.
fn reason_text(prefix: &str, reason: &String) -> (text: String)
    ensures
        text@ == prefix@ + reason@,
{
    let mut text = String::from_str(prefix);
    text.append(reason.as_str());
    text
}

/// Adds a status line.
fn say(emit: &mut Vec<Outgoing>, text: String)
    ensures
        out_models(final(emit)@) == out_models(old(emit)@).push(crate::machine::status(text@)),
{
    emit.push(Outgoing { event: NetEvent::Status(text), required: false });
    assert(out_models(emit@) =~= out_models(old(emit)@).push(crate::machine::status(text@)));
}

/// Adds a message.
fn tell(emit: &mut Vec<Outgoing>, event: NetEvent, required: bool)
    ensures
        out_models(final(emit)@) == out_models(old(emit)@).push(
            (Outgoing { event: event@, required }),
        ),
{
    emit.push(Outgoing { event, required });
    assert(out_models(emit@) =~= out_models(old(emit)@).push(
        Outgoing { event: event@, required },
    ));
}

/// Adds a message whose delivery nothing depends on.
fn note(emit: &mut Vec<Outgoing>, event: NetEvent)
    ensures
        out_models(final(emit)@) == out_models(old(emit)@).push(crate::machine::notice(event@)),
{
    tell(emit, event, false);
}

/// A list of one message that tells of a session.
fn announcing(session: SessionInfo, required: bool) -> (emit: Vec<Outgoing>)
    ensures
        out_models(emit@) == seq![
            (Outgoing { event: crate::machine::opened_event::<Seq<char>>(session), required }),
        ],
{
    let mut emit = silence();
    tell(&mut emit, session_opened_event(session), required);
    assert(out_models(emit@) =~= seq![
        Outgoing { event: crate::machine::opened_event::<Seq<char>>(session), required },
    ]);
    emit
}

/// An empty list of messages.
fn silence() -> (emit: Vec<Outgoing>)
    ensures
        out_models(emit@) == Seq::<Outgoing<Seq<char>>>::empty(),
{
    let emit: Vec<Outgoing> = Vec::new();
    assert(out_models(emit@) =~= Seq::<Outgoing<Seq<char>>>::empty());
    emit
}

/// A list of one status line.
fn saying(text: String) -> (emit: Vec<Outgoing>)
    ensures
        out_models(emit@) == seq![crate::machine::status(text@)],
{
    let mut emit = silence();
    say(&mut emit, text);
    assert(out_models(emit@) =~= seq![crate::machine::status(text@)]);
    emit
}

/// What the renderer is told if the thread has no runtime to run on.
pub fn runtime_failed_event(reason: &String) -> (event: NetEvent)
    ensures
        event@ == NetEvent::Status("tokio runtime build failed: "@ + reason@),
{
    NetEvent::Status(reason_text("tokio runtime build failed: ", reason))
}

/// The session as the renderer is told of it.
pub fn session_opened_event(session: SessionInfo) -> (event: NetEvent)
    ensures
        event@ == crate::machine::opened_event::<Seq<char>>(session),
{
    NetEvent::SessionOpened {
        player_id: session.player_id,
        persistent_id: session.persistent_id,
        origin_x: session.origin_x,
        origin_z: session.origin_z,
        shard_id: session.shard_id,
    }
}

/// Appends where a handoff leads.
fn push_target(text: &mut String, target: &Handoff)
    ensures
        final(text)@ == old(text)@ + crate::machine::target_text(target@),
{
    push_numeral(text, target.shard_id as u64, 16);
    text.append(" at ");
    text.append(target.ip.as_str());
    text.append(":");
    push_numeral(text, target.port as u64, 10);
    assert(text@ =~= old(text)@ + crate::machine::target_text(target@));
}

/// The time between two movement packets.
pub fn input_interval(input_hz: u32) -> (ns: u64)
    ensures
        ns == crate::machine::input_interval_ns(input_hz),
{
    let hz: u64 = if input_hz >= 1 {
        input_hz as u64
    } else {
        1
    };
    assert(1_000_000int / (hz as int) <= 1_000_000) by (nonlinear_arith)
        requires
            hz >= 1,
    ;
    (1_000_000 / hz) * 1000
}

/// What is emitted of a polled batch, and whether any event is forwarded.
fn forward_batch(events: &Vec<GameEvent>, old_rtt_us: u64, rtt_us: u64) -> (out: (
    Vec<Outgoing>,
    bool,
))
    ensures
        out_models(out.0@) == crate::machine::batch_emit(crate::net::models(events@), old_rtt_us, rtt_us),
        out.1 == (crate::net::forwarded_batch(crate::net::models(events@)).len() > 0),
{
    let ghost all = crate::net::models(events@);
    let mut emit = silence();
    let mut any: bool = false;
    let mut i: usize = 0;
    assert(all.take(0) =~= seq![]);
    assert(out_models(emit@) =~= crate::machine::batch_emit(all.take(0), old_rtt_us, rtt_us));
    while i < events.len()
        invariant
            i <= events.len(),
            all == crate::net::models(events@),
            out_models(emit@) == crate::machine::batch_emit(all.take(i as int), old_rtt_us, rtt_us),
            any == (crate::net::forwarded_batch(all.take(i as int)).len() > 0),
        decreases events.len() - i,
    {
        assert(all.take(i + 1).drop_last() =~= all.take(i as int));
        if let Some(event) = forward_event(&events[i]) {
            if !any && rtt_us != old_rtt_us {
                let ms: u32 = ((rtt_us / 1000) % 0x1_0000_0000) as u32;
                note(&mut emit, NetEvent::RttSample(ms));
            }
            any = true;
            let ghost before = emit@;
            emit.push(Outgoing { event, required: true });
            assert(out_models(emit@) =~= out_models(before).push(
                Outgoing { event: event@, required: true },
            ));
        }
        i = i + 1;
        assert(out_models(emit@) =~= crate::machine::batch_emit(all.take(i as int), old_rtt_us, rtt_us));
    }
    assert(all.take(i as int) =~= all);
    (emit, any)
}

impl Driver<String> {
    /// A driver before its start.
    pub fn new(cfg: ViewerConfig) -> (d: Driver)
        ensures
            d@ == crate::machine::fresh(cfg@),
    {
        let last_pos = Spot::Narrow { x: cfg.start_x, z: cfg.start_z };
        Driver {
            cfg,
            phase: Phase::Fresh,
            jwt: String::from_str(""),
            persistent_id: 0,
            input: MoveInput { move_x: 0, move_z: 0, orientation: 0, buttons: 0 },
            last_input_tx: 0,
            last_ping_tx: 0,
            last_rtt_us: 0,
            last_state_ack: 0,
            last_pos,
            bridging: false,
        }
    }

    /// The first step.
    pub fn start(&mut self) -> (s: Step)
        ensures
            (final(self)@, s@) == crate::machine::turn(
                old(self)@,
                Phase::ConnectingAuth,
                seq![crate::machine::status("connecting to auth-service…"@)],
                Action::ConnectAuth { url: old(self)@.cfg.client.auth_service_url },
            ),
    {
        self.phase = Phase::ConnectingAuth;
        Step {
            emit: saying(String::from_str("connecting to auth-service…")),
            next: Action::ConnectAuth { url: self.cfg.client.auth_service_url.clone() },
        }
    }

    /// The set-up failed.
    fn give_up(&mut self, prefix: &str, reason: &String) -> (s: Step)
        ensures
            (final(self)@, s@) == crate::machine::given_up(old(self)@, prefix@ + reason@),
    {
        self.phase = Phase::Done;
        Step { emit: saying(reason_text(prefix, reason)), next: Action::Exit }
    }

    /// Leaves the hot loop.
    fn leave(&mut self, emit: Vec<Outgoing>) -> (s: Step)
        ensures
            (final(self)@, s@) == crate::machine::left(old(self)@, out_models(emit@)),
    {
        let mut emit = emit;
        say(&mut emit, String::from_str("net loop exited"));
        self.phase = Phase::Done;
        Step { emit, next: Action::Exit }
    }

    /// A recovery failed.
    fn fail_recovery(&mut self, prefix: &str, reason: &String) -> (s: Step)
        ensures
            (final(self)@, s@) == crate::machine::recovery_failed(old(self)@, prefix@ + reason@),
    {
        let mut emit = saying(reason_text(prefix, reason));
        note(&mut emit, NetEvent::Disconnected);
        assert(out_models(emit@) =~= seq![
            crate::machine::status(prefix@ + reason@),
            crate::machine::notice(NetEvent::Disconnected),
        ]);
        if self.bridging {
            self.phase = Phase::Unbridging;
            Step { emit, next: Action::StopBridge }
        } else {
            self.leave(emit)
        }
    }

    /// Ends a round of the hot loop.
    fn tick(&mut self, emit: Vec<Outgoing>, now: u64) -> (s: Step)
        ensures
            (final(self)@, s@) == crate::machine::ticked(old(self)@, out_models(emit@), now),
    {
        let move_due: bool = crate::clock::since(now, self.last_input_tx) >= input_interval(
            self.cfg.client.input_hz,
        );
        let ping_due: bool = crate::clock::since(now, self.last_ping_tx) >= PING_INTERVAL_NS;
        if move_due {
            self.last_input_tx = now;
        }
        if ping_due {
            self.last_ping_tx = now;
        }
        self.phase = Phase::Ticking;
        let send_move: Option<MoveInput> = if move_due {
            Some(self.input)
        } else {
            None
        };
        Step { emit, next: Action::Tick { send_move, ping: ping_due, sleep_ms: TICK_SLEEP_MS } }
    }

    /// Goes on with the session that a recovery opened.
    fn recover(&mut self, session: SessionInfo, emit: Vec<Outgoing>, now: u64) -> (s: Step)
        ensures
            (final(self)@, s@) == crate::machine::recovered(old(self)@, session, out_models(emit@), now),
    {
        self.last_pos = Spot::Wide { x: session.origin_x, z: session.origin_z };
        self.last_state_ack = now;
        self.tick(emit, now)
    }

    /// Begins a handoff.
    fn hand_off(&mut self, target: Handoff, emit: Vec<Outgoing>) -> (s: Step)
        ensures
            (final(self)@, s@) == crate::machine::handed_off(old(self)@, target@, out_models(emit@)),
    {
        let mut emit = emit;
        let mut text = String::from_str("⟳ Handoff → shard 0x");
        push_target(&mut text, &target);
        tell(&mut emit, NetEvent::Status(text), true);
        tell(&mut emit, NetEvent::HandoffStarted, true);
        self.bridging = true;
        self.phase = Phase::HandoffConnecting;
        let persistent_id: u32 = self.persistent_id;
        Step {
            emit,
            next: Action::BeginHandoff { target, persistent_id, jwt: self.jwt.clone() },
        }
    }

    /// Asks the gateway for a shard near the last known position.
    fn reroute(&mut self, emit: Vec<Outgoing>) -> (s: Step)
        ensures
            (final(self)@, s@) == crate::machine::rerouted(old(self)@, out_models(emit@)),
    {
        let mut emit = emit;
        let text = String::from_str("⟳ Target draining — re-asking gateway…");
        tell(&mut emit, NetEvent::Status(text), self.bridging);
        self.phase = Phase::RerouteAssigning;
        Step { emit, next: Action::AskGateway { jwt: self.jwt.clone(), spot: self.last_pos } }
    }

    /// Stops the game client.
    fn stop(&mut self) -> (s: Step)
        ensures
            (final(self)@, s@) == crate::machine::stopped(old(self)@),
    {
        self.phase = Phase::Stopping;
        Step { emit: silence(), next: Action::StopClient }
    }

    /// Turns to `phase` without a message.
    fn turn_quietly(&mut self, phase: Phase, next: Action) -> (s: Step)
        ensures
            (final(self)@, s@) == crate::machine::turn(old(self)@, phase, seq![], next@),
    {
        self.phase = phase;
        Step { emit: silence(), next }
    }

    /// Changes nothing.
    fn ignore(&self) -> (s: Step)
        ensures
            (self@, s@) == crate::machine::ignored(self@),
    {
        Step { emit: silence(), next: Action::Keep }
    }

    /// Takes in a polled batch.
    fn take_batch(&mut self, events: &Vec<GameEvent>, rtt_us: u64, now: u64) -> (s: Step)
        ensures
            (final(self)@, s@) == crate::machine::polled(old(self)@, crate::net::models(events@), rtt_us, now),
    {
        let (mut emit, any) = forward_batch(events, self.last_rtt_us, rtt_us);
        if any {
            self.last_rtt_us = rtt_us;
        }
        if let Some(spot) = find_last_ack(events) {
            self.last_pos = spot;
            self.last_state_ack = now;
        }
        if let Some(target) = find_handoff(events) {
            self.hand_off(target, emit)
        } else if find_loss(events) {
            self.phase = Phase::Grace { left: GRACE_POLLS, asleep: true };
            Step { emit, next: Action::Sleep { ms: GRACE_SLEEP_MS } }
        } else if crate::clock::since(now, self.last_state_ack) > LIVENESS_TIMEOUT_NS {
            say(&mut emit, String::from_str("⟳ StateAck stale — recovering via gateway"));
            self.reroute(emit)
        } else {
            self.tick(emit, now)
        }
    }

    /// Takes in a batch of the grace period.
    fn take_grace_batch(&mut self, left: u8, events: &Vec<GameEvent>) -> (s: Step)
        ensures
            (final(self)@, s@) == crate::machine::grace_polled(old(self)@, left, crate::net::models(events@)),
    {
        if let Some(target) = find_handoff(events) {
            let mut text = String::from_str("⟳ Handoff (late) → shard 0x");
            push_target(&mut text, &target);
            self.hand_off(target, saying(text))
        } else if left > 1 {
            self.turn_quietly(
                Phase::Grace { left: left - 1, asleep: true },
                Action::Sleep { ms: GRACE_SLEEP_MS },
            )
        } else {
            self.reroute(saying(String::from_str("⟳ Disconnect — recovering via gateway")))
        }
    }

    /// A step of the set-up.
    fn take_setup(&mut self, reply: Reply, now: u64) -> (s: Step)
        ensures
            (final(self)@, s@) == crate::machine::setup_step(old(self)@, reply@, now),
    {
        match self.phase {
            Phase::ConnectingAuth => match reply {
                Reply::Done => {
                    let next = Action::Register {
                        username: self.cfg.username.clone(),
                        password: self.cfg.password.clone(),
                    };
                    self.turn_quietly(Phase::Registering, next)
                },
                Reply::Failed(why) => self.give_up("auth-service unreachable: ", &why),
                _ => self.ignore(),
            },
            Phase::Registering => {
                self.phase = Phase::LoggingIn;
                Step {
                    emit: saying(String::from_str("logging in…")),
                    next: Action::Login {
                        username: self.cfg.username.clone(),
                        password: self.cfg.password.clone(),
                    },
                }
            },
            Phase::LoggingIn => match reply {
                Reply::Token(jwt) => {
                    self.jwt = jwt.clone();
                    self.turn_quietly(Phase::LoadingState, Action::LoadState { jwt })
                },
                Reply::Failed(why) => self.give_up("login failed: ", &why),
                _ => self.ignore(),
            },
            Phase::LoadingState => {
                self.last_pos = match reply {
                    Reply::Saved { found: true, x, z } => Spot::Wide { x, z },
                    _ => Spot::Narrow { x: self.cfg.start_x, z: self.cfg.start_z },
                };
                self.phase = Phase::ConnectingGateway;
                Step {
                    emit: saying(String::from_str("asking gateway for shard assignment…")),
                    next: Action::ConnectGateway { url: self.cfg.client.gateway_url.clone() },
                }
            },
            Phase::ConnectingGateway => match reply {
                Reply::Done => {
                    let next = Action::AskGateway { jwt: self.jwt.clone(), spot: self.last_pos };
                    self.turn_quietly(Phase::Assigning, next)
                },
                Reply::Failed(why) => self.give_up("gateway unreachable: ", &why),
                _ => self.ignore(),
            },
            Phase::Assigning => match reply {
                Reply::Assigned { ip, port } => {
                    let mut text = String::from_str("connecting to shard ");
                    text.append(ip.as_str());
                    text.append(":");
                    push_numeral(&mut text, port as u64, 10);
                    text.append("…");
                    self.phase = Phase::ConnectingShard;
                    Step {
                        emit: saying(text),
                        next: Action::ConnectShard { ip, port, jwt: self.jwt.clone() },
                    }
                },
                Reply::Failed(why) => self.give_up("gateway rejection: ", &why),
                _ => self.ignore(),
            },
            Phase::ConnectingShard => match reply {
                Reply::Done => self.turn_quietly(Phase::Opening, Action::AwaitOpen),
                Reply::Failed(why) => self.give_up("shard connect failed: ", &why),
                _ => self.ignore(),
            },
            Phase::Opening => match reply {
                Reply::Opened(session) => {
                    self.persistent_id = session.persistent_id;
                    self.last_input_tx = now;
                    self.last_ping_tx = now;
                    self.last_state_ack = now;
                    self.last_pos = Spot::Wide { x: session.origin_x, z: session.origin_z };
                    self.phase = Phase::Commands;
                    Step { emit: announcing(session, false), next: Action::ReadCommand }
                },
                Reply::Draining(why) => self.give_up("session auth failed: ", &why),
                Reply::Denied { text, .. } => self.give_up("session auth failed: ", &text),
                _ => self.ignore(),
            },
            _ => self.ignore(),
        }
    }

    /// A step of the hot loop.
    fn take_hot(&mut self, reply: Reply, now: u64) -> (s: Step)
        ensures
            (final(self)@, s@) == crate::machine::hot_step(old(self)@, reply@, now),
    {
        match self.phase {
            Phase::Commands => match reply {
                Reply::Command(got) => match got {
                    Received::Got(GuiCmd::Move { move_x, move_z, orientation, buttons }) => {
                        self.input = MoveInput { move_x, move_z, orientation, buttons };
                        self.turn_quietly(Phase::Commands, Action::ReadCommand)
                    },
                    Received::Got(GuiCmd::Action { action_type }) => {
                        self.turn_quietly(Phase::Acting, Action::SendAction { action_type })
                    },
                    Received::Got(GuiCmd::Quit) => self.stop(),
                    Received::Empty => self.turn_quietly(Phase::Polling, Action::PollEvents),
                    Received::Closed => self.stop(),
                },
                _ => self.ignore(),
            },
            Phase::Acting => match reply {
                Reply::Done => self.turn_quietly(Phase::Commands, Action::ReadCommand),
                _ => self.ignore(),
            },
            Phase::Polling => match reply {
                Reply::Events { events, rtt_us } => self.take_batch(&events, rtt_us, now),
                _ => self.ignore(),
            },
            Phase::Grace { left, asleep } => match reply {
                Reply::Done => {
                    if asleep {
                        self.turn_quietly(Phase::Grace { left, asleep: false }, Action::PollEvents)
                    } else {
                        self.ignore()
                    }
                },
                Reply::Events { events, .. } => {
                    if asleep {
                        self.ignore()
                    } else {
                        self.take_grace_batch(left, &events)
                    }
                },
                _ => self.ignore(),
            },
            Phase::Ticking => match reply {
                Reply::Done => self.turn_quietly(Phase::Commands, Action::ReadCommand),
                _ => self.ignore(),
            },
            Phase::Stopping => match reply {
                Reply::Done => self.leave(silence()),
                _ => self.ignore(),
            },
            Phase::Unbridging => match reply {
                Reply::Done => {
                    self.bridging = false;
                    self.leave(silence())
                },
                _ => self.ignore(),
            },
            Phase::Abandoning => match reply {
                Reply::Done => {
                    self.bridging = false;
                    self.stop()
                },
                _ => self.ignore(),
            },
            _ => self.ignore(),
        }
    }

    /// A step of a handoff.
    fn take_handoff(&mut self, reply: Reply, now: u64) -> (s: Step)
        ensures
            (final(self)@, s@) == crate::machine::handoff_step(old(self)@, reply@, now),
    {
        match self.phase {
            Phase::HandoffConnecting => match reply {
                Reply::Done => self.turn_quietly(Phase::HandoffOpening, Action::AwaitOpen),
                Reply::Failed(why) => self.fail_recovery("✗ Handoff connect failed: ", &why),
                _ => self.ignore(),
            },
            Phase::HandoffOpening => match reply {
                Reply::Opened(session) => {
                    self.turn_quietly(Phase::HandoffSettling { session }, Action::StopBridge)
                },
                Reply::Draining(_) => self.reroute(silence()),
                Reply::Denied { cause, .. } => {
                    self.fail_recovery("✗ Handoff auth failed: ", &cause)
                },
                _ => self.ignore(),
            },
            Phase::HandoffSettling { session } => match reply {
                Reply::Done => {
                    self.bridging = false;
                    self.recover(session, announcing(session, true), now)
                },
                _ => self.ignore(),
            },
            _ => self.ignore(),
        }
    }

    /// A step of a reroute through the gateway.
    fn take_reroute(&mut self, reply: Reply, now: u64) -> (s: Step)
        ensures
            (final(self)@, s@) == crate::machine::reroute_step(old(self)@, reply@, now),
    {
        match self.phase {
            Phase::RerouteAssigning => match reply {
                Reply::Assigned { ip, port } => {
                    let next = Action::Reconnect { ip, port, jwt: self.jwt.clone() };
                    self.turn_quietly(Phase::RerouteConnecting, next)
                },
                Reply::Failed(why) => self.fail_recovery("✗ Gateway re-route failed: ", &why),
                _ => self.ignore(),
            },
            Phase::RerouteConnecting => match reply {
                Reply::Done => self.turn_quietly(Phase::RerouteOpening, Action::AwaitOpen),
                Reply::Failed(why) => self.fail_recovery("✗ Reconnect failed: ", &why),
                _ => self.ignore(),
            },
            Phase::RerouteOpening => match reply {
                Reply::Opened(session) => {
                    let emit = announcing(session, self.bridging);
                    if self.bridging {
                        self.phase = Phase::RerouteSettling { session };
                        Step { emit, next: Action::StopBridge }
                    } else {
                        self.recover(session, emit, now)
                    }
                },
                Reply::Draining(why) => {
                    self.fail_recovery("✗ Session auth after gateway retry failed: ", &why)
                },
                Reply::Denied { text, .. } => {
                    self.fail_recovery("✗ Session auth after gateway retry failed: ", &text)
                },
                _ => self.ignore(),
            },
            Phase::RerouteSettling { session } => match reply {
                Reply::Done => {
                    self.bridging = false;
                    self.recover(session, silence(), now)
                },
                _ => self.ignore(),
            },
            _ => self.ignore(),
        }
    }

    /// Takes in the outcome of an action.
    pub fn step(&mut self, reply: Reply, now: u64) -> (s: Step)
        ensures
            (final(self)@, s@) == crate::machine::step(old(self)@, reply@, now),
    {
        match self.phase {
            Phase::ConnectingAuth
            | Phase::Registering
            | Phase::LoggingIn
            | Phase::LoadingState
            | Phase::ConnectingGateway
            | Phase::Assigning
            | Phase::ConnectingShard
            | Phase::Opening => self.take_setup(reply, now),
            Phase::HandoffConnecting | Phase::HandoffOpening | Phase::HandoffSettling { .. } => {
                self.take_handoff(reply, now)
            },
            Phase::RerouteAssigning
            | Phase::RerouteConnecting
            | Phase::RerouteOpening
            | Phase::RerouteSettling { .. } => self.take_reroute(reply, now),
            _ => self.take_hot(reply, now),
        }
    }

    /// A required message of the last step could not be delivered, so the step's
    /// action was not begun: the renderer is gone.
    pub fn renderer_gone(&mut self) -> (s: Step)
        ensures
            (final(self)@, s@) == crate::machine::abandoned(old(self)@),
    {
        let open: bool = match self.phase {
            Phase::HandoffConnecting => false,
            _ => self.bridging,
        };
        if open {
            self.turn_quietly(Phase::Abandoning, Action::StopBridge)
        } else {
            self.bridging = false;
            self.stop()
        }
    }

    /// Looks at the command channel and takes in what it brought.
    pub fn take_command(&mut self, ch: &mut NetChannels, now: u64) -> (s: Step)
        ensures
            ({
                let before = crate::channels::command_looks(old(ch).gui_cmds);
                let after = crate::channels::command_looks(final(ch).gui_cmds);
                &&& after.len() == before.len() + 1
                &&& after.drop_last() == before
                &&& (final(self)@, s@) == crate::machine::step(
                    old(self)@,
                    Reply::Command(after.last()),
                    now,
                )
            }),
            final(ch).net_events == old(ch).net_events,
            forall|tx: Sender<GuiCmd>| #[trigger]
                crate::channels::commands_in_step(tx, old(ch).gui_cmds)
                    ==> crate::channels::commands_in_step(tx, final(ch).gui_cmds),
    {
        let got = crate::channels::receive_command(&mut ch.gui_cmds);
        assert(crate::channels::command_looks(ch.gui_cmds).drop_last()
            =~= crate::channels::command_looks(old(ch).gui_cmds));
        self.step(Reply::Command(got), now)
    }
}

/// What the forwarding from an old session does next. `told` is whether it has
/// been told to stop, `alive` whether the renderer took what was last forwarded,
/// and `drained` whether it has polled for the last time.
pub fn bridge_next(told: bool, alive: bool, drained: bool) -> (next: BridgeAction)
    ensures
        next == crate::machine::bridge_step(told, alive, drained),
{
    if !alive || (told && drained) {
        BridgeAction::StopOld
    } else if told {
        BridgeAction::LastPoll
    } else {
        BridgeAction::Poll
    }
}

/// The events of a list of messages.
pub open spec fn events_of(emit: EmitModel) -> Seq<NetEvent<Seq<char>>> {
    emit.map_values(|out: Outgoing<Seq<char>>| out.event)
}

/// Which messages of a list are required.
pub open spec fn required_of(emit: Seq<Outgoing>) -> Seq<bool> {
    emit.map_values(|out: Outgoing| out.required)
}

/// Every one of `n` messages is required.
pub open spec fn all_required(n: nat) -> Seq<bool> {
    Seq::new(n, |i: int| true)
}

/// Every required message that was answered was accepted.
pub open spec fn met(required: Seq<bool>, answers: Seq<bool>) -> bool {
    forall|i: int| 0 <= i < answers.len() ==> (required[i] ==> #[trigger] answers[i])
}

/// How far a list of messages gets, by the channel's answers to them: to its
/// end, with every required message accepted, or to the first required message
/// that the channel refused. `alive` says which.
pub open spec fn reaches(required: Seq<bool>, answers: Seq<bool>, alive: bool) -> bool {
    &&& answers.len() <= required.len()
    &&& alive ==> answers.len() == required.len() && met(required, answers)
    &&& !alive ==> {
        &&& answers.len() > 0
        &&& required[answers.len() - 1]
        &&& !answers.last()
        &&& met(required, answers.drop_last())
    }
}

/// What an end has sent and was answered grew by the beginning of `events` that
/// was answered with `answers`.
pub open spec fn handed(
    before: Sender<NetEvent>,
    after: Sender<NetEvent>,
    events: Seq<NetEvent<Seq<char>>>,
    answers: Seq<bool>,
) -> bool {
    &&& crate::channels::event_answers(after) == crate::channels::event_answers(before) + answers
    &&& crate::channels::events_sent(after) == crate::channels::events_sent(before) + events.take(
        answers.len() as int,
    )
}

/// Sends the messages of a step in order. Stops, and says so, at a required
/// message that the channel refuses.
pub fn publish(tx: &mut Sender<NetEvent>, emit: Vec<Outgoing>) -> (alive: bool)
    requires
        crate::channels::is_event_end(*old(tx)),
    ensures
        exists|answers: Seq<bool>|
            {
                &&& #[trigger] reaches(required_of(emit@), answers, alive)
                &&& handed(*old(tx), *final(tx), events_of(out_models(emit@)), answers)
            },
        forall|rx: Receiver<NetEvent>|
            #[trigger] crate::channels::event_ends(*final(tx), rx) == crate::channels::event_ends(
                *old(tx),
                rx,
            ),
        crate::channels::is_event_end(*final(tx)),
        forall|rx: Receiver<NetEvent>| #[trigger]
            crate::channels::events_in_step(*old(tx), rx) ==> crate::channels::events_in_step(
                *final(tx),
                rx,
            ),
{
    let ghost all = emit@;
    let ghost events = events_of(out_models(all));
    let ghost end = choose|rx: Receiver<NetEvent>| crate::channels::event_ends(*tx, rx);
    let ghost mut answers: Seq<bool> = seq![];
    assert(crate::channels::event_answers(*tx) + answers =~= crate::channels::event_answers(*tx));
    assert(crate::channels::events_sent(*tx) + events.take(0)
        =~= crate::channels::events_sent(*tx));
    for out in it: emit
        invariant
            it.seq() == all,
            events == events_of(out_models(all)),
            crate::channels::event_ends(*tx, end),
            forall|rx: Receiver<NetEvent>|
                #[trigger] crate::channels::event_ends(*tx, rx) == crate::channels::event_ends(
                    *old(tx),
                    rx,
                ),
            forall|rx: Receiver<NetEvent>| #[trigger]
                crate::channels::events_in_step(*old(tx), rx) ==> crate::channels::events_in_step(
                    *tx,
                    rx,
                ),
            answers.len() == it.index(),
            met(required_of(all), answers),
            handed(*old(tx), *tx, events, answers),
    {
        let required: bool = out.required;
        let ghost before = *tx;
        let ghost earlier = answers;
        let accepted: bool = crate::channels::send_event(tx, out.event);
        proof {
            answers = answers.push(accepted);
            assert(crate::channels::event_ends(*tx, end));
            assert(answers.drop_last() =~= earlier);
            assert(events.take(answers.len() as int) =~= events.take(earlier.len() as int).push(
                out.event@,
            ));
            assert(crate::channels::events_sent(*tx) =~= crate::channels::events_sent(*old(tx))
                + events.take(answers.len() as int));
            assert(crate::channels::event_answers(*tx) =~= crate::channels::event_answers(
                *old(tx),
            ) + answers);
            assert(required_of(all)[it.index() as int] == required);
            assert forall|rx: Receiver<NetEvent>| #[trigger]
                crate::channels::events_in_step(
                *old(tx),
                rx,
            ) implies crate::channels::events_in_step(*tx, rx) by {
                assert(crate::channels::events_in_step(before, rx));
                assert(crate::channels::event_ends(*tx, rx));
            }
        }
        if required && !accepted {
            assert(reaches(required_of(all), answers, false));
            return false;
        }
    }
    assert(reaches(required_of(all), answers, true));
    true
}

/// Sends what is forwarded of a batch from the shard that is being left, in
/// order. Stops, and says so, at a message that the channel refuses.
pub fn publish_bridged(tx: &mut Sender<NetEvent>, events: &Vec<GameEvent>) -> (alive: bool)
    requires
        crate::channels::is_event_end(*old(tx)),
    ensures
        ({
            let batch = crate::net::bridged_batch(crate::net::models(events@));
            exists|answers: Seq<bool>|
                {
                    &&& #[trigger] reaches(all_required(batch.len()), answers, alive)
                    &&& handed(*old(tx), *final(tx), batch, answers)
                }
        }),
        forall|rx: Receiver<NetEvent>|
            #[trigger] crate::channels::event_ends(*final(tx), rx) == crate::channels::event_ends(
                *old(tx),
                rx,
            ),
        crate::channels::is_event_end(*final(tx)),
        forall|rx: Receiver<NetEvent>| #[trigger]
            crate::channels::events_in_step(*old(tx), rx) ==> crate::channels::events_in_step(
                *final(tx),
                rx,
            ),
{
    let batch = bridge_batch(events);
    let ghost shown = crate::net::event_models(batch@);
    let mut emit: Vec<Outgoing> = Vec::new();
    for event in it: batch
        invariant
            shown == crate::net::event_models(it.seq()),
            emit.len() == it.index(),
            forall|i: int|
                0 <= i < emit.len() ==> (#[trigger] emit[i]).event@ == shown[i]
                    && emit[i].required,
    {
        emit.push(Outgoing { event, required: true });
    }
    assert(events_of(out_models(emit@)) =~= shown);
    assert(required_of(emit@) =~= all_required(shown.len()));
    publish(tx, emit)
}

} // verus!
