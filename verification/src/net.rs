//! What the game client reports, and what of it the renderer gets to see.

use vstd::prelude::*;

use crate::channels::NetEvent;

verus! {

/// What the game client reports. Floating-point values stand as bit patterns.
/// `S` is the type of text; in contracts it is `Seq<char>`.
#[derive(Debug, Clone)]
#[allow(inconsistent_fields)]
pub enum GameEvent<S = String> {
    SessionOpened,
    SessionAuthFailed { reason: u8 },
    StateAck { server_tick: u32, x: u64, y: u64, z: u64, hp: u32, stamina: u64 },
    EntityMoved { entity_id: u32, x: u32, y: u32, z: u32, orientation: u32, source_shard_hash: u32 },
    HitConfirm { target_id: u32, damage: u32, target_hp: u32 },
    EntityHealth { entity_id: u32, hp: u32, max_hp: u32 },
    EntityStateChanged { entity_id: u32, state_id: u16, param_a: u32 },
    ActionRejected { reason: u8 },
    ShardHandoffReceived { new_ip: S, new_port: u16, new_shard_id: u32, handoff_token: u64 },
    Disconnected,
}

/// The shard that a session is to move to.
#[derive(Debug, Clone)]
pub struct Handoff<S = String> {
    pub ip: S,
    pub port: u16,
    pub shard_id: u32,
    pub token: u64,
}

/// A place on the map as its coordinates came: single precision from the
/// settings, double precision from the server.
#[derive(Debug, Clone, Copy, PartialEq, Eq, Structural)]
#[allow(inconsistent_fields)]
pub enum Spot {
    Narrow { x: u32, z: u32 },
    Wide { x: u64, z: u64 },
}

impl View for GameEvent<String> {
    type V = GameEvent<Seq<char>>;

    open spec fn view(&self) -> GameEvent<Seq<char>> {
        match *self {
            GameEvent::SessionOpened => GameEvent::SessionOpened,
            GameEvent::SessionAuthFailed { reason } => GameEvent::SessionAuthFailed { reason },
            GameEvent::StateAck { server_tick, x, y, z, hp, stamina } => {
                GameEvent::StateAck { server_tick, x, y, z, hp, stamina }
            },
            GameEvent::EntityMoved { entity_id, x, y, z, orientation, source_shard_hash } => {
                GameEvent::EntityMoved { entity_id, x, y, z, orientation, source_shard_hash }
            },
            GameEvent::HitConfirm { target_id, damage, target_hp } => {
                GameEvent::HitConfirm { target_id, damage, target_hp }
            },
            GameEvent::EntityHealth { entity_id, hp, max_hp } => {
                GameEvent::EntityHealth { entity_id, hp, max_hp }
            },
            GameEvent::EntityStateChanged { entity_id, state_id, param_a } => {
                GameEvent::EntityStateChanged { entity_id, state_id, param_a }
            },
            GameEvent::ActionRejected { reason } => GameEvent::ActionRejected { reason },
            GameEvent::ShardHandoffReceived { new_ip, new_port, new_shard_id, handoff_token } => {
                GameEvent::ShardHandoffReceived { new_ip: new_ip@, new_port, new_shard_id, handoff_token }
            },
            GameEvent::Disconnected => GameEvent::Disconnected,
        }
    }
}

impl View for Handoff<String> {
    type V = Handoff<Seq<char>>;

    open spec fn view(&self) -> Handoff<Seq<char>> {
        Handoff { ip: self.ip@, port: self.port, shard_id: self.shard_id, token: self.token }
    }
}

/// The models of a batch of events.
pub open spec fn models(events: Seq<GameEvent>) -> Seq<GameEvent<Seq<char>>> {
    events.map_values(|ev: GameEvent| ev@)
}

/// The model of an optional event.
pub open spec fn event_model(ev: Option<NetEvent>) -> Option<NetEvent<Seq<char>>> {
    match ev {
        Some(ev) => Some(ev@),
        None => None,
    }
}

/// The model of an optional handoff.
pub open spec fn handoff_model(target: Option<Handoff>) -> Option<Handoff<Seq<char>>> {
    match target {
        Some(target) => Some(target@),
        None => None,
    }
}

/// What the renderer is told of an event: everything but the opening of a
/// session, which is published by itself, and handoffs.
pub open spec fn mapped<S>(ev: GameEvent<S>) -> Option<NetEvent<S>> {
    match ev {
        GameEvent::SessionOpened => None,
        GameEvent::SessionAuthFailed { reason } => Some(NetEvent::AuthFailed { reason }),
        GameEvent::StateAck { server_tick, x, y, z, hp, stamina } => {
            Some(NetEvent::StateAck { server_tick, x, y, z, hp, stamina })
        },
        GameEvent::EntityMoved { entity_id, x, y, z, orientation, source_shard_hash } => {
            Some(NetEvent::EntityMoved { entity_id, x, y, z, orientation, source_shard_hash })
        },
        GameEvent::HitConfirm { target_id, damage, target_hp } => {
            Some(NetEvent::HitConfirm { target_id, damage, target_hp })
        },
        GameEvent::EntityHealth { entity_id, hp, max_hp } => {
            Some(NetEvent::EntityHealth { entity_id, hp, max_hp })
        },
        GameEvent::EntityStateChanged { entity_id, state_id, param_a } => {
            Some(NetEvent::EntityStateChanged { entity_id, state_id, param_a })
        },
        GameEvent::ActionRejected { reason } => Some(NetEvent::ActionRejected { reason }),
        GameEvent::ShardHandoffReceived { .. } => None,
        GameEvent::Disconnected => Some(NetEvent::Disconnected),
    }
}

/// What the hot loop forwards of an event: the end of a session and a handoff
/// are answered by a recovery, not shown.
pub open spec fn forwarded<S>(ev: GameEvent<S>) -> Option<NetEvent<S>> {
    if ev is Disconnected || ev is ShardHandoffReceived {
        None
    } else {
        mapped(ev)
    }
}

/// What is forwarded of an event from the shard that is being left: not the
/// local player's state either, which is stale there.
pub open spec fn bridged<S>(ev: GameEvent<S>) -> Option<NetEvent<S>> {
    if ev is StateAck {
        None
    } else {
        forwarded(ev)
    }
}

/// The handoff that an event asks for.
pub open spec fn handoff_of<S>(ev: GameEvent<S>) -> Option<Handoff<S>> {
    match ev {
        GameEvent::ShardHandoffReceived { new_ip, new_port, new_shard_id, handoff_token } => {
            Some(Handoff { ip: new_ip, port: new_port, shard_id: new_shard_id, token: handoff_token })
        },
        _ => None,
    }
}

/// The first handoff of a batch.
pub open spec fn first_handoff<S>(events: Seq<GameEvent<S>>) -> Option<Handoff<S>>
    decreases events.len(),
{
    if events.len() == 0 {
        None
    } else {
        match first_handoff(events.drop_last()) {
            Some(target) => Some(target),
            None => handoff_of(events.last()),
        }
    }
}

/// The position in the last state of the local player in a batch.
pub open spec fn last_ack<S>(events: Seq<GameEvent<S>>) -> Option<Spot>
    decreases events.len(),
{
    if events.len() == 0 {
        None
    } else {
        match events.last() {
            GameEvent::StateAck { x, z, .. } => Some(Spot::Wide { x, z }),
            _ => last_ack(events.drop_last()),
        }
    }
}

/// The batch tells that the session is gone.
pub open spec fn session_lost<S>(events: Seq<GameEvent<S>>) -> bool {
    exists|i: int|
        0 <= i < events.len() && (#[trigger] events[i] is Disconnected
            || events[i] is SessionAuthFailed)
}

/// What the hot loop forwards of a batch.
pub open spec fn forwarded_batch<S>(events: Seq<GameEvent<S>>) -> Seq<NetEvent<S>> {
    events.filter_map(|ev: GameEvent<S>| forwarded(ev))
}

/// What is forwarded of a batch from the shard that is being left.
pub open spec fn bridged_batch<S>(events: Seq<GameEvent<S>>) -> Seq<NetEvent<S>> {
    events.filter_map(|ev: GameEvent<S>| bridged(ev))
}

/// Translates an event of the game client for the renderer.
pub fn map_event(ev: &GameEvent) -> (out: Option<NetEvent>)
    ensures
        event_model(out) == mapped(ev@),
{
    match ev {
        GameEvent::SessionOpened => None,
        GameEvent::SessionAuthFailed { reason } => Some(NetEvent::AuthFailed { reason: *reason }),
        GameEvent::StateAck { server_tick, x, y, z, hp, stamina } => {
            Some(
                NetEvent::StateAck {
                    server_tick: *server_tick,
                    x: *x,
                    y: *y,
                    z: *z,
                    hp: *hp,
                    stamina: *stamina,
                },
            )
        },
        GameEvent::EntityMoved { entity_id, x, y, z, orientation, source_shard_hash } => {
            Some(
                NetEvent::EntityMoved {
                    entity_id: *entity_id,
                    x: *x,
                    y: *y,
                    z: *z,
                    orientation: *orientation,
                    source_shard_hash: *source_shard_hash,
                },
            )
        },
        GameEvent::HitConfirm { target_id, damage, target_hp } => {
            Some(
                NetEvent::HitConfirm { target_id: *target_id, damage: *damage, target_hp: *target_hp },
            )
        },
        GameEvent::EntityHealth { entity_id, hp, max_hp } => {
            Some(NetEvent::EntityHealth { entity_id: *entity_id, hp: *hp, max_hp: *max_hp })
        },
        GameEvent::EntityStateChanged { entity_id, state_id, param_a } => {
            Some(
                NetEvent::EntityStateChanged {
                    entity_id: *entity_id,
                    state_id: *state_id,
                    param_a: *param_a,
                },
            )
        },
        GameEvent::ActionRejected { reason } => Some(NetEvent::ActionRejected { reason: *reason }),
        GameEvent::ShardHandoffReceived { .. } => None,
        GameEvent::Disconnected => Some(NetEvent::Disconnected),
    }
}

/// What the hot loop forwards of an event.
pub fn forward_event(ev: &GameEvent) -> (out: Option<NetEvent>)
    ensures
        event_model(out) == forwarded(ev@),
{
    match ev {
        GameEvent::Disconnected => None,
        GameEvent::ShardHandoffReceived { .. } => None,
        _ => map_event(ev),
    }
}

/// What is forwarded of an event from the shard that is being left.
pub fn bridge_event(ev: &GameEvent) -> (out: Option<NetEvent>)
    ensures
        event_model(out) == bridged(ev@),
{
    match ev {
        GameEvent::StateAck { .. } => None,
        _ => forward_event(ev),
    }
}

/// The first handoff of a batch.
pub fn find_handoff(events: &Vec<GameEvent>) -> (target: Option<Handoff>)
    ensures
        handoff_model(target) == first_handoff(models(events@)),
{
    let ghost all = models(events@);
    let mut i: usize = 0;
    while i < events.len()
        invariant
            i <= events.len(),
            all == models(events@),
            first_handoff(all.take(i as int)) is None,
        decreases events.len() - i,
    {
        assert(all.take(i + 1).drop_last() =~= all.take(i as int));
        if let GameEvent::ShardHandoffReceived { new_ip, new_port, new_shard_id, handoff_token } =
            &events[i] {
            let target = Handoff {
                ip: new_ip.clone(),
                port: *new_port,
                shard_id: *new_shard_id,
                token: *handoff_token,
            };
            assert(first_handoff(all.take(i + 1)) == Some(target@));
            proof {
                lemma_first_handoff_stays(all, i + 1);
            }
            return Some(target);
        }
        i = i + 1;
    }
    assert(all.take(i as int) =~= all);
    None
}

/// A batch's first handoff is the first of every longer beginning.
proof fn lemma_first_handoff_stays<S>(events: Seq<GameEvent<S>>, n: int)
    requires
        0 <= n <= events.len(),
        first_handoff(events.take(n)) is Some,
    ensures
        first_handoff(events) == first_handoff(events.take(n)),
    decreases events.len(),
{
    if n == events.len() {
        assert(events.take(n) =~= events);
    } else {
        assert(events.drop_last().take(n) =~= events.take(n));
        lemma_first_handoff_stays(events.drop_last(), n);
    }
}

/// The position in the last state of the local player in a batch.
pub fn find_last_ack(events: &Vec<GameEvent>) -> (spot: Option<Spot>)
    ensures
        spot == last_ack(models(events@)),
{
    let ghost all = models(events@);
    let mut spot: Option<Spot> = None;
    let mut i: usize = 0;
    while i < events.len()
        invariant
            i <= events.len(),
            all == models(events@),
            spot == last_ack(all.take(i as int)),
        decreases events.len() - i,
    {
        assert(all.take(i + 1).drop_last() =~= all.take(i as int));
        if let GameEvent::StateAck { x, z, .. } = &events[i] {
            spot = Some(Spot::Wide { x: *x, z: *z });
        }
        i = i + 1;
    }
    assert(all.take(i as int) =~= all);
    spot
}

/// Whether the batch tells that the session is gone.
pub fn find_loss(events: &Vec<GameEvent>) -> (lost: bool)
    ensures
        lost == session_lost(models(events@)),
{
    let ghost all = models(events@);
    let mut i: usize = 0;
    while i < events.len()
        invariant
            i <= events.len(),
            all == models(events@),
            forall|j: int|
                0 <= j < i ==> !(#[trigger] all[j] is Disconnected) && !(all[j]
                    is SessionAuthFailed),
        decreases events.len() - i,
    {
        assert(all[i as int] == events[i as int]@);
        match &events[i] {
            GameEvent::Disconnected => {
                return true;
            },
            GameEvent::SessionAuthFailed { .. } => {
                return true;
            },
            _ => {},
        }
        i = i + 1;
    }
    false
}

/// The models of a list of messages.
pub open spec fn event_models(events: Seq<NetEvent>) -> Seq<NetEvent<Seq<char>>> {
    events.map_values(|ev: NetEvent| ev@)
}

/// What is forwarded of a batch from the shard that is being left.
pub fn bridge_batch(events: &Vec<GameEvent>) -> (out: Vec<NetEvent>)
    ensures
        event_models(out@) == bridged_batch(models(events@)),
{
    let ghost all = models(events@);
    let mut out: Vec<NetEvent> = Vec::new();
    let mut i: usize = 0;
    assert(event_models(out@) =~= bridged_batch(all.take(0)));
    while i < events.len()
        invariant
            i <= events.len(),
            all == models(events@),
            event_models(out@) == bridged_batch(all.take(i as int)),
        decreases events.len() - i,
    {
        assert(all.take(i + 1).drop_last() =~= all.take(i as int));
        let ghost before = out@;
        if let Some(ev) = bridge_event(&events[i]) {
            out.push(ev);
            assert(event_models(out@) =~= event_models(before) + seq![ev@]);
        }
        i = i + 1;
    }
    assert(all.take(i as int) =~= all);
    out
}

} // verus!
