//! The mirrored world: what the server last said, as the renderer reads it.
//!
//! Nothing is interpolated or smoothed. Floating-point values stand as their
//! bit patterns; a position stands as the terms whose sums it is, so that the
//! coordinate frame in which it arrived stays attached to it.

use crossbeam_channel::{Receiver, Sender};
use std::collections::HashMap;
use vstd::prelude::*;
use vstd::string::StringExecFns;

use crate::channels::{GuiChannels, GuiCmd, NetEvent, Received};
use crate::text::push_numeral;

verus! {

broadcast use vstd::std_specs::hash::group_hash_axioms;

/// A position in the world. The server sends coordinates relative to the
/// origin of its shard; the world coordinate is the sum of the two, taken with
/// the origin that was current when the coordinates arrived. The height has no
/// origin.
#[derive(Debug, Clone, Copy, PartialEq, Eq, Structural)]
#[allow(inconsistent_fields)]
pub enum Position {
    /// Not known yet; stands for the world origin.
    Unset,
    /// From a move: single precision, with the origin narrowed.
    Moved { x: u32, y: u32, z: u32, origin_x: u64, origin_z: u64 },
    /// From the state of the local player: double precision.
    Acked { x: u64, y: u64, z: u64, origin_x: u64, origin_z: u64 },
}

/// An entity that the viewer knows about. The local player is one of them,
/// under its persistent id.
#[derive(Debug, Clone, Copy, PartialEq, Eq, Structural)]
pub struct Entity {
    pub id: u32,
    pub position: Position,
    pub orientation: u32,
    pub hp: u32,
    pub max_hp: u32,
    /// The combat state as the game numbers it.
    pub combat_state: u16,
    pub combat_param: u32,
    /// When the last event for this entity arrived, in nanoseconds.
    pub last_seen: u64,
    /// The local player's own record.
    pub is_self: bool,
    /// An event has placed the entity.
    pub has_position: bool,
}

/// A share of a whole, between nothing and all of it.
#[derive(Debug, Clone, Copy, PartialEq, Eq, Structural)]
pub struct Fraction {
    pub part: u32,
    pub whole: u32,
}

/// A record of which nothing is known but its id.
pub open spec fn blank(id: u32, now: u64) -> Entity {
    Entity {
        id,
        position: Position::Unset,
        orientation: 0,
        hp: 0,
        max_hp: 1,
        combat_state: 0,
        combat_param: 0,
        last_seen: now,
        is_self: false,
        has_position: false,
    }
}

/// The share of the full health that is left: all of it if there is more than
/// that, nothing if the full health is zero.
pub open spec fn health_share(hp: u32, max_hp: u32) -> Fraction {
    if max_hp == 0 {
        Fraction { part: 0, whole: 1 }
    } else {
        Fraction {
            part: if hp < max_hp {
                hp
            } else {
                max_hp
            },
            whole: max_hp,
        }
    }
}

impl Entity {
    fn new(id: u32, now: u64) -> (e: Entity)
        ensures
            e == blank(id, now),
    {
        Entity {
            id,
            position: Position::Unset,
            orientation: 0,
            hp: 0,
            max_hp: 1,
            combat_state: 0,
            combat_param: 0,
            last_seen: now,
            is_self: false,
            has_position: false,
        }
    }

    /// The share of the full health that is left, for tinting.
    pub fn hp_frac(&self) -> (share: Fraction)
        ensures
            share == health_share(self.hp, self.max_hp),
            0 < share.whole,
            share.part <= share.whole,
    {
        if self.max_hp == 0 {
            Fraction { part: 0, whole: 1 }
        } else if self.hp < self.max_hp {
            Fraction { part: self.hp, whole: self.max_hp }
        } else {
            Fraction { part: self.max_hp, whole: self.max_hp }
        }
    }
}

/// Everything that the renderer needs. `S` is the type of text and `E` that of
/// the entity store; in contracts they are `Seq<char>` and `Map<u32, Entity>`.
#[derive(Debug)]
pub struct World<S = String, E = HashMap<u32, Entity>> {
    pub connected: bool,
    pub status: S,
    pub session_open: bool,
    /// The id of the session, issued anew by each shard.
    pub player_id: u32,
    /// The id of the player, the same on all shards; zero before a session.
    pub persistent_id: u32,
    pub shard_id: u32,
    pub origin_x: u64,
    pub origin_z: u64,
    pub server_tick: u32,
    /// The local player's own position, as in its record.
    pub self_position: Position,
    pub self_hp: u32,
    pub self_stamina: u64,
    /// Round-trip time in milliseconds.
    pub rtt_ms: u32,
    pub last_rejection: Option<u8>,
    /// The facing that the viewer itself last sent.
    pub self_orientation: u32,
    /// The movement vector that the viewer itself last sent.
    pub last_input_x: u32,
    pub last_input_z: u32,
    /// The action that the viewer itself last sent, and when.
    pub self_action_flash: Option<(u8, u64)>,
    /// When the handoff began during which the local player is dead-reckoned.
    pub reckoning_since: Option<u64>,
    pub entities: E,
}

/// The world in contracts.
pub type WorldModel = World<Seq<char>, Map<u32, Entity>>;

impl View for World<String, HashMap<u32, Entity>> {
    type V = World<Seq<char>, Map<u32, Entity>>;

    open spec fn view(&self) -> World<Seq<char>, Map<u32, Entity>> {
        World {
            connected: self.connected,
            status: self.status@,
            session_open: self.session_open,
            player_id: self.player_id,
            persistent_id: self.persistent_id,
            shard_id: self.shard_id,
            origin_x: self.origin_x,
            origin_z: self.origin_z,
            server_tick: self.server_tick,
            self_position: self.self_position,
            self_hp: self.self_hp,
            self_stamina: self.self_stamina,
            rtt_ms: self.rtt_ms,
            last_rejection: self.last_rejection,
            self_orientation: self.self_orientation,
            last_input_x: self.last_input_x,
            last_input_z: self.last_input_z,
            self_action_flash: self.self_action_flash,
            reckoning_since: self.reckoning_since,
            entities: self.entities@,
        }
    }
}

/// The world before the first event.
pub open spec fn booting() -> WorldModel {
    World {
        connected: false,
        status: "booting"@,
        session_open: false,
        player_id: 0,
        persistent_id: 0,
        shard_id: 0,
        origin_x: 0,
        origin_z: 0,
        server_tick: 0,
        self_position: Position::Unset,
        self_hp: 0,
        self_stamina: 0,
        rtt_ms: 0,
        last_rejection: None,
        self_orientation: 0,
        last_input_x: 0,
        last_input_z: 0,
        self_action_flash: None,
        reckoning_since: None,
        entities: Map::empty(),
    }
}

/// The world's invariant: a record lies under its own id, has some full
/// health, is marked as placed exactly if it has a position; and the local
/// player's record lies under the persistent id, at the position that the
/// world itself holds.
pub open spec fn well_formed(w: WorldModel) -> bool {
    forall|id: u32| #[trigger]
        w.entities.contains_key(id) ==> {
            let e = w.entities[id];
            &&& e.id == id
            &&& e.max_hp >= 1
            &&& e.has_position == !(e.position is Unset)
            &&& e.is_self ==> id == w.persistent_id && id != 0 && e.has_position && e.position
                == w.self_position
        }
}

/// The record of `id`, or a blank one.
pub open spec fn record(entities: Map<u32, Entity>, id: u32, now: u64) -> Entity {
    if entities.contains_key(id) {
        entities[id]
    } else {
        blank(id, now)
    }
}

/// The records with none but that of `keep` marked as the local player's.
pub open spec fn demoted(entities: Map<u32, Entity>, keep: u32) -> Map<u32, Entity> {
    Map::new(
        |id: u32| entities.contains_key(id),
        |id: u32|
            if id == keep {
                entities[id]
            } else {
                Entity { is_self: false, ..entities[id] }
            },
    )
}

/// The larger of two.
pub open spec fn larger(a: u32, b: u32) -> u32 {
    if a >= b {
        a
    } else {
        b
    }
}

/// The world after an event that arrived at `now`.
pub open spec fn applied(w: WorldModel, ev: NetEvent<Seq<char>>, now: u64) -> WorldModel {
    match ev {
        NetEvent::Status(text) => World { status: text, ..w },
        NetEvent::SessionOpened { player_id, persistent_id, origin_x, origin_z, shard_id } => World {
            connected: true,
            session_open: true,
            player_id,
            persistent_id,
            origin_x,
            origin_z,
            shard_id,
            status: "session open — shard "@ + crate::text::decimal(shard_id as nat),
            entities: demoted(w.entities, persistent_id),
            ..w
        },
        NetEvent::AuthFailed { reason } => World {
            status: "auth failed (reason="@ + crate::text::decimal(reason as nat) + ")"@,
            session_open: false,
            ..w
        },
        NetEvent::StateAck { server_tick, x, y, z, hp, stamina } => {
            let position = Position::Acked { x, y, z, origin_x: w.origin_x, origin_z: w.origin_z };
            let e = record(w.entities, w.persistent_id, now);
            World {
                server_tick,
                self_position: position,
                self_hp: hp,
                self_stamina: stamina,
                reckoning_since: None,
                entities: if w.persistent_id == 0 {
                    w.entities
                } else {
                    w.entities.insert(
                        w.persistent_id,
                        Entity {
                            is_self: true,
                            position,
                            hp,
                            max_hp: larger(larger(e.max_hp, hp), 1),
                            last_seen: now,
                            has_position: true,
                            ..e
                        },
                    )
                },
                ..w
            }
        },
        NetEvent::EntityMoved { entity_id, x, y, z, orientation, .. } => World {
            entities: if entity_id == w.persistent_id {
                if w.entities.contains_key(entity_id) {
                    w.entities.insert(
                        entity_id,
                        Entity { last_seen: now, ..w.entities[entity_id] },
                    )
                } else {
                    w.entities
                }
            } else {
                w.entities.insert(
                    entity_id,
                    Entity {
                        position: Position::Moved {
                            x,
                            y,
                            z,
                            origin_x: w.origin_x,
                            origin_z: w.origin_z,
                        },
                        orientation,
                        last_seen: now,
                        has_position: true,
                        ..record(w.entities, entity_id, now)
                    },
                )
            },
            ..w
        },
        NetEvent::EntityHealth { entity_id, hp, max_hp } => World {
            self_hp: if entity_id == w.persistent_id && w.persistent_id != 0 {
                hp
            } else {
                w.self_hp
            },
            entities: w.entities.insert(
                entity_id,
                Entity {
                    hp,
                    max_hp: larger(max_hp, 1),
                    last_seen: now,
                    ..record(w.entities, entity_id, now)
                },
            ),
            ..w
        },
        NetEvent::EntityStateChanged { entity_id, state_id, param_a } => World {
            entities: w.entities.insert(
                entity_id,
                Entity {
                    combat_state: state_id,
                    combat_param: param_a,
                    last_seen: now,
                    ..record(w.entities, entity_id, now)
                },
            ),
            ..w
        },
        NetEvent::HitConfirm { target_id, target_hp, .. } => World {
            self_hp: if target_id == w.persistent_id {
                target_hp
            } else {
                w.self_hp
            },
            entities: if w.entities.contains_key(target_id) {
                w.entities.insert(
                    target_id,
                    Entity { hp: target_hp, last_seen: now, ..w.entities[target_id] },
                )
            } else {
                w.entities
            },
            ..w
        },
        NetEvent::ActionRejected { reason } => World { last_rejection: Some(reason), ..w },
        NetEvent::HandoffStarted => World { reckoning_since: Some(now), ..w },
        NetEvent::Disconnected => World {
            connected: false,
            session_open: false,
            status: "disconnected"@,
            ..w
        },
        NetEvent::RttSample(ms) => World { rtt_ms: ms, ..w },
    }
}

/// A record survives pruning: it is the local player's own, or an event for it
/// arrived less than `stale_ns` ago.
pub open spec fn fresh_enough(e: Entity, now: u64, stale_ns: u64) -> bool {
    e.is_self || crate::clock::elapsed(now, e.last_seen) < stale_ns
}

/// The world without the records that are stale at `now`.
pub open spec fn pruned(w: WorldModel, now: u64, stale_ns: u64) -> WorldModel {
    World {
        entities: w.entities.restrict(
            Set::new(
                |id: u32|
                    w.entities.contains_key(id) && fresh_enough(w.entities[id], now, stale_ns),
            ),
        ),
        ..w
    }
}

/// How many commands of a frame are sent: all, or those up to the first quit.
pub open spec fn sent_count(cmds: Seq<GuiCmd>) -> nat
    decreases cmds.len(),
{
    if cmds.len() == 0 {
        0
    } else if cmds.first() is Quit {
        1
    } else {
        1 + sent_count(cmds.drop_first())
    }
}

/// A quit is among the commands.
pub open spec fn quits(cmds: Seq<GuiCmd>) -> bool {
    cmds.contains(GuiCmd::Quit)
}

/// The movement vector of the last move among the commands, or `old`.
pub open spec fn last_move(cmds: Seq<GuiCmd>, old_vector: (u32, u32)) -> (u32, u32)
    decreases cmds.len(),
{
    if cmds.len() == 0 {
        old_vector
    } else {
        match cmds.last() {
            GuiCmd::Move { move_x, move_z, .. } => (move_x, move_z),
            _ => last_move(cmds.drop_last(), old_vector),
        }
    }
}

/// The last action among the commands with the time `now`, or `old`.
pub open spec fn last_flash(cmds: Seq<GuiCmd>, old_flash: Option<(u8, u64)>, now: u64) -> Option<
    (u8, u64),
>
    decreases cmds.len(),
{
    if cmds.len() == 0 {
        old_flash
    } else {
        match cmds.last() {
            GuiCmd::Action { action_type } => Some((action_type, now)),
            _ => last_flash(cmds.drop_last(), old_flash, now),
        }
    }
}

/// The world after a frame's commands: the facing, the movement vector, and
/// the last action that was sent.
pub open spec fn noted(w: WorldModel, orientation: u32, cmds: Seq<GuiCmd>, now: u64) -> WorldModel {
    let vector = last_move(cmds, (w.last_input_x, w.last_input_z));
    World {
        self_orientation: orientation,
        last_input_x: vector.0,
        last_input_z: vector.1,
        self_action_flash: last_flash(
            cmds.take(sent_count(cmds) as int),
            w.self_action_flash,
            now,
        ),
        ..w
    }
}

/// Where the local player is shown: at its position, and during a handoff
/// moved on from there.
#[derive(Debug, Clone, Copy, PartialEq, Eq, Structural)]
pub struct Predicted {
    pub position: Position,
    pub drift: Option<Drift>,
}

/// The movement that is assumed during a handoff: a vector, and for how long
/// it has held.
#[derive(Debug, Clone, Copy, PartialEq, Eq, Structural)]
pub struct Drift {
    pub input_x: u32,
    pub input_z: u32,
    pub elapsed_ns: u64,
}

/// Where the local player is shown at `now`.
pub open spec fn predicted(w: WorldModel, now: u64) -> Predicted {
    Predicted {
        position: w.self_position,
        drift: match w.reckoning_since {
            None => None,
            Some(since) => Some(
                Drift {
                    input_x: w.last_input_x,
                    input_z: w.last_input_z,
                    elapsed_ns: crate::clock::elapsed(now, since) as u64,
                },
            ),
        },
    }
}

/// Every event keeps the world's invariant.
pub proof fn apply_keeps_well_formed(w: WorldModel, ev: NetEvent<Seq<char>>, now: u64)
    requires
        well_formed(w),
    ensures
        well_formed(applied(w, ev, now)),
{
}

/// The world after a frame's events, all taken in at `now`.
pub open spec fn applied_each(
    w: WorldModel,
    events: Seq<NetEvent<Seq<char>>>,
    now: u64,
) -> WorldModel
    decreases events.len(),
{
    if events.len() == 0 {
        w
    } else {
        applied(applied_each(w, events.drop_last(), now), events.last(), now)
    }
}

/// The looks of a frame: each but the last brought an event, and the last brought
/// none, unless the looks that a counter can count were used up.
pub open spec fn drained(looks: Seq<Received<NetEvent<Seq<char>>>>) -> bool {
    &&& looks.len() > 0
    &&& forall|i: int| 0 <= i < looks.len() - 1 ==> #[trigger] looks[i] is Got
    &&& looks.last() is Got ==> looks.len() == u64::MAX
}

/// A frame's events keep the world's invariant.
pub proof fn each_keeps_well_formed(
    w: WorldModel,
    events: Seq<NetEvent<Seq<char>>>,
    now: u64,
)
    requires
        well_formed(w),
    ensures
        well_formed(applied_each(w, events, now)),
    decreases events.len(),
{
    if events.len() > 0 {
        each_keeps_well_formed(w, events.drop_last(), now);
        apply_keeps_well_formed(applied_each(w, events.drop_last(), now), events.last(), now);
    }
}

/// The ids in the store, each once, in no particular order.
pub(crate) fn ids(entities: &HashMap<u32, Entity>) -> (out: Vec<u32>)
    ensures
        out@.no_duplicates(),
        forall|id: u32| out@.contains(id) <==> entities@.contains_key(id),
{
    let mut out: Vec<u32> = Vec::new();
    for id in it: entities.keys()
        invariant
            it.seq() == vstd::std_specs::iter::IteratorSpec::remaining(
                &vstd::std_specs::hash::spec_keys_iter(entities),
            ),
            out@ == it.seq().unref().take(it.index() as int),
    {
        out.push(*id);
        assert(out@ =~= it.seq().unref().take(it.index() + 1));
    }
    let ghost keys = vstd::std_specs::iter::IteratorSpec::remaining(
        &vstd::std_specs::hash::spec_keys_iter(entities),
    ).unref();
    assert(out@ =~= keys);
    assert forall|id: u32| out@.contains(id) <==> entities@.contains_key(id) by {
        assert(keys.to_set().contains(id) <==> entities@.contains_key(id));
    }
    out
}

/// Clears the mark of the local player on every record but that of `keep`.
fn demote(entities: &mut HashMap<u32, Entity>, keep: u32)
    ensures
        final(entities)@ == demoted(old(entities)@, keep),
{
    let all = ids(entities);
    let ghost before = entities@;
    let mut i: usize = 0;
    while i < all.len()
        invariant
            i <= all.len(),
            all@.no_duplicates(),
            forall|id: u32| all@.contains(id) <==> before.contains_key(id),
            entities@.dom() == before.dom(),
            forall|j: int| #![trigger all@[j]]
                0 <= j < i ==> entities@[all@[j]] == demoted(before, keep)[all@[j]],
            forall|j: int| #![trigger all@[j]] i <= j < all.len() ==> entities@[all@[j]] == before[all@[j]],
        decreases all.len() - i,
    {
        let id: u32 = all[i];
        assert(all@.contains(id));
        assert(before.contains_key(id));
        if let Some(e) = entities.get(&id) {
            let e: Entity = *e;
            if e.is_self && id != keep {
                entities.insert(id, Entity { is_self: false, ..e });
                assert(entities@.dom() =~= before.dom());
            }
        }
        i = i + 1;
    }
    assert(entities@ =~= demoted(before, keep)) by {
        assert forall|id: u32| before.contains_key(id) implies entities@[id] == demoted(before, keep)[id] by {
            assert(all@.contains(id));
            let j = choose|j: int| 0 <= j < all@.len() && all@[j] == id;
            assert(all@[j] == id);
        }
    }
}

/// Drops the records that are stale at `now`.
fn drop_stale(entities: &mut HashMap<u32, Entity>, now: u64, stale_ns: u64)
    ensures
        final(entities)@ == old(entities)@.restrict(
            Set::new(
                |id: u32|
                    old(entities)@.contains_key(id) && fresh_enough(
                        old(entities)@[id],
                        now,
                        stale_ns,
                    ),
            ),
        ),
{
    let all = ids(entities);
    let ghost before = entities@;
    let ghost keep = Set::new(
        |id: u32| before.contains_key(id) && fresh_enough(before[id], now, stale_ns),
    );
    assert forall|j: int| #![trigger all@[j]] 0 <= j < all.len() implies before.contains_key(all@[j]) by {
        assert(all@.contains(all@[j]));
    }
    let mut i: usize = 0;
    while i < all.len()
        invariant
            i <= all.len(),
            all@.no_duplicates(),
            forall|id: u32| all@.contains(id) <==> before.contains_key(id),
            keep == Set::new(
                |id: u32| before.contains_key(id) && fresh_enough(before[id], now, stale_ns),
            ),
            forall|id: u32| #[trigger] entities@.contains_key(id) ==> before.contains_key(id) && entities@[id] == before[id],
            forall|j: int| #![trigger all@[j]]
                0 <= j < i ==> entities@.contains_key(all@[j]) == keep.contains(all@[j]),
            forall|j: int| #![trigger all@[j]] i <= j < all.len() ==> entities@.contains_key(all@[j]),
        decreases all.len() - i,
    {
        let id: u32 = all[i];
        assert(all@.contains(id));
        if let Some(e) = entities.get(&id) {
            let e: Entity = *e;
            let age: u64 = crate::clock::since(now, e.last_seen);
            if !e.is_self && age >= stale_ns {
                entities.remove(&id);
            }
        }
        i = i + 1;
    }
    assert(entities@ =~= before.restrict(keep)) by {
        assert forall|id: u32| before.contains_key(id) implies entities@.contains_key(id) == keep.contains(id) by {
            assert(all@.contains(id));
            let j = choose|j: int| 0 <= j < all@.len() && all@[j] == id;
            assert(all@[j] == id);
        }
    }
}

impl Default for World<String, HashMap<u32, Entity>> {
    fn default() -> (w: Self)
        ensures
            w@ == booting(),
            well_formed(w@),
    {
        World {
            connected: false,
            status: String::from_str("booting"),
            session_open: false,
            player_id: 0,
            persistent_id: 0,
            shard_id: 0,
            origin_x: 0,
            origin_z: 0,
            server_tick: 0,
            self_position: Position::Unset,
            self_hp: 0,
            self_stamina: 0,
            rtt_ms: 0,
            last_rejection: None,
            self_orientation: 0,
            last_input_x: 0,
            last_input_z: 0,
            self_action_flash: None,
            reckoning_since: None,
            entities: HashMap::new(),
        }
    }
}

impl World<String, HashMap<u32, Entity>> {
    /// The record of `id`, or a blank one.
    fn lookup(&self, id: u32, now: u64) -> (e: Entity)
        ensures
            e == record(self.entities@, id, now),
    {
        match self.entities.get(&id) {
            Some(e) => *e,
            None => Entity::new(id, now),
        }
    }

    /// Takes in one event from the network thread.
    pub fn apply(&mut self, ev: NetEvent, now: u64)
        ensures
            final(self)@ == applied(old(self)@, ev@, now),
            well_formed(old(self)@) ==> well_formed(final(self)@),
    {
        proof {
            if well_formed(self@) {
                apply_keeps_well_formed(self@, ev@, now);
            }
        }
        match ev {
            NetEvent::Status(text) => {
                self.status = text;
            },
            NetEvent::SessionOpened { player_id, persistent_id, origin_x, origin_z, shard_id } => {
                self.connected = true;
                self.session_open = true;
                self.player_id = player_id;
                self.persistent_id = persistent_id;
                self.origin_x = origin_x;
                self.origin_z = origin_z;
                self.shard_id = shard_id;
                let mut text = String::from_str("session open — shard ");
                push_numeral(&mut text, shard_id as u64, 10);
                self.status = text;
                demote(&mut self.entities, persistent_id);
            },
            NetEvent::AuthFailed { reason } => {
                let mut text = String::from_str("auth failed (reason=");
                push_numeral(&mut text, reason as u64, 10);
                text.append(")");
                self.status = text;
                self.session_open = false;
            },
            NetEvent::StateAck { server_tick, x, y, z, hp, stamina } => {
                self.server_tick = server_tick;
                let position = Position::Acked {
                    x,
                    y,
                    z,
                    origin_x: self.origin_x,
                    origin_z: self.origin_z,
                };
                self.self_position = position;
                self.self_hp = hp;
                self.self_stamina = stamina;
                self.reckoning_since = None;
                if self.persistent_id != 0 {
                    let mut e: Entity = self.lookup(self.persistent_id, now);
                    e.is_self = true;
                    e.position = position;
                    e.hp = hp;
                    if e.max_hp < hp {
                        e.max_hp = hp;
                    }
                    if e.max_hp < 1 {
                        e.max_hp = 1;
                    }
                    e.last_seen = now;
                    e.has_position = true;
                    self.entities.insert(self.persistent_id, e);
                }
            },
            NetEvent::EntityMoved { entity_id, x, y, z, orientation, .. } => {
                if entity_id == self.persistent_id {
                    if self.entities.contains_key(&entity_id) {
                        let mut e: Entity = self.lookup(entity_id, now);
                        e.last_seen = now;
                        self.entities.insert(entity_id, e);
                    }
                } else {
                    let mut e: Entity = self.lookup(entity_id, now);
                    e.position = Position::Moved {
                        x,
                        y,
                        z,
                        origin_x: self.origin_x,
                        origin_z: self.origin_z,
                    };
                    e.orientation = orientation;
                    e.last_seen = now;
                    e.has_position = true;
                    self.entities.insert(entity_id, e);
                }
            },
            NetEvent::EntityHealth { entity_id, hp, max_hp } => {
                let mut e: Entity = self.lookup(entity_id, now);
                e.hp = hp;
                e.max_hp = if max_hp < 1 {
                    1
                } else {
                    max_hp
                };
                e.last_seen = now;
                self.entities.insert(entity_id, e);
                if entity_id == self.persistent_id && self.persistent_id != 0 {
                    self.self_hp = hp;
                }
            },
            NetEvent::EntityStateChanged { entity_id, state_id, param_a } => {
                let mut e: Entity = self.lookup(entity_id, now);
                e.combat_state = state_id;
                e.combat_param = param_a;
                e.last_seen = now;
                self.entities.insert(entity_id, e);
            },
            NetEvent::HitConfirm { target_id, target_hp, .. } => {
                if self.entities.contains_key(&target_id) {
                    let mut e: Entity = self.lookup(target_id, now);
                    e.hp = target_hp;
                    e.last_seen = now;
                    self.entities.insert(target_id, e);
                }
                if target_id == self.persistent_id {
                    self.self_hp = target_hp;
                }
            },
            NetEvent::ActionRejected { reason } => {
                self.last_rejection = Some(reason);
            },
            NetEvent::HandoffStarted => {
                self.reckoning_since = Some(now);
            },
            NetEvent::Disconnected => {
                self.connected = false;
                self.session_open = false;
                self.status = String::from_str("disconnected");
            },
            NetEvent::RttSample(ms) => {
                self.rtt_ms = ms;
            },
        }
    }

    /// The local player's combat state as the server reported it, or zero.
    pub fn self_combat_state(&self) -> (state: u16)
        ensures
            state == if self@.entities.contains_key(self@.persistent_id) {
                self@.entities[self@.persistent_id].combat_state
            } else {
                0
            },
    {
        match self.entities.get(&self.persistent_id) {
            Some(e) => e.combat_state,
            None => 0,
        }
    }

    /// Drops the entities of which nothing was heard for `stale_ns`. The local
    /// player is never dropped.
    pub fn prune_stale(&mut self, now: u64, stale_ns: u64)
        ensures
            final(self)@ == pruned(old(self)@, now, stale_ns),
            well_formed(old(self)@) ==> well_formed(final(self)@),
    {
        drop_stale(&mut self.entities, now, stale_ns);
    }

    /// Looks once for a waiting event, takes it in if there is one, and says
    /// whether there was.
    fn receive(&mut self, ch: &mut GuiChannels, now: u64) -> (got: bool)
        ensures
            ({
                let before = crate::channels::event_looks(old(ch).net_events);
                let after = crate::channels::event_looks(final(ch).net_events);
                &&& after.len() == before.len() + 1
                &&& after.drop_last() == before
                &&& match after.last() {
                    Received::Got(ev) => got && final(self)@ == applied(old(self)@, ev, now),
                    _ => !got && final(self)@ == old(self)@,
                }
            }),
            final(ch).gui_cmds == old(ch).gui_cmds,
            forall|tx: Sender<NetEvent>| #[trigger]
                crate::channels::events_in_step(tx, old(ch).net_events)
                    ==> crate::channels::events_in_step(tx, final(ch).net_events),
    {
        let got = crate::channels::receive_event(&mut ch.net_events);
        assert(crate::channels::event_looks(ch.net_events).drop_last()
            =~= crate::channels::event_looks(old(ch).net_events));
        assert(crate::channels::event_looks(ch.net_events).last()
            == crate::channels::look_model(got));
        assert forall|tx: Sender<NetEvent>| #[trigger]
            crate::channels::events_in_step(
            tx,
            old(ch).net_events,
        ) implies crate::channels::events_in_step(tx, ch.net_events) by {
            assert(crate::channels::event_ends(tx, ch.net_events));
        }
        match got {
            Received::Got(ev) => {
                self.apply(ev, now);
                true
            },
            _ => false,
        }
    }

    /// Takes in the events that are waiting, as those of the frame at `now`:
    /// looks for one after the other until a look brings none.
    pub fn drain(&mut self, ch: &mut GuiChannels, now: u64)
        ensures
            ({
                let before = crate::channels::event_looks(old(ch).net_events);
                let after = crate::channels::event_looks(final(ch).net_events);
                let looks = after.skip(before.len() as int);
                &&& before.is_prefix_of(after)
                &&& drained(looks)
                &&& final(self)@ == applied_each(
                    old(self)@,
                    crate::channels::brought(looks),
                    now,
                )
            }),
            well_formed(old(self)@) ==> well_formed(final(self)@),
            final(ch).gui_cmds == old(ch).gui_cmds,
            forall|tx: Sender<NetEvent>| #[trigger]
                crate::channels::events_in_step(tx, old(ch).net_events)
                    ==> crate::channels::events_in_step(tx, final(ch).net_events),
    {
        let ghost before = crate::channels::event_looks(ch.net_events);
        let ghost mut looks: Seq<Received<NetEvent<Seq<char>>>> = seq![];
        assert(before.skip(before.len() as int) =~= looks);
        let mut left: u64 = u64::MAX;
        let mut more: bool = true;
        while more && left > 0
            invariant
                before == crate::channels::event_looks(old(ch).net_events),
                before.is_prefix_of(crate::channels::event_looks(ch.net_events)),
                looks == crate::channels::event_looks(ch.net_events).skip(before.len() as int),
                looks.len() == u64::MAX - left,
                forall|i: int| 0 <= i < looks.len() - 1 ==> #[trigger] looks[i] is Got,
                looks.len() > 0 ==> more == (looks.last() is Got),
                looks.len() == 0 ==> more,
                self@ == applied_each(
                    old(self)@,
                    crate::channels::brought(looks),
                    now,
                ),
                ch.gui_cmds == old(ch).gui_cmds,
                forall|tx: Sender<NetEvent>| #[trigger]
                    crate::channels::events_in_step(tx, old(ch).net_events)
                        ==> crate::channels::events_in_step(tx, ch.net_events),
            decreases left,
        {
            let ghost so_far = crate::channels::event_looks(ch.net_events);
            more = self.receive(ch, now);
            left = left - 1;
            proof {
                let all = crate::channels::event_looks(ch.net_events);
                assert(all =~= so_far.push(all.last()));
                let next = all.skip(before.len() as int);
                assert(next.drop_last() =~= looks);
                assert(next.last() == all.last());
                assert forall|i: int| 0 <= i < next.len() - 1 implies #[trigger] next[i] is Got by {
                    assert(next[i] == looks[i]);
                }
                let events = crate::channels::brought(next);
                if let Received::Got(ev) = next.last() {
                    assert(events == crate::channels::brought(looks) + seq![ev]);
                    assert(events.drop_last() =~= crate::channels::brought(looks));
                }
                looks = next;
            }
        }
        proof {
            if well_formed(old(self)@) {
                each_keeps_well_formed(
                    old(self)@,
                    crate::channels::brought(looks),
                    now,
                );
            }
        }
    }

    /// Sends a frame's commands, up to a quit, and keeps what the renderer
    /// shows of them. Says whether the viewer quits.
    pub fn submit(
        &mut self,
        ch: &mut GuiChannels,
        orientation: u32,
        cmds: &Vec<GuiCmd>,
        now: u64,
    ) -> (quit: bool)
        requires
            old(ch).wf(),
        ensures
            final(self)@ == noted(old(self)@, orientation, cmds@, now),
            quit == quits(cmds@),
            crate::channels::commands_sent(final(ch).gui_cmds) == crate::channels::commands_sent(
                old(ch).gui_cmds,
            ) + cmds@.take(sent_count(cmds@) as int),
            well_formed(old(self)@) ==> well_formed(final(self)@),
            final(ch).wf(),
            final(ch).net_events == old(ch).net_events,
            forall|rx: Receiver<GuiCmd>| #[trigger]
                crate::channels::commands_in_step(old(ch).gui_cmds, rx)
                    ==> crate::channels::commands_in_step(final(ch).gui_cmds, rx),
    {
        self.self_orientation = orientation;
        let mut i: usize = 0;
        while i < cmds.len()
            invariant
                i <= cmds.len(),
                self@ == (World {
                    self_orientation: orientation,
                    last_input_x: last_move(
                        cmds@.take(i as int),
                        (old(self)@.last_input_x, old(self)@.last_input_z),
                    ).0,
                    last_input_z: last_move(
                        cmds@.take(i as int),
                        (old(self)@.last_input_x, old(self)@.last_input_z),
                    ).1,
                    ..old(self)@
                }),
            decreases cmds.len() - i,
        {
            assert(cmds@.take(i + 1).drop_last() =~= cmds@.take(i as int));
            if let GuiCmd::Move { move_x, move_z, .. } = cmds[i] {
                self.last_input_x = move_x;
                self.last_input_z = move_z;
            }
            i = i + 1;
        }
        assert(cmds@.take(i as int) =~= cmds@);
        let ghost mirrored = self@;
        let ghost sent = crate::channels::commands_sent(ch.gui_cmds);
        let mut k: usize = 0;
        let mut quit: bool = false;
        assert(cmds@.skip(0) =~= cmds@);
        assert(sent + cmds@.take(0) =~= sent);
        while k < cmds.len() && !quit
            invariant
                k <= cmds.len(),
                ch.wf(),
                ch.net_events == old(ch).net_events,
                forall|rx: Receiver<GuiCmd>| #[trigger]
                    crate::channels::commands_in_step(old(ch).gui_cmds, rx)
                        ==> crate::channels::commands_in_step(ch.gui_cmds, rx),
                crate::channels::commands_sent(ch.gui_cmds) == sent + cmds@.take(k as int),
                quit ==> quits(cmds@) && sent_count(cmds@) == k,
                !quit ==> sent_count(cmds@) == k + sent_count(cmds@.skip(k as int)),
                !quit ==> forall|j: int| 0 <= j < k ==> #[trigger] cmds@[j] != GuiCmd::Quit,
                self@ == (World {
                    self_action_flash: last_flash(
                        cmds@.take(k as int),
                        mirrored.self_action_flash,
                        now,
                    ),
                    ..mirrored
                }),
            decreases cmds.len() - k,
        {
            assert(cmds@.take(k + 1).drop_last() =~= cmds@.take(k as int));
            assert(cmds@.skip(k as int).drop_first() =~= cmds@.skip(k + 1));
            let cmd: GuiCmd = cmds[k];
            if let GuiCmd::Action { action_type } = cmd {
                self.self_action_flash = Some((action_type, now));
            }
            let ghost rx = choose|rx: Receiver<GuiCmd>|
                crate::channels::command_ends(ch.gui_cmds, rx);
            let ghost earlier = ch.gui_cmds;
            crate::channels::send_command(&mut ch.gui_cmds, cmd);
            assert(crate::channels::command_ends(ch.gui_cmds, rx));
            assert forall|rx: Receiver<GuiCmd>| #[trigger]
                crate::channels::commands_in_step(
                old(ch).gui_cmds,
                rx,
            ) implies crate::channels::commands_in_step(ch.gui_cmds, rx) by {
                assert(crate::channels::commands_in_step(earlier, rx));
                assert(crate::channels::command_ends(ch.gui_cmds, rx));
            }
            assert(sent + cmds@.take(k + 1) =~= (sent + cmds@.take(k as int)).push(cmd));
            if let GuiCmd::Quit = cmd {
                quit = true;
                assert(cmds@[k as int] == GuiCmd::Quit);
            }
            k = k + 1;
        }
        quit
    }

    /// Where the local player is shown: at the position that the server
    /// confirmed, moved on by the current input while a handoff is under way.
    pub fn predicted_self_pos(&self, now: u64) -> (p: Predicted)
        ensures
            p == predicted(self@, now),
    {
        let drift: Option<Drift> = match self.reckoning_since {
            None => None,
            Some(since) => Some(
                Drift {
                    input_x: self.last_input_x,
                    input_z: self.last_input_z,
                    elapsed_ns: crate::clock::since(now, since),
                },
            ),
        };
        Predicted { position: self.self_position, drift }
    }
}

} // verus!
