//! What holds of the mirrored world over all events.

use vstd::prelude::*;

use crate::channels::{GuiCmd, NetEvent};
use crate::driver::SessionInfo;
use crate::net::GameEvent;
use crate::world::{Entity, Position, World, WorldModel};

verus! {

/// The world holds what the shard sent: a neighbour's move, anyone's health and
/// combat state, and the local player's own state, each as it was sent and in
/// the frame of the shard's origin.
pub proof fn the_world_mirrors_the_shard(w: WorldModel, ev: GameEvent<Seq<char>>, now: u64)
    ensures
        crate::net::forwarded(ev) matches Some(shown) ==> {
            let after = crate::world::applied(w, shown, now);
            match ev {
                GameEvent::EntityMoved { entity_id, x, y, z, orientation, .. } => {
                    entity_id != w.persistent_id ==> {
                        &&& after.entities.contains_key(entity_id)
                        &&& after.entities[entity_id].position == (Position::Moved {
                            x,
                            y,
                            z,
                            origin_x: w.origin_x,
                            origin_z: w.origin_z,
                        })
                        &&& after.entities[entity_id].orientation == orientation
                    }
                },
                GameEvent::EntityHealth { entity_id, hp, max_hp } => {
                    &&& after.entities.contains_key(entity_id)
                    &&& after.entities[entity_id].hp == hp
                    &&& max_hp > 0 ==> after.entities[entity_id].max_hp == max_hp
                },
                GameEvent::EntityStateChanged { entity_id, state_id, param_a } => {
                    &&& after.entities.contains_key(entity_id)
                    &&& after.entities[entity_id].combat_state == state_id
                    &&& after.entities[entity_id].combat_param == param_a
                },
                GameEvent::StateAck { server_tick, x, y, z, hp, stamina } => {
                    &&& after.server_tick == server_tick
                    &&& after.self_position == (Position::Acked {
                        x,
                        y,
                        z,
                        origin_x: w.origin_x,
                        origin_z: w.origin_z,
                    })
                    &&& after.self_hp == hp
                    &&& after.self_stamina == stamina
                },
                GameEvent::ActionRejected { reason } => after.last_rejection == Some(reason),
                _ => true,
            }
        },
        ev is EntityMoved || ev is EntityHealth || ev is EntityStateChanged || ev is StateAck || ev
            is ActionRejected ==> crate::net::forwarded(ev) is Some,
{
}

/// The record that an event is about.
pub open spec fn subject(w: WorldModel, ev: NetEvent<Seq<char>>) -> Option<u32> {
    match ev {
        NetEvent::StateAck { .. } => if w.persistent_id == 0 {
            None
        } else {
            Some(w.persistent_id)
        },
        NetEvent::EntityMoved { entity_id, .. } => Some(entity_id),
        NetEvent::EntityHealth { entity_id, .. } => Some(entity_id),
        NetEvent::EntityStateChanged { entity_id, .. } => Some(entity_id),
        NetEvent::HitConfirm { target_id, .. } => Some(target_id),
        _ => None,
    }
}

/// An event changes the record that it is about and no other. Only the opening
/// of a session touches several: it may take the mark of the local player off
/// them.
pub proof fn only_the_subject_changes(
    w: WorldModel,
    ev: NetEvent<Seq<char>>,
    now: u64,
    id: u32,
)
    requires
        subject(w, ev) != Some(id),
    ensures
        ({
            let after = crate::world::applied(w, ev, now).entities;
            &&& after.contains_key(id) == w.entities.contains_key(id)
            &&& after.contains_key(id) ==> if ev is SessionOpened {
                after[id] == w.entities[id] || after[id] == (Entity {
                    is_self: false,
                    ..w.entities[id]
                })
            } else {
                after[id] == w.entities[id]
            }
        }),
{
}

/// No event removes a record.
pub proof fn no_event_removes(w: WorldModel, ev: NetEvent<Seq<char>>, now: u64, id: u32)
    requires
        w.entities.contains_key(id),
    ensures
        crate::world::applied(w, ev, now).entities.contains_key(id),
{
}

/// A session that opens for the same player, as after a handoff, leaves every
/// record as it is, the positions in the frame in which they arrived included.
pub proof fn a_handoff_keeps_every_record(w: WorldModel, ev: NetEvent<Seq<char>>, now: u64)
    requires
        crate::world::well_formed(w),
        ev matches NetEvent::SessionOpened { persistent_id, .. } && persistent_id
            == w.persistent_id,
    ensures
        crate::world::applied(w, ev, now).entities == w.entities,
        crate::world::applied(w, ev, now).self_position == w.self_position,
{
    assert(crate::world::applied(w, ev, now).entities =~= w.entities);
}

/// After a session has opened, no record but that of its player is marked as
/// the local player's.
pub proof fn one_local_player(w: WorldModel, ev: NetEvent<Seq<char>>, now: u64, id: u32)
    requires
        ev is SessionOpened,
        crate::world::applied(w, ev, now).entities.contains_key(id),
        crate::world::applied(w, ev, now).entities[id].is_self,
    ensures
        id == crate::world::applied(w, ev, now).persistent_id,
{
}

/// Pruning keeps the local player, keeps exactly those others of which
/// something was heard in time, and changes no record that it keeps.
pub proof fn pruning_drops_the_stale(w: WorldModel, now: u64, stale_ns: u64, id: u32)
    requires
        w.entities.contains_key(id),
    ensures
        ({
            let after = crate::world::pruned(w, now, stale_ns).entities;
            &&& w.entities[id].is_self ==> after.contains_key(id)
            &&& !w.entities[id].is_self ==> (after.contains_key(id) <==> crate::clock::elapsed(
                now,
                w.entities[id].last_seen,
            ) < stale_ns)
            &&& after.contains_key(id) ==> after[id] == w.entities[id]
        }),
{
}

/// Pruning adds no record, and a second pruning at the same time drops nothing.
pub proof fn pruning_twice_is_pruning_once(w: WorldModel, now: u64, stale_ns: u64)
    ensures
        crate::world::pruned(w, now, stale_ns).entities.dom().subset_of(w.entities.dom()),
        crate::world::pruned(crate::world::pruned(w, now, stale_ns), now, stale_ns)
            == crate::world::pruned(w, now, stale_ns),
{
    let once = crate::world::pruned(w, now, stale_ns);
    assert(crate::world::pruned(once, now, stale_ns).entities =~= once.entities);
}

/// The local player's record agrees with the health that the world holds.
pub open spec fn health_agrees(w: WorldModel) -> bool {
    forall|id: u32| #[trigger]
        w.entities.contains_key(id) && w.entities[id].is_self ==> w.entities[id].hp == w.self_hp
}

/// The local player's health in its record and in the world agree throughout.
pub proof fn health_does_not_drift(w: WorldModel, ev: NetEvent<Seq<char>>, now: u64)
    requires
        crate::world::well_formed(w),
        health_agrees(w),
    ensures
        health_agrees(crate::world::applied(w, ev, now)),
{
}

/// The local player's position in its record and in the world agree throughout:
/// it is part of the world's invariant, which every event keeps.
pub proof fn position_does_not_drift(w: WorldModel, ev: NetEvent<Seq<char>>, now: u64, id: u32)
    requires
        crate::world::well_formed(w),
        crate::world::applied(w, ev, now).entities.contains_key(id),
        crate::world::applied(w, ev, now).entities[id].is_self,
    ensures
        crate::world::applied(w, ev, now).entities[id].position == crate::world::applied(
            w,
            ev,
            now,
        ).self_position,
        id == crate::world::applied(w, ev, now).persistent_id,
{
    crate::world::apply_keeps_well_formed(w, ev, now);
}

/// A record is placed by a move or by the state of the local player and by
/// nothing else, and stays placed.
pub proof fn placed_once_placed_for_good(
    w: WorldModel,
    ev: NetEvent<Seq<char>>,
    now: u64,
    id: u32,
)
    requires
        crate::world::applied(w, ev, now).entities.contains_key(id),
    ensures
        ({
            let before = w.entities.contains_key(id) && w.entities[id].has_position;
            let after = crate::world::applied(w, ev, now).entities[id].has_position;
            &&& before ==> after
            &&& after && !before ==> ev is EntityMoved || ev is StateAck
        }),
{
}

/// A broadcast move of the local player itself moves nothing: its position
/// comes from its own state alone.
pub proof fn own_moves_are_ignored(w: WorldModel, ev: NetEvent<Seq<char>>, now: u64)
    requires
        ev matches NetEvent::EntityMoved { entity_id, .. } && entity_id == w.persistent_id,
    ensures
        ({
            let after = crate::world::applied(w, ev, now);
            let id = w.persistent_id;
            &&& after.self_position == w.self_position
            &&& after.entities.contains_key(id) == w.entities.contains_key(id)
            &&& after.entities.contains_key(id) ==> after.entities[id] == (Entity {
                last_seen: now,
                ..w.entities[id]
            })
        }),
{
}

/// An event that changes what a record says also renews it.
pub proof fn news_renew_a_record(w: WorldModel, ev: NetEvent<Seq<char>>, now: u64, id: u32)
    requires
        subject(w, ev) == Some(id),
        crate::world::applied(w, ev, now).entities.contains_key(id),
    ensures
        crate::world::applied(w, ev, now).entities[id].last_seen == now,
{
}

/// Outside a handoff the local player is shown where the server confirmed it.
pub proof fn no_reckoning_outside_a_handoff(w: WorldModel, now: u64)
    requires
        w.reckoning_since is None,
    ensures
        crate::world::predicted(w, now).position == w.self_position,
        crate::world::predicted(w, now).drift is None,
{
}

/// Dead reckoning begins with a handoff and ends with the next state of the
/// local player; no other event begins or ends it.
pub proof fn reckoning_spans_the_handoff(w: WorldModel, ev: NetEvent<Seq<char>>, now: u64)
    ensures
        ({
            let after = crate::world::applied(w, ev, now).reckoning_since;
            &&& ev is HandoffStarted ==> after == Some(now)
            &&& ev is StateAck ==> after is None
            &&& !(ev is HandoffStarted) && !(ev is StateAck) ==> after == w.reckoning_since
        }),
{
}

/// What still comes from the shard that is being left does not end dead
/// reckoning.
pub proof fn the_bridge_does_not_end_reckoning(
    w: WorldModel,
    events: Seq<GameEvent<Seq<char>>>,
    i: int,
    now: u64,
)
    requires
        0 <= i < crate::net::bridged_batch(events).len(),
    ensures
        crate::world::applied(w, crate::net::bridged_batch(events)[i], now).reckoning_since
            == w.reckoning_since,
        crate::world::applied(w, crate::net::bridged_batch(events)[i], now).self_position
            == w.self_position,
{
    crate::laws::net::the_bridge_leaves_out_the_own_state(events, i);
}

/// The world after a run of events, each with its time.
pub open spec fn applied_all(w: WorldModel, events: Seq<(NetEvent<Seq<char>>, u64)>) -> WorldModel
    decreases events.len(),
{
    if events.len() == 0 {
        w
    } else {
        crate::world::applied(
            applied_all(w, events.drop_last()),
            events.last().0,
            events.last().1,
        )
    }
}

/// The world's invariant holds after every run of events, with a pruning at its
/// end.
pub proof fn runs_keep_well_formed(
    w: WorldModel,
    events: Seq<(NetEvent<Seq<char>>, u64)>,
    now: u64,
    stale_ns: u64,
)
    requires
        crate::world::well_formed(w),
    ensures
        crate::world::well_formed(applied_all(w, events)),
        crate::world::well_formed(crate::world::pruned(applied_all(w, events), now, stale_ns)),
    decreases events.len(),
{
    if events.len() > 0 {
        runs_keep_well_formed(w, events.drop_last(), now, stale_ns);
        crate::world::apply_keeps_well_formed(
            applied_all(w, events.drop_last()),
            events.last().0,
            events.last().1,
        );
    }
}

/// The two worlds are the same but for when something was last heard of each
/// record.
pub open spec fn same_but_for_age(v: WorldModel, w: WorldModel) -> bool {
    &&& v == (World { entities: v.entities, ..w })
    &&& v.entities.dom() == w.entities.dom()
    &&& forall|id: u32| #[trigger]
        v.entities.contains_key(id) ==> v.entities[id] == (Entity {
            last_seen: v.entities[id].last_seen,
            ..w.entities[id]
        })
}

/// The event is news of an entity: a move, its health or its combat state.
pub open spec fn is_news(ev: NetEvent<Seq<char>>) -> bool {
    ev is EntityMoved || ev is EntityHealth || ev is EntityStateChanged
}

/// The two are news of different kinds.
pub open spec fn differ_in_kind(a: NetEvent<Seq<char>>, b: NetEvent<Seq<char>>) -> bool {
    &&& is_news(a)
    &&& is_news(b)
    &&& !(a is EntityMoved && b is EntityMoved)
    &&& !(a is EntityHealth && b is EntityHealth)
    &&& !(a is EntityStateChanged && b is EntityStateChanged)
}

/// The two are the same record but for when something was last heard of it.
spec fn same_record(a: Option<Entity>, b: Option<Entity>) -> bool {
    match (a, b) {
        (Some(e), Some(f)) => e == (Entity { last_seen: e.last_seen, ..f }),
        (None, None) => true,
        _ => false,
    }
}

/// The record of `id`, if there is one.
spec fn found(w: WorldModel, id: u32) -> Option<Entity> {
    if w.entities.contains_key(id) {
        Some(w.entities[id])
    } else {
        None
    }
}

/// What news makes of the record of `id`, of a world with the identity `own` and
/// the origin `origin`.
spec fn record_after(
    before: Option<Entity>,
    id: u32,
    own: u32,
    origin: (u64, u64),
    ev: NetEvent<Seq<char>>,
    now: u64,
) -> Option<Entity> {
    let e = match before {
        Some(e) => e,
        None => crate::world::blank(id, now),
    };
    match ev {
        NetEvent::EntityMoved { entity_id, x, y, z, orientation, .. } => if entity_id != id {
            before
        } else if id == own {
            match before {
                Some(e) => Some(Entity { last_seen: now, ..e }),
                None => None,
            }
        } else {
            Some(
                Entity {
                    position: Position::Moved {
                        x,
                        y,
                        z,
                        origin_x: origin.0,
                        origin_z: origin.1,
                    },
                    orientation,
                    last_seen: now,
                    has_position: true,
                    ..e
                },
            )
        },
        NetEvent::EntityHealth { entity_id, hp, max_hp } => if entity_id != id {
            before
        } else {
            Some(Entity { hp, max_hp: crate::world::larger(max_hp, 1), last_seen: now, ..e })
        },
        NetEvent::EntityStateChanged { entity_id, state_id, param_a } => if entity_id != id {
            before
        } else {
            Some(Entity { combat_state: state_id, combat_param: param_a, last_seen: now, ..e })
        },
        _ => before,
    }
}

/// The health that the world holds after news.
spec fn own_health_after(w: WorldModel, ev: NetEvent<Seq<char>>) -> u32 {
    match ev {
        NetEvent::EntityHealth { entity_id, hp, .. } => if entity_id == w.persistent_id
            && w.persistent_id != 0 {
            hp
        } else {
            w.self_hp
        },
        _ => w.self_hp,
    }
}

/// `after` is what news makes of `w`: records change, and the own health, alone.
spec fn is_after_news(
    w: WorldModel,
    ev: NetEvent<Seq<char>>,
    now: u64,
    after: WorldModel,
) -> bool {
    &&& after == (World { self_hp: own_health_after(w, ev), entities: after.entities, ..w })
    &&& forall|id: u32| #[trigger]
        found(after, id) == record_after(
            found(w, id),
            id,
            w.persistent_id,
            (w.origin_x, w.origin_z),
            ev,
            now,
        )
}

/// News changes records, and the own health, alone.
proof fn lemma_news(w: WorldModel, ev: NetEvent<Seq<char>>, now: u64)
    requires
        is_news(ev),
    ensures
        is_after_news(w, ev, now, crate::world::applied(w, ev, now)),
{
}

/// News of different kinds make the same of a record in either order.
proof fn lemma_record_in_any_order(
    before: Option<Entity>,
    id: u32,
    own: u32,
    origin: (u64, u64),
    a: NetEvent<Seq<char>>,
    b: NetEvent<Seq<char>>,
    times: (u64, u64),
    other_times: (u64, u64),
)
    requires
        differ_in_kind(a, b),
    ensures
        same_record(
            record_after(
                record_after(before, id, own, origin, a, times.0),
                id,
                own,
                origin,
                b,
                times.1,
            ),
            record_after(
                record_after(before, id, own, origin, b, other_times.0),
                id,
                own,
                origin,
                a,
                other_times.1,
            ),
        ),
{
}

/// News of different kinds make the same of a world in either order.
proof fn lemma_world_in_any_order(
    w: WorldModel,
    a: NetEvent<Seq<char>>,
    b: NetEvent<Seq<char>>,
    times: (u64, u64),
    other_times: (u64, u64),
    a_first: WorldModel,
    b_first: WorldModel,
    one: WorldModel,
    two: WorldModel,
)
    requires
        differ_in_kind(a, b),
        is_after_news(w, a, times.0, a_first),
        is_after_news(a_first, b, times.1, one),
        is_after_news(w, b, other_times.0, b_first),
        is_after_news(b_first, a, other_times.1, two),
    ensures
        same_but_for_age(one, two),
{
    assert forall|id: u32| same_record(#[trigger] found(one, id), found(two, id)) by {
        lemma_record_in_any_order(
            found(w, id),
            id,
            w.persistent_id,
            (w.origin_x, w.origin_z),
            a,
            b,
            times,
            other_times,
        );
        assert(found(one, id) == record_after(
            found(a_first, id),
            id,
            w.persistent_id,
            (w.origin_x, w.origin_z),
            b,
            times.1,
        ));
        assert(found(two, id) == record_after(
            found(b_first, id),
            id,
            w.persistent_id,
            (w.origin_x, w.origin_z),
            a,
            other_times.1,
        ));
    }
    lemma_alike(one, two);
}

/// Worlds whose records are the same but for their age are.
proof fn lemma_alike(v: WorldModel, w: WorldModel)
    requires
        v == (World { entities: v.entities, ..w }),
        forall|id: u32| same_record(#[trigger] found(v, id), found(w, id)),
    ensures
        same_but_for_age(v, w),
{
    assert forall|id: u32|
        v.entities.dom().contains(id) == w.entities.dom().contains(id) by {
        assert(same_record(found(v, id), found(w, id)));
    }
    assert(v.entities.dom() =~= w.entities.dom());
    assert forall|id: u32| #[trigger] v.entities.contains_key(id) implies v.entities[id] == (
    Entity { last_seen: v.entities[id].last_seen, ..w.entities[id] }) by {
        assert(same_record(found(v, id), found(w, id)));
    }
}

/// Whether a move, a health or a combat state of an entity comes first does not
/// matter, but for when something was last heard of it: a record that another
/// event has made before its first move ends up the same.
pub proof fn news_come_in_any_order(
    w: WorldModel,
    a: NetEvent<Seq<char>>,
    b: NetEvent<Seq<char>>,
    times: (u64, u64),
    other_times: (u64, u64),
)
    requires
        differ_in_kind(a, b),
    ensures
        same_but_for_age(
            crate::world::applied(crate::world::applied(w, a, times.0), b, times.1),
            crate::world::applied(crate::world::applied(w, b, other_times.0), a, other_times.1),
        ),
{
    let a_first = crate::world::applied(w, a, times.0);
    let b_first = crate::world::applied(w, b, other_times.0);
    let one = crate::world::applied(a_first, b, times.1);
    let two = crate::world::applied(b_first, a, other_times.1);
    lemma_news(w, a, times.0);
    lemma_news(w, b, other_times.0);
    lemma_news(a_first, b, times.1);
    lemma_news(b_first, a, other_times.1);
    lemma_world_in_any_order(w, a, b, times, other_times, a_first, b_first, one, two);
}

/// News makes the same of worlds that are the same but for their age.
proof fn lemma_news_keep_alike(
    v: WorldModel,
    w: WorldModel,
    ev: NetEvent<Seq<char>>,
    now: u64,
)
    requires
        same_but_for_age(v, w),
        is_news(ev),
    ensures
        same_but_for_age(crate::world::applied(v, ev, now), crate::world::applied(w, ev, now)),
{
    let after_v = crate::world::applied(v, ev, now);
    let after_w = crate::world::applied(w, ev, now);
    lemma_news(v, ev, now);
    lemma_news(w, ev, now);
    assert forall|id: u32| same_record(#[trigger] found(after_v, id), found(after_w, id)) by {
        assert(v.entities.dom().contains(id) == w.entities.dom().contains(id));
        assert(same_record(found(v, id), found(w, id)));
    }
    lemma_alike(after_v, after_w);
}

/// To be the same but for age carries over.
proof fn lemma_alike_carries(u: WorldModel, v: WorldModel, w: WorldModel)
    requires
        same_but_for_age(u, v),
        same_but_for_age(v, w),
    ensures
        same_but_for_age(u, w),
{
    assert forall|id: u32| #[trigger] u.entities.contains_key(id) implies u.entities[id] == (
    Entity { last_seen: u.entities[id].last_seen, ..w.entities[id] }) by {
        assert(v.entities.dom().contains(id));
        assert(v.entities.contains_key(id));
    }
}

/// The world after three events.
pub open spec fn after_three(
    w: WorldModel,
    a: NetEvent<Seq<char>>,
    b: NetEvent<Seq<char>>,
    c: NetEvent<Seq<char>>,
    times: (u64, u64, u64),
) -> WorldModel {
    crate::world::applied(
        crate::world::applied(crate::world::applied(w, a, times.0), b, times.1),
        c,
        times.2,
    )
}

/// A move, a health and a combat state may come in any of their six orders.
pub proof fn a_move_a_health_and_a_state_come_in_any_order(
    w: WorldModel,
    moved: NetEvent<Seq<char>>,
    health: NetEvent<Seq<char>>,
    state: NetEvent<Seq<char>>,
    t: (u64, u64, u64),
)
    requires
        moved is EntityMoved,
        health is EntityHealth,
        state is EntityStateChanged,
    ensures
        ({
            let first = after_three(w, moved, health, state, t);
            &&& same_but_for_age(first, after_three(w, moved, state, health, t))
            &&& same_but_for_age(first, after_three(w, health, moved, state, t))
            &&& same_but_for_age(first, after_three(w, health, state, moved, t))
            &&& same_but_for_age(first, after_three(w, state, moved, health, t))
            &&& same_but_for_age(first, after_three(w, state, health, moved, t))
        }),
{
    let first = after_three(w, moved, health, state, t);
    lemma_swap_last(w, moved, health, state, t);
    lemma_swap_first(w, moved, health, state, t);
    lemma_swap_last(w, health, moved, state, t);
    lemma_alike_carries(
        first,
        after_three(w, health, moved, state, t),
        after_three(w, health, state, moved, t),
    );
    lemma_swap_first(w, moved, state, health, t);
    lemma_alike_carries(
        first,
        after_three(w, moved, state, health, t),
        after_three(w, state, moved, health, t),
    );
    lemma_swap_last(w, state, moved, health, t);
    lemma_alike_carries(
        first,
        after_three(w, state, moved, health, t),
        after_three(w, state, health, moved, t),
    );
}

/// The first two of three news may change places.
proof fn lemma_swap_first(
    w: WorldModel,
    a: NetEvent<Seq<char>>,
    b: NetEvent<Seq<char>>,
    c: NetEvent<Seq<char>>,
    t: (u64, u64, u64),
)
    requires
        differ_in_kind(a, b),
        is_news(c),
    ensures
        same_but_for_age(after_three(w, a, b, c, t), after_three(w, b, a, c, t)),
{
    news_come_in_any_order(w, a, b, (t.0, t.1), (t.0, t.1));
    lemma_news_keep_alike(
        crate::world::applied(crate::world::applied(w, a, t.0), b, t.1),
        crate::world::applied(crate::world::applied(w, b, t.0), a, t.1),
        c,
        t.2,
    );
}

/// The last two of three news may change places.
proof fn lemma_swap_last(
    w: WorldModel,
    a: NetEvent<Seq<char>>,
    b: NetEvent<Seq<char>>,
    c: NetEvent<Seq<char>>,
    t: (u64, u64, u64),
)
    requires
        differ_in_kind(b, c),
    ensures
        same_but_for_age(after_three(w, a, b, c, t), after_three(w, a, c, b, t)),
{
    news_come_in_any_order(crate::world::applied(w, a, t.0), b, c, (t.1, t.2), (t.1, t.2));
}

/// The share of health that a record shows lies between nothing and all of it.
pub proof fn health_share_is_a_share(hp: u32, max_hp: u32)
    ensures
        ({
            let share = crate::world::health_share(hp, max_hp);
            &&& 0 < share.whole
            &&& share.part <= share.whole
            &&& max_hp > 0 && hp >= max_hp ==> share.part == share.whole
            &&& hp == 0 ==> share.part == 0
        }),
{
}

/// A frame's commands change nothing but what the viewer itself keeps of its
/// input: the facing, the movement vector and the last action.
pub proof fn input_changes_no_server_state(
    w: WorldModel,
    orientation: u32,
    cmds: Seq<GuiCmd>,
    now: u64,
)
    ensures
        ({
            let after = crate::world::noted(w, orientation, cmds, now);
            after == (World {
                self_orientation: orientation,
                last_input_x: after.last_input_x,
                last_input_z: after.last_input_z,
                self_action_flash: after.self_action_flash,
                ..w
            })
        }),
{
}

/// A session that opens gives the world its ids, its shard and its origin, and is
/// open.
pub proof fn a_session_sets_the_frame(w: WorldModel, ev: NetEvent<Seq<char>>, now: u64)
    requires
        ev is SessionOpened,
    ensures
        ({
            let after = crate::world::applied(w, ev, now);
            &&& after.connected
            &&& after.session_open
            &&& ev matches NetEvent::SessionOpened {
                player_id,
                persistent_id,
                origin_x,
                origin_z,
                shard_id,
            } && {
                &&& after.player_id == player_id
                &&& after.persistent_id == persistent_id
                &&& after.origin_x == origin_x
                &&& after.origin_z == origin_z
                &&& after.shard_id == shard_id
                &&& after.status == "session open — shard "@ + crate::text::decimal(
                    shard_id as nat,
                )
            }
        }),
{
}

/// What the renderer is told of a session carries the session: applied to any
/// world, it leaves the world with the session's ids, shard and origin, and a
/// state that comes next lies in the frame of that origin.
pub proof fn a_told_session_is_the_worlds_session(
    w: WorldModel,
    session: SessionInfo,
    ack: NetEvent<Seq<char>>,
    now: u64,
)
    ensures
        ({
            let after = crate::world::applied(w, crate::machine::opened_event(session), now);
            &&& after.player_id == session.player_id
            &&& after.persistent_id == session.persistent_id
            &&& after.origin_x == session.origin_x
            &&& after.origin_z == session.origin_z
            &&& after.shard_id == session.shard_id
            &&& ack matches NetEvent::StateAck { x, y, z, .. } ==> crate::world::applied(
                after,
                ack,
                now,
            ).self_position == (Position::Acked {
                x,
                y,
                z,
                origin_x: session.origin_x,
                origin_z: session.origin_z,
            })
        }),
{
}

/// The record that an event is about keeps everything that the event does not
/// carry.
pub proof fn the_subject_keeps_the_rest(
    w: WorldModel,
    ev: NetEvent<Seq<char>>,
    now: u64,
    id: u32,
)
    requires
        subject(w, ev) == Some(id),
        w.entities.contains_key(id),
    ensures
        ({
            let e = w.entities[id];
            let f = crate::world::applied(w, ev, now).entities[id];
            let moves = ev is EntityMoved && id != w.persistent_id;
            &&& f.id == e.id
            &&& !(ev is EntityStateChanged) ==> f.combat_state == e.combat_state && f.combat_param
                == e.combat_param
            &&& !moves ==> f.orientation == e.orientation
            &&& !moves && !(ev is StateAck) ==> f.position == e.position && f.has_position
                == e.has_position
            &&& !(ev is StateAck || ev is EntityHealth || ev is HitConfirm) ==> f.hp == e.hp
            &&& !(ev is StateAck || ev is EntityHealth) ==> f.max_hp == e.max_hp
            &&& !(ev is StateAck) ==> f.is_self == e.is_self
        }),
{
}

/// A record that an event makes is blank but for what the event carries.
pub proof fn a_new_record_is_blank_otherwise(
    w: WorldModel,
    ev: NetEvent<Seq<char>>,
    now: u64,
    id: u32,
)
    requires
        !w.entities.contains_key(id),
        crate::world::applied(w, ev, now).entities.contains_key(id),
    ensures
        ({
            let f = crate::world::applied(w, ev, now).entities[id];
            &&& subject(w, ev) == Some(id)
            &&& !(ev is HitConfirm)
            &&& !(ev is EntityMoved && id == w.persistent_id)
            &&& f.id == id
            &&& f.last_seen == now
            &&& !(ev is EntityStateChanged) ==> f.combat_state == 0 && f.combat_param == 0
            &&& !(ev is EntityMoved) ==> f.orientation == 0
            &&& !(ev is EntityMoved || ev is StateAck) ==> f.position is Unset && !f.has_position
            &&& !(ev is StateAck || ev is EntityHealth) ==> f.hp == 0 && f.max_hp == 1
            &&& f.is_self == ev is StateAck
        }),
{
}

/// The news that make a record where there was none: a move of another, a health,
/// a combat state, and the own state once there is an identity.
pub proof fn news_make_a_record(w: WorldModel, ev: NetEvent<Seq<char>>, now: u64, id: u32)
    requires
        subject(w, ev) == Some(id),
        !(ev is HitConfirm),
        !(ev is EntityMoved && id == w.persistent_id),
    ensures
        crate::world::applied(w, ev, now).entities.contains_key(id),
{
}

/// The own state goes into the own record: its position and health, and a full
/// health that is the largest of the one before, the health and one. The rest of
/// the record, its combat state above all, stays.
pub proof fn an_own_state_writes_the_own_record(w: WorldModel, ev: NetEvent<Seq<char>>, now: u64)
    requires
        ev is StateAck,
        w.persistent_id != 0,
    ensures
        ({
            let id = w.persistent_id;
            let known = w.entities.contains_key(id);
            let e = w.entities[id];
            let after = crate::world::applied(w, ev, now);
            let f = after.entities[id];
            &&& after.entities.contains_key(id)
            &&& f.is_self
            &&& f.has_position
            &&& f.last_seen == now
            &&& f.max_hp >= 1
            &&& f.max_hp >= f.hp
            &&& known ==> {
                &&& f.max_hp >= e.max_hp
                &&& f.max_hp == e.max_hp || f.max_hp == f.hp || f.max_hp == 1
                &&& f.id == e.id
                &&& f.orientation == e.orientation
                &&& f.combat_state == e.combat_state
                &&& f.combat_param == e.combat_param
            }
            &&& !known ==> f.max_hp == f.hp || f.max_hp == 1
            &&& ev matches NetEvent::StateAck { x, y, z, hp, .. } && {
                &&& f.hp == hp
                &&& f.position == (Position::Acked {
                    x,
                    y,
                    z,
                    origin_x: w.origin_x,
                    origin_z: w.origin_z,
                })
            }
        }),
{
}

/// A hit sets the health of a known target, and the own health if the target is
/// the player by its persistent id; it makes no record.
pub proof fn a_hit_sets_the_targets_health(w: WorldModel, ev: NetEvent<Seq<char>>, now: u64)
    requires
        ev is HitConfirm,
    ensures
        ({
            let after = crate::world::applied(w, ev, now);
            ev matches NetEvent::HitConfirm { target_id, target_hp, .. } && {
                &&& after.entities.dom() == w.entities.dom()
                &&& w.entities.contains_key(target_id) ==> after.entities[target_id].hp
                    == target_hp
                &&& target_id == w.persistent_id ==> after.self_hp == target_hp
                &&& target_id != w.persistent_id ==> after.self_hp == w.self_hp
            }
        }),
{
    let after = crate::world::applied(w, ev, now);
    assert(after.entities.dom() =~= w.entities.dom());
}

/// A broadcast health sets the health of its entity, a full health of at least
/// one, and the own health if the entity is the player.
pub proof fn a_health_sets_the_entitys_health(w: WorldModel, ev: NetEvent<Seq<char>>, now: u64)
    requires
        ev is EntityHealth,
    ensures
        ({
            let after = crate::world::applied(w, ev, now);
            ev matches NetEvent::EntityHealth { entity_id, hp, max_hp } && {
                let f = after.entities[entity_id];
                &&& f.hp == hp
                &&& max_hp == 0 ==> f.max_hp == 1
                &&& max_hp > 0 ==> f.max_hp == max_hp
                &&& entity_id == w.persistent_id && entity_id != 0 ==> after.self_hp == hp
                &&& entity_id != w.persistent_id || entity_id == 0 ==> after.self_hp == w.self_hp
            }
        }),
{
}

/// What is not in a record changes with the events that carry it and with no
/// others.
pub proof fn scalars_change_with_their_events(w: WorldModel, ev: NetEvent<Seq<char>>, now: u64)
    ensures
        ({
            let after = crate::world::applied(w, ev, now);
            &&& !(ev is SessionOpened) ==> {
                &&& after.player_id == w.player_id
                &&& after.persistent_id == w.persistent_id
                &&& after.shard_id == w.shard_id
                &&& after.origin_x == w.origin_x
                &&& after.origin_z == w.origin_z
            }
            &&& after.connected == (ev is SessionOpened || (w.connected && !(ev is Disconnected)))
            &&& after.session_open == (ev is SessionOpened || (w.session_open && !(ev
                is Disconnected) && !(ev is AuthFailed)))
            &&& !(ev is StateAck) ==> {
                &&& after.server_tick == w.server_tick
                &&& after.self_position == w.self_position
                &&& after.self_stamina == w.self_stamina
            }
            &&& !(ev is StateAck || ev is HitConfirm || ev is EntityHealth) ==> after.self_hp
                == w.self_hp
            &&& !(ev is RttSample) ==> after.rtt_ms == w.rtt_ms
            &&& ev matches NetEvent::RttSample(ms) ==> after.rtt_ms == ms
            &&& !(ev is ActionRejected) ==> after.last_rejection == w.last_rejection
            &&& ev matches NetEvent::ActionRejected { reason } ==> after.last_rejection == Some(
                reason,
            )
            &&& after.self_orientation == w.self_orientation
            &&& after.last_input_x == w.last_input_x
            &&& after.last_input_z == w.last_input_z
            &&& after.self_action_flash == w.self_action_flash
        }),
{
}

/// The status is the last thing that was said of the connection.
pub proof fn the_status_is_the_latest(w: WorldModel, ev: NetEvent<Seq<char>>, now: u64)
    ensures
        ({
            let after = crate::world::applied(w, ev, now);
            &&& ev matches NetEvent::Status(text) ==> after.status == text
            &&& ev matches NetEvent::AuthFailed { reason } ==> after.status
                == "auth failed (reason="@ + crate::text::decimal(reason as nat) + ")"@
            &&& ev is Disconnected ==> after.status == "disconnected"@
            &&& !(ev is Status || ev is AuthFailed || ev is Disconnected || ev is SessionOpened)
                ==> after.status == w.status
        }),
{
}

/// Pruning changes nothing but the records.
pub proof fn pruning_touches_records_alone(w: WorldModel, now: u64, stale_ns: u64)
    ensures
        crate::world::pruned(w, now, stale_ns) == (World {
            entities: crate::world::pruned(w, now, stale_ns).entities,
            ..w
        }),
{
}

/// A span of time and its beginning give its end, unless the end lies before.
pub proof fn elapsed_time_reaches_now(now: u64, since: u64)
    ensures
        now >= since ==> since + crate::clock::elapsed(now, since) == now,
        now < since ==> crate::clock::elapsed(now, since) == 0,
{
}

/// A frame's events are taken in one after the other: those of two runs as the
/// first run and then the second.
pub proof fn events_are_taken_in_one_after_the_other(
    w: WorldModel,
    first: Seq<NetEvent<Seq<char>>>,
    second: Seq<NetEvent<Seq<char>>>,
    ev: NetEvent<Seq<char>>,
    now: u64,
)
    ensures
        crate::world::applied_each(w, seq![ev], now) == crate::world::applied(w, ev, now),
        crate::world::applied_each(w, seq![], now) == w,
        crate::world::applied_each(w, first + second, now) == crate::world::applied_each(
            crate::world::applied_each(w, first, now),
            second,
            now,
        ),
    decreases second.len(),
{
    reveal_with_fuel(crate::world::applied_each, 2);
    assert(seq![ev].drop_last() =~= seq![]);
    if second.len() == 0 {
        assert(first + second =~= first);
    } else {
        assert((first + second).drop_last() =~= first + second.drop_last());
        events_are_taken_in_one_after_the_other(w, first, second.drop_last(), ev, now);
    }
}

/// The movement vector that is kept is that of the last move among a frame's
/// commands; without a move it stays. The facing is the one that was given.
pub proof fn the_last_move_is_mirrored(
    w: WorldModel,
    orientation: u32,
    cmds: Seq<GuiCmd>,
    now: u64,
    i: int,
)
    requires
        0 <= i < cmds.len(),
        cmds[i] is Move,
        forall|j: int| i < j < cmds.len() ==> !(#[trigger] cmds[j] is Move),
    ensures
        ({
            let after = crate::world::noted(w, orientation, cmds, now);
            &&& after.self_orientation == orientation
            &&& cmds[i] matches GuiCmd::Move { move_x, move_z, .. } && after.last_input_x
                == move_x && after.last_input_z == move_z
        }),
{
    lemma_last_move(cmds, (w.last_input_x, w.last_input_z), i);
}

/// The last move of a list is its last move.
proof fn lemma_last_move(cmds: Seq<GuiCmd>, old_vector: (u32, u32), i: int)
    requires
        0 <= i < cmds.len(),
        cmds[i] is Move,
        forall|j: int| i < j < cmds.len() ==> !(#[trigger] cmds[j] is Move),
    ensures
        cmds[i] matches GuiCmd::Move { move_x, move_z, .. } && crate::world::last_move(
            cmds,
            old_vector,
        ) == (move_x, move_z),
    decreases cmds.len(),
{
    if i < cmds.len() - 1 {
        assert(!(cmds[cmds.len() - 1] is Move));
        assert forall|j: int| i < j < cmds.len() - 1 implies !(#[trigger] cmds.drop_last()[j]
            is Move) by {
            assert(cmds.drop_last()[j] == cmds[j]);
        }
        lemma_last_move(cmds.drop_last(), old_vector, i);
    }
}

/// Without a move among the commands the movement vector stays.
pub proof fn no_move_mirrors_nothing(
    w: WorldModel,
    orientation: u32,
    cmds: Seq<GuiCmd>,
    now: u64,
)
    requires
        forall|j: int| 0 <= j < cmds.len() ==> !(#[trigger] cmds[j] is Move),
    ensures
        crate::world::noted(w, orientation, cmds, now).last_input_x == w.last_input_x,
        crate::world::noted(w, orientation, cmds, now).last_input_z == w.last_input_z,
    decreases cmds.len(),
{
    if cmds.len() > 0 {
        assert(!(cmds[cmds.len() - 1] is Move));
        assert forall|j: int| 0 <= j < cmds.len() - 1 implies !(#[trigger] cmds.drop_last()[j]
            is Move) by {
            assert(cmds.drop_last()[j] == cmds[j]);
        }
        no_move_mirrors_nothing(w, orientation, cmds.drop_last(), now);
    }
}

/// A frame's commands are sent up to and including the first quit.
pub proof fn sending_stops_at_the_first_quit(cmds: Seq<GuiCmd>, i: int)
    requires
        0 <= i < cmds.len(),
        cmds[i] is Quit,
        forall|j: int| 0 <= j < i ==> !(#[trigger] cmds[j] is Quit),
    ensures
        crate::world::sent_count(cmds) == i + 1,
        crate::world::quits(cmds),
    decreases cmds.len(),
{
    if i > 0 {
        assert(!(cmds[0] is Quit));
        let rest = cmds.drop_first();
        assert forall|j: int| 0 <= j < i - 1 implies !(#[trigger] rest[j] is Quit) by {
            assert(rest[j] == cmds[j + 1]);
        }
        sending_stops_at_the_first_quit(rest, i - 1);
    }
    assert(cmds[i] == GuiCmd::Quit);
}

/// Without a quit all of a frame's commands are sent, and the viewer goes on.
pub proof fn without_a_quit_all_is_sent(cmds: Seq<GuiCmd>)
    requires
        forall|j: int| 0 <= j < cmds.len() ==> !(#[trigger] cmds[j] is Quit),
    ensures
        crate::world::sent_count(cmds) == cmds.len(),
        !crate::world::quits(cmds),
    decreases cmds.len(),
{
    if cmds.len() > 0 {
        let rest = cmds.drop_first();
        assert(!(cmds[0] is Quit));
        assert forall|j: int| 0 <= j < rest.len() implies !(#[trigger] rest[j] is Quit) by {
            assert(rest[j] == cmds[j + 1]);
        }
        without_a_quit_all_is_sent(rest);
    }
    if crate::world::quits(cmds) {
        let j = choose|j: int| 0 <= j < cmds.len() && cmds[j] == GuiCmd::Quit;
        assert(cmds[j] is Quit);
    }
}

/// The flash is that of the last action that was sent, from this moment.
pub proof fn the_last_sent_action_flashes(
    w: WorldModel,
    orientation: u32,
    cmds: Seq<GuiCmd>,
    now: u64,
    i: int,
)
    requires
        0 <= i < crate::world::sent_count(cmds),
        crate::world::sent_count(cmds) <= cmds.len(),
        cmds[i] is Action,
        forall|j: int|
            i < j < crate::world::sent_count(cmds) ==> !(#[trigger] cmds[j] is Action),
    ensures
        cmds[i] matches GuiCmd::Action { action_type } && crate::world::noted(
            w,
            orientation,
            cmds,
            now,
        ).self_action_flash == Some((action_type, now)),
{
    let sent = cmds.take(crate::world::sent_count(cmds) as int);
    assert forall|j: int| i < j < sent.len() implies !(#[trigger] sent[j] is Action) by {
        assert(sent[j] == cmds[j]);
    }
    lemma_last_flash(sent, w.self_action_flash, now, i);
}

/// The last flash of a list is that of its last action.
proof fn lemma_last_flash(cmds: Seq<GuiCmd>, old_flash: Option<(u8, u64)>, now: u64, i: int)
    requires
        0 <= i < cmds.len(),
        cmds[i] is Action,
        forall|j: int| i < j < cmds.len() ==> !(#[trigger] cmds[j] is Action),
    ensures
        cmds[i] matches GuiCmd::Action { action_type } && crate::world::last_flash(
            cmds,
            old_flash,
            now,
        ) == Some((action_type, now)),
    decreases cmds.len(),
{
    if i < cmds.len() - 1 {
        assert(!(cmds[cmds.len() - 1] is Action));
        assert forall|j: int| i < j < cmds.len() - 1 implies !(#[trigger] cmds.drop_last()[j]
            is Action) by {
            assert(cmds.drop_last()[j] == cmds[j]);
        }
        lemma_last_flash(cmds.drop_last(), old_flash, now, i);
    }
}

/// Without an action among the commands the flash stays.
pub proof fn no_action_flashes_nothing(
    w: WorldModel,
    orientation: u32,
    cmds: Seq<GuiCmd>,
    now: u64,
)
    requires
        forall|j: int| 0 <= j < cmds.len() ==> !(#[trigger] cmds[j] is Action),
    ensures
        crate::world::noted(w, orientation, cmds, now).self_action_flash == w.self_action_flash,
{
    lemma_sent_at_most_all(cmds);
    let sent = cmds.take(crate::world::sent_count(cmds) as int);
    assert forall|j: int| 0 <= j < sent.len() implies !(#[trigger] sent[j] is Action) by {
        assert(sent[j] == cmds[j]);
    }
    lemma_no_flash(sent, w.self_action_flash, now);
}

/// No more is sent than there is.
proof fn lemma_sent_at_most_all(cmds: Seq<GuiCmd>)
    ensures
        crate::world::sent_count(cmds) <= cmds.len(),
    decreases cmds.len(),
{
    if cmds.len() > 0 {
        lemma_sent_at_most_all(cmds.drop_first());
    }
}

/// A list without actions has no flash of its own.
proof fn lemma_no_flash(cmds: Seq<GuiCmd>, old_flash: Option<(u8, u64)>, now: u64)
    requires
        forall|j: int| 0 <= j < cmds.len() ==> !(#[trigger] cmds[j] is Action),
    ensures
        crate::world::last_flash(cmds, old_flash, now) == old_flash,
    decreases cmds.len(),
{
    if cmds.len() > 0 {
        assert(!(cmds[cmds.len() - 1] is Action));
        assert forall|j: int| 0 <= j < cmds.len() - 1 implies !(#[trigger] cmds.drop_last()[j]
            is Action) by {
            assert(cmds.drop_last()[j] == cmds[j]);
        }
        lemma_no_flash(cmds.drop_last(), old_flash, now);
    }
}

/// During a handoff the player is moved on from its confirmed position by the
/// input that is held now, for the time since the handoff began.
pub proof fn reckoning_goes_by_the_held_input(w: WorldModel, now: u64, began: u64)
    requires
        w.reckoning_since == Some(began),
        began <= now,
    ensures
        ({
            let at = crate::world::predicted(w, now);
            &&& at.position == w.self_position
            &&& at.drift matches Some(drift) && {
                &&& drift.input_x == w.last_input_x
                &&& drift.input_z == w.last_input_z
                &&& began + drift.elapsed_ns == now
            }
        }),
{
}

/// The share of health is the health over the full health, as long as it is not
/// more.
pub proof fn the_share_is_health_over_full_health(hp: u32, max_hp: u32)
    requires
        0 < max_hp,
        hp <= max_hp,
    ensures
        ({
            let share = crate::world::health_share(hp, max_hp);
            share.part * max_hp == hp * share.whole
        }),
{
    assert(hp * max_hp == max_hp * hp) by (nonlinear_arith);
}

/// The world boots with nothing known.
pub proof fn nothing_is_known_at_first(id: u32)
    ensures
        !crate::world::booting().entities.contains_key(id),
        !crate::world::booting().connected,
        !crate::world::booting().session_open,
        crate::world::booting().player_id == 0,
        crate::world::booting().persistent_id == 0,
        crate::world::booting().shard_id == 0,
        crate::world::booting().origin_x == 0,
        crate::world::booting().origin_z == 0,
        crate::world::booting().server_tick == 0,
        crate::world::booting().self_hp == 0,
        crate::world::booting().self_stamina == 0,
        crate::world::booting().self_orientation == 0,
        crate::world::booting().rtt_ms == 0,
        crate::world::booting().last_input_x == 0,
        crate::world::booting().last_input_z == 0,
        crate::world::booting().last_rejection is None,
        crate::world::booting().self_action_flash is None,
        crate::world::booting().reckoning_since is None,
        crate::world::booting().self_position is Unset,
        crate::world::booting().status == "booting"@,
{
}

} // verus!
