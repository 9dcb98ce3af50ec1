//! What holds of every frame that is drawn.

use vstd::prelude::*;

use crate::channels::NetEvent;
use crate::render::{Neighbour, Player, Rgb};
use crate::world::{Position, World, WorldModel};

verus! {

/// No placed entity is hidden, whatever the id of the session happens to be.
pub proof fn the_session_id_hides_nobody(w: WorldModel, player_id: u32, shown: Seq<Neighbour>)
    ensures
        crate::render::shows_neighbours(w, shown) <==> crate::render::shows_neighbours(
            World { player_id, ..w },
            shown,
        ),
{
    let other = World { player_id, ..w };
    assert forall|id: u32| #[trigger]
        crate::render::is_neighbour(w, id) == crate::render::is_neighbour(other, id) by {}
    if crate::render::shows_neighbours(w, shown) {
        assert forall|id: u32| #[trigger]
            crate::render::is_neighbour(other, id) implies exists|i: int|
            0 <= i < shown.len() && (#[trigger] shown[i]).id == id by {
            assert(crate::render::is_neighbour(w, id));
        }
        assert(crate::render::shows_neighbours(other, shown));
    }
    if crate::render::shows_neighbours(other, shown) {
        assert forall|id: u32| #[trigger]
            crate::render::is_neighbour(w, id) implies exists|i: int|
            0 <= i < shown.len() && (#[trigger] shown[i]).id == id by {
            assert(crate::render::is_neighbour(other, id));
        }
        assert(crate::render::shows_neighbours(w, shown));
    }
}

/// An entity that has not been placed yet is not drawn, and the player's own
/// record is not drawn as a neighbour.
pub proof fn the_unplaced_are_not_drawn(w: WorldModel, shown: Seq<Neighbour>, i: int)
    requires
        crate::world::well_formed(w),
        crate::render::shows_neighbours(w, shown),
        0 <= i < shown.len(),
    ensures
        !(shown[i].position is Unset),
        shown[i].id != w.persistent_id || !w.entities[w.persistent_id].is_self,
{
}

/// What one drawing of a world shows, every drawing of it shows, in whatever
/// order.
pub proof fn any_two_drawings_agree(
    w: WorldModel,
    first: Seq<Neighbour>,
    second: Seq<Neighbour>,
    i: int,
)
    requires
        crate::render::shows_neighbours(w, first),
        crate::render::shows_neighbours(w, second),
        0 <= i < first.len(),
    ensures
        second.contains(first[i]),
{
    let id = first[i].id;
    assert(crate::render::is_neighbour(w, id));
    let j = choose|j: int| 0 <= j < second.len() && (#[trigger] second[j]).id == id;
    assert(second[j] == crate::render::neighbour_of(w.entities[id]));
    assert(second[j] == first[i]);
}

/// No neighbour is drawn over the player: where the player is drawn, nothing
/// comes after it, and before it come the neighbours alone.
pub proof fn the_player_is_on_top(neighbours: Seq<Neighbour>, player: Option<Player>, i: int)
    requires
        0 <= i < crate::render::layers_of(neighbours, player).len(),
    ensures
        ({
            let shapes = crate::render::layers_of(neighbours, player);
            &&& shapes[i] is Player <==> player is Some && i == shapes.len() - 1
            &&& shapes[i] is Neighbour ==> i < neighbours.len() && shapes[i]->Neighbour_0
                == neighbours[i]
            &&& player matches Some(p) ==> shapes.last()->Player_0 == p
        }),
{
}

/// An unknown combat state shows as idle.
pub proof fn unknown_states_show_as_idle(state: u16)
    requires
        state > 5,
    ensures
        crate::render::body_colour(state) == crate::render::body_colour(0),
{
}

/// The known combat states are told apart by their colours.
pub proof fn known_states_are_told_apart(a: u16, b: u16)
    requires
        a <= 5,
        b <= 5,
        a != b,
    ensures
        crate::render::body_colour(a) != crate::render::body_colour(b),
{
}

/// The known actions are told apart by their flashes.
pub proof fn known_actions_are_told_apart(a: u8, b: u8)
    requires
        1 <= a <= 4 || a == 0x10 || a == 0x11,
        1 <= b <= 4 || b == 0x10 || b == 0x11,
        a != b,
    ensures
        crate::render::ring_colour_of(a) != crate::render::ring_colour_of(b),
{
}

/// A flash shows from its start until its time is over, and no longer.
pub proof fn a_flash_lasts_its_time(action_type: u8, started: u64, now: u64)
    requires
        started <= now,
    ensures
        crate::render::ring_at(Some((action_type, started)), now) is Some <==> now - started
            < crate::render::flash_ms(action_type) * 1_000_000,
{
}

/// No shard has the bright yellow of the combat outline, nor a red without
/// green and blue.
pub proof fn shard_colours_stay_clear(index: int)
    ensures
        crate::boundaries::palette(index) != (Rgb { r: 100, g: 90, b: 20 }),
        !(crate::boundaries::palette(index).r > 0 && crate::boundaries::palette(index).g == 0
            && crate::boundaries::palette(index).b == 0),
{
}

/// A grid line is an axis exactly if it lies on a multiple of a hundred.
pub proof fn axes_lie_on_hundreds(x0: int, x1: int, z0: int, z1: int, i: int)
    requires
        -0x8000_0000 <= x0 <= x1 < 0x8000_0000,
        -0x8000_0000 <= z0 <= z1 < 0x8000_0000,
        0 <= i < crate::render::grid_of(x0, x1, z0, z1).len(),
    ensures
        ({
            let line = crate::render::grid_of(x0, x1, z0, z1)[i];
            if i < x1 - x0 + 1 {
                &&& line.x_from == line.x_to == (x0 + i) * 10
                &&& line.axis <==> line.x_from as int % 100 == 0
            } else {
                &&& line.z_from == line.z_to == (z0 + i - (x1 - x0 + 1)) * 10
                &&& line.axis <==> line.z_from as int % 100 == 0
            }
        }),
{
}

/// The HUD shows at least the status, the session and the frame rate.
pub proof fn the_hud_is_never_silent(
    w: WorldModel,
    fps: i32,
    n: crate::render::HudNumbers<Seq<char>>,
)
    ensures
        crate::render::hud_texts(w, fps, n).len() >= 3,
        crate::render::hud_texts(w, fps, n)[0] == "status: "@ + w.status,
        forall|i: int|
            0 <= i < crate::render::hud_texts(w, fps, n).len() ==> (
            #[trigger] crate::render::hud_texts(w, fps, n)[i]).len() > 0,
{
    reveal_strlit("status: ");
    reveal_strlit("not in session");
    reveal_strlit("shard ");
    reveal_strlit("pos (");
    reveal_strlit("hp ");
    reveal_strlit("fps ");
    reveal_strlit("last action rejected: reason=");
}

/// A neighbour is drawn where its record says, in its facing, with its share of
/// health, and with a dark outline exactly if it is idle.
pub proof fn a_neighbour_is_drawn_as_recorded(w: WorldModel, shown: Seq<Neighbour>, i: int)
    requires
        crate::render::shows_neighbours(w, shown),
        0 <= i < shown.len(),
    ensures
        ({
            let e = w.entities[shown[i].id];
            &&& w.entities.contains_key(shown[i].id)
            &&& e.has_position
            &&& !e.is_self
            &&& shown[i].position == e.position
            &&& shown[i].orientation == e.orientation
            &&& 0 < e.max_hp && e.hp <= e.max_hp ==> shown[i].health.part == e.hp
                && shown[i].health.whole == e.max_hp
            &&& 0 < e.max_hp < e.hp ==> shown[i].health.part == shown[i].health.whole
            &&& e.max_hp == 0 ==> shown[i].health.part == 0 && shown[i].health.whole > 0
            &&& e.combat_state == 0 ==> shown[i].outline == (Rgb { r: 0, g: 0, b: 0 })
            &&& e.combat_state != 0 ==> shown[i].outline == (Rgb { r: 100, g: 90, b: 20 })
        }),
{
    assert(crate::render::is_neighbour(w, shown[i].id));
}

/// Every placed entity but the player's own is drawn, and once.
pub proof fn every_placed_entity_is_drawn_once(
    w: WorldModel,
    shown: Seq<Neighbour>,
    id: u32,
    i: int,
    j: int,
)
    requires
        crate::render::shows_neighbours(w, shown),
        w.entities.contains_key(id),
        w.entities[id].has_position,
        !w.entities[id].is_self,
        0 <= i < shown.len(),
        0 <= j < shown.len(),
    ensures
        exists|k: int| 0 <= k < shown.len() && (#[trigger] shown[k]).id == id,
        shown[i].id == shown[j].id ==> i == j,
{
    assert(crate::render::is_neighbour(w, id));
}

/// A move of another player shows: every drawing of the world after it holds a
/// neighbour of that id at the sent coordinates, in the frame of the world's
/// origin, with the sent facing.
pub proof fn a_move_shows_where_it_leads(
    w: WorldModel,
    ev: NetEvent<Seq<char>>,
    now: u64,
    shown: Seq<Neighbour>,
)
    requires
        crate::world::well_formed(w),
        ev matches NetEvent::EntityMoved { entity_id, .. } && entity_id != w.persistent_id,
        crate::render::shows_neighbours(crate::world::applied(w, ev, now), shown),
    ensures
        ev matches NetEvent::EntityMoved { entity_id, x, y, z, orientation, .. } && exists|k: int|
            {
                &&& 0 <= k < shown.len()
                &&& (#[trigger] shown[k]).id == entity_id
                &&& shown[k].position == (Position::Moved {
                    x,
                    y,
                    z,
                    origin_x: w.origin_x,
                    origin_z: w.origin_z,
                })
                &&& shown[k].orientation == orientation
            },
{
    if let NetEvent::EntityMoved { entity_id, .. } = ev {
        let after = crate::world::applied(w, ev, now);
        assert(crate::render::is_neighbour(after, entity_id));
        let k = choose|k: int| 0 <= k < shown.len() && (#[trigger] shown[k]).id == entity_id;
        a_neighbour_is_drawn_as_recorded(after, shown, k);
    }
}

/// The player is drawn exactly while a session is open and its own record is
/// there: at its confirmed position, moved on only during a handoff, in the
/// facing that the viewer sent, in the colour of its own combat state, with the
/// ring of its own last action.
pub proof fn the_player_is_drawn_as_known(w: WorldModel, now: u64)
    ensures
        crate::render::player_of(w, now) is Some <==> w.session_open && w.entities.contains_key(
            w.persistent_id,
        ) && w.entities[w.persistent_id].is_self,
        crate::render::player_of(w, now) matches Some(p) ==> {
            let state = w.entities[w.persistent_id].combat_state;
            &&& p.at.position == w.self_position
            &&& p.at.drift is Some <==> w.reckoning_since is Some
            &&& p.orientation == w.self_orientation
            &&& p.body == crate::render::body_colour(state)
            &&& w.self_action_flash is None ==> p.ring is None
            &&& w.self_action_flash matches Some((action, started)) ==> p.ring
                == crate::render::ring_at(Some((action, started)), now)
        },
{
}

/// The colours of the known combat states: idle, attacking, staggered, blocking,
/// guard broken, hit while blocking.
pub proof fn states_have_their_colours(state: u16)
    ensures
        ({
            let c = crate::render::body_colour(state);
            let rgb = (c.r as int, c.g as int, c.b as int);
            &&& state == 0 || state > 5 ==> rgb == (88int, 90int, 100int)
            &&& state == 1 ==> rgb == (100int, 45int, 25int)
            &&& state == 2 ==> rgb == (80int, 45int, 95int)
            &&& state == 3 ==> rgb == (30int, 65int, 100int)
            &&& state == 4 ==> rgb == (100int, 80int, 20int)
            &&& state == 5 ==> rgb == (40int, 90int, 100int)
        }),
{
}

/// The times and colours of the flashes: light, heavy, jump, dodge, block raised,
/// block lowered, and any other action.
pub proof fn actions_have_their_flashes(action: u8)
    ensures
        ({
            let ms = crate::render::flash_ms(action);
            let c = crate::render::ring_colour_of(action);
            let rgb = (c.r as int, c.g as int, c.b as int);
            &&& action == 1 ==> ms == 200 && rgb == (100int, 45int, 25int)
            &&& action == 2 ==> ms == 350 && rgb == (100int, 15int, 15int)
            &&& action == 3 ==> ms == 300 && rgb == (70int, 100int, 40int)
            &&& action == 4 ==> ms == 250 && rgb == (50int, 85int, 100int)
            &&& action == 16 ==> ms == 120 && rgb == (30int, 65int, 100int)
            &&& action == 17 ==> ms == 120 && rgb == (30int, 45int, 80int)
            &&& action == 0 || (4 < action && action < 16) || action > 17 ==> ms == 180 && rgb == (
                100int,
                100int,
                100int,
            )
        }),
{
}

/// A ring grows with the time since its action: it tells how much of its own
/// duration has passed.
pub proof fn a_ring_tells_its_age(action: u8, started: u64, now: u64)
    requires
        started <= now,
    ensures
        crate::render::ring_at(Some((action, started)), now) matches Some(ring) ==> {
            &&& started + ring.elapsed_ns == now
            &&& ring.duration_ms == crate::render::flash_ms(action)
            &&& ring.elapsed_ns < ring.duration_ms * 1_000_000
            &&& ring.colour == crate::render::ring_colour_of(action)
        },
        crate::render::ring_at(None, now) is None,
{
}

/// The grid covers its window: a line for each step along x, each across the
/// whole of z, and then a line for each step along z, each across the whole of x,
/// ten units apart. Every tenth is an axis. Along a side on which the window is
/// turned over there is none.
pub proof fn grid_lines_span_the_window(x0: int, x1: int, z0: int, z1: int, i: int)
    requires
        -0x8000_0000 <= x0 < 0x8000_0000,
        -0x8000_0000 <= x1 < 0x8000_0000,
        -0x8000_0000 <= z0 < 0x8000_0000,
        -0x8000_0000 <= z1 < 0x8000_0000,
    ensures
        ({
            let lines = crate::render::grid_of(x0, x1, z0, z1);
            let n: int = if x1 < x0 {
                0
            } else {
                x1 - x0 + 1
            };
            &&& lines.len() == if z1 < z0 {
                n
            } else {
                n + z1 - z0 + 1
            }
            &&& 0 <= i < n ==> {
                &&& lines[i].x_from == (x0 + i) * 10
                &&& lines[i].x_to == (x0 + i) * 10
                &&& lines[i].z_from == z0 * 10
                &&& lines[i].z_to == z1 * 10
                &&& lines[i].axis == ((x0 + i) % 10 == 0)
            }
            &&& n <= i < lines.len() ==> {
                &&& lines[i].z_from == (z0 + i - n) * 10
                &&& lines[i].z_to == (z0 + i - n) * 10
                &&& lines[i].x_from == x0 * 10
                &&& lines[i].x_to == x1 * 10
                &&& lines[i].axis == ((z0 + i - n) % 10 == 0)
            }
        }),
{
}

/// The lines of the HUD stand below each other, 18 pixels apart, the first at 24.
pub proof fn hud_lines_are_evenly_spaced(texts: Seq<Seq<char>>, i: int)
    requires
        0 <= i < texts.len() < 1000,
    ensures
        crate::render::stacked(texts).len() == texts.len(),
        crate::render::stacked(texts)[i].text == texts[i],
        crate::render::stacked(texts)[i].y == 24 + 18 * i,
{
}

/// What the HUD reads: the status always first; then the session, with the
/// position and the vitals while one is open; then the frame rate; and the last
/// rejection if there was one.
pub proof fn the_hud_reads(w: WorldModel, fps: i32, n: crate::render::HudNumbers<Seq<char>>)
    ensures
        ({
            let texts = crate::render::hud_texts(w, fps, n);
            let rate = "fps "@ + crate::text::right_aligned(
                crate::text::signed_decimal(fps as int),
                3,
            ) + "   view_range "@ + n.view_range;
            let last: int = if w.session_open {
                4
            } else {
                2
            };
            &&& texts[0] == "status: "@ + w.status
            &&& w.session_open ==> {
                &&& texts[1] == "shard "@ + crate::text::decimal(w.shard_id as nat) + "  player "@
                    + crate::text::decimal(w.player_id as nat) + "  tick "@ + crate::text::decimal(
                    w.server_tick as nat,
                ) + "  rtt "@ + crate::text::decimal(w.rtt_ms as nat) + " ms"@
                &&& texts[2] == "pos ("@ + n.self_x + ", "@ + n.self_y + ", "@ + n.self_z
                    + ")   origin ("@ + n.origin_x + ", "@ + n.origin_z + ")"@
                &&& texts[3] == "hp "@ + crate::text::decimal(w.self_hp as nat) + "   stamina "@
                    + n.stamina + "   entities "@ + crate::text::decimal(w.entities.len())
            }
            &&& !w.session_open ==> texts[1] == "not in session"@
            &&& texts[last] == rate
            &&& w.last_rejection is None ==> texts.len() == last + 1
            &&& w.last_rejection matches Some(reason) ==> texts.len() == last + 2 && texts[last + 1]
                == "last action rejected: reason="@ + crate::text::decimal(reason as nat)
        }),
{
}

} // verus!
