//! What a frame shows: the reference grid, every placed entity, the player on
//! top, and the HUD. The drawing itself, and the floating-point geometry of the
//! shapes, happen outside.

use vstd::prelude::*;
use vstd::string::StringExecFns;

use crate::world::{Entity, Fraction, Position, Predicted, World};

verus! {

/// A colour in hundredths of full intensity.
#[derive(Debug, Clone, Copy, PartialEq, Eq, Structural)]
pub struct Rgb {
    pub r: u8,
    pub g: u8,
    pub b: u8,
}

/// The colour of the player's body in a combat state. An unknown state shows
/// as idle.
pub open spec fn body_colour(state: u16) -> Rgb {
    if state == 1 {
        Rgb { r: 100, g: 45, b: 25 }
    } else if state == 2 {
        Rgb { r: 80, g: 45, b: 95 }
    } else if state == 3 {
        Rgb { r: 30, g: 65, b: 100 }
    } else if state == 4 {
        Rgb { r: 100, g: 80, b: 20 }
    } else if state == 5 {
        Rgb { r: 40, g: 90, b: 100 }
    } else {
        Rgb { r: 88, g: 90, b: 100 }
    }
}

/// The colour of the player's body: idle, attacking, staggered, blocking,
/// guard broken, hit while blocking.
pub fn combat_state_colour(state: u16) -> (c: Rgb)
    ensures
        c == body_colour(state),
{
    match state {
        1 => Rgb { r: 100, g: 45, b: 25 },
        2 => Rgb { r: 80, g: 45, b: 95 },
        3 => Rgb { r: 30, g: 65, b: 100 },
        4 => Rgb { r: 100, g: 80, b: 20 },
        5 => Rgb { r: 40, g: 90, b: 100 },
        _ => Rgb { r: 88, g: 90, b: 100 },
    }
}

/// How long the flash of an action lasts.
pub open spec fn flash_ms(action_type: u8) -> u32 {
    if action_type == 1 {
        200
    } else if action_type == 2 {
        350
    } else if action_type == 3 {
        300
    } else if action_type == 4 {
        250
    } else if action_type == 0x10 || action_type == 0x11 {
        120
    } else {
        180
    }
}

/// How long the flash of an action lasts, in milliseconds: light, heavy, jump,
/// dodge, block.
pub fn action_flash_ms(action_type: u8) -> (ms: u32)
    ensures
        ms == flash_ms(action_type),
{
    match action_type {
        1 => 200,
        2 => 350,
        3 => 300,
        4 => 250,
        0x10 => 120,
        0x11 => 120,
        _ => 180,
    }
}

/// The colour of the flash of an action.
pub open spec fn ring_colour_of(action_type: u8) -> Rgb {
    if action_type == 1 {
        Rgb { r: 100, g: 45, b: 25 }
    } else if action_type == 2 {
        Rgb { r: 100, g: 15, b: 15 }
    } else if action_type == 3 {
        Rgb { r: 70, g: 100, b: 40 }
    } else if action_type == 4 {
        Rgb { r: 50, g: 85, b: 100 }
    } else if action_type == 0x10 {
        Rgb { r: 30, g: 65, b: 100 }
    } else if action_type == 0x11 {
        Rgb { r: 30, g: 45, b: 80 }
    } else {
        Rgb { r: 100, g: 100, b: 100 }
    }
}

/// The colour of the flash of an action.
pub fn ring_colour(action_type: u8) -> (c: Rgb)
    ensures
        c == ring_colour_of(action_type),
{
    match action_type {
        1 => Rgb { r: 100, g: 45, b: 25 },
        2 => Rgb { r: 100, g: 15, b: 15 },
        3 => Rgb { r: 70, g: 100, b: 40 },
        4 => Rgb { r: 50, g: 85, b: 100 },
        0x10 => Rgb { r: 30, g: 65, b: 100 },
        0x11 => Rgb { r: 30, g: 45, b: 80 },
        _ => Rgb { r: 100, g: 100, b: 100 },
    }
}

/// A ring around the player that grows and fades over its duration.
#[derive(Debug, Clone, Copy, PartialEq, Eq, Structural)]
pub struct Ring {
    pub colour: Rgb,
    pub elapsed_ns: u64,
    pub duration_ms: u32,
}

/// The ring that the last action still shows at `now`.
pub open spec fn ring_at(flash: Option<(u8, u64)>, now: u64) -> Option<Ring> {
    match flash {
        None => None,
        Some((action_type, started)) => {
            let age = crate::clock::elapsed(now, started);
            if age < flash_ms(action_type) * 1_000_000 {
                Some(
                    Ring {
                        colour: ring_colour_of(action_type),
                        elapsed_ns: age as u64,
                        duration_ms: flash_ms(action_type),
                    },
                )
            } else {
                None
            }
        },
    }
}

/// The ring that the last action still shows at `now`.
pub fn flash_ring(flash: Option<(u8, u64)>, now: u64) -> (ring: Option<Ring>)
    ensures
        ring == ring_at(flash, now),
{
    match flash {
        None => None,
        Some((action_type, started)) => {
            let age: u64 = crate::clock::since(now, started);
            let duration_ms: u32 = action_flash_ms(action_type);
            if age < duration_ms as u64 * 1_000_000 {
                Some(Ring { colour: ring_colour(action_type), elapsed_ns: age, duration_ms })
            } else {
                None
            }
        },
    }
}

/// A neighbour: a circle tinted by its health, with an outline and a tick in
/// its facing.
#[derive(Debug, Clone, Copy, PartialEq, Eq, Structural)]
pub struct Neighbour {
    pub id: u32,
    pub position: Position,
    pub orientation: u32,
    pub health: Fraction,
    pub outline: Rgb,
}

/// The player: a triangle that points in its facing.
#[derive(Debug, Clone, Copy, PartialEq, Eq, Structural)]
pub struct Player {
    pub at: Predicted,
    pub orientation: u32,
    pub body: Rgb,
    pub ring: Option<Ring>,
}

/// What is drawn in the world.
#[derive(Debug)]
pub struct Scene {
    pub neighbours: Vec<Neighbour>,
    pub player: Option<Player>,
}

/// How an entity other than the player is drawn: black outline when idle, a
/// bright one in any other combat state.
pub open spec fn neighbour_of(e: Entity) -> Neighbour {
    Neighbour {
        id: e.id,
        position: e.position,
        orientation: e.orientation,
        health: crate::world::health_share(e.hp, e.max_hp),
        outline: if e.combat_state == 0 {
            Rgb { r: 0, g: 0, b: 0 }
        } else {
            Rgb { r: 100, g: 90, b: 20 }
        },
    }
}

/// The record is drawn as a neighbour: it has been placed and is not the
/// player's own.
pub open spec fn is_neighbour(w: crate::world::WorldModel, id: u32) -> bool {
    w.entities.contains_key(id) && w.entities[id].has_position && !w.entities[id].is_self
}

/// The player as drawn: while a session is open, once its record is placed.
pub open spec fn player_of(w: crate::world::WorldModel, now: u64) -> Option<Player> {
    if w.session_open && w.entities.contains_key(w.persistent_id)
        && w.entities[w.persistent_id].is_self {
        Some(
            Player {
                at: crate::world::predicted(w, now),
                orientation: w.self_orientation,
                body: body_colour(w.entities[w.persistent_id].combat_state),
                ring: ring_at(w.self_action_flash, now),
            },
        )
    } else {
        None
    }
}

/// The neighbours are drawn: each that is to be drawn once, and no other.
pub open spec fn shows_neighbours(w: crate::world::WorldModel, shown: Seq<Neighbour>) -> bool {
    &&& forall|i: int|
        0 <= i < shown.len() ==> is_neighbour(w, (#[trigger] shown[i]).id) && shown[i]
            == neighbour_of(w.entities[shown[i].id])
    &&& forall|i: int, j: int|
        0 <= i < j < shown.len() ==> (#[trigger] shown[i]).id != (#[trigger] shown[j]).id
    &&& forall|id: u32| #[trigger]
        is_neighbour(w, id) ==> exists|i: int| 0 <= i < shown.len() && (#[trigger] shown[i]).id == id
}

/// How an entity other than the player is drawn.
fn draw_entity(e: &Entity) -> (n: Neighbour)
    ensures
        n == neighbour_of(*e),
{
    Neighbour {
        id: e.id,
        position: e.position,
        orientation: e.orientation,
        health: e.hp_frac(),
        outline: if e.combat_state == 0 {
            Rgb { r: 0, g: 0, b: 0 }
        } else {
            Rgb { r: 100, g: 90, b: 20 }
        },
    }
}

/// What a frame at `now` draws in the world.
pub fn draw(world: &World, now: u64) -> (scene: Scene)
    requires
        crate::world::well_formed(world@),
    ensures
        shows_neighbours(world@, scene.neighbours@),
        scene.player == player_of(world@, now),
{
    let all = crate::world::ids(&world.entities);
    let mut neighbours: Vec<Neighbour> = Vec::new();
    let mut i: usize = 0;
    while i < all.len()
        invariant
            i <= all.len(),
            crate::world::well_formed(world@),
            all@.no_duplicates(),
            forall|id: u32| all@.contains(id) <==> world@.entities.contains_key(id),
            forall|k: int|
                0 <= k < neighbours.len() ==> is_neighbour(world@, (#[trigger] neighbours[k]).id)
                    && neighbours[k] == neighbour_of(world@.entities[neighbours[k].id]),
            forall|k: int|
                0 <= k < neighbours.len() ==> exists|j: int|
                    0 <= j < i && all@[j] == (#[trigger] neighbours[k]).id,
            forall|k: int, m: int|
                0 <= k < m < neighbours.len() ==> (#[trigger] neighbours[k]).id != (
                #[trigger] neighbours[m]).id,
            forall|j: int|
                0 <= j < i && is_neighbour(world@, #[trigger] all@[j]) ==> exists|k: int|
                    0 <= k < neighbours.len() && (#[trigger] neighbours[k]).id == all@[j],
        decreases all.len() - i,
    {
        let id: u32 = all[i];
        assert(all@.contains(id));
        let ghost before = neighbours@;
        if let Some(e) = world.entities.get(&id) {
            if e.has_position && !e.is_self {
                let n = draw_entity(e);
                assert(n.id == id);
                neighbours.push(n);
                assert(neighbours@[before.len() as int].id == id);
                assert forall|j: int|
                    0 <= j < i && is_neighbour(world@, #[trigger] all@[j]) implies exists|k: int|
                    0 <= k < neighbours.len() && (#[trigger] neighbours[k]).id == all@[j] by {
                    let k = choose|k: int|
                        0 <= k < before.len() && (#[trigger] before[k]).id == all@[j];
                    assert(neighbours[k].id == all@[j]);
                }
            }
        }
        i = i + 1;
    }
    assert forall|id: u32| #[trigger] is_neighbour(world@, id) implies exists|k: int|
        0 <= k < neighbours.len() && (#[trigger] neighbours[k]).id == id by {
        assert(all@.contains(id));
        let j = choose|j: int| 0 <= j < all@.len() && all@[j] == id;
        assert(is_neighbour(world@, all@[j]));
    }
    let mut player: Option<Player> = None;
    if world.session_open {
        if let Some(e) = world.entities.get(&world.persistent_id) {
            if e.is_self {
                player = Some(
                    Player {
                        at: world.predicted_self_pos(now),
                        orientation: world.self_orientation,
                        body: combat_state_colour(e.combat_state),
                        ring: flash_ring(world.self_action_flash, now),
                    },
                );
            }
        }
    }
    Scene { neighbours, player }
}

/// A shape of the scene.
#[derive(Debug, Clone, Copy, PartialEq, Eq, Structural)]
pub enum Shape {
    Neighbour(Neighbour),
    Player(Player),
}

/// The shapes of a scene in the order in which they are drawn: the neighbours,
/// then the player on top of them.
pub open spec fn layers_of(neighbours: Seq<Neighbour>, player: Option<Player>) -> Seq<Shape> {
    neighbours.map_values(|n: Neighbour| Shape::Neighbour(n)) + (match player {
        Some(p) => seq![Shape::Player(p)],
        None => seq![],
    })
}

/// The shapes of a scene in the order in which they are drawn.
pub fn layers(scene: &Scene) -> (shapes: Vec<Shape>)
    ensures
        shapes@ == layers_of(scene.neighbours@, scene.player),
{
    let ghost below = scene.neighbours@.map_values(|n: Neighbour| Shape::Neighbour(n));
    let mut shapes: Vec<Shape> = Vec::new();
    let mut i: usize = 0;
    while i < scene.neighbours.len()
        invariant
            i <= scene.neighbours.len(),
            below == scene.neighbours@.map_values(|n: Neighbour| Shape::Neighbour(n)),
            shapes@ == below.take(i as int),
        decreases scene.neighbours.len() - i,
    {
        shapes.push(Shape::Neighbour(scene.neighbours[i]));
        i = i + 1;
        assert(shapes@ =~= below.take(i as int));
    }
    if let Some(player) = scene.player {
        shapes.push(Shape::Player(player));
    }
    assert(shapes@ =~= layers_of(scene.neighbours@, scene.player));
    shapes
}

// ---------------------------------------------------------------------------
// The reference grid

/// The distance between two grid lines, in world units.
pub const GRID_STEP: i64 = 10;

/// Every so many lines one is an axis.
pub const GRID_AXIS_EVERY: i64 = 10;

/// A grid line in world units. An axis is drawn brighter.
#[derive(Debug, Clone, Copy, PartialEq, Eq, Structural)]
pub struct GridLine {
    pub x_from: i64,
    pub z_from: i64,
    pub x_to: i64,
    pub z_to: i64,
    pub axis: bool,
}

/// The `k`-th line of constant x, across the cells from `z0` to `z1`.
pub open spec fn vertical_line(k: int, z0: int, z1: int) -> GridLine {
    GridLine {
        x_from: (k * GRID_STEP) as i64,
        z_from: (z0 * GRID_STEP) as i64,
        x_to: (k * GRID_STEP) as i64,
        z_to: (z1 * GRID_STEP) as i64,
        axis: k % (GRID_AXIS_EVERY as int) == 0,
    }
}

/// The `k`-th line of constant z, across the cells from `x0` to `x1`.
pub open spec fn horizontal_line(k: int, x0: int, x1: int) -> GridLine {
    GridLine {
        x_from: (x0 * GRID_STEP) as i64,
        z_from: (k * GRID_STEP) as i64,
        x_to: (x1 * GRID_STEP) as i64,
        z_to: (k * GRID_STEP) as i64,
        axis: k % (GRID_AXIS_EVERY as int) == 0,
    }
}

/// The number of lines from `a` to `b`, both included.
pub open spec fn line_count(a: int, b: int) -> nat {
    if a <= b {
        (b - a + 1) as nat
    } else {
        0
    }
}

/// The grid over the cells from `x0` to `x1` and from `z0` to `z1`.
pub open spec fn grid_of(x0: int, x1: int, z0: int, z1: int) -> Seq<GridLine> {
    Seq::new(line_count(x0, x1), |i: int| vertical_line(x0 + i, z0, z1)) + Seq::new(
        line_count(z0, z1),
        |i: int| horizontal_line(z0 + i, x0, x1),
    )
}

/// The grid over a window that reaches from the `x0`-th to the `x1`-th line of
/// constant x and from the `z0`-th to the `z1`-th of constant z.
pub fn draw_grid(x0: i32, x1: i32, z0: i32, z1: i32) -> (lines: Vec<GridLine>)
    ensures
        lines@ == grid_of(x0 as int, x1 as int, z0 as int, z1 as int),
{
    let mut lines: Vec<GridLine> = Vec::new();
    let mut x: i64 = x0 as i64;
    while x <= x1 as i64
        invariant
            x0 <= x,
            x <= x1 + 1 || x == x0,
            lines@ == Seq::new((x - x0) as nat, |i: int| vertical_line(x0 + i, z0 as int, z1 as int)),
        decreases x1 + 1 - x,
    {
        lines.push(
            GridLine {
                x_from: x * GRID_STEP,
                z_from: z0 as i64 * GRID_STEP,
                x_to: x * GRID_STEP,
                z_to: z1 as i64 * GRID_STEP,
                axis: x % GRID_AXIS_EVERY == 0,
            },
        );
        assert(lines@.last() == vertical_line(x as int, z0 as int, z1 as int));
        x = x + 1;
        assert(lines@ =~= Seq::new(
            (x - x0) as nat,
            |i: int| vertical_line(x0 + i, z0 as int, z1 as int),
        ));
    }
    let ghost verticals = lines@;
    let mut z: i64 = z0 as i64;
    assert(lines@ =~= verticals + Seq::new(
        (z - z0) as nat,
        |i: int| horizontal_line(z0 + i, x0 as int, x1 as int),
    ));
    while z <= z1 as i64
        invariant
            z0 <= z,
            z <= z1 + 1 || z == z0,
            lines@ == verticals + Seq::new(
                (z - z0) as nat,
                |i: int| horizontal_line(z0 + i, x0 as int, x1 as int),
            ),
        decreases z1 + 1 - z,
    {
        lines.push(
            GridLine {
                x_from: x0 as i64 * GRID_STEP,
                z_from: z * GRID_STEP,
                x_to: x1 as i64 * GRID_STEP,
                z_to: z * GRID_STEP,
                axis: z % GRID_AXIS_EVERY == 0,
            },
        );
        assert(lines@.last() == horizontal_line(z as int, x0 as int, x1 as int));
        z = z + 1;
        assert(lines@ =~= verticals + Seq::new(
            (z - z0) as nat,
            |i: int| horizontal_line(z0 + i, x0 as int, x1 as int),
        ));
    }
    assert(lines@ =~= grid_of(x0 as int, x1 as int, z0 as int, z1 as int));
    lines
}

// ---------------------------------------------------------------------------
// The HUD

/// Numbers that the HUD shows, written out: positions and stamina with one
/// decimal, the view range with none. `S` is the type of text; in contracts it
/// is `Seq<char>`.
#[derive(Debug, Clone)]
pub struct HudNumbers<S = String> {
    pub self_x: S,
    pub self_y: S,
    pub self_z: S,
    pub origin_x: S,
    pub origin_z: S,
    pub stamina: S,
    pub view_range: S,
}

impl View for HudNumbers<String> {
    type V = HudNumbers<Seq<char>>;

    open spec fn view(&self) -> HudNumbers<Seq<char>> {
        HudNumbers {
            self_x: self.self_x@,
            self_y: self.self_y@,
            self_z: self.self_z@,
            origin_x: self.origin_x@,
            origin_z: self.origin_z@,
            stamina: self.stamina@,
            view_range: self.view_range@,
        }
    }
}

/// A line of text and its baseline in pixels from an edge of the window.
#[derive(Debug, Clone)]
pub struct HudLine<S = String> {
    pub y: u32,
    pub text: S,
}

impl View for HudLine<String> {
    type V = HudLine<Seq<char>>;

    open spec fn view(&self) -> HudLine<Seq<char>> {
        HudLine { y: self.y, text: self.text@ }
    }
}

/// The models of the lines.
pub open spec fn line_models(lines: Seq<HudLine>) -> Seq<HudLine<Seq<char>>> {
    lines.map_values(|l: HudLine| l@)
}

/// The distance of text from the window's edges.
pub const HUD_PAD: u32 = 8;

/// The distance between two lines.
pub const HUD_LINE: u32 = 18;

/// The size of the font.
pub const HUD_FONT: u32 = 16;

/// The line of the session.
pub open spec fn session_text(w: crate::world::WorldModel) -> Seq<char> {
    if w.session_open {
        "shard "@ + crate::text::decimal(w.shard_id as nat) + "  player "@ + crate::text::decimal(
            w.player_id as nat,
        ) + "  tick "@ + crate::text::decimal(w.server_tick as nat) + "  rtt "@
            + crate::text::decimal(w.rtt_ms as nat) + " ms"@
    } else {
        "not in session"@
    }
}

/// The line of the player's position and the shard's origin.
pub open spec fn position_text(n: HudNumbers<Seq<char>>) -> Seq<char> {
    "pos ("@ + n.self_x + ", "@ + n.self_y + ", "@ + n.self_z + ")   origin ("@ + n.origin_x
        + ", "@ + n.origin_z + ")"@
}

/// The line of the player's health and stamina and of the entity count.
pub open spec fn vitals_text(w: crate::world::WorldModel, n: HudNumbers<Seq<char>>) -> Seq<char> {
    "hp "@ + crate::text::decimal(w.self_hp as nat) + "   stamina "@ + n.stamina
        + "   entities "@ + crate::text::decimal(w.entities.len())
}

/// The line of the frame rate and the view range.
pub open spec fn rate_text(fps: i32, n: HudNumbers<Seq<char>>) -> Seq<char> {
    "fps "@ + crate::text::right_aligned(crate::text::signed_decimal(fps as int), 3)
        + "   view_range "@ + n.view_range
}

/// The line of the last rejected action.
pub open spec fn rejection_text(reason: u8) -> Seq<char> {
    "last action rejected: reason="@ + crate::text::decimal(reason as nat)
}

/// The texts of the HUD, from top to bottom. Position and vitals show only in
/// a session, a rejection only once there was one.
pub open spec fn hud_texts(w: crate::world::WorldModel, fps: i32, n: HudNumbers<Seq<char>>) -> Seq<
    Seq<char>,
> {
    seq!["status: "@ + w.status, session_text(w)] + (if w.session_open {
        seq![position_text(n), vitals_text(w, n)]
    } else {
        seq![]
    }) + seq![rate_text(fps, n)] + (match w.last_rejection {
        Some(reason) => seq![rejection_text(reason)],
        None => seq![],
    })
}

/// The lines whose texts are `texts`, evenly spaced from the top.
pub open spec fn stacked(texts: Seq<Seq<char>>) -> Seq<HudLine<Seq<char>>> {
    Seq::new(
        texts.len(),
        |i: int| HudLine { y: (HUD_PAD + HUD_FONT + HUD_LINE * i) as u32, text: texts[i] },
    )
}

/// Adds a line below the others.
fn push_line(lines: &mut Vec<HudLine>, text: String, Ghost(texts): Ghost<Seq<Seq<char>>>)
    requires
        line_models(old(lines)@) == stacked(texts),
        texts.len() < 16,
    ensures
        line_models(final(lines)@) == stacked(texts.push(text@)),
{
    assert(line_models(lines@).len() == texts.len());
    let n: u32 = lines.len() as u32;
    lines.push(HudLine { y: HUD_PAD + HUD_FONT + HUD_LINE * n, text });
    assert forall|i: int| 0 <= i < texts.len() implies #[trigger] line_models(lines@)[i] == stacked(
        texts,
    )[i] by {
        assert(line_models(old(lines)@)[i] == stacked(texts)[i]);
    }
    assert(line_models(lines@) =~= stacked(texts.push(text@)));
}

/// The text of the session's line.
fn session_line(world: &World) -> (text: String)
    ensures
        text@ == session_text(world@),
{
    if world.session_open {
        let mut text = String::from_str("shard ");
        crate::text::push_numeral(&mut text, world.shard_id as u64, 10);
        text.append("  player ");
        crate::text::push_numeral(&mut text, world.player_id as u64, 10);
        text.append("  tick ");
        crate::text::push_numeral(&mut text, world.server_tick as u64, 10);
        text.append("  rtt ");
        crate::text::push_numeral(&mut text, world.rtt_ms as u64, 10);
        text.append(" ms");
        text
    } else {
        String::from_str("not in session")
    }
}

/// The text of the position's line.
fn position_line(n: &HudNumbers) -> (text: String)
    ensures
        text@ == position_text(n@),
{
    let mut text = String::from_str("pos (");
    text.append(n.self_x.as_str());
    text.append(", ");
    text.append(n.self_y.as_str());
    text.append(", ");
    text.append(n.self_z.as_str());
    text.append(")   origin (");
    text.append(n.origin_x.as_str());
    text.append(", ");
    text.append(n.origin_z.as_str());
    text.append(")");
    text
}

/// The text of the vitals' line.
fn vitals_line(world: &World, n: &HudNumbers) -> (text: String)
    ensures
        text@ == vitals_text(world@, n@),
{
    broadcast use vstd::std_specs::hash::group_hash_axioms;

    let mut text = String::from_str("hp ");
    crate::text::push_numeral(&mut text, world.self_hp as u64, 10);
    text.append("   stamina ");
    text.append(n.stamina.as_str());
    text.append("   entities ");
    crate::text::push_numeral(&mut text, world.entities.len() as u64, 10);
    text
}

/// The text of the frame rate's line.
fn rate_line(fps: i32, n: &HudNumbers) -> (text: String)
    ensures
        text@ == rate_text(fps, n@),
{
    let mut text = String::from_str("fps ");
    let rate = crate::text::right_align(crate::text::signed_decimal_text(fps).as_str(), 3);
    text.append(rate.as_str());
    text.append("   view_range ");
    text.append(n.view_range.as_str());
    text
}

/// The lines of the HUD, with their baselines below the top edge.
pub fn draw_hud(world: &World, fps: i32, n: &HudNumbers) -> (lines: Vec<HudLine>)
    ensures
        line_models(lines@) == stacked(hud_texts(world@, fps, n@)),
{
    let mut lines: Vec<HudLine> = Vec::new();
    let ghost mut texts: Seq<Seq<char>> = seq![];
    assert(line_models(lines@) =~= stacked(texts));

    let mut status = String::from_str("status: ");
    status.append(world.status.as_str());
    let ghost status_text = status@;
    push_line(&mut lines, status, Ghost(texts));
    push_line(&mut lines, session_line(world), Ghost(texts.push(status_text)));
    proof {
        texts = seq![status_text, session_text(world@)];
        assert(seq![].push(status_text).push(session_text(world@)) =~= texts);
    }
    if world.session_open {
        push_line(&mut lines, position_line(n), Ghost(texts));
        push_line(&mut lines, vitals_line(world, n), Ghost(texts.push(position_text(n@))));
        proof {
            texts = texts.push(position_text(n@)).push(vitals_text(world@, n@));
        }
    }
    push_line(&mut lines, rate_line(fps, n), Ghost(texts));
    proof {
        texts = texts.push(rate_text(fps, n@));
    }
    if let Some(reason) = world.last_rejection {
        let mut text = String::from_str("last action rejected: reason=");
        crate::text::push_numeral(&mut text, reason as u64, 10);
        push_line(&mut lines, text, Ghost(texts));
        proof {
            texts = texts.push(rejection_text(reason));
        }
    }
    assert(texts =~= hud_texts(world@, fps, n@));
    lines
}

/// The reference of the keys, with their baselines above the bottom edge.
pub fn key_hints() -> (lines: Vec<HudLine>)
    ensures
        line_models(lines@) == seq![
            HudLine { y: 60, text: "W/A/S/D move   Q/E yaw"@ },
            HudLine { y: 42, text: "J light  K heavy  Space jump  F dodge"@ },
            HudLine { y: 24, text: "L block (hold)   Esc quit"@ },
        ],
{
    let mut lines: Vec<HudLine> = Vec::new();
    lines.push(
        HudLine {
            y: HUD_FONT + HUD_LINE * 2 + HUD_PAD,
            text: String::from_str("W/A/S/D move   Q/E yaw"),
        },
    );
    lines.push(
        HudLine {
            y: HUD_FONT + HUD_LINE + HUD_PAD,
            text: String::from_str("J light  K heavy  Space jump  F dodge"),
        },
    );
    lines.push(
        HudLine { y: HUD_FONT + HUD_PAD, text: String::from_str("L block (hold)   Esc quit") },
    );
    assert(line_models(lines@) =~= seq![
        HudLine { y: 60, text: "W/A/S/D move   Q/E yaw"@ },
        HudLine { y: 42, text: "J light  K heavy  Space jump  F dodge"@ },
        HudLine { y: 24, text: "L block (hold)   Esc quit"@ },
    ]);
    lines
}

} // verus!
