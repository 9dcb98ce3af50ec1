//! Keyboard and mouse, turned into commands once per frame.
//!
//! | key           | effect                                            |
//! |---------------|---------------------------------------------------|
//! | W / A / S / D | move                                              |
//! | Q / E         | turn                                              |
//! | J / K         | light / heavy attack, once per press              |
//! | Space / F     | jump / dodge, once per press                      |
//! | L             | block while held: raised on press, lowered on release |
//! | + / -, wheel  | zoom                                              |
//! | 0             | zoom back to the configured range                 |
//! | B             | show or hide the shard boundaries                 |
//! | Esc           | quit                                              |
//!
//! The facing and the product of the view range and a zoom factor are
//! floating-point arithmetic, which happens outside; its results come in as
//! single-precision bit patterns.

use vstd::prelude::*;

use crate::channels::GuiCmd;
use crate::single::{clamp, HALF_DIAGONAL, ONE, SIGN, ZERO};

verus! {

/// The pattern of 4.0, the smallest view range.
pub const VIEW_RANGE_MIN: u32 = 0x4080_0000;

/// The pattern of 4000.0, the largest view range.
pub const VIEW_RANGE_MAX: u32 = 0x457A_0000;

pub const ACTION_LIGHT: u8 = 1;

pub const ACTION_HEAVY: u8 = 2;

pub const ACTION_JUMP: u8 = 3;

pub const ACTION_DODGE: u8 = 4;

pub const ACTION_BLOCK_RAISE: u8 = 0x10;

pub const ACTION_BLOCK_LOWER: u8 = 0x11;

/// Input that persists between frames.
#[derive(Debug, Clone, Copy, PartialEq, Eq, Structural)]
pub struct InputState {
    /// The facing in radians, counter-clockwise from +x.
    pub orientation: u32,
    /// The block key was held in the previous frame.
    pub block_held: bool,
    /// The next frame quits.
    pub quit_requested: bool,
    /// The view range, as zoomed.
    pub view_range: u32,
    /// The view range that a reset goes back to.
    pub view_range_home: u32,
    /// The shard boundaries are shown.
    pub show_boundaries: bool,
}

/// The keys of a frame. Of the movement, turning and block keys: whether they
/// are down. Of the others: whether they were pressed in this frame.
#[derive(Debug, Clone, Copy, PartialEq, Eq, Structural)]
pub struct Keys {
    pub w: bool,
    pub a: bool,
    pub s: bool,
    pub d: bool,
    pub q: bool,
    pub e: bool,
    pub l: bool,
    pub j: bool,
    pub k: bool,
    pub space: bool,
    pub f: bool,
    pub kp_add: bool,
    pub equal: bool,
    pub kp_subtract: bool,
    pub minus: bool,
    pub key_0: bool,
    pub kp_0: bool,
    pub b: bool,
    pub escape: bool,
}

/// Which way the wheel turned.
#[derive(Debug, Clone, Copy, PartialEq, Eq, Structural)]
pub enum Wheel {
    Still,
    Up,
    Down,
}

/// A factor on the view range.
#[derive(Debug, Clone, Copy, PartialEq, Eq, Structural)]
pub enum ZoomFactor {
    /// Divided by the wheel's step.
    WheelIn,
    /// Multiplied by the wheel's step.
    WheelOut,
    /// Divided by the keys' step.
    KeyIn,
    /// Multiplied by the keys' step.
    KeyOut,
}

/// A turn of the facing at a fixed rate.
#[derive(Debug, Clone, Copy, PartialEq, Eq, Structural)]
pub enum Turn {
    /// The facing decreases.
    Left,
    /// The facing increases.
    Right,
}

/// One if `c`, else nothing.
pub open spec fn when<T>(c: bool, x: T) -> Seq<T> {
    if c {
        seq![x]
    } else {
        seq![]
    }
}

/// The turns of a frame, in the order in which they are made.
pub open spec fn turns_of(keys: Keys) -> Seq<Turn> {
    when(keys.q, Turn::Left) + when(keys.e, Turn::Right)
}

/// The zoom factors of a frame, in the order in which they are composed.
pub open spec fn zooms_of(keys: Keys, wheel: Wheel) -> Seq<ZoomFactor> {
    when(wheel is Up, ZoomFactor::WheelIn) + when(wheel is Down, ZoomFactor::WheelOut) + when(
        keys.kp_add || keys.equal,
        ZoomFactor::KeyIn,
    ) + when(keys.kp_subtract || keys.minus, ZoomFactor::KeyOut)
}

/// The direction along an axis of which `plus` and `minus` are the keys.
pub open spec fn direction(plus: bool, minus: bool) -> int {
    (if plus {
        1int
    } else {
        0
    }) - (if minus {
        1int
    } else {
        0
    })
}

/// One component of the unit vector whose directions along the two axes are
/// `along` and `across`.
pub open spec fn unit_component(along: int, across: int) -> u32 {
    if along == 0 {
        ZERO
    } else {
        let size = if across == 0 {
            ONE
        } else {
            HALF_DIAGONAL
        };
        if along > 0 {
            size
        } else {
            (SIGN + size) as u32
        }
    }
}

/// The move of a frame: a unit vector towards the keys that are down, or the
/// zero vector.
pub open spec fn move_of(keys: Keys, orientation: u32) -> GuiCmd {
    let dx = direction(keys.d, keys.a);
    let dz = direction(keys.w, keys.s);
    GuiCmd::Move {
        move_x: unit_component(dx, dz),
        move_z: unit_component(dz, dx),
        orientation,
        buttons: 0,
    }
}

/// The block command of a frame: on the edges only.
pub open spec fn block_of(held_before: bool, held_now: bool) -> Seq<GuiCmd> {
    when(held_now && !held_before, GuiCmd::Action { action_type: ACTION_BLOCK_RAISE }) + when(
        !held_now && held_before,
        GuiCmd::Action { action_type: ACTION_BLOCK_LOWER },
    )
}

/// The one-shot actions of a frame.
pub open spec fn shots_of(keys: Keys) -> Seq<GuiCmd> {
    when(keys.j, GuiCmd::Action { action_type: ACTION_LIGHT }) + when(
        keys.k,
        GuiCmd::Action { action_type: ACTION_HEAVY },
    ) + when(keys.space, GuiCmd::Action { action_type: ACTION_JUMP }) + when(
        keys.f,
        GuiCmd::Action { action_type: ACTION_DODGE },
    )
}

/// The commands of a frame.
pub open spec fn commands_of(state: InputState, keys: Keys, turned: u32) -> Seq<GuiCmd> {
    seq![move_of(keys, turned)] + block_of(state.block_held, keys.l) + shots_of(keys) + when(
        keys.escape || state.quit_requested,
        GuiCmd::Quit,
    )
}

/// The view range after a frame's zoom.
pub open spec fn zoomed_range(state: InputState, keys: Keys, zoomed: Option<u32>) -> u32 {
    if keys.key_0 || keys.kp_0 {
        state.view_range_home
    } else {
        match zoomed {
            Some(product) => crate::single::clamped(product, VIEW_RANGE_MIN, VIEW_RANGE_MAX),
            None => state.view_range,
        }
    }
}

/// The state after a frame.
pub open spec fn state_after(
    state: InputState,
    keys: Keys,
    turned: u32,
    zoomed: Option<u32>,
) -> InputState {
    InputState {
        orientation: turned,
        block_held: keys.l,
        quit_requested: false,
        view_range: zoomed_range(state, keys, zoomed),
        view_range_home: state.view_range_home,
        show_boundaries: keys.b != state.show_boundaries,
    }
}

/// A view range is within its limits, or not a number.
pub open spec fn range_ok(bits: u32) -> bool {
    crate::single::is_nan(bits) || (!crate::single::less(bits, VIEW_RANGE_MIN)
        && !crate::single::less(VIEW_RANGE_MAX, bits))
}

impl Default for InputState {
    fn default() -> (state: Self)
        ensures
            state == (InputState {
                orientation: ZERO,
                block_held: false,
                quit_requested: false,
                view_range: ZERO,
                view_range_home: ZERO,
                show_boundaries: false,
            }),
    {
        InputState {
            orientation: ZERO,
            block_held: false,
            quit_requested: false,
            view_range: ZERO,
            view_range_home: ZERO,
            show_boundaries: false,
        }
    }
}

impl InputState {
    /// Both view ranges are within the limits.
    pub open spec fn wf(self) -> bool {
        range_ok(self.view_range) && range_ok(self.view_range_home)
    }

    /// Input at rest, with `initial`, brought within the limits, as the view
    /// range and as the range that a reset goes back to.
    pub fn with_view_range(initial: u32) -> (state: InputState)
        ensures
            state == (InputState {
                orientation: ZERO,
                block_held: false,
                quit_requested: false,
                view_range: crate::single::clamped(initial, VIEW_RANGE_MIN, VIEW_RANGE_MAX),
                view_range_home: crate::single::clamped(initial, VIEW_RANGE_MIN, VIEW_RANGE_MAX),
                show_boundaries: false,
            }),
            state.wf(),
    {
        let range: u32 = clamp(initial, VIEW_RANGE_MIN, VIEW_RANGE_MAX);
        InputState { view_range: range, view_range_home: range, ..InputState::default() }
    }
}

/// The turns of a frame, in the order in which they are made.
pub fn turns(keys: &Keys) -> (out: Vec<Turn>)
    ensures
        out@ == turns_of(*keys),
{
    let mut out: Vec<Turn> = Vec::new();
    if keys.q {
        out.push(Turn::Left);
    }
    if keys.e {
        out.push(Turn::Right);
    }
    assert(out@ =~= turns_of(*keys));
    out
}

/// The zoom factors of a frame, in the order in which they are composed.
pub fn zooms(keys: &Keys, wheel: Wheel) -> (out: Vec<ZoomFactor>)
    ensures
        out@ == zooms_of(*keys, wheel),
{
    let mut out: Vec<ZoomFactor> = Vec::new();
    match wheel {
        Wheel::Still => {},
        Wheel::Up => {
            out.push(ZoomFactor::WheelIn);
        },
        Wheel::Down => {
            out.push(ZoomFactor::WheelOut);
        },
    }
    if keys.kp_add || keys.equal {
        out.push(ZoomFactor::KeyIn);
    }
    if keys.kp_subtract || keys.minus {
        out.push(ZoomFactor::KeyOut);
    }
    assert(out@ =~= zooms_of(*keys, wheel));
    out
}

/// One component of the unit vector.
fn component(plus: bool, minus: bool, across: bool) -> (bits: u32)
    ensures
        forall|other: int|
            (other != 0) == across ==> bits == #[trigger] unit_component(
                direction(plus, minus),
                other,
            ),
{
    let size: u32 = if across {
        HALF_DIAGONAL
    } else {
        ONE
    };
    if plus == minus {
        ZERO
    } else if plus {
        size
    } else {
        SIGN + size
    }
}

/// Appends `cmd` if `c`.
fn push_when(cmds: &mut Vec<GuiCmd>, c: bool, cmd: GuiCmd)
    ensures
        final(cmds)@ == old(cmds)@ + when(c, cmd),
{
    if c {
        cmds.push(cmd);
    }
    assert(cmds@ =~= old(cmds)@ + when(c, cmd));
}

/// Appends the one-shot actions of a frame.
fn push_shots(cmds: &mut Vec<GuiCmd>, keys: &Keys)
    ensures
        final(cmds)@ == old(cmds)@ + shots_of(*keys),
{
    push_when(cmds, keys.j, GuiCmd::Action { action_type: ACTION_LIGHT });
    push_when(cmds, keys.k, GuiCmd::Action { action_type: ACTION_HEAVY });
    push_when(cmds, keys.space, GuiCmd::Action { action_type: ACTION_JUMP });
    push_when(cmds, keys.f, GuiCmd::Action { action_type: ACTION_DODGE });
    assert(cmds@ =~= old(cmds)@ + shots_of(*keys));
}

/// The commands of a frame: a move, then the actions, then a quit if it was
/// asked for. `turned` is the facing after the frame's turns; `zoomed` is the
/// product of the view range and the frame's zoom factors, unless these
/// compose to one.
pub fn poll(state: &mut InputState, keys: &Keys, turned: u32, zoomed: Option<u32>) -> (cmds: Vec<
    GuiCmd,
>)
    ensures
        *final(state) == state_after(*old(state), *keys, turned, zoomed),
        cmds@ == commands_of(*old(state), *keys, turned),
        old(state).wf() ==> final(state).wf(),
{
    let move_x: u32 = component(keys.d, keys.a, keys.w != keys.s);
    let move_z: u32 = component(keys.w, keys.s, keys.d != keys.a);
    assert(move_x == unit_component(direction(keys.d, keys.a), direction(keys.w, keys.s)));
    assert(move_z == unit_component(direction(keys.w, keys.s), direction(keys.d, keys.a)));
    let mut cmds: Vec<GuiCmd> = Vec::new();
    cmds.push(GuiCmd::Move { move_x, move_z, orientation: turned, buttons: 0 });
    state.orientation = turned;

    let raise: bool = keys.l && !state.block_held;
    let lower: bool = !keys.l && state.block_held;
    push_when(&mut cmds, raise, GuiCmd::Action { action_type: ACTION_BLOCK_RAISE });
    push_when(&mut cmds, lower, GuiCmd::Action { action_type: ACTION_BLOCK_LOWER });
    state.block_held = keys.l;
    push_shots(&mut cmds, keys);

    if let Some(product) = zoomed {
        state.view_range = clamp(product, VIEW_RANGE_MIN, VIEW_RANGE_MAX);
    }
    if keys.key_0 || keys.kp_0 {
        state.view_range = state.view_range_home;
    }
    state.show_boundaries = keys.b != state.show_boundaries;
    push_when(&mut cmds, keys.escape || state.quit_requested, GuiCmd::Quit);
    state.quit_requested = false;
    assert(cmds@ =~= commands_of(*old(state), *keys, turned));
    cmds
}

} // verus!
