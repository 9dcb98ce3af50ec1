//! What holds of the input over all frames.

use vstd::prelude::*;

use crate::channels::GuiCmd;
use crate::input::{
    InputState, Keys, Turn, Wheel, ZoomFactor, ACTION_BLOCK_LOWER, ACTION_BLOCK_RAISE,
};
use crate::single::ZERO;

verus! {

/// A frame's commands are one move, then actions, then at most one quit.
pub proof fn a_move_first_a_quit_last(state: InputState, keys: Keys, turned: u32, i: int)
    requires
        0 <= i < crate::input::commands_of(state, keys, turned).len(),
    ensures
        ({
            let cmds = crate::input::commands_of(state, keys, turned);
            &&& cmds[i] is Move <==> i == 0
            &&& cmds[i] is Quit <==> i == cmds.len() - 1 && (keys.escape || state.quit_requested)
        }),
{
}

/// A quit that was requested comes exactly once.
pub proof fn a_quit_comes_once(
    state: InputState,
    keys: Keys,
    turned: u32,
    zoomed: Option<u32>,
    next: Keys,
    next_turned: u32,
)
    requires
        state.quit_requested,
        !next.escape,
    ensures
        crate::world::quits(crate::input::commands_of(state, keys, turned)),
        !crate::world::quits(
            crate::input::commands_of(
                crate::input::state_after(state, keys, turned, zoomed),
                next,
                next_turned,
            ),
        ),
{
    let cmds = crate::input::commands_of(state, keys, turned);
    assert(cmds[cmds.len() - 1] == GuiCmd::Quit);
    let after = crate::input::state_after(state, keys, turned, zoomed);
    let later = crate::input::commands_of(after, next, next_turned);
    assert forall|i: int| 0 <= i < later.len() implies later[i] != GuiCmd::Quit by {
        a_move_first_a_quit_last(after, next, next_turned, i);
    }
}

/// Opposite keys cancel.
pub proof fn opposite_keys_cancel(keys: Keys, turned: u32)
    requires
        keys.a == keys.d,
        keys.w == keys.s,
    ensures
        crate::input::move_of(keys, turned) == (GuiCmd::Move {
            move_x: ZERO,
            move_z: ZERO,
            orientation: turned,
            buttons: 0,
        }),
{
}

/// All eight directions have the same length: straight ones have the whole
/// along one axis and nothing along the other, diagonal ones the same share
/// along both, 1.0 divided by the square root of 2.0.
pub proof fn diagonals_are_not_faster(keys: Keys, turned: u32)
    requires
        keys.a != keys.d || keys.w != keys.s,
    ensures
        crate::input::move_of(keys, turned) matches GuiCmd::Move { move_x, move_z, .. } && {
            let mx = crate::single::magnitude(move_x);
            let mz = crate::single::magnitude(move_z);
            ||| mx == 0x3F80_0000 && mz == 0
            ||| mx == 0 && mz == 0x3F80_0000
            ||| mx == 0x3F35_04F3 && mz == 0x3F35_04F3
        },
{
}

/// The number of times that `action` occurs among commands.
pub open spec fn count(cmds: Seq<GuiCmd>, action: u8) -> nat
    decreases cmds.len(),
{
    if cmds.len() == 0 {
        0
    } else {
        count(cmds.drop_last(), action) + if cmds.last() == (GuiCmd::Action { action_type: action })
            {
            1nat
        } else {
            0
        }
    }
}

/// The block commands of a run of frames, of which the block key's states are
/// given.
pub open spec fn block_run(held_before: bool, held: Seq<bool>) -> Seq<GuiCmd>
    decreases held.len(),
{
    if held.len() == 0 {
        seq![]
    } else {
        let before = held.drop_last();
        block_run(held_before, before) + crate::input::block_of(
            if before.len() == 0 {
                held_before
            } else {
                before.last()
            },
            held.last(),
        )
    }
}

/// Counting splits where the commands are joined.
proof fn lemma_count_joined(a: Seq<GuiCmd>, b: Seq<GuiCmd>, action: u8)
    ensures
        count(a + b, action) == count(a, action) + count(b, action),
    decreases b.len(),
{
    if b.len() == 0 {
        assert(a + b =~= a);
    } else {
        assert((a + b).drop_last() =~= a + b.drop_last());
        lemma_count_joined(a, b.drop_last(), action);
    }
}

/// The commands of one block edge.
proof fn lemma_block_edge(before: bool, now: bool)
    ensures
        count(crate::input::block_of(before, now), ACTION_BLOCK_RAISE) == if now && !before {
            1nat
        } else {
            0
        },
        count(crate::input::block_of(before, now), ACTION_BLOCK_LOWER) == if !now && before {
            1nat
        } else {
            0
        },
{
    reveal_with_fuel(count, 2);
    let cmds = crate::input::block_of(before, now);
    if cmds.len() > 0 {
        assert(cmds.len() == 1);
        assert(cmds.drop_last() =~= seq![]);
    }
}

/// Over any run of frames the blocks raised and lowered balance: their
/// difference is whether the key is held at the end, less whether it was held
/// at the beginning. A key that stays as it is sends nothing.
pub proof fn blocks_balance(held_before: bool, held: Seq<bool>)
    requires
        held.len() > 0,
    ensures
        count(block_run(held_before, held), ACTION_BLOCK_RAISE) - count(
            block_run(held_before, held),
            ACTION_BLOCK_LOWER,
        ) == (if held.last() {
            1int
        } else {
            0
        }) - (if held_before {
            1int
        } else {
            0
        }),
    decreases held.len(),
{
    let before = held.drop_last();
    let previous = if before.len() == 0 {
        held_before
    } else {
        before.last()
    };
    let edge = crate::input::block_of(previous, held.last());
    lemma_count_joined(block_run(held_before, before), edge, ACTION_BLOCK_RAISE);
    lemma_count_joined(block_run(held_before, before), edge, ACTION_BLOCK_LOWER);
    lemma_block_edge(previous, held.last());
    if before.len() > 0 {
        blocks_balance(held_before, before);
    }
}

/// The key's state at the end of a run.
pub open spec fn held_after(held_before: bool, held: Seq<bool>) -> bool {
    if held.len() == 0 {
        held_before
    } else {
        held.last()
    }
}

/// Over any run of frames blocks are raised and lowered in turn: the first
/// command raises if the key was not held before and lowers if it was, every
/// other command is the opposite of the one before it, and the last one says
/// whether the key is held at the end.
pub proof fn blocks_alternate(held_before: bool, held: Seq<bool>)
    ensures
        ({
            let cmds = block_run(held_before, held);
            &&& forall|i: int|
                0 <= i < cmds.len() ==> #[trigger] cmds[i] == (GuiCmd::Action {
                    action_type: if (i % 2 == 0) == held_before {
                        ACTION_BLOCK_LOWER
                    } else {
                        ACTION_BLOCK_RAISE
                    },
                })
            &&& held_after(held_before, held) == ((cmds.len() % 2 == 0) == held_before)
        }),
    decreases held.len(),
{
    if held.len() > 0 {
        blocks_alternate(held_before, held.drop_last());
        let before = block_run(held_before, held.drop_last());
        let edge = crate::input::block_of(
            held_after(held_before, held.drop_last()),
            held.last(),
        );
        let cmds = block_run(held_before, held);
        assert(cmds =~= before + edge);
        assert(edge.len() <= 1);
        assert forall|i: int| 0 <= i < cmds.len() implies #[trigger] cmds[i] == (GuiCmd::Action {
            action_type: if (i % 2 == 0) == held_before {
                ACTION_BLOCK_LOWER
            } else {
                ACTION_BLOCK_RAISE
            },
        }) by {
            if i < before.len() {
                assert(cmds[i] == before[i]);
            } else {
                assert(cmds[i] == edge[0]);
            }
        }
    }
}

/// A block key that stays as it is sends nothing.
pub proof fn a_held_block_is_not_repeated(held: bool)
    ensures
        crate::input::block_of(held, held).len() == 0,
{
}

/// The view range stays within its limits over every frame, and the range that
/// a reset goes back to never changes.
pub proof fn the_view_range_stays_bounded(
    state: InputState,
    keys: Keys,
    turned: u32,
    zoomed: Option<u32>,
)
    requires
        state.wf(),
    ensures
        crate::input::state_after(state, keys, turned, zoomed).wf(),
        crate::input::state_after(state, keys, turned, zoomed).view_range_home
            == state.view_range_home,
        keys.key_0 || keys.kp_0 ==> crate::input::state_after(
            state,
            keys,
            turned,
            zoomed,
        ).view_range == state.view_range_home,
{
}

/// A number is brought into a range once: a second time changes nothing.
pub proof fn clamping_twice_is_clamping_once(v: u32, lo: u32, hi: u32)
    requires
        !crate::single::less(hi, lo),
    ensures
        crate::single::clamped(crate::single::clamped(v, lo, hi), lo, hi)
            == crate::single::clamped(v, lo, hi),
{
}

/// The key of the action went down in this frame, or up where the action is sent
/// on release: J the light attack, K the heavy one, space the jump, F the dodge,
/// L the block.
pub open spec fn is_asked_for(state: InputState, keys: Keys, action: u8) -> bool {
    ||| action == 1 && keys.j
    ||| action == 2 && keys.k
    ||| action == 3 && keys.space
    ||| action == 4 && keys.f
    ||| action == 0x10 && keys.l && !state.block_held
    ||| action == 0x11 && !keys.l && state.block_held
}

/// Each action is among a frame's commands exactly once if its own key asks for
/// it, and not at all if not.
pub proof fn every_key_sends_its_own_action(
    state: InputState,
    keys: Keys,
    turned: u32,
    action: u8,
)
    ensures
        is_asked_for(state, keys, action) ==> count(
            crate::input::commands_of(state, keys, turned),
            action,
        ) == 1,
        !is_asked_for(state, keys, action) ==> count(
            crate::input::commands_of(state, keys, turned),
            action,
        ) == 0,
{
    let moved = seq![crate::input::move_of(keys, turned)];
    let block = crate::input::block_of(state.block_held, keys.l);
    let shots = crate::input::shots_of(keys);
    let quit = crate::input::when(keys.escape || state.quit_requested, GuiCmd::Quit);
    let light = crate::input::when(keys.j, GuiCmd::Action { action_type: 1 });
    let heavy = crate::input::when(keys.k, GuiCmd::Action { action_type: 2 });
    let jump = crate::input::when(keys.space, GuiCmd::Action { action_type: 3 });
    let dodge = crate::input::when(keys.f, GuiCmd::Action { action_type: 4 });
    let raise = crate::input::when(
        keys.l && !state.block_held,
        GuiCmd::Action { action_type: 0x10 },
    );
    let lower = crate::input::when(
        !keys.l && state.block_held,
        GuiCmd::Action { action_type: 0x11 },
    );
    lemma_count_joined(moved + block + shots, quit, action);
    lemma_count_joined(moved + block, shots, action);
    lemma_count_joined(moved, block, action);
    lemma_count_joined(raise, lower, action);
    lemma_count_joined(light + heavy + jump, dodge, action);
    lemma_count_joined(light + heavy, jump, action);
    lemma_count_joined(light, heavy, action);
    lemma_count_when(true, crate::input::move_of(keys, turned), action);
    lemma_count_when(keys.escape || state.quit_requested, GuiCmd::Quit, action);
    lemma_count_when(keys.j, GuiCmd::Action { action_type: 1 }, action);
    lemma_count_when(keys.k, GuiCmd::Action { action_type: 2 }, action);
    lemma_count_when(keys.space, GuiCmd::Action { action_type: 3 }, action);
    lemma_count_when(keys.f, GuiCmd::Action { action_type: 4 }, action);
    lemma_count_when(
        keys.l && !state.block_held,
        GuiCmd::Action { action_type: 0x10 },
        action,
    );
    lemma_count_when(
        !keys.l && state.block_held,
        GuiCmd::Action { action_type: 0x11 },
        action,
    );
    assert(block == raise + lower);
    assert(shots == light + heavy + jump + dodge);
}

/// Counting one command that may be there.
proof fn lemma_count_when(c: bool, cmd: GuiCmd, action: u8)
    ensures
        count(crate::input::when(c, cmd), action) == if c && cmd == (GuiCmd::Action {
            action_type: action,
        }) {
            1nat
        } else {
            0
        },
{
    reveal_with_fuel(count, 2);
    let cmds = crate::input::when(c, cmd);
    if c {
        assert(cmds.drop_last() =~= seq![]);
    }
}

/// Counting is by place: an action that is counted stands somewhere among the
/// commands.
pub proof fn what_is_counted_is_there(cmds: Seq<GuiCmd>, action: u8)
    ensures
        count(cmds, action) > 0 <==> exists|i: int|
            0 <= i < cmds.len() && #[trigger] cmds[i] == (GuiCmd::Action { action_type: action }),
    decreases cmds.len(),
{
    if cmds.len() > 0 {
        let rest = cmds.drop_last();
        what_is_counted_is_there(rest, action);
        let n = cmds.len() - 1;
        if count(rest, action) > 0 {
            let i = choose|i: int|
                0 <= i < rest.len() && #[trigger] rest[i] == (GuiCmd::Action {
                    action_type: action,
                });
            assert(cmds[i] == rest[i]);
        }
        if exists|i: int|
            0 <= i < cmds.len() && #[trigger] cmds[i] == (GuiCmd::Action { action_type: action }) {
            let i = choose|i: int|
                0 <= i < cmds.len() && #[trigger] cmds[i] == (GuiCmd::Action {
                    action_type: action,
                });
            if i < n {
                assert(rest[i] == cmds[i]);
            }
        }
        assert(cmds.last() == cmds[n]);
    }
}

/// A movement key that is down, and whose opposite is not, moves its own way: D
/// towards plus x, A towards minus x, W towards plus z, S towards minus z. The
/// move carries the facing and no buttons.
pub proof fn every_movement_key_moves_its_own_way(keys: Keys, turned: u32)
    ensures
        crate::input::move_of(keys, turned) matches GuiCmd::Move {
            move_x,
            move_z,
            orientation,
            buttons,
        } && {
            &&& keys.d && !keys.a ==> 0 < move_x < 0x8000_0000
            &&& keys.a && !keys.d ==> 0x8000_0000 < move_x
            &&& keys.a == keys.d ==> move_x == 0
            &&& keys.w && !keys.s ==> 0 < move_z < 0x8000_0000
            &&& keys.s && !keys.w ==> 0x8000_0000 < move_z
            &&& keys.w == keys.s ==> move_z == 0
            &&& orientation == turned
            &&& buttons == 0
        },
{
}

/// The move of a frame is the first of its commands.
pub proof fn a_frame_begins_with_its_move(state: InputState, keys: Keys, turned: u32)
    ensures
        crate::input::commands_of(state, keys, turned).len() > 0,
        crate::input::commands_of(state, keys, turned)[0] == crate::input::move_of(keys, turned),
{
}

/// A frame leaves the state that its keys make of it: the facing after the turns,
/// whether the block key is held, no quit left to request, and boundaries that
/// are shown or hidden by B.
pub proof fn a_frame_leaves_its_state(
    state: InputState,
    keys: Keys,
    turned: u32,
    zoomed: Option<u32>,
)
    ensures
        ({
            let after = crate::input::state_after(state, keys, turned, zoomed);
            &&& after.orientation == turned
            &&& after.block_held == keys.l
            &&& !after.quit_requested
            &&& keys.b ==> after.show_boundaries == !state.show_boundaries
            &&& !keys.b ==> after.show_boundaries == state.show_boundaries
            &&& after.view_range_home == state.view_range_home
        }),
{
}

/// The view range follows the zoom: reset, it is the configured one; zoomed, it is
/// the product where that lies within the limits and the nearer limit where it
/// does not, and what is not a number as it is; else it stays.
pub proof fn the_view_range_follows_the_zoom(
    state: InputState,
    keys: Keys,
    turned: u32,
    zoomed: Option<u32>,
)
    ensures
        ({
            let range = crate::input::state_after(state, keys, turned, zoomed).view_range;
            let reset = keys.key_0 || keys.kp_0;
            &&& reset ==> range == state.view_range_home
            &&& !reset && zoomed is None ==> range == state.view_range
            &&& !reset ==> (zoomed matches Some(product) ==> {
                &&& 0x4080_0000 <= product <= 0x457A_0000 ==> range == product
                &&& 0x457A_0000 < product <= 0x7F80_0000 ==> range == 0x457A_0000
                &&& product < 0x4080_0000 ==> range == 0x4080_0000
                &&& 0x8000_0000 <= product <= 0xFF80_0000 ==> range == 0x4080_0000
                &&& product > 0x7F80_0000 && !(0x8000_0000 <= product <= 0xFF80_0000) ==> range
                    == product
            })
        }),
{
}

/// The order of patterns is that of the numbers: among positive ones the larger
/// pattern is the larger number, among negative ones the smaller one is, and a
/// negative one other than zero is less than a positive one.
pub proof fn patterns_are_ordered_as_numbers(a: u32, b: u32)
    requires
        a <= 0x7F80_0000,
        b <= 0x7F80_0000,
    ensures
        crate::single::less(a, b) <==> a < b,
        crate::single::less((0x8000_0000 + a) as u32, (0x8000_0000 + b) as u32) <==> b < a,
        crate::single::less((0x8000_0000 + a) as u32, b) <==> a > 0 || b > 0,
        !crate::single::less(a, (0x8000_0000 + b) as u32),
{
}

/// What is not a number, an exponent of ones above a fraction other than zero, is
/// neither less nor more than anything.
pub proof fn what_is_not_a_number_has_no_order(a: u32, b: u32)
    requires
        a as int % 0x8000_0000 > 0x7F80_0000,
    ensures
        crate::single::is_nan(a),
        !crate::single::less(a, b),
        !crate::single::less(b, a),
{
}

/// The turns of a frame: left exactly if Q is down, right exactly if E is, the
/// left one first.
pub proof fn turns_follow_their_keys(keys: Keys)
    ensures
        ({
            let turns = crate::input::turns_of(keys);
            &&& turns.contains(Turn::Left) <==> keys.q
            &&& turns.contains(Turn::Right) <==> keys.e
            &&& turns.len() == (if keys.q {
                1int
            } else {
                0
            }) + (if keys.e {
                1int
            } else {
                0
            })
            &&& keys.q ==> turns[0] is Left
        }),
{
    let turns = crate::input::turns_of(keys);
    if keys.q {
        assert(turns[0] == Turn::Left);
    }
    if keys.e {
        assert(turns[turns.len() - 1] == Turn::Right);
    }
}

/// The zoom factors of a frame: the wheel up zooms in and down zooms out, either
/// plus key zooms in and either minus key zooms out, each once.
pub proof fn zooms_follow_wheel_and_keys(keys: Keys, wheel: Wheel)
    ensures
        ({
            let zooms = crate::input::zooms_of(keys, wheel);
            &&& zooms.contains(ZoomFactor::WheelIn) <==> wheel is Up
            &&& zooms.contains(ZoomFactor::WheelOut) <==> wheel is Down
            &&& zooms.contains(ZoomFactor::KeyIn) <==> keys.kp_add || keys.equal
            &&& zooms.contains(ZoomFactor::KeyOut) <==> keys.kp_subtract || keys.minus
            &&& zooms.len() == (if wheel is Still {
                0int
            } else {
                1
            }) + (if keys.kp_add || keys.equal {
                1int
            } else {
                0
            }) + (if keys.kp_subtract || keys.minus {
                1int
            } else {
                0
            })
            &&& !(wheel is Still) ==> zooms[0] is WheelIn || zooms[0] is WheelOut
            &&& keys.kp_subtract || keys.minus ==> zooms.last() is KeyOut
        }),
{
    let zooms = crate::input::zooms_of(keys, wheel);
    let first = if wheel is Still {
        0int
    } else {
        1
    };
    if wheel is Up {
        assert(zooms[0] == ZoomFactor::WheelIn);
    }
    if wheel is Down {
        assert(zooms[0] == ZoomFactor::WheelOut);
    }
    if keys.kp_add || keys.equal {
        assert(zooms[first] == ZoomFactor::KeyIn);
    }
    if keys.kp_subtract || keys.minus {
        assert(zooms[zooms.len() - 1] == ZoomFactor::KeyOut);
    }
}

} // verus!
