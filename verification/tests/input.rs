use mmo_viewer::channels::GuiCmd;
use mmo_viewer::input::{
    poll, turns, zooms, InputState, Keys, Turn, Wheel, ZoomFactor, ACTION_BLOCK_LOWER,
    ACTION_BLOCK_RAISE, ACTION_DODGE, ACTION_HEAVY, ACTION_JUMP, ACTION_LIGHT, VIEW_RANGE_MAX,
    VIEW_RANGE_MIN,
};
use mmo_viewer::single::{clamp, is_less, HALF_DIAGONAL, INFINITY, ONE};

fn no_keys() -> Keys {
    Keys {
        w: false,
        a: false,
        s: false,
        d: false,
        q: false,
        e: false,
        l: false,
        j: false,
        k: false,
        space: false,
        f: false,
        kp_add: false,
        equal: false,
        kp_subtract: false,
        minus: false,
        key_0: false,
        kp_0: false,
        b: false,
        escape: false,
    }
}

fn state() -> InputState {
    InputState::with_view_range(80.0f32.to_bits())
}

fn vector(cmds: &Vec<GuiCmd>) -> (f32, f32) {
    match cmds[0] {
        GuiCmd::Move { move_x, move_z, .. } => (f32::from_bits(move_x), f32::from_bits(move_z)),
        _ => panic!("the first command is a move"),
    }
}

#[test]
fn constants_are_the_bit_patterns_they_name() {
    assert_eq!(f32::from_bits(VIEW_RANGE_MIN), 4.0);
    assert_eq!(f32::from_bits(VIEW_RANGE_MAX), 4000.0);
    assert_eq!(f32::from_bits(ONE), 1.0);
    assert_eq!(f32::from_bits(HALF_DIAGONAL), 1.0f32 / 2.0f32.sqrt());
    assert_eq!(INFINITY, f32::INFINITY.to_bits());
}

#[test]
fn order_of_patterns_is_order_of_numbers() {
    let numbers: Vec<f32> = vec![
        f32::NEG_INFINITY,
        -4000.0,
        -1.5,
        -f32::MIN_POSITIVE,
        -0.0,
        0.0,
        f32::MIN_POSITIVE,
        0.1,
        4.0,
        80.0,
        4000.0,
        f32::MAX,
        f32::INFINITY,
        f32::NAN,
        -f32::NAN,
    ];
    for a in &numbers {
        for b in &numbers {
            assert_eq!(is_less(a.to_bits(), b.to_bits()), a < b);
        }
        let c = f32::from_bits(clamp(a.to_bits(), VIEW_RANGE_MIN, VIEW_RANGE_MAX));
        let d = a.clamp(4.0, 4000.0);
        assert!(c == d || (c.is_nan() && d.is_nan()));
    }
}

#[test]
fn initial_view_range_is_clamped_and_is_home() {
    let small = InputState::with_view_range(1.0f32.to_bits());
    assert_eq!(f32::from_bits(small.view_range), 4.0);
    assert_eq!(f32::from_bits(small.view_range_home), 4.0);
    let large = InputState::with_view_range(1.0e6f32.to_bits());
    assert_eq!(f32::from_bits(large.view_range), 4000.0);
    let s = state();
    assert_eq!(f32::from_bits(s.view_range), 80.0);
    assert_eq!(s.orientation, 0);
    assert!(!s.block_held);
    assert!(!s.quit_requested);
    let d = InputState::default();
    assert_eq!(d.view_range, 0);
}

#[test]
fn idle_frame_is_a_zero_move() {
    let mut s = state();
    let cmds = poll(&mut s, &no_keys(), 0, None);
    assert_eq!(
        cmds,
        vec![GuiCmd::Move { move_x: 0, move_z: 0, orientation: 0, buttons: 0 }]
    );
}

#[test]
fn all_eight_directions_match_the_normalised_vector() {
    for mask in 0..16u32 {
        let mut keys = no_keys();
        keys.a = mask & 1 != 0;
        keys.d = mask & 2 != 0;
        keys.w = mask & 4 != 0;
        keys.s = mask & 8 != 0;
        let mut x = 0.0f32;
        let mut z = 0.0f32;
        if keys.a {
            x -= 1.0;
        }
        if keys.d {
            x += 1.0;
        }
        if keys.w {
            z += 1.0;
        }
        if keys.s {
            z -= 1.0;
        }
        let len = (x * x + z * z).sqrt();
        if len > 0.0 {
            x /= len;
            z /= len;
        }
        let mut s = state();
        let cmds = poll(&mut s, &keys, 0, None);
        assert_eq!(vector(&cmds), (x, z));
    }
}

#[test]
fn block_is_sent_on_the_edges_only() {
    let mut s = state();
    let mut held = no_keys();
    held.l = true;
    let raise = GuiCmd::Action { action_type: ACTION_BLOCK_RAISE };
    let lower = GuiCmd::Action { action_type: ACTION_BLOCK_LOWER };
    assert_eq!(poll(&mut s, &held, 0, None)[1..], [raise]);
    assert_eq!(poll(&mut s, &held, 0, None).len(), 1);
    assert_eq!(poll(&mut s, &held, 0, None).len(), 1);
    assert_eq!(poll(&mut s, &no_keys(), 0, None)[1..], [lower]);
    assert_eq!(poll(&mut s, &no_keys(), 0, None).len(), 1);
}

#[test]
fn actions_come_in_order_between_move_and_quit() {
    let mut keys = no_keys();
    keys.l = true;
    keys.j = true;
    keys.k = true;
    keys.space = true;
    keys.f = true;
    keys.escape = true;
    let mut s = state();
    let cmds = poll(&mut s, &keys, 7, None);
    let codes: Vec<GuiCmd> = vec![0x10, ACTION_LIGHT, ACTION_HEAVY, ACTION_JUMP, ACTION_DODGE]
        .into_iter()
        .map(|action_type| GuiCmd::Action { action_type })
        .collect();
    assert_eq!(cmds[0], GuiCmd::Move { move_x: 0, move_z: 0, orientation: 7, buttons: 0 });
    assert_eq!(cmds[1..6], codes[..]);
    assert_eq!(cmds[6], GuiCmd::Quit);
    assert_eq!(cmds.len(), 7);
    assert_eq!(s.orientation, 7);
}

#[test]
fn requested_quit_comes_once() {
    let mut s = state();
    s.quit_requested = true;
    assert_eq!(poll(&mut s, &no_keys(), 0, None)[1..], [GuiCmd::Quit]);
    assert!(!s.quit_requested);
    assert_eq!(poll(&mut s, &no_keys(), 0, None).len(), 1);
}

#[test]
fn zoom_is_clamped_and_reset_goes_home() {
    let mut s = state();
    poll(&mut s, &no_keys(), 0, Some(100.0f32.to_bits()));
    assert_eq!(f32::from_bits(s.view_range), 100.0);
    poll(&mut s, &no_keys(), 0, Some(5000.0f32.to_bits()));
    assert_eq!(f32::from_bits(s.view_range), 4000.0);
    poll(&mut s, &no_keys(), 0, Some(0.5f32.to_bits()));
    assert_eq!(f32::from_bits(s.view_range), 4.0);
    poll(&mut s, &no_keys(), 0, None);
    assert_eq!(f32::from_bits(s.view_range), 4.0);
    let mut reset = no_keys();
    reset.key_0 = true;
    poll(&mut s, &reset, 0, Some(9.0f32.to_bits()));
    assert_eq!(f32::from_bits(s.view_range), 80.0);
    poll(&mut s, &no_keys(), 0, Some(9.0f32.to_bits()));
    let mut keypad = no_keys();
    keypad.kp_0 = true;
    poll(&mut s, &keypad, 0, None);
    assert_eq!(f32::from_bits(s.view_range), 80.0);
}

#[test]
fn zoom_factors_come_in_order() {
    let mut keys = no_keys();
    assert_eq!(zooms(&keys, Wheel::Still), vec![]);
    keys.equal = true;
    keys.kp_subtract = true;
    assert_eq!(
        zooms(&keys, Wheel::Down),
        vec![ZoomFactor::WheelOut, ZoomFactor::KeyIn, ZoomFactor::KeyOut]
    );
    keys.equal = false;
    keys.kp_add = true;
    keys.kp_subtract = false;
    keys.minus = true;
    assert_eq!(
        zooms(&keys, Wheel::Up),
        vec![ZoomFactor::WheelIn, ZoomFactor::KeyIn, ZoomFactor::KeyOut]
    );
}

#[test]
fn turns_follow_the_keys() {
    let mut keys = no_keys();
    assert_eq!(turns(&keys), vec![]);
    keys.q = true;
    assert_eq!(turns(&keys), vec![Turn::Left]);
    keys.e = true;
    assert_eq!(turns(&keys), vec![Turn::Left, Turn::Right]);
}

#[test]
fn boundaries_are_toggled_on_each_press() {
    let mut s = state();
    assert!(!s.show_boundaries);
    let mut pressed = no_keys();
    pressed.b = true;
    poll(&mut s, &pressed, 0, None);
    assert!(s.show_boundaries);
    poll(&mut s, &no_keys(), 0, None);
    assert!(s.show_boundaries);
    poll(&mut s, &pressed, 0, None);
    assert!(!s.show_boundaries);
}

#[test]
fn raised_and_lowered_blocks_balance() {
    let mut s = state();
    let mut raised = 0;
    let mut lowered = 0;
    let mut order: Vec<GuiCmd> = Vec::new();
    for held in [true, true, false, false, true, false, true] {
        let mut keys = no_keys();
        keys.l = held;
        for cmd in poll(&mut s, &keys, 0, None) {
            if let GuiCmd::Action { .. } = cmd {
                order.push(cmd);
            }
            if cmd == (GuiCmd::Action { action_type: ACTION_BLOCK_RAISE }) {
                raised += 1;
            }
            if cmd == (GuiCmd::Action { action_type: ACTION_BLOCK_LOWER }) {
                lowered += 1;
            }
        }
    }
    assert_eq!((raised, lowered), (3, 2));
    for (i, cmd) in order.iter().enumerate() {
        let action_type = if i % 2 == 0 { ACTION_BLOCK_RAISE } else { ACTION_BLOCK_LOWER };
        assert_eq!(*cmd, GuiCmd::Action { action_type });
    }
}

#[test]
fn clamping_again_changes_nothing() {
    for v in [1.0f32, 4.0, 80.0, 4000.0, 1.0e9, f32::NAN] {
        let once = clamp(v.to_bits(), VIEW_RANGE_MIN, VIEW_RANGE_MAX);
        assert_eq!(clamp(once, VIEW_RANGE_MIN, VIEW_RANGE_MAX), once);
    }
}
