use mmo_viewer::channels::NetEvent;
use mmo_viewer::config::ViewerConfig;
use mmo_viewer::render::{
    action_flash_ms, combat_state_colour, draw, draw_grid, draw_hud, flash_ring, key_hints, layers,
    ring_colour, GridLine, HudNumbers, Rgb, Ring, Shape,
};
use mmo_viewer::text::{decimal_text, push_numeral, right_align, signed_decimal_text};
use mmo_viewer::world::{Fraction, World};

fn moved(entity_id: u32) -> NetEvent {
    NetEvent::EntityMoved { entity_id, x: 1, y: 2, z: 3, orientation: 4, source_shard_hash: 0 }
}

fn opened() -> NetEvent {
    NetEvent::SessionOpened { player_id: 8, persistent_id: 42, origin_x: 0, origin_z: 0, shard_id: 7 }
}

fn ack() -> NetEvent {
    NetEvent::StateAck { server_tick: 1234, x: 0, y: 0, z: 0, hp: 77, stamina: 0 }
}

fn numbers() -> HudNumbers {
    HudNumbers {
        self_x: "1.5".to_string(),
        self_y: "0.0".to_string(),
        self_z: "-2.0".to_string(),
        origin_x: "100.0".to_string(),
        origin_z: "200.0".to_string(),
        stamina: "50.0".to_string(),
        view_range: "80".to_string(),
    }
}

#[test]
fn combat_states_have_their_colours() {
    assert_eq!(combat_state_colour(0), Rgb { r: 88, g: 90, b: 100 });
    assert_eq!(combat_state_colour(1), Rgb { r: 100, g: 45, b: 25 });
    assert_eq!(combat_state_colour(2), Rgb { r: 80, g: 45, b: 95 });
    assert_eq!(combat_state_colour(3), Rgb { r: 30, g: 65, b: 100 });
    assert_eq!(combat_state_colour(4), Rgb { r: 100, g: 80, b: 20 });
    assert_eq!(combat_state_colour(5), Rgb { r: 40, g: 90, b: 100 });
    assert_eq!(combat_state_colour(6), combat_state_colour(0));
    assert_eq!(combat_state_colour(65535), combat_state_colour(0));
}

#[test]
fn flashes_have_their_times_and_colours() {
    let times: Vec<u32> = vec![1u8, 2, 3, 4, 0x10, 0x11, 0, 99].into_iter().map(action_flash_ms).collect();
    assert_eq!(times, vec![200, 350, 300, 250, 120, 120, 180, 180]);
    assert_eq!(ring_colour(1), Rgb { r: 100, g: 45, b: 25 });
    assert_eq!(ring_colour(2), Rgb { r: 100, g: 15, b: 15 });
    assert_eq!(ring_colour(3), Rgb { r: 70, g: 100, b: 40 });
    assert_eq!(ring_colour(4), Rgb { r: 50, g: 85, b: 100 });
    assert_eq!(ring_colour(0x10), Rgb { r: 30, g: 65, b: 100 });
    assert_eq!(ring_colour(0x11), Rgb { r: 30, g: 45, b: 80 });
    assert_eq!(ring_colour(77), Rgb { r: 100, g: 100, b: 100 });
}

#[test]
fn ring_lasts_as_long_as_its_flash() {
    assert_eq!(flash_ring(None, 5), None);
    let ring = Ring { colour: ring_colour(1), elapsed_ns: 199_999_999, duration_ms: 200 };
    assert_eq!(flash_ring(Some((1, 1_000)), 1_000 + 199_999_999), Some(ring));
    assert_eq!(flash_ring(Some((1, 1_000)), 1_000 + 200_000_000), None);
}

#[test]
fn every_placed_entity_is_drawn_and_the_player_on_top() {
    let mut w = World::default();
    w.apply(opened(), 1);
    w.apply(moved(8), 2);
    w.apply(moved(9), 2);
    w.apply(NetEvent::EntityHealth { entity_id: 9, hp: 5, max_hp: 10 }, 2);
    w.apply(NetEvent::EntityStateChanged { entity_id: 9, state_id: 1, param_a: 0 }, 2);
    w.apply(NetEvent::EntityHealth { entity_id: 10, hp: 5, max_hp: 10 }, 2);
    let scene = draw(&w, 3);
    assert!(scene.player.is_none());
    w.apply(ack(), 3);
    w.apply(NetEvent::EntityStateChanged { entity_id: 42, state_id: 3, param_a: 0 }, 3);
    w.self_action_flash = Some((2, 4));
    w.self_orientation = 6;
    let scene = draw(&w, 5);
    let mut ids: Vec<u32> = scene.neighbours.iter().map(|n| n.id).collect();
    ids.sort();
    // The entity 8 shares its id with the session and is drawn all the same.
    assert_eq!(ids, vec![8, 9]);
    let nine = scene.neighbours.iter().find(|n| n.id == 9).unwrap();
    assert_eq!(nine.health, Fraction { part: 5, whole: 10 });
    assert_eq!(nine.outline, Rgb { r: 100, g: 90, b: 20 });
    let eight = scene.neighbours.iter().find(|n| n.id == 8).unwrap();
    assert_eq!(eight.outline, Rgb { r: 0, g: 0, b: 0 });
    assert_eq!(eight.orientation, 4);
    let shapes = layers(&scene);
    assert_eq!(shapes.len(), 3);
    assert!(matches!(shapes[0], Shape::Neighbour(n) if n == scene.neighbours[0]));
    assert!(matches!(shapes[1], Shape::Neighbour(n) if n == scene.neighbours[1]));
    let player = scene.player.unwrap();
    assert_eq!(shapes[2], Shape::Player(player));
    assert_eq!(player.at.position, w.self_position);
    assert_eq!(player.orientation, 6);
    assert_eq!(player.body, combat_state_colour(3));
    assert_eq!(player.ring.unwrap().elapsed_ns, 1);
    w.apply(NetEvent::Disconnected, 6);
    assert!(draw(&w, 7).player.is_none());
    assert_eq!(draw(&w, 7).neighbours.len(), 2);
    assert_eq!(layers(&draw(&w, 7)).len(), 2);
}

#[test]
fn grid_covers_the_window_and_marks_the_axes() {
    let lines = draw_grid(-1, 1, 9, 10);
    assert_eq!(lines.len(), 5);
    assert_eq!(lines[0], GridLine { x_from: -10, z_from: 90, x_to: -10, z_to: 100, axis: false });
    assert_eq!(lines[1], GridLine { x_from: 0, z_from: 90, x_to: 0, z_to: 100, axis: true });
    assert_eq!(lines[2], GridLine { x_from: 10, z_from: 90, x_to: 10, z_to: 100, axis: false });
    assert_eq!(lines[3], GridLine { x_from: -10, z_from: 90, x_to: 10, z_to: 90, axis: false });
    assert_eq!(lines[4], GridLine { x_from: -10, z_from: 100, x_to: 10, z_to: 100, axis: true });
    assert_eq!(draw_grid(-10, -10, 1, 0), vec![GridLine { x_from: -100, z_from: 10, x_to: -100, z_to: 0, axis: true }]);
}

#[test]
fn hud_before_a_session() {
    let w = World::default();
    let lines = draw_hud(&w, 60, &numbers());
    let texts: Vec<String> = lines.iter().map(|l| l.text.clone()).collect();
    assert_eq!(texts, vec!["status: booting", "not in session", "fps  60   view_range 80"]);
    let ys: Vec<u32> = lines.iter().map(|l| l.y).collect();
    assert_eq!(ys, vec![24, 42, 60]);
}

#[test]
fn hud_in_a_session() {
    let mut w = World::default();
    w.apply(opened(), 1);
    w.apply(ack(), 2);
    w.apply(moved(9), 2);
    w.apply(NetEvent::RttSample(31), 2);
    w.apply(NetEvent::ActionRejected { reason: 4 }, 2);
    let lines = draw_hud(&w, 1440, &numbers());
    let texts: Vec<String> = lines.iter().map(|l| l.text.clone()).collect();
    assert_eq!(
        texts,
        vec![
            "status: session open — shard 7",
            "shard 7  player 8  tick 1234  rtt 31 ms",
            "pos (1.5, 0.0, -2.0)   origin (100.0, 200.0)",
            "hp 77   stamina 50.0   entities 2",
            "fps 1440   view_range 80",
            "last action rejected: reason=4",
        ]
    );
    assert_eq!(lines[5].y, 114);
}

#[test]
fn hints_stand_above_the_bottom() {
    let lines = key_hints();
    assert_eq!(lines.len(), 3);
    assert_eq!(lines[0].text, "W/A/S/D move   Q/E yaw");
    assert_eq!(lines[2].text, "L block (hold)   Esc quit");
    let ys: Vec<u32> = lines.iter().map(|l| l.y).collect();
    assert_eq!(ys, vec![60, 42, 24]);
}

#[test]
fn numerals_match_the_standard_formatting() {
    for n in [0u64, 7, 9, 10, 99, 100, 255, 4_294_967_295, u64::MAX] {
        assert_eq!(decimal_text(n), format!("{}", n));
        let mut hex = String::new();
        push_numeral(&mut hex, n, 16);
        assert_eq!(hex, format!("{:X}", n));
    }
    for n in [0i32, -1, 42, i32::MIN, i32::MAX] {
        assert_eq!(signed_decimal_text(n), format!("{}", n));
        assert_eq!(right_align(&signed_decimal_text(n), 3), format!("{:>3}", n));
    }
    assert_eq!(right_align("⟳", 3), "  ⟳");
}

#[test]
fn default_settings() {
    let cfg = ViewerConfig::default();
    assert_eq!(cfg.client.auth_service_url, "http://127.0.0.1:50051");
    assert_eq!(cfg.client.gateway_url, "http://127.0.0.1:8090");
    assert_eq!(cfg.client.input_hz, 30);
    assert_eq!(cfg.client.session_auth_retries, 3);
    assert_eq!(cfg.client.session_auth_timeout_ms, 5000);
    assert_eq!(cfg.client.input_redundancy, 3);
    assert_eq!(f32::from_bits(cfg.view_range), 80.0);
    assert_eq!(f32::from_bits(cfg.stale_entity_secs), 5.0);
    assert_eq!(f32::from_bits(cfg.start_x), 0.0);
    assert_eq!((cfg.username.as_str(), cfg.password.as_str()), ("viewer", "viewer"));
    assert_eq!(cfg.world_coord_url, "");
}
