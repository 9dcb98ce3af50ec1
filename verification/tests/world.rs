use mmo_viewer::channels::{make_channels, GuiCmd, NetEvent};
use mmo_viewer::config::ViewerConfig;
use mmo_viewer::driver::{publish, publish_bridged, Driver, Outgoing, Phase, Reply};
use mmo_viewer::net::GameEvent;
use mmo_viewer::world::{Drift, Entity, Fraction, Position, World};

fn opened(player_id: u32, persistent_id: u32, origin: f64, shard_id: u32) -> NetEvent {
    NetEvent::SessionOpened {
        player_id,
        persistent_id,
        origin_x: origin.to_bits(),
        origin_z: (-origin).to_bits(),
        shard_id,
    }
}

fn ack(x: f64, hp: u32) -> NetEvent {
    NetEvent::StateAck {
        server_tick: 9,
        x: x.to_bits(),
        y: 1.0f64.to_bits(),
        z: 2.0f64.to_bits(),
        hp,
        stamina: 50.5f64.to_bits(),
    }
}

fn moved(entity_id: u32, x: f32) -> NetEvent {
    NetEvent::EntityMoved {
        entity_id,
        x: x.to_bits(),
        y: 0,
        z: 3.0f32.to_bits(),
        orientation: 0.5f32.to_bits(),
        source_shard_hash: 77,
    }
}

fn acked(x: f64, origin: f64) -> Position {
    Position::Acked {
        x: x.to_bits(),
        y: 1.0f64.to_bits(),
        z: 2.0f64.to_bits(),
        origin_x: origin.to_bits(),
        origin_z: (-origin).to_bits(),
    }
}

#[test]
fn world_boots_empty() {
    let w = World::default();
    assert_eq!(w.status, "booting");
    assert!(!w.connected);
    assert!(!w.session_open);
    assert_eq!(w.entities.len(), 0);
    assert_eq!(w.self_position, Position::Unset);
    assert_eq!(w.self_combat_state(), 0);
}

#[test]
fn session_opens_fails_and_ends() {
    let mut w = World::default();
    w.apply(NetEvent::Status("hello".to_string()), 1);
    assert_eq!(w.status, "hello");
    w.apply(opened(5, 42, 100.0, 7), 2);
    assert_eq!(w.status, "session open — shard 7");
    assert!(w.connected && w.session_open);
    assert_eq!((w.player_id, w.persistent_id, w.shard_id), (5, 42, 7));
    assert_eq!(f64::from_bits(w.origin_x), 100.0);
    assert_eq!(f64::from_bits(w.origin_z), -100.0);
    w.apply(NetEvent::AuthFailed { reason: 13 }, 3);
    assert_eq!(w.status, "auth failed (reason=13)");
    assert!(w.connected);
    assert!(!w.session_open);
    w.apply(NetEvent::Disconnected, 4);
    assert_eq!(w.status, "disconnected");
    assert!(!w.connected && !w.session_open);
}

#[test]
fn own_state_is_kept_in_the_store_and_outside() {
    let mut w = World::default();
    w.apply(opened(5, 42, 100.0, 7), 2);
    w.apply(ack(1.5, 80), 3);
    assert_eq!(w.server_tick, 9);
    assert_eq!(w.self_position, acked(1.5, 100.0));
    assert_eq!(w.self_hp, 80);
    assert_eq!(f64::from_bits(w.self_stamina), 50.5);
    let e: Entity = w.entities[&42];
    assert!(e.is_self && e.has_position);
    assert_eq!(e.position, w.self_position);
    assert_eq!((e.hp, e.max_hp), (80, 80));
    assert_eq!(e.last_seen, 3);
    w.apply(ack(2.5, 60), 4);
    let e: Entity = w.entities[&42];
    assert_eq!((e.hp, e.max_hp), (60, 80));
    assert_eq!(e.position, acked(2.5, 100.0));
}

#[test]
fn state_without_a_session_is_not_stored() {
    let mut w = World::default();
    w.apply(ack(1.5, 80), 3);
    assert_eq!(w.entities.len(), 0);
    assert_eq!(w.self_hp, 80);
    let there = Position::Acked {
        x: 1.5f64.to_bits(),
        y: 1.0f64.to_bits(),
        z: 2.0f64.to_bits(),
        origin_x: 0,
        origin_z: 0,
    };
    assert_eq!(w.self_position, there);
}

#[test]
fn neighbours_move_in_the_frame_of_their_shard() {
    let mut w = World::default();
    w.apply(opened(5, 42, 100.0, 7), 2);
    w.apply(moved(8, 1.0), 3);
    let e: Entity = w.entities[&8];
    let there = Position::Moved {
        x: 1.0f32.to_bits(),
        y: 0,
        z: 3.0f32.to_bits(),
        origin_x: 100.0f64.to_bits(),
        origin_z: (-100.0f64).to_bits(),
    };
    assert_eq!(e.position, there);
    assert_eq!(f32::from_bits(e.orientation), 0.5);
    assert!(e.has_position && !e.is_self);
    // A handoff shifts the origin and leaves the record alone.
    w.apply(opened(6, 42, 900.0, 8), 4);
    assert_eq!(w.entities[&8], e);
    w.apply(moved(8, 1.0), 5);
    assert_ne!(w.entities[&8].position, there);
}

#[test]
fn own_broadcast_moves_nothing() {
    let mut w = World::default();
    w.apply(opened(5, 42, 100.0, 7), 2);
    w.apply(moved(42, 9.0), 3);
    assert_eq!(w.entities.len(), 0);
    w.apply(ack(1.5, 80), 4);
    let before: Entity = w.entities[&42];
    w.apply(moved(42, 9.0), 5);
    let after: Entity = w.entities[&42];
    assert_eq!(after, Entity { last_seen: 5, ..before });
}

#[test]
fn health_state_and_hits() {
    let mut w = World::default();
    w.apply(opened(5, 42, 0.0, 7), 1);
    w.apply(NetEvent::EntityHealth { entity_id: 8, hp: 30, max_hp: 0 }, 2);
    let e: Entity = w.entities[&8];
    assert_eq!((e.hp, e.max_hp), (30, 1));
    assert!(!e.has_position);
    assert_eq!(e.hp_frac(), Fraction { part: 1, whole: 1 });
    w.apply(NetEvent::EntityHealth { entity_id: 8, hp: 30, max_hp: 120 }, 3);
    assert_eq!(w.entities[&8].hp_frac(), Fraction { part: 30, whole: 120 });
    w.apply(NetEvent::EntityStateChanged { entity_id: 8, state_id: 3, param_a: 11 }, 4);
    assert_eq!((w.entities[&8].combat_state, w.entities[&8].combat_param), (3, 11));
    w.apply(NetEvent::HitConfirm { target_id: 8, damage: 5, target_hp: 25 }, 5);
    assert_eq!(w.entities[&8].hp, 25);
    assert_eq!(w.entities[&8].last_seen, 5);
    // A hit on somebody unknown makes no record.
    w.apply(NetEvent::HitConfirm { target_id: 9, damage: 5, target_hp: 25 }, 6);
    assert_eq!(w.entities.len(), 1);
    // The target of a hit is a persistent id, not a session id.
    w.apply(ack(0.0, 100), 7);
    w.apply(NetEvent::HitConfirm { target_id: 5, damage: 5, target_hp: 1 }, 8);
    assert_eq!(w.self_hp, 100);
    w.apply(NetEvent::HitConfirm { target_id: 42, damage: 5, target_hp: 95 }, 9);
    assert_eq!(w.self_hp, 95);
    assert_eq!(w.entities[&42].hp, 95);
    w.apply(NetEvent::EntityStateChanged { entity_id: 42, state_id: 2, param_a: 0 }, 10);
    assert_eq!(w.self_combat_state(), 2);
}

#[test]
fn zero_full_health_has_no_share() {
    let mut w = World::default();
    w.apply(NetEvent::EntityHealth { entity_id: 8, hp: 30, max_hp: 120 }, 1);
    let mut e: Entity = w.entities[&8];
    e.max_hp = 0;
    assert_eq!(e.hp_frac(), Fraction { part: 0, whole: 1 });
    e.max_hp = 20;
    assert_eq!(e.hp_frac(), Fraction { part: 20, whole: 20 });
}

#[test]
fn rejections_and_round_trips() {
    let mut w = World::default();
    w.apply(NetEvent::ActionRejected { reason: 4 }, 1);
    assert_eq!(w.last_rejection, Some(4));
    w.apply(NetEvent::RttSample(31), 2);
    assert_eq!(w.rtt_ms, 31);
}

#[test]
fn another_identity_takes_the_mark_off() {
    let mut w = World::default();
    w.apply(opened(5, 42, 0.0, 7), 1);
    w.apply(ack(0.0, 100), 2);
    assert!(w.entities[&42].is_self);
    w.apply(opened(6, 42, 10.0, 8), 3);
    assert!(w.entities[&42].is_self);
    w.apply(opened(7, 43, 10.0, 8), 4);
    assert!(!w.entities[&42].is_self);
    assert!(w.entities.contains_key(&42));
}

#[test]
fn the_stale_are_pruned_and_the_player_is_not() {
    let mut w = World::default();
    w.apply(opened(5, 42, 0.0, 7), 1);
    w.apply(ack(0.0, 100), 10);
    w.apply(moved(8, 1.0), 10);
    w.apply(moved(9, 1.0), 60);
    w.prune_stale(109, 100);
    assert_eq!(w.entities.len(), 3);
    w.prune_stale(110, 100);
    assert_eq!(w.entities.len(), 2);
    assert!(!w.entities.contains_key(&8));
    w.prune_stale(1_000_000, 100);
    assert_eq!(w.entities.len(), 1);
    assert!(w.entities.contains_key(&42));
    // A clock that lags counts as no time.
    w.apply(moved(8, 1.0), 2_000_000);
    w.prune_stale(1_000_000, 1);
    assert!(w.entities.contains_key(&8));
    w.prune_stale(1_000_000, 0);
    assert!(!w.entities.contains_key(&8));
}

#[test]
fn reckoning_lasts_from_the_handoff_to_the_next_state() {
    let (mut gui, _net) = make_channels();
    let mut w = World::default();
    w.apply(opened(5, 42, 0.0, 7), 1);
    w.apply(ack(0.0, 100), 10);
    let cmds = vec![GuiCmd::Move { move_x: 3, move_z: 4, orientation: 0, buttons: 0 }];
    assert!(!w.submit(&mut gui, 17, &cmds, 11));
    assert_eq!(w.self_orientation, 17);
    assert_eq!(w.predicted_self_pos(500).drift, None);
    w.apply(NetEvent::HandoffStarted, 20);
    let p = w.predicted_self_pos(50);
    assert_eq!(p.position, w.self_position);
    assert_eq!(p.drift, Some(Drift { input_x: 3, input_z: 4, elapsed_ns: 30 }));
    w.apply(opened(6, 42, 10.0, 8), 60);
    w.apply(moved(8, 1.0), 61);
    assert!(w.predicted_self_pos(70).drift.is_some());
    w.apply(ack(1.0, 100), 71);
    assert_eq!(w.predicted_self_pos(80).drift, None);
}

#[test]
fn commands_are_sent_up_to_a_quit() {
    let (mut gui, mut net) = make_channels();
    let mut w = World::default();
    w.apply(opened(5, 42, 0.0, 7), 1);
    let cmds = vec![
        GuiCmd::Move { move_x: 1, move_z: 2, orientation: 3, buttons: 0 },
        GuiCmd::Action { action_type: 2 },
        GuiCmd::Quit,
        GuiCmd::Action { action_type: 4 },
        GuiCmd::Move { move_x: 8, move_z: 9, orientation: 3, buttons: 0 },
    ];
    assert!(w.submit(&mut gui, 3, &cmds, 100));
    assert_eq!(w.self_action_flash, Some((2, 100)));
    assert_eq!((w.last_input_x, w.last_input_z), (8, 9));
    assert_eq!(w.status, "session open — shard 7");
    let mut driver = Driver::new(ViewerConfig::default());
    driver.phase = Phase::Commands;
    driver.take_command(&mut net, 0);
    assert_eq!(driver.phase, Phase::Commands);
    assert_eq!(driver.input.move_x, 1);
    driver.take_command(&mut net, 0);
    assert_eq!(driver.phase, Phase::Acting);
    driver.phase = Phase::Commands;
    driver.take_command(&mut net, 0);
    assert_eq!(driver.phase, Phase::Stopping);
    // What came after the quit was not sent.
    driver.phase = Phase::Commands;
    driver.take_command(&mut net, 0);
    assert_eq!(driver.phase, Phase::Polling);
    drop(gui);
    driver.phase = Phase::Commands;
    driver.take_command(&mut net, 0);
    assert_eq!(driver.phase, Phase::Stopping);
}

#[test]
fn waiting_events_are_taken_in_in_order() {
    let (mut gui, mut net) = make_channels();
    let mut w = World::default();
    w.drain(&mut gui, 1);
    assert_eq!(w.status, "booting");
    let emit = vec![
        Outgoing { event: NetEvent::Status("one".to_string()), required: false },
        Outgoing { event: NetEvent::RttSample(7), required: true },
        Outgoing { event: moved(8, 1.0), required: true },
        Outgoing { event: NetEvent::RttSample(8), required: true },
        Outgoing { event: NetEvent::Status("two".to_string()), required: false },
    ];
    assert!(publish(&mut net.net_events, emit));
    w.drain(&mut gui, 2);
    assert_eq!(w.status, "two");
    assert_eq!(w.rtt_ms, 8);
    assert_eq!(w.entities[&8].last_seen, 2);
    w.drain(&mut gui, 3);
    assert_eq!(w.entities[&8].last_seen, 2);
    drop(net);
    w.drain(&mut gui, 4);
    assert_eq!(w.status, "two");
}

#[test]
fn a_lost_renderer_is_noticed_by_required_messages_only() {
    let (gui, mut net) = make_channels();
    drop(gui);
    let notice = vec![Outgoing { event: NetEvent::RttSample(7), required: false }];
    assert!(publish(&mut net.net_events, notice));
    let news = vec![Outgoing { event: NetEvent::RttSample(7), required: true }];
    assert!(!publish(&mut net.net_events, news));
    assert!(publish_bridged(&mut net.net_events, &vec![GameEvent::Disconnected]));
    let hit = GameEvent::HitConfirm { target_id: 1, damage: 2, target_hp: 3 };
    assert!(!publish_bridged(&mut net.net_events, &vec![hit]));
}

#[test]
fn the_bridge_forwards_neighbours_only() {
    let (mut gui, mut net) = make_channels();
    let mut w = World::default();
    w.apply(opened(5, 42, 0.0, 7), 1);
    w.apply(NetEvent::HandoffStarted, 1);
    let batch = vec![
        GameEvent::StateAck { server_tick: 1, x: 0, y: 0, z: 0, hp: 1, stamina: 0 },
        GameEvent::Disconnected,
        GameEvent::EntityHealth { entity_id: 8, hp: 30, max_hp: 40 },
        GameEvent::SessionOpened,
    ];
    assert!(publish_bridged(&mut net.net_events, &batch));
    w.drain(&mut gui, 2);
    assert_eq!(w.entities[&8].hp, 30);
    assert_eq!(w.self_hp, 0);
    assert!(w.session_open);
    assert_eq!(w.reckoning_since, Some(1));
}

#[test]
fn records_of_others_are_left_alone() {
    let mut w = World::default();
    w.apply(opened(5, 42, 0.0, 7), 1);
    w.apply(moved(8, 1.0), 2);
    w.apply(moved(9, 2.0), 3);
    let nine: Entity = w.entities[&9];
    w.apply(NetEvent::EntityStateChanged { entity_id: 8, state_id: 3, param_a: 11 }, 4);
    w.apply(NetEvent::HitConfirm { target_id: 8, damage: 1, target_hp: 2 }, 5);
    w.apply(ack(0.0, 100), 6);
    w.apply(NetEvent::Disconnected, 7);
    assert_eq!(w.entities[&9], nine);
    assert_eq!(w.entities.len(), 3);
    assert!(w.entities[&8].has_position);
}

#[test]
fn the_own_health_agrees_throughout() {
    let mut w = World::default();
    w.apply(opened(5, 42, 0.0, 7), 1);
    w.apply(ack(0.0, 100), 2);
    w.apply(NetEvent::HitConfirm { target_id: 42, damage: 5, target_hp: 95 }, 3);
    assert_eq!(w.entities[&42].hp, w.self_hp);
    assert_eq!(w.entities[&42].position, w.self_position);
    w.apply(NetEvent::EntityHealth { entity_id: 42, hp: 50, max_hp: 100 }, 4);
    assert_eq!((w.entities[&42].hp, w.self_hp), (50, 50));
    w.apply(NetEvent::EntityHealth { entity_id: 8, hp: 7, max_hp: 100 }, 4);
    assert_eq!(w.self_hp, 50);
    w.apply(ack(0.0, 90), 5);
    assert_eq!(w.entities[&42].hp, w.self_hp);
}

#[test]
fn pruning_again_drops_nothing_more() {
    let mut w = World::default();
    w.apply(moved(8, 1.0), 10);
    w.apply(moved(9, 1.0), 60);
    w.prune_stale(110, 100);
    w.prune_stale(110, 100);
    assert_eq!(w.entities.len(), 1);
    assert!(w.entities.contains_key(&9));
}

#[test]
fn what_the_shard_sent_is_mirrored() {
    let (mut gui, mut net) = make_channels();
    let mut w = World::default();
    w.apply(opened(5, 42, 100.0, 7), 1);
    let mut driver = Driver::new(ViewerConfig::default());
    driver.phase = Phase::Polling;
    let events = vec![
        GameEvent::EntityMoved {
            entity_id: 8,
            x: 1.0f32.to_bits(),
            y: 0,
            z: 3.0f32.to_bits(),
            orientation: 0.5f32.to_bits(),
            source_shard_hash: 77,
        },
        GameEvent::EntityHealth { entity_id: 8, hp: 30, max_hp: 40 },
        GameEvent::EntityStateChanged { entity_id: 8, state_id: 3, param_a: 11 },
        GameEvent::StateAck {
            server_tick: 9,
            x: 1.5f64.to_bits(),
            y: 1.0f64.to_bits(),
            z: 2.0f64.to_bits(),
            hp: 80,
            stamina: 0,
        },
        GameEvent::ActionRejected { reason: 4 },
    ];
    let step = driver.step(Reply::Events { events, rtt_us: 31_000 }, 2);
    assert_eq!(step.emit.len(), 6);
    assert!(publish(&mut net.net_events, step.emit));
    w.drain(&mut gui, 3);
    let e: Entity = w.entities[&8];
    assert_eq!(f32::from_bits(e.orientation), 0.5);
    assert_eq!((e.hp, e.max_hp, e.combat_state, e.combat_param), (30, 40, 3, 11));
    assert_eq!(w.self_position, acked(1.5, 100.0));
    assert_eq!((w.server_tick, w.self_hp, w.rtt_ms), (9, 80, 31));
    assert_eq!(w.last_rejection, Some(4));
}

#[test]
fn a_refused_message_stops_the_rest() {
    let (gui, mut net) = make_channels();
    drop(gui);
    let emit = vec![
        Outgoing { event: NetEvent::RttSample(1), required: false },
        Outgoing { event: NetEvent::RttSample(2), required: true },
        Outgoing { event: NetEvent::RttSample(3), required: false },
    ];
    assert!(!publish(&mut net.net_events, emit));
    assert!(publish(&mut net.net_events, vec![]));
}

#[test]
fn accepted_messages_keep_the_renderer_alive() {
    let (mut gui, mut net) = make_channels();
    let mut w = World::default();
    for round in 0..50u32 {
        let emit = vec![
            Outgoing { event: moved(round, 1.0), required: true },
            Outgoing { event: NetEvent::RttSample(round), required: true },
        ];
        assert!(publish(&mut net.net_events, emit));
        let hit = GameEvent::EntityHealth { entity_id: round, hp: round, max_hp: 100 };
        let step = GameEvent::EntityStateChanged { entity_id: round, state_id: 1, param_a: 2 };
        assert!(publish_bridged(&mut net.net_events, &vec![hit, step]));
    }
    w.drain(&mut gui, 9);
    assert_eq!(w.entities.len(), 50);
    assert_eq!(w.rtt_ms, 49);
    for round in 0..50u32 {
        assert_eq!(w.entities[&round].hp, round);
        assert_eq!(w.entities[&round].combat_state, 1);
    }
}

#[test]
fn the_two_directions_do_not_mix() {
    let (mut gui, mut net) = make_channels();
    let mut w = World::default();
    let cmds: Vec<GuiCmd> = (1..5u8).map(|action_type| GuiCmd::Action { action_type }).collect();
    assert!(!w.submit(&mut gui, 0, &cmds, 1));
    assert!(publish(
        &mut net.net_events,
        vec![Outgoing { event: NetEvent::RttSample(5), required: true }]
    ));
    let mut driver = Driver::new(ViewerConfig::default());
    for action_type in 1..5u8 {
        driver.phase = Phase::Commands;
        let step = driver.take_command(&mut net, 0);
        assert_eq!(
            format!("{:?}", step.next),
            format!("SendAction {{ action_type: {} }}", action_type)
        );
    }
    w.drain(&mut gui, 2);
    assert_eq!(w.rtt_ms, 5);
}

#[test]
fn health_of_entity_zero_is_not_the_own_before_a_session() {
    let mut w = World::default();
    w.apply(NetEvent::EntityHealth { entity_id: 0, hp: 30, max_hp: 40 }, 1);
    assert_eq!(w.self_hp, 0);
    assert_eq!(w.entities[&0].hp, 30);
}

#[test]
fn news_may_come_in_any_order() {
    let news = |kind: u32| match kind {
        0 => moved(8, 1.0),
        1 => NetEvent::EntityHealth { entity_id: 8, hp: 30, max_hp: 40 },
        _ => NetEvent::EntityStateChanged { entity_id: 8, state_id: 3, param_a: 11 },
    };
    let mut seen: Vec<Entity> = Vec::new();
    for order in [[0, 1, 2], [0, 2, 1], [1, 0, 2], [1, 2, 0], [2, 0, 1], [2, 1, 0]] {
        let mut w = World::default();
        w.apply(opened(5, 42, 100.0, 7), 1);
        for kind in order {
            w.apply(news(kind), 2);
        }
        seen.push(w.entities[&8]);
    }
    for e in &seen {
        assert_eq!(*e, seen[0]);
    }
    assert!(seen[0].has_position);
}

#[test]
fn nothing_is_lost_when_the_sender_leaves() {
    let (mut gui, mut net) = make_channels();
    let mut w = World::default();
    let emit = (1..21u32)
        .map(|i| Outgoing { event: moved(i, 1.0), required: true })
        .collect();
    assert!(publish(&mut net.net_events, emit));
    drop(net);
    w.drain(&mut gui, 2);
    assert_eq!(w.entities.len(), 20);
}

#[test]
fn a_refusal_is_final() {
    let (gui, mut net) = make_channels();
    drop(gui);
    for _ in 0..3 {
        let news = vec![Outgoing { event: NetEvent::RttSample(7), required: true }];
        assert!(!publish(&mut net.net_events, news));
    }
}
