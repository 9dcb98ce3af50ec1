use mmo_viewer::channels::{GuiCmd, NetEvent, Received};
use mmo_viewer::config::ViewerConfig;
use mmo_viewer::driver::{
    bridge_next, input_interval, runtime_failed_event, session_opened_event, Action, BridgeAction,
    Driver, MoveInput, Phase, Reply, SessionInfo, Step,
};
use mmo_viewer::net::{bridge_batch, find_handoff, map_event, GameEvent, Spot};

fn session(persistent_id: u32, origin: u64) -> SessionInfo {
    SessionInfo { player_id: 5, persistent_id, origin_x: origin, origin_z: origin + 1, shard_id: 7 }
}

fn ack(x: u64) -> GameEvent {
    GameEvent::StateAck { server_tick: 1, x, y: 0, z: x + 1, hp: 1, stamina: 0 }
}

fn handoff(ip: &str, port: u16, shard: u32) -> GameEvent {
    GameEvent::ShardHandoffReceived {
        new_ip: ip.to_string(),
        new_port: port,
        new_shard_id: shard,
        handoff_token: 99,
    }
}

fn moved() -> GameEvent {
    GameEvent::EntityMoved { entity_id: 8, x: 1, y: 2, z: 3, orientation: 4, source_shard_hash: 5 }
}

fn failed(why: &str) -> Reply {
    Reply::Failed(why.to_string())
}

fn denied(cause: &str) -> Reply {
    Reply::Denied { cause: cause.to_string(), text: format!("auth: {}", cause) }
}

fn batch(events: Vec<GameEvent>) -> Reply {
    Reply::Events { events, rtt_us: 0 }
}

/// The texts of the status lines, and the names of the other messages.
fn told(s: &Step) -> Vec<String> {
    s.emit
        .iter()
        .map(|out| match &out.event {
            NetEvent::Status(text) => text.clone(),
            other => format!("{:?}", other),
        })
        .collect()
}

fn next(s: &Step) -> String {
    format!("{:?}", s.next)
}

fn started() -> Driver {
    let mut d = Driver::new(ViewerConfig::default());
    d.start();
    d
}

/// A driver in the hot loop that has just read all commands.
fn polling() -> Driver {
    let mut d = started();
    d.step(Reply::Done, 0);
    d.step(Reply::Done, 0);
    d.step(Reply::Token("jwt".to_string()), 0);
    d.step(failed("none"), 0);
    d.step(Reply::Done, 0);
    d.step(Reply::Assigned { ip: "10.0.0.1".to_string(), port: 9000 }, 0);
    d.step(Reply::Done, 0);
    d.step(Reply::Opened(session(42, 100)), 1_000);
    d.step(Reply::Command(Received::Empty), 1_000);
    assert_eq!(d.phase, Phase::Polling);
    d
}

#[test]
fn setup_takes_its_steps_in_order() {
    let mut d = Driver::new(ViewerConfig::default());
    assert_eq!(d.phase, Phase::Fresh);
    let s = d.start();
    assert_eq!(told(&s), vec!["connecting to auth-service…"]);
    assert_eq!(next(&s), "ConnectAuth { url: \"http://127.0.0.1:50051\" }");
    let s = d.step(Reply::Done, 0);
    assert_eq!(next(&s), "Register { username: \"viewer\", password: \"viewer\" }");
    let s = d.step(failed("exists"), 0);
    assert_eq!(told(&s), vec!["logging in…"]);
    assert_eq!(next(&s), "Login { username: \"viewer\", password: \"viewer\" }");
    let s = d.step(Reply::Token("secret".to_string()), 0);
    assert_eq!(next(&s), "LoadState { jwt: \"secret\" }");
    let s = d.step(Reply::Saved { found: true, x: 11, z: 12 }, 0);
    assert_eq!(told(&s), vec!["asking gateway for shard assignment…"]);
    assert_eq!(next(&s), "ConnectGateway { url: \"http://127.0.0.1:8090\" }");
    let s = d.step(Reply::Done, 0);
    assert_eq!(next(&s), "AskGateway { jwt: \"secret\", spot: Wide { x: 11, z: 12 } }");
    let s = d.step(Reply::Assigned { ip: "10.0.0.1".to_string(), port: 9000 }, 0);
    assert_eq!(told(&s), vec!["connecting to shard 10.0.0.1:9000…"]);
    assert_eq!(next(&s), "ConnectShard { ip: \"10.0.0.1\", port: 9000, jwt: \"secret\" }");
    let s = d.step(Reply::Done, 0);
    assert_eq!(next(&s), "AwaitOpen");
    let s = d.step(Reply::Opened(session(42, 100)), 77);
    assert_eq!(
        told(&s),
        vec![format!("{:?}", session_opened_event(session(42, 100)))]
    );
    assert_eq!(next(&s), "ReadCommand");
    assert_eq!(d.persistent_id, 42);
    assert_eq!(d.last_pos, Spot::Wide { x: 100, z: 101 });
    assert_eq!((d.last_input_tx, d.last_ping_tx, d.last_state_ack), (77, 77, 77));
}

#[test]
fn stored_position_is_optional() {
    for reply in vec![failed("down"), Reply::Saved { found: false, x: 11, z: 12 }] {
        let mut cfg = ViewerConfig::default();
        cfg.start_x = 1.5f32.to_bits();
        cfg.start_z = 2.5f32.to_bits();
        let mut d = Driver::new(cfg);
        d.start();
        d.step(Reply::Done, 0);
        d.step(Reply::Done, 0);
        d.step(Reply::Token("t".to_string()), 0);
        d.step(reply, 0);
        assert_eq!(
            d.last_pos,
            Spot::Narrow { x: 1.5f32.to_bits(), z: 2.5f32.to_bits() }
        );
    }
}

#[test]
fn failed_setup_says_why_and_leaves() {
    let why = |d: &mut Driver| {
        let s = d.step(failed("boom"), 0);
        assert_eq!(next(&s), "Exit");
        assert_eq!(d.phase, Phase::Done);
        told(&s)
    };
    let mut d = started();
    assert_eq!(why(&mut d), vec!["auth-service unreachable: boom"]);
    let mut d = started();
    d.step(Reply::Done, 0);
    d.step(Reply::Done, 0);
    assert_eq!(why(&mut d), vec!["login failed: boom"]);
    let mut d = started();
    d.phase = Phase::ConnectingGateway;
    assert_eq!(why(&mut d), vec!["gateway unreachable: boom"]);
    d.phase = Phase::Assigning;
    assert_eq!(why(&mut d), vec!["gateway rejection: boom"]);
    d.phase = Phase::ConnectingShard;
    assert_eq!(why(&mut d), vec!["shard connect failed: boom"]);
    d.phase = Phase::Opening;
    let s = d.step(denied("boom"), 0);
    assert_eq!(told(&s), vec!["session auth failed: auth: boom"]);
    assert_eq!(next(&s), "Exit");
    d.phase = Phase::Opening;
    let s = d.step(Reply::Draining("draining".to_string()), 0);
    assert_eq!(told(&s), vec!["session auth failed: draining"]);
}

#[test]
fn replies_that_answer_nothing_are_ignored() {
    let mut d = started();
    let s = d.step(Reply::Token("t".to_string()), 0);
    assert_eq!(next(&s), "Keep");
    assert_eq!(s.emit.len(), 0);
    assert_eq!(d.phase, Phase::ConnectingAuth);
    d.phase = Phase::Done;
    let s = d.step(Reply::Done, 0);
    assert_eq!(next(&s), "Keep");
}

#[test]
fn commands_are_read_until_none_waits() {
    let mut d = polling();
    d.phase = Phase::Commands;
    let cmd = GuiCmd::Move { move_x: 1, move_z: 2, orientation: 3, buttons: 4 };
    let s = d.step(Reply::Command(Received::Got(cmd)), 0);
    assert_eq!(next(&s), "ReadCommand");
    assert_eq!(d.input, MoveInput { move_x: 1, move_z: 2, orientation: 3, buttons: 4 });
    let s = d.step(Reply::Command(Received::Got(GuiCmd::Action { action_type: 16 })), 0);
    assert_eq!(next(&s), "SendAction { action_type: 16 }");
    let s = d.step(Reply::Done, 0);
    assert_eq!(next(&s), "ReadCommand");
    let s = d.step(Reply::Command(Received::Empty), 0);
    assert_eq!(next(&s), "PollEvents");
}

#[test]
fn quit_stops_the_client_and_leaves() {
    for got in vec![Received::Got(GuiCmd::Quit), Received::Closed] {
        let mut d = polling();
        d.phase = Phase::Commands;
        let s = d.step(Reply::Command(got), 0);
        assert_eq!(next(&s), "StopClient");
        let s = d.step(Reply::Done, 0);
        assert_eq!(next(&s), "Exit");
        assert_eq!(told(&s), vec!["net loop exited"]);
    }
}

#[test]
fn batch_is_forwarded_with_a_changed_round_trip_in_front() {
    let mut d = polling();
    let events = vec![GameEvent::SessionOpened, moved(), ack(7)];
    let s = d.step(Reply::Events { events, rtt_us: 12_345 }, 2_000);
    assert_eq!(s.emit.len(), 3);
    assert_eq!(told(&s)[0], "RttSample(12)");
    assert!(!s.emit[0].required);
    assert!(s.emit[1].required && s.emit[2].required);
    assert!(told(&s)[1].starts_with("EntityMoved"));
    assert!(told(&s)[2].starts_with("StateAck"));
    assert_eq!(d.last_rtt_us, 12_345);
    assert_eq!(d.last_pos, Spot::Wide { x: 7, z: 8 });
    assert_eq!(d.last_state_ack, 2_000);
    // The same time again is not sent again.
    d.phase = Phase::Polling;
    let s = d.step(Reply::Events { events: vec![moved()], rtt_us: 12_345 }, 2_000);
    assert_eq!(s.emit.len(), 1);
    // Nor is it sent without an event that is forwarded.
    d.phase = Phase::Polling;
    let s = d.step(Reply::Events { events: vec![], rtt_us: 99_999 }, 2_000);
    assert_eq!(s.emit.len(), 0);
    assert_eq!(d.last_rtt_us, 12_345);
}

#[test]
fn input_and_ping_keep_their_pace() {
    assert_eq!(input_interval(30), 33_333_000);
    assert_eq!(input_interval(0), 1_000_000_000);
    assert_eq!(input_interval(2_000_000), 0);
    let mut d = polling();
    let s = d.step(batch(vec![]), 1_000 + 33_332_999);
    assert_eq!(next(&s), "Tick { send_move: None, ping: false, sleep_ms: 5 }");
    let s = d.step(Reply::Done, 0);
    assert_eq!(next(&s), "ReadCommand");
    d.phase = Phase::Polling;
    let s = d.step(batch(vec![]), 1_000 + 33_333_000);
    assert_eq!(
        next(&s),
        "Tick { send_move: Some(MoveInput { move_x: 0, move_z: 0, orientation: 0, buttons: 0 }), ping: false, sleep_ms: 5 }"
    );
    assert_eq!(d.last_input_tx, 1_000 + 33_333_000);
    d.phase = Phase::Polling;
    let s = d.step(batch(vec![]), 1_000 + 500_000_000);
    assert!(matches!(s.next, Action::Tick { ping: true, .. }));
    assert_eq!(d.last_ping_tx, 1_000 + 500_000_000);
}

#[test]
fn handoff_is_followed_even_if_the_session_ends_in_the_same_batch() {
    let mut d = polling();
    let events = vec![GameEvent::Disconnected, handoff("10.0.0.2", 9001, 0xAB), handoff("x", 1, 2)];
    let s = d.step(batch(events), 2_000);
    assert_eq!(
        told(&s),
        vec!["⟳ Handoff → shard 0xAB at 10.0.0.2:9001", "HandoffStarted"]
    );
    assert_eq!(
        next(&s),
        "BeginHandoff { target: Handoff { ip: \"10.0.0.2\", port: 9001, shard_id: 171, token: 99 }, persistent_id: 42, jwt: \"jwt\" }"
    );
    assert!(d.bridging);
    let s = d.step(Reply::Done, 2_000);
    assert_eq!(next(&s), "AwaitOpen");
    let s = d.step(Reply::Opened(session(42, 500)), 3_000);
    assert_eq!(next(&s), "StopBridge");
    assert_eq!(s.emit.len(), 0);
    let s = d.step(Reply::Done, 4_000);
    assert_eq!(told(&s), vec![format!("{:?}", session_opened_event(session(42, 500)))]);
    assert!(matches!(s.next, Action::Tick { .. }));
    assert!(!d.bridging);
    assert_eq!(d.last_pos, Spot::Wide { x: 500, z: 501 });
    assert_eq!(d.last_state_ack, 4_000);
}

#[test]
fn failed_handoff_closes_the_bridge_and_leaves() {
    let mut d = polling();
    d.step(batch(vec![handoff("h", 1, 2)]), 0);
    let s = d.step(failed("refused"), 0);
    assert_eq!(told(&s), vec!["✗ Handoff connect failed: refused", "Disconnected"]);
    assert_eq!(next(&s), "StopBridge");
    let s = d.step(Reply::Done, 0);
    assert_eq!(told(&s), vec!["net loop exited"]);
    assert_eq!(next(&s), "Exit");
    let mut d = polling();
    d.step(batch(vec![handoff("h", 1, 2)]), 0);
    d.step(Reply::Done, 0);
    let s = d.step(denied("wrong token"), 0);
    assert_eq!(told(&s), vec!["✗ Handoff auth failed: wrong token", "Disconnected"]);
}

#[test]
fn draining_target_is_rerouted_with_the_bridge_open() {
    let mut d = polling();
    d.step(batch(vec![ack(7), handoff("h", 1, 2)]), 0);
    d.step(Reply::Done, 0);
    let s = d.step(Reply::Draining("draining".to_string()), 0);
    assert_eq!(told(&s), vec!["⟳ Target draining — re-asking gateway…"]);
    assert_eq!(next(&s), "AskGateway { jwt: \"jwt\", spot: Wide { x: 7, z: 8 } }");
    assert!(d.bridging);
    let s = d.step(Reply::Assigned { ip: "g".to_string(), port: 3 }, 0);
    assert_eq!(next(&s), "Reconnect { ip: \"g\", port: 3, jwt: \"jwt\" }");
    let s = d.step(Reply::Done, 0);
    assert_eq!(next(&s), "AwaitOpen");
    let s = d.step(Reply::Opened(session(42, 500)), 9);
    assert_eq!(told(&s), vec![format!("{:?}", session_opened_event(session(42, 500)))]);
    assert_eq!(next(&s), "StopBridge");
    let s = d.step(Reply::Done, 10);
    assert_eq!(s.emit.len(), 0);
    assert!(matches!(s.next, Action::Tick { .. }));
    assert_eq!(d.last_state_ack, 10);
}

#[test]
fn lost_session_waits_ten_polls_then_reroutes() {
    for lost in vec![GameEvent::Disconnected, GameEvent::SessionAuthFailed { reason: 1 }] {
        let mut d = polling();
        let s = d.step(batch(vec![lost]), 0);
        assert_eq!(next(&s), "Sleep { ms: 25 }");
        for i in 0..10 {
            let s = d.step(Reply::Done, 0);
            assert_eq!(next(&s), "PollEvents");
            let s = d.step(batch(vec![moved()]), 0);
            if i < 9 {
                assert_eq!(next(&s), "Sleep { ms: 25 }");
                assert_eq!(s.emit.len(), 0);
            } else {
                assert_eq!(
                    told(&s),
                    vec![
                        "⟳ Disconnect — recovering via gateway",
                        "⟳ Target draining — re-asking gateway…"
                    ]
                );
                assert_eq!(next(&s), "AskGateway { jwt: \"jwt\", spot: Wide { x: 100, z: 101 } }");
            }
        }
        let s = d.step(Reply::Assigned { ip: "g".to_string(), port: 3 }, 0);
        assert_eq!(next(&s), "Reconnect { ip: \"g\", port: 3, jwt: \"jwt\" }");
        d.step(Reply::Done, 0);
        let s = d.step(Reply::Opened(session(42, 500)), 9);
        assert_eq!(s.emit.len(), 1);
        assert!(matches!(s.next, Action::Tick { .. }));
    }
}

#[test]
fn auth_failure_is_shown_and_recovered_from() {
    let mut d = polling();
    let s = d.step(batch(vec![GameEvent::SessionAuthFailed { reason: 1 }]), 0);
    assert_eq!(told(&s), vec!["AuthFailed { reason: 1 }"]);
    assert_eq!(d.phase, Phase::Grace { left: 10, asleep: true });
}

#[test]
fn late_handoff_is_followed() {
    let mut d = polling();
    d.step(batch(vec![GameEvent::Disconnected]), 0);
    d.step(Reply::Done, 0);
    d.step(batch(vec![]), 0);
    d.step(Reply::Done, 0);
    let s = d.step(batch(vec![moved(), handoff("10.0.0.2", 9001, 0x1F)]), 0);
    assert_eq!(
        told(&s),
        vec![
            "⟳ Handoff (late) → shard 0x1F at 10.0.0.2:9001",
            "⟳ Handoff → shard 0x1F at 10.0.0.2:9001",
            "HandoffStarted"
        ]
    );
    assert!(matches!(s.next, Action::BeginHandoff { .. }));
}

#[test]
fn silence_is_rerouted_after_three_seconds() {
    let mut d = polling();
    let s = d.step(batch(vec![]), 1_000 + 3_000_000_000);
    assert!(matches!(s.next, Action::Tick { .. }));
    let mut d = polling();
    let s = d.step(batch(vec![]), 1_001 + 3_000_000_000);
    assert_eq!(
        told(&s),
        vec![
            "⟳ StateAck stale — recovering via gateway",
            "⟳ Target draining — re-asking gateway…"
        ]
    );
    assert!(matches!(s.next, Action::AskGateway { .. }));
    let mut d = polling();
    let s = d.step(batch(vec![ack(1)]), 9_000_000_000);
    assert!(matches!(s.next, Action::Tick { .. }));
}

#[test]
fn failed_reroute_says_why_and_leaves() {
    let mut d = polling();
    d.step(batch(vec![]), 9_000_000_000);
    let s = d.step(failed("full"), 0);
    assert_eq!(
        told(&s),
        vec!["✗ Gateway re-route failed: full", "Disconnected", "net loop exited"]
    );
    assert_eq!(next(&s), "Exit");
    let mut d = polling();
    d.phase = Phase::RerouteConnecting;
    let s = d.step(failed("refused"), 0);
    assert_eq!(told(&s)[0], "✗ Reconnect failed: refused");
    d.phase = Phase::RerouteOpening;
    let s = d.step(Reply::Draining("draining".to_string()), 0);
    assert_eq!(told(&s)[0], "✗ Session auth after gateway retry failed: draining");
    d.phase = Phase::RerouteOpening;
    let s = d.step(denied("late"), 0);
    assert_eq!(told(&s)[0], "✗ Session auth after gateway retry failed: auth: late");
}

#[test]
fn lost_renderer_stops_the_client() {
    let mut d = polling();
    let s = d.step(batch(vec![moved(), handoff("h", 1, 2)]), 0);
    assert!(s.emit[0].required);
    let s = d.renderer_gone();
    assert_eq!(next(&s), "StopClient");
    assert!(!d.bridging);
    let s = d.step(Reply::Done, 0);
    assert_eq!(next(&s), "Exit");
}

#[test]
fn events_are_translated_field_by_field() {
    let shown = |ev: GameEvent| format!("{:?}", map_event(&ev));
    assert_eq!(shown(GameEvent::SessionOpened), "None");
    assert_eq!(shown(handoff("h", 1, 2)), "None");
    assert_eq!(shown(GameEvent::Disconnected), "Some(Disconnected)");
    assert_eq!(
        shown(GameEvent::SessionAuthFailed { reason: 3 }),
        "Some(AuthFailed { reason: 3 })"
    );
    assert_eq!(
        shown(GameEvent::StateAck { server_tick: 1, x: 2, y: 3, z: 4, hp: 5, stamina: 6 }),
        "Some(StateAck { server_tick: 1, x: 2, y: 3, z: 4, hp: 5, stamina: 6 })"
    );
    assert_eq!(
        shown(moved()),
        "Some(EntityMoved { entity_id: 8, x: 1, y: 2, z: 3, orientation: 4, source_shard_hash: 5 })"
    );
    assert_eq!(
        shown(GameEvent::HitConfirm { target_id: 1, damage: 2, target_hp: 3 }),
        "Some(HitConfirm { target_id: 1, damage: 2, target_hp: 3 })"
    );
    assert_eq!(
        shown(GameEvent::EntityHealth { entity_id: 1, hp: 2, max_hp: 3 }),
        "Some(EntityHealth { entity_id: 1, hp: 2, max_hp: 3 })"
    );
    assert_eq!(
        shown(GameEvent::EntityStateChanged { entity_id: 1, state_id: 2, param_a: 3 }),
        "Some(EntityStateChanged { entity_id: 1, state_id: 2, param_a: 3 })"
    );
    assert_eq!(
        shown(GameEvent::ActionRejected { reason: 9 }),
        "Some(ActionRejected { reason: 9 })"
    );
}

#[test]
fn bridge_drops_the_own_state_and_the_lifecycle() {
    let out = bridge_batch(&vec![ack(1), moved(), GameEvent::Disconnected, handoff("h", 1, 2)]);
    assert_eq!(out.len(), 1);
    assert!(matches!(out[0], NetEvent::EntityMoved { .. }));
    assert!(find_handoff(&vec![moved()]).is_none());
}

#[test]
fn missing_runtime_is_shown() {
    let event = runtime_failed_event(&"no threads".to_string());
    assert_eq!(format!("{:?}", event), "Status(\"tokio runtime build failed: no threads\")");
}

#[test]
fn latest_of_several_states_counts() {
    let mut d = polling();
    let s = d.step(batch(vec![ack(7), moved(), ack(20)]), 2_000);
    assert_eq!(d.last_pos, Spot::Wide { x: 20, z: 21 });
    assert_eq!(s.emit.len(), 3);
}

#[test]
fn movement_packets_are_spaced_over_many_rounds() {
    let mut d = polling();
    let interval = input_interval(d.cfg.client.input_hz);
    let mut sent: Vec<u64> = Vec::new();
    let mut now = 1_000;
    for _ in 0..100 {
        now += 5_000_000;
        let s = d.step(batch(vec![ack(1)]), now);
        if let Action::Tick { send_move: Some(_), .. } = s.next {
            sent.push(now);
        }
        d.step(Reply::Done, now);
        d.step(Reply::Command(Received::Empty), now);
    }
    assert!(sent.len() > 10);
    for pair in sent.windows(2) {
        assert!(pair[1] - pair[0] >= interval);
    }
}

#[test]
fn identity_and_token_outlive_a_handoff() {
    let mut d = polling();
    d.step(batch(vec![handoff("h", 1, 2)]), 0);
    d.step(Reply::Done, 0);
    d.step(Reply::Opened(session(43, 500)), 0);
    d.step(Reply::Done, 0);
    assert_eq!(d.persistent_id, 42);
    assert_eq!(d.jwt, "jwt");
    assert_eq!(d.cfg.username, "viewer");
    assert_eq!(d.phase, Phase::Ticking);
}

#[test]
fn batches_and_handoff_messages_are_required() {
    let mut d = started();
    assert!(d.step(failed("x"), 0).emit.iter().all(|out| !out.required));
    let mut d = polling();
    let s = d.step(batch(vec![moved(), handoff("h", 1, 2)]), 0);
    let required: Vec<bool> = s.emit.iter().map(|out| out.required).collect();
    assert_eq!(required, vec![true, true, true]);
    d.step(Reply::Done, 0);
    let s = d.step(Reply::Draining("draining".to_string()), 0);
    assert!(s.emit[0].required);
    d.step(Reply::Assigned { ip: "g".to_string(), port: 3 }, 0);
    d.step(Reply::Done, 0);
    let s = d.step(Reply::Opened(session(42, 500)), 0);
    assert!(s.emit[0].required);
    // A reroute that is no part of a handoff demands nothing.
    let mut d = polling();
    let s = d.step(batch(vec![]), 9_000_000_000);
    assert!(s.emit.iter().all(|out| !out.required));
}

#[test]
fn handoff_without_a_renderer_closes_everything() {
    // The handoff was about to begin: there is no forwarding to stop.
    let mut d = polling();
    d.step(batch(vec![handoff("h", 1, 2)]), 0);
    assert_eq!(next(&d.renderer_gone()), "StopClient");
    assert!(!d.bridging);
    assert_eq!(next(&d.step(Reply::Done, 0)), "Exit");
    // The old session is still forwarded.
    let mut d = polling();
    d.step(batch(vec![handoff("h", 1, 2)]), 0);
    d.step(Reply::Done, 0);
    d.step(Reply::Draining("draining".to_string()), 0);
    let s = d.renderer_gone();
    assert_eq!(next(&s), "StopBridge");
    assert_eq!(d.phase, Phase::Abandoning);
    let s = d.step(Reply::Done, 0);
    assert_eq!(next(&s), "StopClient");
    assert!(!d.bridging);
    let s = d.step(Reply::Done, 0);
    assert_eq!(next(&s), "Exit");
    assert_eq!(d.phase, Phase::Done);
    // The new session is open and the old one closed.
    let mut d = polling();
    d.step(batch(vec![handoff("h", 1, 2)]), 0);
    d.step(Reply::Done, 0);
    d.step(Reply::Opened(session(42, 500)), 0);
    let s = d.step(Reply::Done, 0);
    assert!(s.emit[0].required);
    assert_eq!(next(&d.renderer_gone()), "StopClient");
}

#[test]
fn pings_are_spaced_over_many_rounds() {
    let mut d = polling();
    let mut sent: Vec<u64> = Vec::new();
    let mut now = 1_000;
    for _ in 0..400 {
        now += 5_000_000;
        let s = d.step(batch(vec![ack(1)]), now);
        if let Action::Tick { ping: true, .. } = s.next {
            sent.push(now);
        }
        d.step(Reply::Done, now);
        d.step(Reply::Command(Received::Empty), now);
    }
    assert_eq!(sent.len(), 4);
    for pair in sent.windows(2) {
        assert!(pair[1] - pair[0] >= 500_000_000);
    }
}

#[test]
fn forwarding_polls_once_more_and_stops() {
    assert_eq!(bridge_next(false, true, false), BridgeAction::Poll);
    assert_eq!(bridge_next(true, true, false), BridgeAction::LastPoll);
    assert_eq!(bridge_next(true, true, true), BridgeAction::StopOld);
    assert_eq!(bridge_next(false, false, false), BridgeAction::StopOld);
    assert_eq!(bridge_next(true, false, false), BridgeAction::StopOld);
}
