//! What the models of contracts hold of the values that they stand for: every
//! field as it is, and texts as their characters.

use vstd::prelude::*;

use crate::boundaries::{ShardInfo, ShardRegion};
use crate::channels::{NetEvent, Received};
use crate::config::ViewerConfig;
use crate::driver::{Action, Driver, Outgoing, Reply, Step};
use crate::net::{GameEvent, Handoff};
use crate::render::{HudLine, HudNumbers};
use crate::world::World;

verus! {

/// A message for the renderer is modelled field by field.
pub proof fn messages_are_modelled_field_by_field(ev: NetEvent)
    ensures
        ev matches NetEvent::Status(s) ==> ev@ == NetEvent::<Seq<char>>::Status(s@),
        ev matches NetEvent::SessionOpened { player_id, persistent_id, origin_x, origin_z, shard_id } ==> ev@ == (NetEvent::<Seq<char>>::SessionOpened { player_id, persistent_id, origin_x, origin_z, shard_id }),
        ev matches NetEvent::AuthFailed { reason } ==> ev@ == (NetEvent::<Seq<char>>::AuthFailed { reason }),
        ev matches NetEvent::StateAck { server_tick, x, y, z, hp, stamina } ==> ev@ == (NetEvent::<Seq<char>>::StateAck { server_tick, x, y, z, hp, stamina }),
        ev matches NetEvent::EntityMoved { entity_id, x, y, z, orientation, source_shard_hash } ==> ev@ == (NetEvent::<Seq<char>>::EntityMoved { entity_id, x, y, z, orientation, source_shard_hash }),
        ev matches NetEvent::HitConfirm { target_id, damage, target_hp } ==> ev@ == (NetEvent::<Seq<char>>::HitConfirm { target_id, damage, target_hp }),
        ev matches NetEvent::EntityHealth { entity_id, hp, max_hp } ==> ev@ == (NetEvent::<Seq<char>>::EntityHealth { entity_id, hp, max_hp }),
        ev matches NetEvent::EntityStateChanged { entity_id, state_id, param_a } ==> ev@ == (NetEvent::<Seq<char>>::EntityStateChanged { entity_id, state_id, param_a }),
        ev matches NetEvent::ActionRejected { reason } ==> ev@ == (NetEvent::<Seq<char>>::ActionRejected { reason }),
        ev is HandoffStarted ==> ev@ is HandoffStarted,
        ev is Disconnected ==> ev@ is Disconnected,
        ev matches NetEvent::RttSample(ms) ==> ev@ == NetEvent::<Seq<char>>::RttSample(ms),
{
}

/// An event of the game client is modelled field by field.
pub proof fn game_events_are_modelled_field_by_field(ev: GameEvent)
    ensures
        ev is SessionOpened ==> ev@ is SessionOpened,
        ev matches GameEvent::SessionAuthFailed { reason } ==> ev@ == (GameEvent::<Seq<char>>::SessionAuthFailed { reason }),
        ev matches GameEvent::StateAck { server_tick, x, y, z, hp, stamina } ==> ev@ == (GameEvent::<Seq<char>>::StateAck { server_tick, x, y, z, hp, stamina }),
        ev matches GameEvent::EntityMoved { entity_id, x, y, z, orientation, source_shard_hash } ==> ev@ == (GameEvent::<Seq<char>>::EntityMoved { entity_id, x, y, z, orientation, source_shard_hash }),
        ev matches GameEvent::HitConfirm { target_id, damage, target_hp } ==> ev@ == (GameEvent::<Seq<char>>::HitConfirm { target_id, damage, target_hp }),
        ev matches GameEvent::EntityHealth { entity_id, hp, max_hp } ==> ev@ == (GameEvent::<Seq<char>>::EntityHealth { entity_id, hp, max_hp }),
        ev matches GameEvent::EntityStateChanged { entity_id, state_id, param_a } ==> ev@ == (GameEvent::<Seq<char>>::EntityStateChanged { entity_id, state_id, param_a }),
        ev matches GameEvent::ActionRejected { reason } ==> ev@ == (GameEvent::<Seq<char>>::ActionRejected { reason }),
        ev matches GameEvent::ShardHandoffReceived { new_ip, new_port, new_shard_id, handoff_token } ==> ev@ == (GameEvent::<Seq<char>>::ShardHandoffReceived { new_ip: new_ip@, new_port, new_shard_id, handoff_token }),
        ev is Disconnected ==> ev@ is Disconnected,
{
}

/// A handoff is modelled field by field.
pub proof fn handoffs_are_modelled_field_by_field(target: Handoff)
    ensures
        target@.ip == target.ip@,
        target@.port == target.port,
        target@.shard_id == target.shard_id,
        target@.token == target.token,
{
}

/// The world is modelled field by field.
pub proof fn worlds_are_modelled_field_by_field(w: World)
    ensures
        w@.connected == w.connected,
        w@.session_open == w.session_open,
        w@.player_id == w.player_id,
        w@.persistent_id == w.persistent_id,
        w@.shard_id == w.shard_id,
        w@.origin_x == w.origin_x,
        w@.origin_z == w.origin_z,
        w@.server_tick == w.server_tick,
        w@.self_position == w.self_position,
        w@.self_hp == w.self_hp,
        w@.self_stamina == w.self_stamina,
        w@.rtt_ms == w.rtt_ms,
        w@.last_rejection == w.last_rejection,
        w@.self_orientation == w.self_orientation,
        w@.last_input_x == w.last_input_x,
        w@.last_input_z == w.last_input_z,
        w@.self_action_flash == w.self_action_flash,
        w@.reckoning_since == w.reckoning_since,
        w@.status == w.status@,
        w@.entities == w.entities@,
{
}

/// The driver is modelled field by field.
pub proof fn drivers_are_modelled_field_by_field(d: Driver)
    ensures
        d@.phase == d.phase,
        d@.persistent_id == d.persistent_id,
        d@.input == d.input,
        d@.last_input_tx == d.last_input_tx,
        d@.last_ping_tx == d.last_ping_tx,
        d@.last_rtt_us == d.last_rtt_us,
        d@.last_state_ack == d.last_state_ack,
        d@.last_pos == d.last_pos,
        d@.bridging == d.bridging,
        d@.jwt == d.jwt@,
        d@.cfg == d.cfg@,
{
}

/// A reply is modelled field by field, and a batch event by event.
pub proof fn replies_are_modelled_field_by_field(reply: Reply, i: int)
    ensures
        reply is Done ==> reply@ is Done,
        reply matches Reply::Failed(why) ==> reply@ == Reply::<Seq<char>, Seq<GameEvent<Seq<char>>>>::Failed(why@),
        reply matches Reply::Draining(why) ==> reply@ == Reply::<Seq<char>, Seq<GameEvent<Seq<char>>>>::Draining(why@),
        reply matches Reply::Denied { cause, text } ==> reply@ == (Reply::<Seq<char>, Seq<GameEvent<Seq<char>>>>::Denied { cause: cause@, text: text@ }),
        reply matches Reply::Token(jwt) ==> reply@ == Reply::<Seq<char>, Seq<GameEvent<Seq<char>>>>::Token(jwt@),
        reply matches Reply::Saved { found, x, z } ==> reply@ == (Reply::<Seq<char>, Seq<GameEvent<Seq<char>>>>::Saved { found, x, z }),
        reply matches Reply::Assigned { ip, port } ==> reply@ == (Reply::<Seq<char>, Seq<GameEvent<Seq<char>>>>::Assigned { ip: ip@, port }),
        reply matches Reply::Opened(session) ==> reply@ == Reply::<Seq<char>, Seq<GameEvent<Seq<char>>>>::Opened(session),
        reply matches Reply::Command(got) ==> reply@ == Reply::<Seq<char>, Seq<GameEvent<Seq<char>>>>::Command(got),
        reply matches Reply::Events { events, rtt_us } ==> (reply@ matches Reply::Events {
            events: seen,
            rtt_us: time,
        } && {
            &&& time == rtt_us
            &&& seen.len() == events.len()
            &&& 0 <= i < events.len() ==> seen[i] == events[i]@
        }),
{
}

/// An action is modelled field by field.
pub proof fn actions_are_modelled_field_by_field(next: Action)
    ensures
        next matches Action::ConnectAuth { url } ==> next@ == (Action::<Seq<char>>::ConnectAuth { url: url@ }),
        next matches Action::Register { username, password } ==> next@ == (Action::<Seq<char>>::Register { username: username@, password: password@ }),
        next matches Action::Login { username, password } ==> next@ == (Action::<Seq<char>>::Login { username: username@, password: password@ }),
        next matches Action::LoadState { jwt } ==> next@ == (Action::<Seq<char>>::LoadState { jwt: jwt@ }),
        next matches Action::ConnectGateway { url } ==> next@ == (Action::<Seq<char>>::ConnectGateway { url: url@ }),
        next matches Action::AskGateway { jwt, spot } ==> next@ == (Action::<Seq<char>>::AskGateway { jwt: jwt@, spot }),
        next matches Action::ConnectShard { ip, port, jwt } ==> next@ == (Action::<Seq<char>>::ConnectShard { ip: ip@, port, jwt: jwt@ }),
        next is AwaitOpen ==> next@ is AwaitOpen,
        next is ReadCommand ==> next@ is ReadCommand,
        next matches Action::SendAction { action_type } ==> next@ == (Action::<Seq<char>>::SendAction { action_type }),
        next is PollEvents ==> next@ is PollEvents,
        next matches Action::Sleep { ms } ==> next@ == (Action::<Seq<char>>::Sleep { ms }),
        next matches Action::BeginHandoff { target, persistent_id, jwt } ==> next@ == (Action::<Seq<char>>::BeginHandoff { target: target@, persistent_id, jwt: jwt@ }),
        next is StopBridge ==> next@ is StopBridge,
        next matches Action::Reconnect { ip, port, jwt } ==> next@ == (Action::<Seq<char>>::Reconnect { ip: ip@, port, jwt: jwt@ }),
        next matches Action::Tick { send_move, ping, sleep_ms } ==> next@ == (Action::<Seq<char>>::Tick { send_move, ping, sleep_ms }),
        next is StopClient ==> next@ is StopClient,
        next is Exit ==> next@ is Exit,
        next is Keep ==> next@ is Keep,
{
}

/// A step is modelled by its messages in order and by its action.
pub proof fn steps_are_modelled_part_by_part(s: Step, i: int)
    ensures
        s@.next == s.next@,
        s@.emit.len() == s.emit.len(),
        0 <= i < s.emit.len() ==> s@.emit[i].event == s.emit[i].event@ && s@.emit[i].required
            == s.emit[i].required,
{
}

/// The settings are modelled field by field.
pub proof fn settings_are_modelled_field_by_field(cfg: ViewerConfig)
    ensures
        cfg@.client.auth_service_url == cfg.client.auth_service_url@,
        cfg@.client.gateway_url == cfg.client.gateway_url@,
        cfg@.client.session_auth_retries == cfg.client.session_auth_retries,
        cfg@.client.session_auth_timeout_ms == cfg.client.session_auth_timeout_ms,
        cfg@.client.input_hz == cfg.client.input_hz,
        cfg@.client.input_redundancy == cfg.client.input_redundancy,
        cfg@.username == cfg.username@,
        cfg@.password == cfg.password@,
        cfg@.world_coord_url == cfg.world_coord_url@,
        cfg@.start_x == cfg.start_x,
        cfg@.start_z == cfg.start_z,
        cfg@.view_range == cfg.view_range,
        cfg@.stale_entity_secs == cfg.stale_entity_secs,
{
}

/// A listed shard and a shard's region are modelled field by field.
pub proof fn shards_are_modelled_field_by_field(shard: ShardInfo, region: ShardRegion)
    ensures
        shard@.shard_id == shard.shard_id@,
        shard@.region == shard.region,
        region@.shard_id == region.shard_id@,
        region@.x_min == region.x_min,
        region@.x_max == region.x_max,
        region@.z_min == region.z_min,
        region@.z_max == region.z_max,
{
}

/// A line of the HUD and its numbers are modelled field by field.
pub proof fn hud_parts_are_modelled_field_by_field(line: HudLine, n: HudNumbers)
    ensures
        line@.y == line.y,
        line@.text == line.text@,
        n@.self_x == n.self_x@,
        n@.self_y == n.self_y@,
        n@.self_z == n.self_z@,
        n@.origin_x == n.origin_x@,
        n@.origin_z == n.origin_z@,
        n@.stamina == n.stamina@,
        n@.view_range == n.view_range@,
{
}

/// What a look brought is modelled by the message that it brought, if any.
pub proof fn looks_are_modelled_by_their_messages(got: Received<NetEvent>)
    ensures
        got matches Received::Got(ev) ==> crate::channels::look_model(got) == Received::Got(ev@),
        got is Empty ==> crate::channels::look_model(got) is Empty,
        got is Closed ==> crate::channels::look_model(got) is Closed,
{
}

/// Lists are modelled item by item.
pub proof fn lists_are_modelled_item_by_item(
    events: Seq<GameEvent>,
    messages: Seq<NetEvent>,
    emit: Seq<Outgoing>,
    shards: Seq<ShardInfo>,
    regions: Seq<ShardRegion>,
    lines: Seq<HudLine>,
    i: int,
)
    ensures
        crate::net::models(events).len() == events.len(),
        0 <= i < events.len() ==> crate::net::models(events)[i] == events[i]@,
        crate::net::event_models(messages).len() == messages.len(),
        0 <= i < messages.len() ==> crate::net::event_models(messages)[i] == messages[i]@,
        crate::driver::out_models(emit).len() == emit.len(),
        0 <= i < emit.len() ==> crate::driver::out_models(emit)[i] == emit[i]@,
        crate::boundaries::info_models(shards).len() == shards.len(),
        0 <= i < shards.len() ==> crate::boundaries::info_models(shards)[i] == shards[i]@,
        crate::boundaries::region_models(regions).len() == regions.len(),
        0 <= i < regions.len() ==> crate::boundaries::region_models(regions)[i] == regions[i]@,
        crate::render::line_models(lines).len() == lines.len(),
        0 <= i < lines.len() ==> crate::render::line_models(lines)[i] == lines[i]@,
{
}

/// An optional message or handoff is modelled by its content, if it has one.
pub proof fn options_are_modelled_by_their_content(
    ev: Option<NetEvent>,
    target: Option<Handoff>,
)
    ensures
        ev matches Some(inner) ==> crate::net::event_model(ev) == Some(inner@),
        ev is None ==> crate::net::event_model(ev) is None,
        target matches Some(inner) ==> crate::net::handoff_model(target) == Some(inner@),
        target is None ==> crate::net::handoff_model(target) is None,
{
}

} // verus!
