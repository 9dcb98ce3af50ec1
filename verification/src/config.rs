//! The viewer's settings.

use vstd::prelude::*;
use vstd::string::StringExecFns;

verus! {

/// Bit pattern of the single-precision 80.0.
pub const DEFAULT_VIEW_RANGE: u32 = 0x42A0_0000;

/// Bit pattern of the single-precision 5.0.
pub const DEFAULT_STALE_ENTITY_SECS: u32 = 0x40A0_0000;

/// The settings of the game client. `S` is the type of text; in contracts it
/// is `Seq<char>`.
#[derive(Debug, Clone)]
pub struct ClientConfig<S = String> {
    pub auth_service_url: S,
    pub gateway_url: S,
    pub session_auth_retries: u32,
    pub session_auth_timeout_ms: u64,
    /// How many movement packets a second go out.
    pub input_hz: u32,
    pub input_redundancy: u32,
}

/// The viewer's settings. The single-precision values stand as bit patterns.
#[derive(Debug, Clone)]
pub struct ViewerConfig<S = String> {
    pub client: ClientConfig<S>,
    /// The account to log in as.
    pub username: S,
    pub password: S,
    /// Where the first assignment is asked for if no position is stored.
    pub start_x: u32,
    pub start_z: u32,
    /// World units across the shorter screen dimension.
    pub view_range: u32,
    /// Seconds after which an unheard-of entity is dropped.
    pub stale_entity_secs: u32,
    /// Where the shard list is polled; empty if it is not.
    pub world_coord_url: S,
}

impl View for ClientConfig<String> {
    type V = ClientConfig<Seq<char>>;

    open spec fn view(&self) -> ClientConfig<Seq<char>> {
        ClientConfig {
            auth_service_url: self.auth_service_url@,
            gateway_url: self.gateway_url@,
            session_auth_retries: self.session_auth_retries,
            session_auth_timeout_ms: self.session_auth_timeout_ms,
            input_hz: self.input_hz,
            input_redundancy: self.input_redundancy,
        }
    }
}

impl View for ViewerConfig<String> {
    type V = ViewerConfig<Seq<char>>;

    open spec fn view(&self) -> ViewerConfig<Seq<char>> {
        ViewerConfig {
            client: self.client@,
            username: self.username@,
            password: self.password@,
            start_x: self.start_x,
            start_z: self.start_z,
            view_range: self.view_range,
            stale_entity_secs: self.stale_entity_secs,
            world_coord_url: self.world_coord_url@,
        }
    }
}

/// The settings that hold where neither the file nor the environment says
/// otherwise.
pub open spec fn default_config() -> ViewerConfig<Seq<char>> {
    ViewerConfig {
        client: ClientConfig {
            auth_service_url: "http://127.0.0.1:50051"@,
            gateway_url: "http://127.0.0.1:8090"@,
            session_auth_retries: 3,
            session_auth_timeout_ms: 5000,
            input_hz: 30,
            input_redundancy: 3,
        },
        username: "viewer"@,
        password: "viewer"@,
        start_x: 0,
        start_z: 0,
        view_range: DEFAULT_VIEW_RANGE,
        stale_entity_secs: DEFAULT_STALE_ENTITY_SECS,
        world_coord_url: ""@,
    }
}

impl Default for ViewerConfig<String> {
    fn default() -> (cfg: Self)
        ensures
            cfg@ == default_config(),
    {
        ViewerConfig {
            client: ClientConfig {
                auth_service_url: String::from_str("http://127.0.0.1:50051"),
                gateway_url: String::from_str("http://127.0.0.1:8090"),
                session_auth_retries: 3,
                session_auth_timeout_ms: 5000,
                input_hz: 30,
                input_redundancy: 3,
            },
            username: String::from_str("viewer"),
            password: String::from_str("viewer"),
            start_x: 0,
            start_z: 0,
            view_range: DEFAULT_VIEW_RANGE,
            stale_entity_secs: DEFAULT_STALE_ENTITY_SECS,
            world_coord_url: String::from_str(""),
        }
    }
}

} // verus!
