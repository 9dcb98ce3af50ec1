# mmo-viewer

A minimal top-down debugger for a sharded game server: it logs in, follows the
player from shard to shard, and shows what the server actually sent.

- `src/` is the verified library: the network thread as a state machine, the
  mirrored world, the commands that keys lead to, and what a frame shows. `src/laws/` holds what is proved of them together.
- `app/` is the program around it: the window, the sockets, the threads, and the
  floating-point arithmetic. It performs the actions that the state machine asks
  for and draws the scenes that the library lists. It is built together with the
  game's own client crate (`mmo_cli`) and with the client generated from
  `world_coord.proto`.
- `tests/` runs the library from outside.

Floating-point numbers cross the boundary as their bit patterns and times as
nanoseconds on one monotonic clock. What the library believes of other crates is
stated where it calls them, in `src/channels.rs` (`crossbeam_channel`) and
`src/boundaries.rs` (`tonic`).
