//! The logic of a top-down debugging viewer for a sharded game server.
//!
//! A network thread talks to the servers; a render thread shows what they sent.
//! [`driver`] is the network thread as a state machine (what it does is defined
//! in [`machine`], on the events of [`net`]); [`channels`] joins the two
//! threads; [`world`] mirrors the servers' state; [`input`] turns keys into
//! commands; [`render`] and [`boundaries`] say what a frame shows. [`laws`]
//! holds what is true of these together.
//!
//! Floating-point arithmetic, the window and the network lie outside. Their
//! numbers come in and go out as bit patterns, times as nanoseconds.

pub mod boundaries;
pub mod channels;
pub mod clock;
pub mod config;
pub mod driver;
pub mod input;
pub mod laws;
pub mod machine;
pub mod net;
pub mod render;
pub mod single;
pub mod text;
pub mod world;
