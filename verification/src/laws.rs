//! What holds of the viewer as a whole.

pub mod boundaries;
pub mod channels;
pub mod input;
pub mod net;
pub mod render;
pub mod text;
pub mod views;
pub mod world;
