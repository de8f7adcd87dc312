//! A breakout game whose whole state is packed into one 64-bit word.
//!
//! The library holds the bit-field codec, the decoded game state, the
//! collision engine, the per-frame simulation step and the rasterizer that
//! turns draw commands into pixels.

pub mod bitfield;
pub mod state;
pub mod collision;
pub mod input;
pub mod breakout;
pub mod draw_command;
pub mod frame_buffer;
pub mod render;
pub mod game;
