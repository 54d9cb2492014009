//! A decoupled 2D rendering core.
//!
//! A simulation thread describes each frame as camera layers that hold
//! batches of textured rectangles; a render thread turns that description
//! into draw calls.  The two exchange one scene buffer and a stream of
//! commands over channels.  This crate holds what both sides decide and
//! compute; windows, files and the graphics device are the caller's.
//!
//! * `texture`: texture identifiers and the atlas that buckets images by size;
//! * `scene`: the description of a frame;
//! * `frontend`: the simulation side, which announces textures and fills the
//!   scene buffer;
//! * `runtime`: the render side, which takes in textures and lays out the
//!   vertices of a frame;
//! * `handoff`: the hand-off of the scene buffer as a state machine;
//! * `camera`, `grid`, `grid_input`, `input_state`, `geometry`: the tile
//!   world, from the player's input to the tile under the mouse.

pub mod camera;
pub mod frontend;
pub mod geometry;
pub mod grid;
pub mod grid_input;
pub mod handoff;
pub mod input_state;
pub mod runtime;
pub mod scene;
pub mod texture;
