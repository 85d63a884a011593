//! Pipe animation state: directions, glyph sets, pipes that wander over a
//! wrapping grid, and the frame/input state machine that drives them.

pub mod animation;
pub mod overlay;
pub mod pipe;
pub mod random;
pub mod utils;
