//! A terminal snake game: the board geometry, the snake's movement and growth,
//! collision detection, tick pacing and what each frame draws.
pub mod collision;
pub mod game;
pub mod geometry;
pub mod pacing;
mod random;
pub mod render;
