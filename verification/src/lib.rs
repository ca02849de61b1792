//! Simulation core of a Snake arcade game.
//!
//! The crate owns the snake's body, its movement and growth rules, collision
//! detection, food placement, scoring and the timed game loop. Rendering and
//! input are left to the caller: the game reports what to paint as a list of
//! [`draw::DrawCommand`]s and takes key presses as [`game::Key`] values.

pub mod draw;
pub mod food;
pub mod game;
mod random;
pub mod snake;
