//! A verified core for a two-paddle arcade ball game.
//!
//! The library holds the per-tick simulation logic: motion integration,
//! circle-versus-box collision detection and response, boundary-crossing
//! scoring with serve reset, a reactive paddle controller, and the paddle
//! bounds clamp, all over integer playfield coordinates. Windowing, input
//! polling and rendering are left to the host program, which hands the
//! core a viewport size and an input axis and reads positions back.

pub mod ball;
pub mod collision;
pub mod geometry;
pub mod gutter;
pub mod paddle;
pub mod score;
pub mod tick;
