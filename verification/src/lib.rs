//! A Pong simulation with verified update rules: two vertically moving
//! paddles, a bouncing ball, and score tracking.
//!
//! All geometry lives in integer subpixel units (see [`units`]), so every
//! state transition of the simulation is exact integer arithmetic with
//! proved bounds.  Rendering and input plumbing are left to the binary that
//! drives the simulation.

pub mod ball;
pub mod game;
pub mod paddle;
pub mod rectangle;
pub mod units;
