//! Kinematic control of a single player and of the camera that follows it,
//! in exact fixed-point arithmetic.
//!
//! Time is counted in microseconds, velocity in steps of `1 / VELOCITY_SCALE`
//! world units per second, and position in steps of `1 / POSITION_SCALE`
//! world units. One velocity step kept up for one microsecond moves a body by
//! exactly one position step, so integrating a frame never rounds. The only
//! rounded quantities are two square roots, the diagonal walking speed and
//! the jump impulse, each rounded down to a whole step.
//!
//! A frame is made of three steps, in this order: `player_movement` walks
//! the player in the plane, `player_gravity` lets it fall, land and jump,
//! and `camera_movement` puts the camera behind it. `Simulation::step` does
//! all three. Coordinates and velocities are `i64` and stop at the ends of
//! that range instead of wrapping.

pub mod camera;
pub mod gravity;
pub mod input;
pub mod locomotion;
pub mod player;
pub mod root;
pub mod scene;
pub mod simulation;
pub mod units;
pub mod vector;
