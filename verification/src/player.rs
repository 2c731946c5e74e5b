//! The player: where it stands and how fast it rises or falls.

use vstd::prelude::*;
use crate::vector::Vec3;

verus! {

/// The height at which the player rests on the ground: one world unit, the
/// distance from the middle of its body to its feet.
pub const GROUND_LEVEL: i64 = 100_000_000_000_000;

/// The height from which a new player is dropped: ten world units.
pub const START_HEIGHT: i64 = 1_000_000_000_000_000;

/// The one body that the controls move.
#[derive(Clone, Copy, Debug, PartialEq, Eq, Structural)]
pub struct Player {
    /// Where the player is, in position steps.
    pub position: Vec3,
    /// How fast the player rises, in velocity steps; negative while falling.
    pub vertical_velocity: i64,
}

impl Player {
    /// The player stands on the ground (or, before its first frame, below
    /// it). Only the height decides this; nothing is remembered from one
    /// frame to the next.
    pub open spec fn grounded(self) -> bool {
        self.position.y <= GROUND_LEVEL
    }

    /// The player as a scene starts: at rest above the origin, at the
    /// starting height.
    pub open spec fn initial() -> Player {
        Player { position: Vec3 { x: 0, y: START_HEIGHT, z: 0 }, vertical_velocity: 0 }
    }

    /// A player at rest above the origin, at the starting height.
    pub fn new() -> (p: Player)
        ensures
            p == Player::initial(),
    {
        Player { position: Vec3 { x: 0, y: START_HEIGHT, z: 0 }, vertical_velocity: 0 }
    }

    /// A player at rest at `position`.
    pub fn at(position: Vec3) -> (p: Player)
        ensures
            p == (Player { position, vertical_velocity: 0 }),
    {
        Player { position, vertical_velocity: 0 }
    }

    /// Whether the player stands on the ground.
    pub fn is_grounded(&self) -> (g: bool)
        ensures
            g == self.grounded(),
    {
        self.position.y <= GROUND_LEVEL
    }
}

} // verus!
