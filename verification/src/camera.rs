//! The camera: a viewpoint held at a fixed offset from the player.

use vstd::prelude::*;
use crate::player::{Player, GROUND_LEVEL};
use crate::vector::Vec3;

verus! {

/// How far above the player the camera stands: fifteen world units.
pub const CAMERA_RISE: i64 = 1_500_000_000_000_000;

/// How far behind the player, towards the viewer, the camera stands: fifteen
/// world units.
pub const CAMERA_SETBACK: i64 = 1_500_000_000_000_000;

/// Where the camera stands relative to the player.
pub open spec fn offset() -> Vec3 {
    Vec3 { x: 0, y: CAMERA_RISE, z: CAMERA_SETBACK }
}

/// The direction in which a new camera looks: from its place down to the
/// point one world unit above the origin.
pub open spec fn initial_forward() -> Vec3 {
    Vec3 { x: 0, y: (GROUND_LEVEL - CAMERA_RISE) as i64, z: (-CAMERA_SETBACK) as i64 }
}

/// Where the camera stands relative to the player.
#[verifier::when_used_as_spec(offset)]
pub fn camera_offset() -> (d: Vec3)
    ensures
        d == offset(),
{
    Vec3 { x: 0, y: CAMERA_RISE, z: CAMERA_SETBACK }
}

/// The one viewpoint that follows the player.
#[derive(Clone, Copy, Debug, PartialEq, Eq, Structural)]
pub struct Camera {
    /// Where the camera is, in position steps.
    pub position: Vec3,
    /// The direction in which the camera looks. It is set when the camera is
    /// made and no frame turns it.
    pub forward: Vec3,
}

impl Camera {
    /// This camera moved to its place behind `player`, looking the way it
    /// looked before.
    pub open spec fn tracking(self, player: Player) -> Camera {
        Camera { position: player.position.plus(camera_offset()), forward: self.forward }
    }

    /// The camera as a scene starts: at its offset from the origin, looking
    /// down at the point one world unit above the origin.
    pub open spec fn initial() -> Camera {
        Camera { position: offset(), forward: initial_forward() }
    }

    /// A camera at its offset from the origin, looking down at the point one
    /// world unit above the origin.
    pub fn new() -> (c: Camera)
        ensures
            c == Camera::initial(),
    {
        Camera {
            position: camera_offset(),
            forward: Vec3 { x: 0, y: GROUND_LEVEL - CAMERA_RISE, z: -CAMERA_SETBACK },
        }
    }
}

/// Puts the camera at its offset from the player, at once and without
/// smoothing. Where the offset would leave the machine range, the camera
/// stops at its end.
pub fn camera_movement(player: &Player, camera: &mut Camera)
    ensures
        *final(camera) == old(camera).tracking(*player),
        player.position.reaches(camera_offset()) ==> {
            &&& final(camera).position.x - player.position.x == camera_offset().x
            &&& final(camera).position.y - player.position.y == camera_offset().y
            &&& final(camera).position.z - player.position.z == camera_offset().z
        },
{
    let d = camera_offset();
    camera.position = player.position.offset_by(&d);
}

} // verus!
