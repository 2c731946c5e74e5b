//! Points and displacements of the world, in position steps.

use vstd::prelude::*;
use crate::units::{saturate, saturate_i128, POSITION_SCALE};

verus! {

/// A point or a displacement, one count of position steps per axis.
///
/// `x` grows to the right, `y` upwards and `z` towards the viewer.
#[derive(Clone, Copy, Debug, PartialEq, Eq, Structural)]
pub struct Vec3 {
    pub x: i64,
    pub y: i64,
    pub z: i64,
}

impl Vec3 {
    /// The vector with the given components, in position steps.
    pub fn new(x: i64, y: i64, z: i64) -> (v: Vec3)
        ensures
            v == (Vec3 { x, y, z }),
    {
        Vec3 { x, y, z }
    }

    /// The vector with the given components, in whole world units.
    pub fn from_units(x: i16, y: i16, z: i16) -> (v: Vec3)
        ensures
            v.x == x * POSITION_SCALE,
            v.y == y * POSITION_SCALE,
            v.z == z * POSITION_SCALE,
    {
        Vec3 {
            x: x as i64 * POSITION_SCALE,
            y: y as i64 * POSITION_SCALE,
            z: z as i64 * POSITION_SCALE,
        }
    }

    /// Adding `d` leaves every component inside the machine range.
    pub open spec fn reaches(self, d: Vec3) -> bool {
        &&& i64::MIN <= self.x + d.x <= i64::MAX
        &&& i64::MIN <= self.y + d.y <= i64::MAX
        &&& i64::MIN <= self.z + d.z <= i64::MAX
    }

    /// The sum of two vectors, each component stopping at the ends of the
    /// machine range.
    pub open spec fn plus(self, d: Vec3) -> Vec3 {
        Vec3 {
            x: saturate(self.x + d.x),
            y: saturate(self.y + d.y),
            z: saturate(self.z + d.z),
        }
    }

    /// Moves a point by a displacement.
    pub fn offset_by(&self, d: &Vec3) -> (v: Vec3)
        ensures
            v == self.plus(*d),
            self.reaches(*d) ==> v.x - self.x == d.x && v.y - self.y == d.y && v.z - self.z
                == d.z,
    {
        Vec3 {
            x: saturate_i128(self.x as i128 + d.x as i128),
            y: saturate_i128(self.y as i128 + d.y as i128),
            z: saturate_i128(self.z as i128 + d.z as i128),
        }
    }
}

} // verus!
