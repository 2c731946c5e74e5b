//! Where the cubes of the scene stand when it starts: one on each side of
//! the player, each dropped from a height that chance picks.

use rand::Rng;
use vstd::prelude::*;
use crate::units::POSITION_SCALE;
use crate::vector::Vec3;

verus! {

/// How far from the origin each cube stands, along its axis: five world
/// units.
pub const CUBE_DISTANCE: i64 = 500_000_000_000_000;

/// The lowest height from which a cube is dropped, in world units.
pub const LOWEST_DROP: i32 = 1;

/// The greatest height from which a cube is dropped, in world units.
pub const HIGHEST_DROP: i32 = 10;

/// The place of cube `index` in the plane, as `(x, z)`: to the right of the
/// origin, to its left, towards the viewer, and away.
pub open spec fn cube_spot(index: int) -> (i64, i64) {
    if index == 0 {
        (CUBE_DISTANCE, 0i64)
    } else if index == 1 {
        ((-CUBE_DISTANCE) as i64, 0i64)
    } else if index == 2 {
        (0i64, CUBE_DISTANCE)
    } else {
        (0i64, (-CUBE_DISTANCE) as i64)
    }
}

/// Cube `index` at a height of `height` world units.
pub open spec fn cube_at(index: int, height: u8) -> Vec3 {
    Vec3 { x: cube_spot(index).0, y: (height * POSITION_SCALE) as i64, z: cube_spot(index).1 }
}

/// Draws a whole number with `rand::Rng::gen_range` on the thread's
/// generator, `rand::thread_rng()`, over the closed range from `low` to
/// `high`. The range must not be empty, or `gen_range` panics; the generator
/// itself gives up only where the system has no entropy to seed it. All that
/// is claimed of the number is that it lies in the range; which one it is
/// differs from call to call. This contract is taken on trust.
#[verifier::external_body]
fn random_between(low: i32, high: i32) -> (n: i32)
    requires
        low <= high,
    ensures
        low <= n <= high,
{
    rand::thread_rng().gen_range(low..=high)
}

/// The four cubes at the given heights, in world units.
pub fn place_cubes(heights: [u8; 4]) -> (cubes: [Vec3; 4])
    ensures
        forall|i: int| 0 <= i < 4 ==> cubes[i] == cube_at(i, #[trigger] heights[i]),
{
    [
        Vec3 { x: CUBE_DISTANCE, y: heights[0] as i64 * POSITION_SCALE, z: 0 },
        Vec3 { x: -CUBE_DISTANCE, y: heights[1] as i64 * POSITION_SCALE, z: 0 },
        Vec3 { x: 0, y: heights[2] as i64 * POSITION_SCALE, z: CUBE_DISTANCE },
        Vec3 { x: 0, y: heights[3] as i64 * POSITION_SCALE, z: -CUBE_DISTANCE },
    ]
}

/// The four cubes, each at a height that chance picks between the lowest
/// and the greatest drop.
pub fn scatter_cubes() -> (cubes: [Vec3; 4])
    ensures
        forall|i: int|
            0 <= i < 4 ==> exists|height: u8|
                LOWEST_DROP <= height <= HIGHEST_DROP && #[trigger] cubes[i] == cube_at(
                    i,
                    height,
                ),
{
    let heights: [u8; 4] = [
        random_between(LOWEST_DROP, HIGHEST_DROP) as u8,
        random_between(LOWEST_DROP, HIGHEST_DROP) as u8,
        random_between(LOWEST_DROP, HIGHEST_DROP) as u8,
        random_between(LOWEST_DROP, HIGHEST_DROP) as u8,
    ];
    place_cubes(heights)
}

} // verus!
