//! Walking: the held direction keys move the player in the horizontal plane.

use vstd::prelude::*;
use crate::input::InputSnapshot;
use crate::player::Player;
use crate::root::{floor_sqrt, isqrt, lemma_floor_sqrt_is};
use crate::units::{saturate, saturate_i128};
use crate::vector::Vec3;

verus! {

/// The walking speed in position steps per microsecond: five world units per
/// second.
pub const PLAYER_SPEED: i64 = 500_000_000;

/// The speed along each axis of an intent vector of squared length `len2`,
/// in position steps per microsecond.
///
/// The intent is scaled to unit length before it is scaled to the walking
/// speed, so a component of size one becomes `PLAYER_SPEED / sqrt(len2)`,
/// rounded down to a whole step.
pub open spec fn axis_rate(len2: int) -> int
    recommends
        len2 > 0,
{
    floor_sqrt((PLAYER_SPEED * PLAYER_SPEED / len2) as nat) as int
}

/// How far the player walks along x in a frame of `dt` microseconds.
pub open spec fn walk_x(input: InputSnapshot, dt: u32) -> int {
    if input.intent_len2() == 0 {
        0
    } else {
        input.axis_x() * (axis_rate(input.intent_len2()) * dt)
    }
}

/// How far the player walks along z in a frame of `dt` microseconds.
pub open spec fn walk_z(input: InputSnapshot, dt: u32) -> int {
    if input.intent_len2() == 0 {
        0
    } else {
        input.axis_z() * (axis_rate(input.intent_len2()) * dt)
    }
}

impl Player {
    /// The player after walking for one frame: moved in the plane, at the
    /// same height and with the same vertical velocity.
    pub open spec fn after_movement(self, input: InputSnapshot, dt: u32) -> Player {
        Player {
            position: Vec3 {
                x: saturate(self.position.x + walk_x(input, dt)),
                y: self.position.y,
                z: saturate(self.position.z + walk_z(input, dt)),
            },
            vertical_velocity: self.vertical_velocity,
        }
    }
}

/// Along one axis the player walks at full speed; along a diagonal each axis
/// gets the full speed divided by the square root of two, rounded down.
pub proof fn lemma_axis_rates()
    ensures
        axis_rate(1) == 500_000_000,
        axis_rate(2) == 353_553_390,
{
    lemma_floor_sqrt_is(250_000_000_000_000_000, 500_000_000);
    lemma_floor_sqrt_is(125_000_000_000_000_000, 353_553_390);
}

/// The squared length of the walk of one frame, in position steps squared.
pub open spec fn walk_len2(input: InputSnapshot, dt: u32) -> int {
    walk_x(input, dt) * walk_x(input, dt) + walk_z(input, dt) * walk_z(input, dt)
}

/// With one direction held, or one direction beside a pair that cancels, the
/// player covers exactly the walking speed times the frame time.
pub proof fn lemma_axis_walk_is_full_speed(input: InputSnapshot, dt: u32)
    requires
        (input.axis_x() != 0) != (input.axis_z() != 0),
    ensures
        walk_len2(input, dt) == (PLAYER_SPEED * dt) * (PLAYER_SPEED * dt),
{
    lemma_axis_rates();
    let x = input.axis_x();
    let z = input.axis_z();
    let full = PLAYER_SPEED * dt;
    assert(x * x + z * z == 1) by (nonlinear_arith)
        requires
            -1 <= x <= 1,
            -1 <= z <= 1,
            (x != 0) != (z != 0),
    ;
    assert(axis_rate(input.intent_len2()) * dt == full);
    lemma_unit_times(x, full);
    lemma_unit_times(z, full);
    assert((-full) * (-full) == full * full) by (nonlinear_arith);
}

/// With two orthogonal directions held the player is not faster than with
/// one. Both axes get the same share, the walk is never longer than the
/// walking speed times the frame time, and what rounding takes from its
/// squared length is at most four parts in a thousand million.
pub proof fn lemma_diagonal_walk_is_not_faster(input: InputSnapshot, dt: u32)
    requires
        input.axis_x() != 0,
        input.axis_z() != 0,
    ensures
        walk_x(input, dt) * walk_x(input, dt) == walk_z(input, dt) * walk_z(input, dt),
        walk_len2(input, dt) <= (PLAYER_SPEED * dt) * (PLAYER_SPEED * dt),
        ((PLAYER_SPEED * dt) * (PLAYER_SPEED * dt) - walk_len2(input, dt)) * 250_000_000 <= (
        PLAYER_SPEED * dt) * (PLAYER_SPEED * dt),
{
    lemma_axis_rates();
    let x = input.axis_x();
    let z = input.axis_z();
    let side = axis_rate(2) * dt;
    let full = PLAYER_SPEED * dt;
    assert(x * x + z * z == 2) by (nonlinear_arith)
        requires
            -1 <= x <= 1,
            -1 <= z <= 1,
            x != 0,
            z != 0,
    ;
    lemma_unit_times(x, side);
    lemma_unit_times(z, side);
    assert((-side) * (-side) == side * side) by (nonlinear_arith);
    assert(walk_len2(input, dt) == 2 * (side * side));
    assert(2 * (side * side) <= full * full && (full * full - 2 * (side * side)) * 250_000_000
        <= full * full) by (nonlinear_arith)
        requires
            side == 353_553_390 * dt,
            full == 500_000_000 * dt,
    ;
}

/// Opposite keys cancel: with both keys of an axis held the player does not
/// move along it.
pub proof fn lemma_opposite_keys_cancel(input: InputSnapshot, dt: u32)
    ensures
        input.left && input.right ==> walk_x(input, dt) == 0,
        input.forward && input.back ==> walk_z(input, dt) == 0,
{
    let side = axis_rate(input.intent_len2()) * dt;
    lemma_unit_times(input.axis_x(), side);
    lemma_unit_times(input.axis_z(), side);
}

/// With no direction held, and with no time passed, the player stays where
/// it is.
pub proof fn lemma_no_walk(p: Player, input: InputSnapshot, dt: u32)
    requires
        dt == 0 || (!input.left && !input.right && !input.forward && !input.back),
    ensures
        p.after_movement(input, dt) == p,
{
    let side = axis_rate(input.intent_len2()) * dt;
    lemma_unit_times(input.axis_x(), side);
    lemma_unit_times(input.axis_z(), side);
}

/// A component of the intent keeps, reverses or drops what it is multiplied
/// with.
proof fn lemma_unit_times(i: int, t: int)
    by (nonlinear_arith)
    requires
        -1 <= i <= 1,
    ensures
        i * t == (if i == 0 {
            0
        } else if i == 1 {
            t
        } else {
            -t
        }),
{
}

/// Moves the player in the horizontal plane for a frame of `dt` microseconds.
///
/// Each held direction key adds one step to the intent; a nonzero intent is
/// scaled to unit length, then to the walking speed and the frame time.
/// Coordinates stop at the ends of the machine range.
pub fn player_movement(player: &mut Player, input: &InputSnapshot, dt: u32)
    ensures
        *final(player) == old(player).after_movement(*input, dt),
        input.left && input.right ==> final(player).position.x == old(player).position.x,
        input.forward && input.back ==> final(player).position.z == old(player).position.z,
{
    let (ix, iz) = input.intent();
    assert(ix * ix == (if ix == 0 { 0int } else { 1int }) && iz * iz == (if iz == 0 {
        0int
    } else {
        1int
    })) by (nonlinear_arith)
        requires
            -1 <= ix <= 1,
            -1 <= iz <= 1,
    ;
    let len2: u64 = (ix * ix + iz * iz) as u64;
    if len2 > 0 {
        assert(PLAYER_SPEED * PLAYER_SPEED == 250_000_000_000_000_000) by (nonlinear_arith);
        let rate: u64 = isqrt((PLAYER_SPEED as u64 * PLAYER_SPEED as u64) / len2);
        proof {
            lemma_axis_rates();
        }
        assert(0 <= rate * dt <= 500_000_000 * 0xFFFF_FFFF) by (nonlinear_arith)
            requires
                0 <= rate <= 500_000_000,
                0 <= dt <= 0xFFFF_FFFF,
        ;
        let step: i128 = rate as i128 * dt as i128;
        proof {
            lemma_unit_times(ix as int, step as int);
            lemma_unit_times(iz as int, step as int);
        }
        player.position.x = saturate_i128(player.position.x as i128 + ix as i128 * step);
        player.position.z = saturate_i128(player.position.z as i128 + iz as i128 * step);
    }
}

} // verus!
