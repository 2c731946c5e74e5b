//! Falling and jumping: the player's height under gravity, above a flat
//! ground.

use vstd::prelude::*;
use crate::input::InputSnapshot;
use crate::player::{Player, GROUND_LEVEL};
use crate::root::{floor_sqrt, isqrt, lemma_floor_sqrt_is};
use crate::units::{saturate, saturate_i128};
use crate::vector::Vec3;

verus! {

/// The pull of gravity in velocity steps per microsecond: 9.81 world units
/// per second squared, downwards.
pub const PLAYER_GRAVITY: i64 = -981;

/// The height that sets the strength of a jump, in position steps: one world
/// unit.
pub const PLAYER_JUMP_HEIGHT: i64 = 100_000_000_000_000;

/// The upward velocity that a jump adds, for a jump height in position steps
/// and a gravity in velocity steps per microsecond: the square root of
/// `height * -3 * gravity`, rounded down to a whole velocity step.
pub open spec fn impulse_for(height: int, gravity: int) -> int {
    floor_sqrt((height * -3 * gravity) as nat) as int
}

/// The upward velocity that a jump adds, in velocity steps.
pub open spec fn jump_impulse() -> int {
    impulse_for(PLAYER_JUMP_HEIGHT as int, PLAYER_GRAVITY as int)
}

/// A jump adds a little more than 5.42 world units per second.
pub proof fn lemma_jump_impulse()
    ensures
        jump_impulse() == 542_494_239,
{
    lemma_floor_sqrt_is(294_300_000_000_000_000, 542_494_239);
}

impl Player {
    /// The vertical velocity once the ground has stopped a fall: a player on
    /// the ground does not keep a downward velocity.
    pub open spec fn settled_velocity(self) -> int {
        if self.grounded() && self.vertical_velocity < 0 {
            0
        } else {
            self.vertical_velocity as int
        }
    }

    /// The vertical velocity after the jump key has had its say: held on the
    /// ground it adds the jump impulse, in the air it does nothing.
    pub open spec fn launch_velocity(self, jump: bool) -> int {
        self.settled_velocity() + (if jump && self.grounded() {
            jump_impulse()
        } else {
            0
        })
    }

    /// The player after one frame of gravity: the velocity settled, launched
    /// and pulled down for `dt` microseconds, then the height moved by the
    /// new velocity and held at the ground. Nothing moves in the plane.
    pub open spec fn after_gravity(self, input: InputSnapshot, dt: u32) -> Player {
        let velocity = saturate(self.launch_velocity(input.jump) + PLAYER_GRAVITY * dt);
        let height = saturate(self.position.y + velocity * dt);
        Player {
            position: Vec3 {
                x: self.position.x,
                y: if height <= GROUND_LEVEL {
                    GROUND_LEVEL
                } else {
                    height
                },
                z: self.position.z,
            },
            vertical_velocity: velocity,
        }
    }
}

/// A landing is forgotten: a player on the ground that was still falling
/// goes on as if it had been at rest.
pub proof fn lemma_landing_resets_velocity(p: Player, input: InputSnapshot, dt: u32)
    requires
        p.grounded(),
        p.vertical_velocity < 0,
    ensures
        p.after_gravity(input, dt) == (Player { vertical_velocity: 0, ..p }).after_gravity(
            input,
            dt,
        ),
        p.after_gravity(input, dt).vertical_velocity == (if input.jump {
            jump_impulse()
        } else {
            0
        }) + PLAYER_GRAVITY * dt,
{
    lemma_jump_impulse();
}

/// A frame of gravity leaves the player at or above the ground, wherever it
/// was and however fast it fell.
pub proof fn lemma_ground_clamp(p: Player, input: InputSnapshot, dt: u32)
    ensures
        p.after_gravity(input, dt).position.y >= GROUND_LEVEL,
{
}

/// After a frame of gravity the player counts as on the ground exactly when
/// the new velocity has carried its height to the ground level or below, and
/// it then stands exactly at the ground level; otherwise it is in the air at
/// the height it has reached.
pub proof fn lemma_lands_or_flies(p: Player, input: InputSnapshot, dt: u32)
    ensures
        ({
            let q = p.after_gravity(input, dt);
            let reached = saturate(p.position.y + q.vertical_velocity * dt);
            &&& q.grounded() <==> reached <= GROUND_LEVEL
            &&& q.grounded() <==> q.position.y == GROUND_LEVEL
            &&& !q.grounded() ==> q.position.y == reached
        }),
{
}

/// Without a jump, a player that is not rising does not rise. In the air it
/// comes down, by at least one step in any frame that takes time, and never
/// through the ground; on the ground it stays at the ground level.
pub proof fn lemma_fall_descends(p: Player, input: InputSnapshot, dt: u32)
    requires
        p.vertical_velocity <= 0,
        !(input.jump && p.grounded()),
    ensures
        p.after_gravity(input, dt).vertical_velocity <= 0,
        p.grounded() ==> p.after_gravity(input, dt).position.y == GROUND_LEVEL,
        !p.grounded() ==> GROUND_LEVEL <= p.after_gravity(input, dt).position.y
            <= p.position.y,
        !p.grounded() && dt > 0 ==> p.after_gravity(input, dt).position.y < p.position.y,
{
    let pull = PLAYER_GRAVITY * dt;
    assert(pull <= 0 && (dt > 0 ==> pull < 0)) by (nonlinear_arith)
        requires
            pull == PLAYER_GRAVITY * dt,
            PLAYER_GRAVITY == -981,
            dt >= 0,
    ;
    let velocity = saturate(p.launch_velocity(input.jump) + pull);
    assert(velocity <= 0 && (dt > 0 ==> velocity < 0));
    assert(velocity * dt <= 0 && (dt > 0 && velocity < 0 ==> velocity * dt < 0))
        by (nonlinear_arith)
        requires
            velocity <= 0,
            dt >= 0,
    ;
}

/// The upward velocity that a jump adds.
pub fn jump_velocity() -> (v: i64)
    ensures
        v == jump_impulse(),
        v == 542_494_239,
{
    assert(PLAYER_JUMP_HEIGHT * -3 * PLAYER_GRAVITY == 294_300_000_000_000_000)
        by (nonlinear_arith);
    proof {
        lemma_jump_impulse();
    }
    isqrt((PLAYER_JUMP_HEIGHT * -3 * PLAYER_GRAVITY) as u64) as i64
}

/// Lets the player fall, land and jump for a frame of `dt` microseconds.
///
/// Whether the player is on the ground is read from its height before
/// anything moves. On the ground a downward velocity is dropped, and a held
/// jump key adds the jump impulse, in every frame in which it is held there.
/// Then gravity changes the velocity, the new velocity changes the height,
/// and a height at or below the ground becomes the ground level; the
/// velocity of that landing stays until the next frame drops it.
/// Velocity and height stop at the ends of the machine range.
pub fn player_gravity(player: &mut Player, input: &InputSnapshot, dt: u32)
    ensures
        *final(player) == old(player).after_gravity(*input, dt),
        final(player).position.y >= GROUND_LEVEL,
        old(player).grounded() && old(player).vertical_velocity < 0 ==> {
            final(player).vertical_velocity == (if input.jump {
                jump_impulse()
            } else {
                0
            }) + PLAYER_GRAVITY * dt
        },
{
    let grounded: bool = player.is_grounded();
    let mut velocity: i128 = player.vertical_velocity as i128;
    if grounded && velocity < 0 {
        velocity = 0;
    }
    if input.jump && grounded {
        velocity = velocity + jump_velocity() as i128;
    }
    assert(PLAYER_GRAVITY * dt == -981 * dt) by (nonlinear_arith)
        requires
            PLAYER_GRAVITY == -981,
    ;
    velocity = velocity + PLAYER_GRAVITY as i128 * dt as i128;
    player.vertical_velocity = saturate_i128(velocity);
    assert(-0x8000_0000_0000_0000 * 0xFFFF_FFFF <= player.vertical_velocity * dt
        <= 0x8000_0000_0000_0000 * 0xFFFF_FFFF) by (nonlinear_arith)
        requires
            -0x8000_0000_0000_0000 <= player.vertical_velocity <= 0x8000_0000_0000_0000,
            0 <= dt <= 0xFFFF_FFFF,
    ;
    let height: i128 = player.position.y as i128 + player.vertical_velocity as i128 * dt as i128;
    player.position.y = saturate_i128(height);
    if player.position.y <= GROUND_LEVEL {
        player.position.y = GROUND_LEVEL;
    }
}

} // verus!
