//! One frame after another: walking, then gravity, then the camera.

use vstd::prelude::*;
use crate::camera::{camera_movement, camera_offset, offset, Camera};
use crate::gravity::player_gravity;
use crate::input::InputSnapshot;
use crate::locomotion::player_movement;
use crate::player::{Player, GROUND_LEVEL};

verus! {

/// What the host hands over for one frame: the keys that are held and the
/// time since the frame before, in microseconds.
#[derive(Clone, Copy, Debug, PartialEq, Eq, Structural)]
pub struct Frame {
    pub input: InputSnapshot,
    pub dt: u32,
}

/// Why a scene cannot be simulated: it must hold exactly one player and
/// exactly one camera.
#[derive(Clone, Copy, Debug, PartialEq, Eq, Structural)]
pub enum SetupError {
    /// There is no player to move.
    NoPlayer,
    /// There is more than one player, so the controls have no one target.
    MultiplePlayers,
    /// There is no camera to follow the player.
    NoCamera,
    /// There is more than one camera.
    MultipleCameras,
}

/// The player and the camera that follows it.
#[derive(Clone, Copy, Debug, PartialEq, Eq, Structural)]
pub struct Simulation {
    pub player: Player,
    pub camera: Camera,
}

impl Simulation {
    /// The state after one frame: the player has walked, then fallen or
    /// jumped, and the camera has then moved to its place behind the player.
    pub open spec fn after_frame(self, frame: Frame) -> Simulation {
        let player = self.player.after_movement(frame.input, frame.dt).after_gravity(
            frame.input,
            frame.dt,
        );
        Simulation { player, camera: self.camera.tracking(player) }
    }

    /// The state after a run of frames, first to last.
    pub open spec fn after_frames(self, frames: Seq<Frame>) -> Simulation
        decreases frames.len(),
    {
        if frames.len() == 0 {
            self
        } else {
            self.after_frames(frames.drop_last()).after_frame(frames.last())
        }
    }

    /// The scene at its start: the player at rest at the starting height,
    /// the camera at its offset from the origin.
    pub fn new() -> (sim: Simulation)
        ensures
            sim == (Simulation { player: Player::initial(), camera: Camera::initial() }),
    {
        Simulation { player: Player::new(), camera: Camera::new() }
    }

    /// Picks the player and the camera out of what a scene holds. A scene
    /// without exactly one of each cannot be simulated; the players are
    /// looked at first.
    pub fn assemble(players: &Vec<Player>, cameras: &Vec<Camera>) -> (r: Result<
        Simulation,
        SetupError,
    >)
        ensures
            players@.len() == 0 ==> r == Err::<Simulation, SetupError>(SetupError::NoPlayer),
            players@.len() > 1 ==> r == Err::<Simulation, SetupError>(
                SetupError::MultiplePlayers,
            ),
            players@.len() == 1 && cameras@.len() == 0 ==> r == Err::<Simulation, SetupError>(
                SetupError::NoCamera,
            ),
            players@.len() == 1 && cameras@.len() > 1 ==> r == Err::<Simulation, SetupError>(
                SetupError::MultipleCameras,
            ),
            players@.len() == 1 && cameras@.len() == 1 ==> r == Ok::<Simulation, SetupError>(
                Simulation { player: players@[0], camera: cameras@[0] },
            ),
    {
        if players.len() == 0 {
            Err(SetupError::NoPlayer)
        } else if players.len() > 1 {
            Err(SetupError::MultiplePlayers)
        } else if cameras.len() == 0 {
            Err(SetupError::NoCamera)
        } else if cameras.len() > 1 {
            Err(SetupError::MultipleCameras)
        } else {
            Ok(Simulation { player: players[0], camera: cameras[0] })
        }
    }

    /// Advances the scene by one frame of `dt` microseconds: the player
    /// walks, then falls or jumps, then the camera follows.
    pub fn step(&mut self, input: &InputSnapshot, dt: u32)
        ensures
            *final(self) == old(self).after_frame(Frame { input: *input, dt }),
            final(self).player.position.y >= GROUND_LEVEL,
            final(self).camera.forward == old(self).camera.forward,
            final(self).player.position.reaches(camera_offset()) ==> {
                &&& final(self).camera.position.x - final(self).player.position.x
                    == camera_offset().x
                &&& final(self).camera.position.y - final(self).player.position.y
                    == camera_offset().y
                &&& final(self).camera.position.z - final(self).player.position.z
                    == camera_offset().z
            },
    {
        player_movement(&mut self.player, input, dt);
        player_gravity(&mut self.player, input, dt);
        camera_movement(&self.player, &mut self.camera);
    }

    /// Advances the scene by every frame of `frames`, first to last.
    pub fn run(&mut self, frames: &Vec<Frame>)
        ensures
            *final(self) == old(self).after_frames(frames@),
    {
        let mut i: usize = 0;
        while i < frames.len()
            invariant
                i <= frames.len(),
                *self == old(self).after_frames(frames@.take(i as int)),
            decreases frames.len() - i,
        {
            let frame: Frame = frames[i];
            self.step(&frame.input, frame.dt);
            i = i + 1;
            proof {
                assert(frames@.take(i as int).drop_last() =~= frames@.take(i - 1));
            }
        }
        proof {
            assert(frames@.take(frames.len() as int) =~= frames@);
        }
    }
}

/// After every frame the player is at or above the ground, wherever it
/// started and whatever the frames hold.
pub proof fn lemma_never_below_ground(start: Simulation, frames: Seq<Frame>)
    requires
        frames.len() > 0,
    ensures
        start.after_frames(frames).player.position.y >= GROUND_LEVEL,
{
}

/// After every frame the camera stands at its offset from the player,
/// component by component, as long as that place lies inside the machine
/// range.
pub proof fn lemma_camera_keeps_offset(start: Simulation, frames: Seq<Frame>)
    requires
        frames.len() > 0,
        start.after_frames(frames).player.position.reaches(offset()),
    ensures
        ({
            let end = start.after_frames(frames);
            &&& end.camera.position.x - end.player.position.x == offset().x
            &&& end.camera.position.y - end.player.position.y == offset().y
            &&& end.camera.position.z - end.player.position.z == offset().z
        }),
{
}

/// No frame turns the camera.
pub proof fn lemma_camera_never_turns(start: Simulation, frames: Seq<Frame>)
    ensures
        start.after_frames(frames).camera.forward == start.camera.forward,
    decreases frames.len(),
{
    if frames.len() > 0 {
        lemma_camera_never_turns(start, frames.drop_last());
    }
}

} // verus!
