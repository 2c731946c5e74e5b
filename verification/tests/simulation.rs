use player_kinematics::camera::{camera_movement, Camera};
use player_kinematics::gravity::player_gravity;
use player_kinematics::input::{InputSnapshot, Key};
use player_kinematics::locomotion::player_movement;
use player_kinematics::player::{Player, GROUND_LEVEL};
use player_kinematics::simulation::{Frame, SetupError, Simulation};
use player_kinematics::units::POSITION_SCALE;
use player_kinematics::vector::Vec3;

fn keys(index: u32) -> InputSnapshot {
    InputSnapshot {
        left: index & 1 != 0,
        right: index & 2 != 0,
        forward: index & 4 != 0,
        back: index & 8 != 0,
        jump: index & 16 != 0,
    }
}

#[test]
fn new_simulation_starts_the_scene() {
    let sim = Simulation::new();
    assert_eq!(sim.player, Player::new());
    assert_eq!(sim.player.position, Vec3::from_units(0, 10, 0));
    assert_eq!(sim.player.vertical_velocity, 0);
    assert_eq!(sim.camera, Camera::new());
    assert_eq!(sim.camera.position, Vec3::from_units(0, 15, 15));
}

#[test]
fn assemble_takes_the_one_player_and_the_one_camera() {
    let player = Player::at(Vec3::from_units(1, 2, 3));
    let camera = Camera { position: Vec3::new(4, 5, 6), forward: Vec3::new(0, 0, -1) };
    let sim = Simulation::assemble(&vec![player], &vec![camera]);
    assert_eq!(sim, Ok(Simulation { player, camera }));
}

#[test]
fn assemble_without_player_fails() {
    assert_eq!(Simulation::assemble(&vec![], &vec![Camera::new()]), Err(SetupError::NoPlayer));
    assert_eq!(Simulation::assemble(&vec![], &vec![]), Err(SetupError::NoPlayer));
    assert_eq!(
        Simulation::assemble(&vec![], &vec![Camera::new(), Camera::new()]),
        Err(SetupError::NoPlayer)
    );
}

#[test]
fn assemble_with_several_players_fails() {
    let two = vec![Player::new(), Player::new()];
    assert_eq!(Simulation::assemble(&two, &vec![Camera::new()]), Err(SetupError::MultiplePlayers));
    assert_eq!(Simulation::assemble(&two, &vec![]), Err(SetupError::MultiplePlayers));
    let three = vec![Player::new(), Player::new(), Player::new()];
    assert_eq!(
        Simulation::assemble(&three, &vec![Camera::new()]),
        Err(SetupError::MultiplePlayers)
    );
}

#[test]
fn assemble_without_camera_fails() {
    assert_eq!(Simulation::assemble(&vec![Player::new()], &vec![]), Err(SetupError::NoCamera));
}

#[test]
fn assemble_with_several_cameras_fails() {
    assert_eq!(
        Simulation::assemble(&vec![Player::new()], &vec![Camera::new(), Camera::new()]),
        Err(SetupError::MultipleCameras)
    );
}

#[test]
fn step_walks_then_falls_then_moves_the_camera() {
    for index in 0..32 {
        for dt in [0u32, 1, 16_667, 100_000, 1_000_000] {
            let input = keys(index);
            let mut sim = Simulation::new();
            sim.step(&input, dt);

            let mut player = Player::new();
            let mut camera = Camera::new();
            player_movement(&mut player, &input, dt);
            player_gravity(&mut player, &input, dt);
            camera_movement(&player, &mut camera);
            assert_eq!(sim, Simulation { player, camera });
        }
    }
}

#[test]
fn step_forward_from_the_ground() {
    let mut sim = Simulation { player: Player::at(Vec3::from_units(0, 1, 0)), camera: Camera::new() };
    sim.step(&InputSnapshot::none().with(Key::MoveForward), 1_000_000);
    assert_eq!(sim.player.position, Vec3::from_units(0, 1, -5));
    assert_eq!(sim.camera.position, Vec3::from_units(0, 16, 10));
    assert_eq!(sim.player.vertical_velocity, -981_000_000);
}

#[test]
fn run_is_step_after_step() {
    let frames: Vec<Frame> =
        (0..200u32).map(|i| Frame { input: keys(i * 7 + 3), dt: 1_000 + i * 250 }).collect();
    let mut ran = Simulation::new();
    ran.run(&frames);
    let mut stepped = Simulation::new();
    for frame in &frames {
        stepped.step(&frame.input, frame.dt);
    }
    assert_eq!(ran, stepped);
    assert_ne!(ran, Simulation::new());
}

#[test]
fn run_without_frames_changes_nothing() {
    let mut sim = Simulation { player: Player::at(Vec3::new(1, 2, 3)), camera: Camera::new() };
    let before = sim;
    sim.run(&vec![]);
    assert_eq!(sim, before);
}

#[test]
fn every_frame_keeps_the_player_up_and_the_camera_behind() {
    let mut sim = Simulation::new();
    let forward = sim.camera.forward;
    for i in 0..2_000u32 {
        sim.step(&keys(i / 13), 16_667);
        assert!(sim.player.position.y >= GROUND_LEVEL);
        assert_eq!(sim.camera.position.x - sim.player.position.x, 0);
        assert_eq!(sim.camera.position.y - sim.player.position.y, 15 * POSITION_SCALE);
        assert_eq!(sim.camera.position.z - sim.player.position.z, 15 * POSITION_SCALE);
        assert_eq!(sim.camera.forward, forward);
    }
}

#[test]
fn same_frames_give_the_same_run() {
    let frames: Vec<Frame> =
        (0..500u32).map(|i| Frame { input: keys(i / 5), dt: 8_000 + (i % 7) * 1_000 }).collect();
    let mut first = Simulation::new();
    let mut second = Simulation::new();
    first.run(&frames);
    second.run(&frames);
    assert_eq!(first, second);
}

#[test]
fn a_jump_goes_up_and_comes_back() {
    let mut sim = Simulation { player: Player::at(Vec3::from_units(0, 1, 0)), camera: Camera::new() };
    sim.step(&InputSnapshot::none().with(Key::Jump), 10_000);
    assert!(sim.player.position.y > GROUND_LEVEL);
    let mut top = sim.player.position.y;
    let mut frames = 0;
    while sim.player.position.y > GROUND_LEVEL {
        sim.step(&InputSnapshot::none(), 10_000);
        if sim.player.position.y > top {
            top = sim.player.position.y;
        }
        frames += 1;
        assert!(frames < 1_000);
    }
    assert_eq!(sim.player.position.y, GROUND_LEVEL);
    let height = (top - GROUND_LEVEL) as f64 / POSITION_SCALE as f64;
    assert!((height - 1.5).abs() < 0.05);
}
