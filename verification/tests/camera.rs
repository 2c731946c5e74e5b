use player_kinematics::camera::{
    camera_movement, camera_offset, Camera, CAMERA_RISE, CAMERA_SETBACK,
};
use player_kinematics::player::Player;
use player_kinematics::units::POSITION_SCALE;
use player_kinematics::vector::Vec3;

#[test]
fn camera_offset_is_fifteen_up_and_fifteen_back() {
    assert_eq!(camera_offset(), Vec3::from_units(0, 15, 15));
    assert_eq!(CAMERA_RISE, 15 * POSITION_SCALE);
    assert_eq!(CAMERA_SETBACK, 15 * POSITION_SCALE);
}

#[test]
fn new_camera_looks_down_at_the_player_spot() {
    let camera = Camera::new();
    assert_eq!(camera.position, Vec3::from_units(0, 15, 15));
    assert_eq!(camera.forward, Vec3::from_units(0, -14, -15));
    let target = camera.position.offset_by(&camera.forward);
    assert_eq!(target, Vec3::from_units(0, 1, 0));
}

#[test]
fn camera_rigid_offset() {
    let places = [
        Vec3::from_units(0, 1, 0),
        Vec3::from_units(0, 10, 0),
        Vec3::from_units(-7, 3, 12),
        Vec3::new(123_456_789, POSITION_SCALE + 1, -987_654_321),
        Vec3::new(i64::MIN, i64::MIN, i64::MIN),
        Vec3::new(i64::MAX, i64::MAX - CAMERA_RISE, i64::MAX - CAMERA_SETBACK),
    ];
    for place in places {
        let player = Player::at(place);
        let mut camera = Camera::new();
        camera_movement(&player, &mut camera);
        assert_eq!(camera.position.x - player.position.x, 0);
        assert_eq!(camera.position.y - player.position.y, 15 * POSITION_SCALE);
        assert_eq!(camera.position.z - player.position.z, 15 * POSITION_SCALE);
    }
}

#[test]
fn camera_follows_at_once() {
    let mut camera = Camera::new();
    camera_movement(&Player::at(Vec3::from_units(100, 1, -100)), &mut camera);
    assert_eq!(camera.position, Vec3::from_units(100, 16, -85));
    camera_movement(&Player::at(Vec3::from_units(-3, 2, 4)), &mut camera);
    assert_eq!(camera.position, Vec3::from_units(-3, 17, 19));
}

#[test]
fn camera_does_not_turn() {
    let mut camera = Camera { position: Vec3::new(1, 2, 3), forward: Vec3::new(4, -5, 6) };
    camera_movement(&Player::new(), &mut camera);
    assert_eq!(camera.forward, Vec3::new(4, -5, 6));
    assert_eq!(camera.position, Vec3::from_units(0, 25, 15));
}

#[test]
fn camera_stops_at_the_end_of_the_range() {
    let player = Player::at(Vec3::new(i64::MAX, i64::MAX, i64::MAX - 1));
    let mut camera = Camera::new();
    camera_movement(&player, &mut camera);
    assert_eq!(camera.position, Vec3::new(i64::MAX, i64::MAX, i64::MAX));
}
