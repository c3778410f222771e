//! Camera and controller behaviour on concrete poses and input runs.

use scene_camera::camera::{Camera, TrigSamples};
use scene_camera::controller::{CameraController, Direction};
use scene_camera::fixed::SCALE;

/// Scaled trigonometric samples for a pitch/yaw pair given in radians.
fn samples(pitch: f64, yaw: f64) -> TrigSamples {
    TrigSamples {
        sin_pitch: (pitch.sin() * 1e6).round() as i64,
        cos_pitch: (pitch.cos() * 1e6).round() as i64,
        sin_yaw: (yaw.sin() * 1e6).round() as i64,
        cos_yaw: (yaw.cos() * 1e6).round() as i64,
    }
}

/// 16:9, scaled.
fn wide_aspect() -> i64 {
    16 * SCALE / 9
}

#[test]
fn forward_is_negative_z_at_rest() {
    // Camera at (0, 1, 2), pitch = 0, yaw = 0: the forward vector is
    // (0, 0, -1) exactly.
    let camera = Camera::new(wide_aspect());
    let t = samples(0.0, 0.0);
    let f = camera.get_camera_forward(&t);
    assert_eq!(f.x, 0);
    assert_eq!(f.y, 0);
    assert_eq!(f.z, -SCALE);
}

#[test]
fn forward_has_unit_length_across_poses() {
    // For a spread of pitch/yaw pairs the forward vector has unit length
    // within a few micro-units.
    let pairs = [
        (0.0, 0.0),
        (0.3, 1.2),
        (-0.7, 2.9),
        (1.5, -0.4),
        (-1.58, 3.14),
        (0.001, -2.0),
        (0.785, 0.785),
    ];
    let camera = Camera::new(wide_aspect());
    for &(p, y) in pairs.iter() {
        let t = samples(p, y);
        let f = camera.get_camera_forward(&t);
        let sq = (f.x as i128) * (f.x as i128) + (f.y as i128) * (f.y as i128) + (f.z as i128)
            * (f.z as i128);
        let unit = (SCALE as i128) * (SCALE as i128);
        let err = if sq > unit { sq - unit } else { unit - sq };
        // The proved bound is 2*eps + 4*SCALE + 2 with eps the samples'
        // Pythagorean error; rounding to the nearest micro-unit keeps eps
        // within about 2*SCALE + 1.
        assert!(err <= 10 * (SCALE as i128), "forward not unit at ({p}, {y}): err {err}");
    }
}

#[test]
fn forward_press_moves_one_tenth() {
    // Speed 0.1, forward pressed: the camera walks from (0, 1, 2) to
    // (0, 1, 1.9), exactly.
    let mut camera = Camera::new(wide_aspect());
    let mut controller = CameraController::new(100_000, 1_000);
    controller.set_key(Direction::Forward, true);
    let t = samples(0.0, 0.0);
    controller.update_camera(&mut camera, &t);
    assert_eq!(camera.position.x, 0);
    assert_eq!(camera.position.y, SCALE);
    assert_eq!(camera.position.z, 1_900_000);
}

#[test]
fn strafe_follows_the_right_vector() {
    // Yaw a quarter turn: forward is +x, so the right vector is +z and
    // strafing right moves the camera along +z by one speed step.
    let mut camera = Camera::new(wide_aspect());
    let mut controller = CameraController::new(100_000, 1_000);
    controller.set_key(Direction::Right, true);
    let t = samples(0.0, std::f64::consts::FRAC_PI_2);
    controller.update_camera(&mut camera, &t);
    assert_eq!(camera.position.x, 0);
    assert_eq!(camera.position.y, SCALE);
    assert_eq!(camera.position.z, 2_100_000);
}

#[test]
fn forward_and_backward_cancel() {
    // Both keys pressed at once: the position does not move at all.
    let mut camera = Camera::new(wide_aspect());
    let mut controller = CameraController::new(100_000, 1_000);
    controller.set_key(Direction::Forward, true);
    controller.set_key(Direction::Backward, true);
    let t = samples(0.4, 1.1);
    let before = camera.position;
    controller.update_camera(&mut camera, &t);
    assert_eq!(camera.position, before);
}

#[test]
fn forward_and_backward_cancel_leaving_strafe() {
    // With forward, backward and right all pressed, the move equals the
    // move of right alone.
    let t = samples(-0.2, 0.9);
    let mut camera_all = Camera::new(wide_aspect());
    let mut controller_all = CameraController::new(100_000, 1_000);
    controller_all.set_key(Direction::Forward, true);
    controller_all.set_key(Direction::Backward, true);
    controller_all.set_key(Direction::Right, true);
    controller_all.update_camera(&mut camera_all, &t);

    let mut camera_strafe = Camera::new(wide_aspect());
    let mut controller_strafe = CameraController::new(100_000, 1_000);
    controller_strafe.set_key(Direction::Right, true);
    controller_strafe.update_camera(&mut camera_strafe, &t);

    assert_eq!(camera_all.position, camera_strafe.position);
}

#[test]
fn mouse_motion_turns_yaw_exactly() {
    // record_motion(100, 0) with sensitivity 0.001 turns yaw by exactly
    // 0.1 radians and leaves pitch alone.
    let mut camera = Camera::new(wide_aspect());
    let mut controller = CameraController::new(100_000, 1_000);
    controller.record_motion(100, 0);
    let t = samples(0.0, 0.0);
    controller.update_camera(&mut camera, &t);
    assert_eq!(camera.yaw, 100_000);
    assert_eq!(camera.pitch, 0);
    assert_eq!(controller.mouse_delta, (0, 0));
}

#[test]
fn motions_accumulate_between_applies() {
    // Three recorded motions sum: the change is sensitivity times the
    // componentwise sum, and the delta is cleared by the apply.
    let mut camera = Camera::new(wide_aspect());
    let mut controller = CameraController::new(0, 1_000);
    controller.record_motion(40, -5);
    controller.record_motion(-15, 25);
    controller.record_motion(100, 10);
    assert_eq!(controller.mouse_delta, (125, 30));
    let t = samples(0.0, 0.0);
    let yaw0 = camera.yaw;
    let pitch0 = camera.pitch;
    controller.update_camera(&mut camera, &t);
    assert_eq!(camera.yaw - yaw0, 125 * 1_000);
    assert_eq!(pitch0 - camera.pitch, 30 * 1_000);
    assert_eq!(controller.mouse_delta, (0, 0));
    // A second apply with nothing recorded changes nothing further.
    let yaw1 = camera.yaw;
    controller.update_camera(&mut camera, &t);
    assert_eq!(camera.yaw, yaw1);
}

#[test]
fn pitch_is_not_clamped_at_vertical() {
    // The design leaves pitch unclamped: a large downward delta turns the
    // camera past the vertical.
    let mut camera = Camera::new(wide_aspect());
    let mut controller = CameraController::new(0, 1_000);
    controller.record_motion(0, -4_000);
    let t = samples(0.0, 0.0);
    controller.update_camera(&mut camera, &t);
    // 4000 counts at 0.001 rad per count: pitch is 4 radians, well past
    // a quarter turn.
    assert_eq!(camera.pitch, 4_000_000);
}

#[test]
fn set_key_is_idempotent() {
    let mut controller = CameraController::new(100_000, 1_000);
    controller.set_key(Direction::Left, true);
    let once = controller;
    controller.set_key(Direction::Left, true);
    assert_eq!(controller, once);
    assert!(controller.left_pressed);
    assert!(!controller.right_pressed);
}

#[test]
fn new_camera_has_documented_defaults() {
    let camera = Camera::new(wide_aspect());
    assert_eq!(camera.position.x, 0);
    assert_eq!(camera.position.y, SCALE);
    assert_eq!(camera.position.z, 2 * SCALE);
    assert_eq!(camera.pitch, 0);
    assert_eq!(camera.yaw, 0);
    assert_eq!((camera.up.x, camera.up.y, camera.up.z), (0, SCALE, 0));
    assert_eq!(camera.fovy, 45 * SCALE);
    assert_eq!(camera.znear, SCALE / 100);
    assert_eq!(camera.zfar, 100 * SCALE);
}
