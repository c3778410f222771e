//! View/projection matrices against an independent floating-point
//! construction, and the depth-range constant.

use nalgebra::{Matrix4, Point3, Vector3};
use scene_camera::camera::{Camera, TrigSamples};
use scene_camera::fixed::SCALE;
use scene_camera::matrix::{depth_correction_matrix, Mat4};
use scene_camera::vec3::Vec3;

fn samples(pitch: f64, yaw: f64) -> TrigSamples {
    TrigSamples {
        sin_pitch: (pitch.sin() * 1e6).round() as i64,
        cos_pitch: (pitch.cos() * 1e6).round() as i64,
        sin_yaw: (yaw.sin() * 1e6).round() as i64,
        cos_yaw: (yaw.cos() * 1e6).round() as i64,
    }
}

fn tan_half_of_fovy_degrees(fovy: f64) -> i64 {
    ((fovy.to_radians() / 2.0).tan() * 1e6).round() as i64
}

/// The library matrix, entry by entry, as floats.
fn entries_of(m: &Mat4) -> [[f64; 4]; 4] {
    [
        [m.m00 as f64 / 1e6, m.m01 as f64 / 1e6, m.m02 as f64 / 1e6, m.m03 as f64 / 1e6],
        [m.m10 as f64 / 1e6, m.m11 as f64 / 1e6, m.m12 as f64 / 1e6, m.m13 as f64 / 1e6],
        [m.m20 as f64 / 1e6, m.m21 as f64 / 1e6, m.m22 as f64 / 1e6, m.m23 as f64 / 1e6],
        [m.m30 as f64 / 1e6, m.m31 as f64 / 1e6, m.m32 as f64 / 1e6, m.m33 as f64 / 1e6],
    ]
}

/// The same matrix built by nalgebra in double precision: depth correction
/// times perspective times right-handed look-at.
fn float_view_proj(
    position: (f64, f64, f64),
    pitch: f64,
    yaw: f64,
    aspect: f64,
    fovy_degrees: f64,
    znear: f64,
    zfar: f64,
) -> Matrix4<f64> {
    let eye = Point3::new(position.0, position.1, position.2);
    let forward = Vector3::new(
        pitch.cos() * yaw.sin(),
        pitch.sin(),
        -1.0 * pitch.cos() * yaw.cos(),
    );
    let view = Matrix4::look_at_rh(&eye, &(eye + forward), &Vector3::y());
    let proj = nalgebra::Perspective3::new(aspect, fovy_degrees.to_radians(), znear, zfar);
    let correction = Matrix4::new(
        1.0, 0.0, 0.0, 0.0, 0.0, 1.0, 0.0, 0.0, 0.0, 0.0, 0.5, 0.5, 0.0, 0.0, 0.0, 1.0,
    );
    correction * proj.as_matrix() * view
}

#[test]
fn view_projection_matches_float_construction() {
    // Camera at (0, 1, 2), pitch 0, yaw 0, 16:9, 45 degrees, clips at
    // 0.01 and 100: every entry agrees with nalgebra's double-precision
    // construction to a milli-unit.
    let aspect = 16 * SCALE / 9;
    let camera = Camera::new(aspect);
    let t = samples(0.0, 0.0);
    let th = tan_half_of_fovy_degrees(45.0);
    let m = camera.build_view_projection_matrix(&t, th);
    let got = entries_of(&m);
    let want = float_view_proj(
        (0.0, 1.0, 2.0),
        0.0,
        0.0,
        aspect as f64 / 1e6,
        45.0,
        0.01,
        100.0,
    );
    for r in 0..4 {
        for c in 0..4 {
            let diff = (got[r][c] - want[(r, c)]).abs();
            assert!(diff < 1e-3, "entry ({r},{c}): got {} want {}", got[r][c], want[(r, c)]);
        }
    }
}

#[test]
fn view_projection_matches_float_construction_turned() {
    // The same comparison with a turned and tilted camera.
    let aspect = 16 * SCALE / 9;
    let mut camera = Camera::new(aspect);
    camera.position = Vec3 { x: 3_000_000, y: -1_500_000, z: 7_250_000 };
    camera.pitch = 300_000;
    camera.yaw = -1_100_000;
    let t = samples(0.3, -1.1);
    let th = tan_half_of_fovy_degrees(45.0);
    let m = camera.build_view_projection_matrix(&t, th);
    let got = entries_of(&m);
    let want = float_view_proj(
        (3.0, -1.5, 7.25),
        0.3,
        -1.1,
        aspect as f64 / 1e6,
        45.0,
        0.01,
        100.0,
    );
    for r in 0..4 {
        for c in 0..4 {
            let diff = (got[r][c] - want[(r, c)]).abs();
            assert!(diff < 2e-3, "entry ({r},{c}): got {} want {}", got[r][c], want[(r, c)]);
        }
    }
}

#[test]
fn look_target_lands_in_front() {
    // Applying the view-projection matrix to the camera's own look target
    // gives a positive clip-space w (the target sits on the negative
    // eye-space z-axis), and the view matrix alone maps it to negative z.
    let aspect = 16 * SCALE / 9;
    let camera = Camera::new(aspect);
    let t = samples(0.0, 0.0);
    let th = tan_half_of_fovy_degrees(45.0);
    let forward = camera.get_camera_forward(&t);
    let target = Vec3 {
        x: camera.position.x + forward.x,
        y: camera.position.y + forward.y,
        z: camera.position.z + forward.z,
    };

    let view = camera.build_view_matrix(&t);
    let eye_space = view.apply_point(target);
    assert!(eye_space.2 < 0, "target behind the camera: z {}", eye_space.2);
    // One unit ahead: z is -1.0 within rounding.
    assert!((eye_space.2 + 1_000_000).abs() <= 5, "eye-space z {}", eye_space.2);

    let vp = camera.build_view_projection_matrix(&t, th);
    let clip = vp.apply_point(target);
    assert!(clip.3 > 0, "clip w not positive: {}", clip.3);
}

#[test]
fn uniform_snapshots_the_view_projection() {
    let camera = Camera::new(16 * SCALE / 9);
    let t = samples(0.1, -0.2);
    let th = tan_half_of_fovy_degrees(45.0);
    let u = camera.get_uniform(&t, th);
    assert_eq!(u.view_proj, camera.build_view_projection_matrix(&t, th));
}

#[test]
fn depth_correction_is_the_documented_constant() {
    // The named constant: identity, except the third row averages z and w.
    let d = depth_correction_matrix();
    assert_eq!(
        (d.m00, d.m01, d.m02, d.m03),
        (SCALE, 0, 0, 0)
    );
    assert_eq!(
        (d.m10, d.m11, d.m12, d.m13),
        (0, SCALE, 0, 0)
    );
    assert_eq!(
        (d.m20, d.m21, d.m22, d.m23),
        (0, 0, SCALE / 2, SCALE / 2)
    );
    assert_eq!(
        (d.m30, d.m31, d.m32, d.m33),
        (0, 0, 0, SCALE)
    );
}

#[test]
fn near_and_far_map_to_unit_depth_range() {
    // A point on the near plane maps to depth 0, one on the far plane to
    // depth 1 (after the perspective divide), within rounding: the
    // correction remaps [-1, 1] to [0, 1].
    let aspect = SCALE;  // square, so the axis math stays simple
    let camera = Camera::new(aspect);
    let t = samples(0.0, 0.0);
    let th = tan_half_of_fovy_degrees(45.0);
    let vp = camera.build_view_projection_matrix(&t, th);
    // The camera sits at (0, 1, 2) looking along -z: the near plane is at
    // z = 2 - 0.01, the far plane at z = 2 - 100.
    let near_point = Vec3 { x: 0, y: SCALE, z: 2 * SCALE - SCALE / 100 };
    let far_point = Vec3 { x: 0, y: SCALE, z: 2 * SCALE - 100 * SCALE };
    let near_clip = vp.apply_point(near_point);
    let far_clip = vp.apply_point(far_point);
    let near_depth = near_clip.2 as f64 / near_clip.3 as f64;
    let far_depth = far_clip.2 as f64 / far_clip.3 as f64;
    assert!(near_depth.abs() < 1e-3, "near depth {near_depth}");
    assert!((far_depth - 1.0).abs() < 1e-3, "far depth {far_depth}");
}
