//! The instanced grid and the flattened model matrices.

use nalgebra::{Matrix4, Translation3, UnitQuaternion, Unit, Vector3};
use scene_camera::fixed::SCALE;
use scene_camera::instance::{build_instance_grid, Instance, Quat};
use scene_camera::matrix::Mat4;
use scene_camera::vec3::Vec3;

/// Sine and cosine of half of 45 degrees, scaled.
fn sin_half_45() -> i64 {
    382_683
}

fn cos_half_45() -> i64 {
    923_880
}

#[test]
fn grid_count_is_dimension_squared() {
    let g = build_instance_grid(10, 3 * SCALE, sin_half_45(), cos_half_45());
    assert_eq!(g.len(), 100);
    let g1 = build_instance_grid(1, 3 * SCALE, sin_half_45(), cos_half_45());
    assert_eq!(g1.len(), 1);
}

#[test]
fn grid_translations_are_centered() {
    // dim 2, spacing 3: displacement 1.5, cells at -1.5 and +1.5 on x and
    // z, row-major.
    let g = build_instance_grid(2, 3 * SCALE, sin_half_45(), cos_half_45());
    let want = [
        (-1_500_000, -1_500_000),
        (-1_500_000, 1_500_000),
        (1_500_000, -1_500_000),
        (1_500_000, 1_500_000),
    ];
    for (inst, &(wx, wz)) in g.iter().zip(want.iter()) {
        assert_eq!(inst.translation.x, wx);
        assert_eq!(inst.translation.y, 0);
        assert_eq!(inst.translation.z, wz);
    }
}

#[test]
fn rotation_axis_follows_the_translation() {
    // A cell on the positive x-axis turns about (1, 0, 0): the quaternion
    // is (sin_half, 0, 0, cos_half).
    let g = build_instance_grid(3, 4 * SCALE, sin_half_45(), cos_half_45());
    // dim 3, spacing 4: displacement (2*4)/2 = 4; cell (2, 1) sits at
    // x = 8 - 4 = 4, z = 4 - 4 = 0.
    let inst = g[2 * 3 + 1];
    assert_eq!(inst.translation.x, 4 * SCALE);
    assert_eq!(inst.translation.z, 0);
    assert_eq!(inst.rotation.x, sin_half_45());
    assert_eq!(inst.rotation.y, 0);
    assert_eq!(inst.rotation.z, 0);
    assert_eq!(inst.rotation.w, cos_half_45());
}

#[test]
fn degenerate_center_cell_falls_back_to_vertical_axis() {
    // With an odd dimension the center cell's translation is the zero
    // vector; its axis cannot be normalized and falls back to +y.
    let g = build_instance_grid(3, 2 * SCALE, sin_half_45(), cos_half_45());
    let center = g[1 * 3 + 1];
    assert_eq!(
        (center.translation.x, center.translation.y, center.translation.z),
        (0, 0, 0)
    );
    assert_eq!(center.rotation.x, 0);
    assert_eq!(center.rotation.y, sin_half_45());
    assert_eq!(center.rotation.z, 0);
    assert_eq!(center.rotation.w, cos_half_45());
}

#[test]
fn model_matrix_is_a_pure_function_of_the_instance() {
    // The same instance flattens to the same matrix, call after call.
    let inst = Instance {
        translation: Vec3 { x: 1_500_000, y: 0, z: -1_500_000 },
        rotation: Quat { x: 270_598, y: 0, z: -270_598, w: 923_880 },
    };
    let a = inst.to_model_matrix();
    let b = inst.to_model_matrix();
    assert_eq!(a, b);
    let copy = inst;
    assert_eq!(copy.to_model_matrix(), a);
}

#[test]
fn identity_rotation_flattens_to_translation_matrix() {
    let inst = Instance {
        translation: Vec3 { x: 2 * SCALE, y: -SCALE, z: 5 * SCALE },
        rotation: Quat { x: 0, y: 0, z: 0, w: SCALE },
    };
    let m = inst.to_model_matrix();
    assert_eq!((m.m00, m.m01, m.m02, m.m03), (SCALE, 0, 0, 2 * SCALE));
    assert_eq!((m.m10, m.m11, m.m12, m.m13), (0, SCALE, 0, -SCALE));
    assert_eq!((m.m20, m.m21, m.m22, m.m23), (0, 0, SCALE, 5 * SCALE));
    assert_eq!((m.m30, m.m31, m.m32, m.m33), (0, 0, 0, SCALE));
}

#[test]
fn model_matrix_matches_float_construction() {
    // Translation times axis-angle rotation, against nalgebra in double
    // precision.
    let g = build_instance_grid(2, 3 * SCALE, sin_half_45(), cos_half_45());
    for inst in g.iter() {
        let m: Mat4 = inst.to_model_matrix();
        let t = Vector3::new(
            inst.translation.x as f64 / 1e6,
            inst.translation.y as f64 / 1e6,
            inst.translation.z as f64 / 1e6,
        );
        let axis = Unit::new_normalize(t);
        let angle = 45.0_f64.to_radians();
        let rot = UnitQuaternion::from_axis_angle(&axis, angle).to_homogeneous();
        let want: Matrix4<f64> = Translation3::from(t).to_homogeneous() * rot;
        let got = [
            [m.m00, m.m01, m.m02, m.m03],
            [m.m10, m.m11, m.m12, m.m13],
            [m.m20, m.m21, m.m22, m.m23],
            [m.m30, m.m31, m.m32, m.m33],
        ];
        for r in 0..4 {
            for c in 0..4 {
                let diff = (got[r][c] as f64 / 1e6 - want[(r, c)]).abs();
                assert!(
                    diff < 2e-3,
                    "entry ({r},{c}): got {} want {}",
                    got[r][c] as f64 / 1e6,
                    want[(r, c)]
                );
            }
        }
    }
}
