//! Fixed-point scalar and vector primitives on concrete values.

use scene_camera::fixed::{isqrt, scale_mul, SCALE};
use scene_camera::vec3::Vec3;

#[test]
fn scaled_products_truncate_toward_zero() {
    // 1.5 * 2.5 = 3.75
    assert_eq!(scale_mul(1_500_000, 2_500_000), 3_750_000);
    // Signs: truncation is symmetric about zero.
    assert_eq!(scale_mul(-1_500_000, 2_500_000), -3_750_000);
    assert_eq!(scale_mul(7, 7), 0);
    assert_eq!(scale_mul(-7, 7), 0);
    assert_eq!(scale_mul(999_999, 999_999), 999_998);
    assert_eq!(scale_mul(-999_999, 999_999), -999_998);
    assert_eq!(scale_mul(SCALE, SCALE), SCALE);
}

#[test]
fn integer_square_roots_are_floors() {
    assert_eq!(isqrt(0), 0);
    assert_eq!(isqrt(1), 1);
    assert_eq!(isqrt(2), 1);
    assert_eq!(isqrt(3), 1);
    assert_eq!(isqrt(4), 2);
    assert_eq!(isqrt(999_999), 999);
    assert_eq!(isqrt(1_000_000), 1000);
    assert_eq!(isqrt(2_000_000_000_000), 1_414_213);
    assert_eq!(isqrt(u64::MAX as u128), 4_294_967_295);
}

#[test]
fn vector_algebra_on_concrete_values() {
    let a = Vec3 { x: 1_000_000, y: 2_000_000, z: -500_000 };
    let b = Vec3 { x: -250_000, y: 1_000_000, z: 4_000_000 };
    let sum = a.add(b);
    assert_eq!((sum.x, sum.y, sum.z), (750_000, 3_000_000, 3_500_000));
    let diff = a.sub(b);
    assert_eq!((diff.x, diff.y, diff.z), (1_250_000, 1_000_000, -4_500_000));
    // 1*(-0.25) + 2*1 + (-0.5)*4 = -0.25
    assert_eq!(a.dot(b), -250_000);
    // (1, 0, 0) x (0, 1, 0) = (0, 0, 1)
    let x_axis = Vec3 { x: SCALE, y: 0, z: 0 };
    let y_axis = Vec3 { x: 0, y: SCALE, z: 0 };
    let c = x_axis.cross(y_axis);
    assert_eq!((c.x, c.y, c.z), (0, 0, SCALE));
}

#[test]
fn normalization_yields_unit_vectors() {
    // (3, 4, 0) normalizes to (0.6, 0.8, 0), exactly in fixed point.
    let v = Vec3 { x: 3_000_000, y: 4_000_000, z: 0 };
    let n = v.normalize();
    assert_eq!((n.x, n.y, n.z), (600_000, 800_000, 0));
    // A negative component keeps its sign.
    let w = Vec3 { x: 0, y: -5_000_000, z: 0 };
    let m = w.normalize();
    assert_eq!((m.x, m.y, m.z), (0, -SCALE, 0));
}
