//! Fixed-point scalar and matrix arithmetic: exact values for the basic
//! operations, the identity laws, the projection shape, and resize
//! idempotence.

use rendercore::camera::{perspective, CameraResource, FOCAL_MAX, FOCAL_MIN, NEAR_PLANE};
use rendercore::fx::{abs64, fx_clamp, fx_div, fx_mul, isqrt64, FX_ONE};
use rendercore::mat::{mat_mul, trs_inverse, trs_matrix, Mat4, Quat, Vec3};
use rendercore::transform::TransformComponent;

#[test]
fn fx_mul_exact_values() {
    assert_eq!(fx_mul(3 * FX_ONE, 2 * FX_ONE), 6 * FX_ONE);
    assert_eq!(fx_mul(-3 * FX_ONE, 2 * FX_ONE), -6 * FX_ONE);
    assert_eq!(fx_mul(FX_ONE / 2, FX_ONE / 2), FX_ONE / 4);
    assert_eq!(fx_mul(0, 12345), 0);
    // truncation is toward zero on both sides
    assert_eq!(fx_mul(3, 3), 0);
    assert_eq!(fx_mul(-3, 3), 0);
}

#[test]
fn fx_div_exact_values() {
    assert_eq!(fx_div(6 * FX_ONE, 2 * FX_ONE), 3 * FX_ONE);
    assert_eq!(fx_div(-6 * FX_ONE, 2 * FX_ONE), -3 * FX_ONE);
    assert_eq!(fx_div(FX_ONE, 3 * FX_ONE), 21845);
    assert_eq!(fx_div(-FX_ONE, 3 * FX_ONE), -21845);
}

#[test]
fn abs_and_clamp() {
    assert_eq!(abs64(-5), 5);
    assert_eq!(abs64(5), 5);
    assert_eq!(abs64(i64::MIN), 1u64 << 63);
    assert_eq!(fx_clamp(10, -3, 3), 3);
    assert_eq!(fx_clamp(-10, -3, 3), -3);
    assert_eq!(fx_clamp(2, -3, 3), 2);
}

#[test]
fn isqrt_exact_values() {
    assert_eq!(isqrt64(0), 0);
    assert_eq!(isqrt64(1), 1);
    assert_eq!(isqrt64(15), 3);
    assert_eq!(isqrt64(16), 4);
    assert_eq!(isqrt64(1 << 40), 1 << 20);
    assert_eq!(isqrt64(u64::MAX), 0xFFFF_FFFF);
}

#[test]
fn matrix_identity_is_neutral() {
    let t = TransformComponent::from_position(FX_ONE, 2 * FX_ONE, 3 * FX_ONE);
    let m = trs_matrix(&t.translation, &t.rotation, &t.scale);
    let i = Mat4::identity();
    assert_eq!(mat_mul(&m, &i), m);
    assert_eq!(mat_mul(&i, &m), m);
}

#[test]
fn identity_transform_gives_identity_matrix() {
    let t = TransformComponent::new();
    let m = trs_matrix(&t.translation, &t.rotation, &t.scale);
    assert_eq!(m, Mat4::identity());
}

#[test]
fn translation_sits_in_fourth_column() {
    let t = TransformComponent::from_position(FX_ONE, -2 * FX_ONE, 3 * FX_ONE);
    let m = t.matrix();
    assert_eq!(m.c3.x, FX_ONE);
    assert_eq!(m.c3.y, -2 * FX_ONE);
    assert_eq!(m.c3.z, 3 * FX_ONE);
    assert_eq!(m.c3.w, FX_ONE);
}

#[test]
fn trs_inverse_of_identity_is_identity() {
    let m = trs_inverse(&Vec3::zero(), &Quat::identity(), &Vec3::one());
    assert_eq!(m, Mat4::identity());
}

#[test]
fn trs_inverse_undoes_translation() {
    let t = Vec3 { x: 3 * FX_ONE, y: 0, z: 0 };
    let inv = trs_inverse(&t, &Quat::identity(), &Vec3::one());
    assert_eq!(inv.c3.x, -3 * FX_ONE);
    assert_eq!(inv.c3.y, 0);
    assert_eq!(inv.c3.z, 0);
}

#[test]
fn perspective_has_infinite_far_shape() {
    // ninety degrees, square aspect
    let m = perspective(102944, FX_ONE);
    // third column (0, 0, 1, 1), fourth column (0, 0, -near, 0)
    assert_eq!((m.c2.x, m.c2.y, m.c2.z, m.c2.w), (0, 0, FX_ONE, FX_ONE));
    assert_eq!((m.c3.x, m.c3.y, m.c3.z, m.c3.w), (0, 0, -NEAR_PLANE, 0));
    // at ninety degrees the focal length is about one
    assert!(m.c1.y >= FX_ONE - 64 && m.c1.y <= FX_ONE + 64);
    // square aspect: both focal entries agree up to rounding
    assert!((m.c0.x - m.c1.y).abs() <= 2);
    // focal length respects its clamp
    assert!(m.c1.y >= FOCAL_MIN && m.c1.y <= FOCAL_MAX);
}

#[test]
fn resize_is_idempotent() {
    let mut c = CameraResource::new(68629, FX_ONE);
    c.resize(2 * FX_ONE);
    let first = c.projection;
    c.resize(2 * FX_ONE);
    assert_eq!(c.projection, first);
}

#[test]
fn resize_leaves_pose_untouched() {
    let mut c = CameraResource::new(68629, FX_ONE);
    let (t, r, s) = (c.translation, c.rotation, c.scale);
    c.resize(FX_ONE / 2);
    assert_eq!(c.translation, t);
    assert_eq!(c.rotation, r);
    assert_eq!(c.scale, s);
    assert_eq!(c.fov, 68629);
}

#[test]
fn mvp_of_identity_model_is_projection_times_view_inverse() {
    let c = CameraResource::new(68629, FX_ONE);
    let mvp = c.transform_model(&TransformComponent::new());
    let vinv = trs_inverse(&c.translation, &c.rotation, &c.scale);
    let pv = mat_mul(&c.projection, &vinv);
    assert_eq!(mvp, pv);
}

#[test]
fn mvp_moves_with_the_model() {
    let c = CameraResource::new(68629, FX_ONE);
    let near = TransformComponent::from_position(0, 0, 2 * FX_ONE);
    let far = TransformComponent::from_position(0, 0, 5 * FX_ONE);
    assert_ne!(c.transform_model(&near), c.transform_model(&far));
}
