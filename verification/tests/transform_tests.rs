use scene_core::fx::{QuatFx, Vec3Fx, FX_ONE};
use scene_core::transform::{Transform, TransformSpace};

fn v(x: i64, y: i64, z: i64) -> Vec3Fx {
    Vec3Fx { x, y, z }
}

fn assert_near(a: i64, b: i64, tol: i64) {
    let d = if a > b { a - b } else { b - a };
    assert!(d <= tol, "expected {a} near {b}");
}

#[test]
fn identity_transform_matrix_is_identity() {
    let t = Transform::new(v(0, 0, 0), Vec3Fx::splat(FX_ONE));
    let m = t.matrix();
    assert_eq!(m.c0.x, FX_ONE);
    assert_eq!(m.c1.y, FX_ONE);
    assert_eq!(m.c2.z, FX_ONE);
    assert_eq!(m.c3.w, FX_ONE);
    assert_eq!(m.c0.y, 0);
    assert_eq!(m.c3.x, 0);
}

#[test]
fn matrix_tracks_position_after_every_mutation() {
    let mut t = Transform::new(v(FX_ONE, 2 * FX_ONE, 3 * FX_ONE), Vec3Fx::splat(FX_ONE));
    assert_eq!(t.matrix().c3.x, FX_ONE);
    assert_eq!(t.matrix().c3.y, 2 * FX_ONE);
    assert_eq!(t.matrix().c3.z, 3 * FX_ONE);

    t.translate(v(FX_ONE, 0, -FX_ONE));
    assert_eq!(t.matrix().c3.x, 2 * FX_ONE);
    assert_eq!(t.matrix().c3.z, 2 * FX_ONE);

    t.set_position(v(0, 0, 0));
    assert_eq!(t.matrix().c3.x, 0);
    assert_eq!(t.matrix().c3.y, 0);

    t.set_scale(v(2 * FX_ONE, 3 * FX_ONE, 4 * FX_ONE));
    // with identity rotation the diagonal is exactly the scale
    assert_eq!(t.matrix().c0.x, 2 * FX_ONE);
    assert_eq!(t.matrix().c1.y, 3 * FX_ONE);
    assert_eq!(t.matrix().c2.z, 4 * FX_ONE);
    // and the translation column is untouched by the scale
    assert_eq!(t.matrix().c3.x, 0);
}

#[test]
fn rotation_rebuilds_matrix_and_keeps_position() {
    let mut t = Transform::from_pos(v(5 * FX_ONE, 0, 0));
    // a quarter turn about the vertical axis: w = x = cos/sin(45 deg)
    let half = 46341; // floor(sqrt(1/2) * 65536)
    let q = QuatFx { w: half, x: 0, y: half, z: 0 };
    t.rotate(q, TransformSpace::Local);
    // position is untouched by rotation
    assert_eq!(t.matrix().c3.x, 5 * FX_ONE);
    // the forward direction swings from -z toward +x
    let f = t.forward();
    assert_near(f.x, FX_ONE, 600);
    assert_near(f.z, 0, 600);
}

#[test]
fn set_normalizes_the_incoming_rotation() {
    let mut t = Transform::new(v(0, 0, 0), Vec3Fx::splat(FX_ONE));
    // a half-magnitude quaternion along the identity comes back unit
    t.set(v(FX_ONE, 0, 0), QuatFx { w: FX_ONE / 2, x: 0, y: 0, z: 0 });
    assert_eq!(t.position(), v(FX_ONE, 0, 0));
    assert_eq!(t.rotation(), QuatFx { w: FX_ONE, x: 0, y: 0, z: 0 });
}

#[test]
fn default_like_transform_reads_back_fields() {
    let t = Transform::new(v(0, 0, 0), Vec3Fx::splat(FX_ONE));
    assert_eq!(t.position(), v(0, 0, 0));
    assert_eq!(t.rotation(), QuatFx { w: FX_ONE, x: 0, y: 0, z: 0 });
    let r = t.right();
    let u = t.up();
    assert_eq!(r, v(FX_ONE, 0, 0));
    assert_eq!(u, v(0, FX_ONE, 0));
    let f = t.forward();
    assert_eq!(f, v(0, 0, -FX_ONE));
}
