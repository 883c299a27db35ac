use scene_core::fx::{Vec3Fx, FX_ONE};
use scene_core::physics::{clamp_sweep, Collider, ColliderShape, Physics, Body};
use scene_core::player::{
    clamp_look_delta, desired_translation, MIN_BOTTOM_ANGLE, MIN_TOP_ANGLE,
};
use scene_core::fx::QuatFx;

#[test]
fn look_up_from_top_margin_cannot_cross_it() {
    // already at the top margin: any further look-up collapses to zero
    let r = clamp_look_delta(MIN_TOP_ANGLE, -5000);
    assert_eq!(r, 0);
    assert!(MIN_TOP_ANGLE + r >= MIN_TOP_ANGLE);
    // slightly above the margin: the delta is cut exactly at the margin
    let r2 = clamp_look_delta(MIN_TOP_ANGLE + 100, -5000);
    assert_eq!(r2, -100);
    assert_eq!(MIN_TOP_ANGLE + 100 + r2, MIN_TOP_ANGLE);
}

#[test]
fn look_down_from_bottom_margin_cannot_cross_it() {
    let r = clamp_look_delta(MIN_BOTTOM_ANGLE, 5000);
    assert_eq!(r, 0);
    let r2 = clamp_look_delta(MIN_BOTTOM_ANGLE - 100, 5000);
    assert_eq!(r2, 100);
    assert_eq!(MIN_BOTTOM_ANGLE - 100 + r2, MIN_BOTTOM_ANGLE);
}

#[test]
fn in_band_deltas_pass_unchanged() {
    let mid = (MIN_TOP_ANGLE + MIN_BOTTOM_ANGLE) / 2;
    assert_eq!(clamp_look_delta(mid, 700), 700);
    assert_eq!(clamp_look_delta(mid, -700), -700);
}

#[test]
fn movement_below_threshold_is_dropped() {
    let dir = Vec3Fx { x: 100, y: 0, z: 0 };
    assert_eq!(desired_translation(dir, FX_ONE), None);
}

#[test]
fn movement_is_normalized_and_scaled_by_speed_and_dt() {
    // a unit direction along x for one second at speed ten
    let dir = Vec3Fx { x: FX_ONE, y: 0, z: 0 };
    let t = desired_translation(dir, FX_ONE).unwrap();
    assert_eq!(t.x, 10 * FX_ONE);
    assert_eq!(t.y, 0);
    assert_eq!(t.z, 0);
    // the same direction twice as long still normalizes to the same step
    let dir2 = Vec3Fx { x: 2 * FX_ONE, y: 0, z: 0 };
    let t2 = desired_translation(dir2, FX_ONE).unwrap();
    assert_eq!(t2.x, 10 * FX_ONE);
}

#[test]
fn sweep_clamp_never_exceeds_desired() {
    let desired = Vec3Fx { x: FX_ONE, y: 0, z: 0 };
    // a well-behaved outcome passes through
    let allowed = Vec3Fx { x: FX_ONE / 2, y: 0, z: 0 };
    assert_eq!(clamp_sweep(desired, allowed), allowed);
    // an outcome longer than the request collapses to no movement
    let too_far = Vec3Fx { x: 3 * FX_ONE, y: 0, z: 0 };
    assert_eq!(clamp_sweep(desired, too_far), Vec3Fx { x: 0, y: 0, z: 0 });
}

#[test]
fn physics_tables_hand_out_sequential_handles() {
    let mut p = Physics::new();
    let c = p.add_collider(Collider {
        shape: ColliderShape::Ball { radius: FX_ONE / 2 },
        pos: Vec3Fx { x: 0, y: 0, z: 0 },
        parent: None,
    });
    assert_eq!(c.0, 0);
    let b = p.add_body(
        Body { pos: Vec3Fx { x: 0, y: FX_ONE, z: 0 }, rot: QuatFx::identity(), movable: true },
        Some(ColliderShape::Cuboid { half_extents: Vec3Fx::splat(FX_ONE) }),
    );
    assert_eq!(b.0, 0);
    assert_eq!(p.body(b).pos.y, FX_ONE);
    assert_eq!(p.collider(c).parent, None);
    // the body's collider hangs on it
    let bc = p.collider(scene_core::physics::ColliderHandle(1));
    assert_eq!(bc.parent, Some(b));
}
