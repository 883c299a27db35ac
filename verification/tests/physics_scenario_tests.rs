use rapier3d::prelude::{
    BroadPhaseMultiSap, CCDSolver, ColliderBuilder, ColliderSet, ImpulseJointSet,
    IntegrationParameters, IslandManager, MultibodyJointSet, NarrowPhase, PhysicsPipeline,
    RigidBodyBuilder, RigidBodyHandle, RigidBodySet,
};
use rapier3d::control::KinematicCharacterController;
use rapier3d::prelude::QueryFilter;
use scene_core::fx::{QuatFx, Vec3Fx, FX_ONE};
use scene_core::physics::BodyHandle;
use scene_core::player::MovementInput;
use scene_core::scene::Scene;
use scene_core::scene_config::{
    BodyCfg, ColliderShapeCfg, MaterialCfg, MeshCfg, NodeCfg, SceneCfg,
};

fn fx_to_f32(v: i64) -> f32 {
    v as f32 / 65536.0
}

fn f32_to_fx(v: f32) -> i64 {
    (v * 65536.0) as i64
}

fn v(x: i64, y: i64, z: i64) -> Vec3Fx {
    Vec3Fx { x, y, z }
}

/// Sweeping a desired translation into a static blocking wall: the
/// achievable translation the character controller reports is never
/// longer than the desired one, and the library applies it verbatim.
#[test]
fn sweep_into_a_wall_never_exceeds_desired() {
    let mut colliders = ColliderSet::new();
    let bodies = RigidBodySet::new();
    // the moving ball, and a wall half a unit ahead of it
    let mover = colliders.insert(
        rapier3d::prelude::ColliderBuilder::ball(0.5)
            .translation(rapier3d::na::Vector3::new(0.0, 0.0, 0.0))
            .build(),
    );
    colliders.insert(
        rapier3d::prelude::ColliderBuilder::cuboid(5.0, 5.0, 0.1)
            .translation(rapier3d::na::Vector3::new(0.0, 0.0, -1.1))
            .build(),
    );
    let mut query = rapier3d::prelude::QueryPipeline::new();
    query.update(&colliders);

    let desired = v(0, 0, -2 * FX_ONE);
    let controller = KinematicCharacterController::default();
    let (pos, shape) = {
        let c = &colliders[mover];
        (*c.position(), c.shared_shape().clone())
    };
    let movement = controller.move_shape(
        1.0 / 60.0,
        &bodies,
        &colliders,
        &query,
        shape.as_ref(),
        &pos,
        rapier3d::na::Vector3::new(fx_to_f32(desired.x), fx_to_f32(desired.y), fx_to_f32(desired.z)),
        QueryFilter::default().exclude_collider(mover),
        |_| {},
    );
    let allowed = v(
        f32_to_fx(movement.translation.x),
        f32_to_fx(movement.translation.y),
        f32_to_fx(movement.translation.z),
    );
    let mag = |a: Vec3Fx| a.x * a.x + a.y * a.y + a.z * a.z;
    assert!(mag(allowed) <= mag(desired), "the sweep overshot the request");
    // the wall stops the ball well short of the full two units
    assert!(allowed.z > -FX_ONE, "the sweep went through the wall");
    // a well-behaved outcome passes the library's clamp unchanged
    assert_eq!(scene_core::physics::clamp_sweep(desired, allowed), allowed);
}

/// A focus cast against a single blocking sphere at a known offset:
/// the solver's hit distance matches the analytic ray–sphere
/// intersection, and the populated focus carries it.
#[test]
fn focus_cast_matches_analytic_sphere_intersection() {
    let mut s = Scene::new(800, 600, v(0, 0, 0), QuatFx::identity());
    // a unit sphere five units straight ahead (the player looks -z)
    let sphere = s.physics.add_body(
        scene_core::physics::Body {
            pos: v(0, 0, -5 * FX_ONE),
            rot: QuatFx::identity(),
            movable: false,
        },
        Some(scene_core::physics::ColliderShape::Ball { radius: FX_ONE }),
    );

    // mirror into the solver and cast the ray it would cast
    let mut bodies = RigidBodySet::new();
    let mut colliders = ColliderSet::new();
    let mut collider_map: Vec<rapier3d::prelude::ColliderHandle> = Vec::new();
    for c in s.physics.colliders.iter() {
        let builder = match c.shape {
            scene_core::physics::ColliderShape::Ball { radius } => {
                rapier3d::prelude::ColliderBuilder::ball(fx_to_f32(radius))
            }
            scene_core::physics::ColliderShape::Cuboid { half_extents } => {
                rapier3d::prelude::ColliderBuilder::cuboid(
                    fx_to_f32(half_extents.x),
                    fx_to_f32(half_extents.y),
                    fx_to_f32(half_extents.z),
                )
            }
        };
        let col = builder
            .translation(rapier3d::na::Vector3::new(
                fx_to_f32(c.pos.x),
                fx_to_f32(c.pos.y),
                fx_to_f32(c.pos.z),
            ))
            .build();
        collider_map.push(colliders.insert(col));
    }
    let mut query = rapier3d::prelude::QueryPipeline::new();
    query.update(&colliders);

    let poses: Vec<(BodyHandle, Vec3Fx, QuatFx)> = Vec::new();
    s.note_physics_stepped(&poses, None);
    s.player_apply_look(QuatFx::identity(), QuatFx::identity());
    s.player_move_request(MovementInput::default(), FX_ONE / 60);
    s.player_apply_move(v(0, 0, 0));
    s.player_toggle(true);
    let ray = s.player_cast_ray(None).unwrap();
    let player_collider = s.player_collider();

    let rray = rapier3d::prelude::Ray::new(
        rapier3d::na::Point3::new(
            fx_to_f32(ray.origin.x),
            fx_to_f32(ray.origin.y),
            fx_to_f32(ray.origin.z),
        ),
        rapier3d::na::Vector3::new(
            fx_to_f32(ray.dir.x),
            fx_to_f32(ray.dir.y),
            fx_to_f32(ray.dir.z),
        ),
    );
    let filter = rapier3d::prelude::QueryFilter::default()
        .exclude_collider(collider_map[player_collider.0]);
    let (hit_handle, toi) = query
        .cast_ray(&bodies, &colliders, &rray, f32::MAX, true, filter)
        .expect("the sphere blocks the ray");
    // analytic: the sphere's center is five units out, radius one
    assert!((toi - 4.0).abs() < 1e-3, "time of impact was {toi}");

    let index = collider_map.iter().position(|h| *h == hit_handle).unwrap();
    s.player_set_focus(Some(scene_core::physics::RayCastResult {
        distance: f32_to_fx(toi),
        collider: scene_core::physics::ColliderHandle(index),
    }));
    let focus = s.player_focus().unwrap();
    assert_eq!(focus.body, sphere);
    assert!((focus.distance - 4 * FX_ONE).abs() < FX_ONE / 100);
    assert!((focus.point.z - (-4 * FX_ONE)).abs() < FX_ONE / 100);
}

/// A falling dynamic cuboid above a fixed ground plane: the library
/// builds the scene from a declarative document, the solver runs
/// outside and reports poses back, and the synchronized transform's
/// height never increases until it settles on the ground.
#[test]
fn dropped_cuboid_settles_on_the_ground() {
    let mut s = Scene::new(800, 600, v(40 * FX_ONE, 7 * FX_ONE, 40 * FX_ONE), QuatFx::identity());
    let cfg = SceneCfg {
        materials: vec![MaterialCfg::Color {
            name: "gray".to_string(),
            color: v(FX_ONE / 2, FX_ONE / 2, FX_ONE / 2),
            wireframe: None,
        }],
        nodes: vec![
            (
                "ground".to_string(),
                NodeCfg {
                    render_order: None,
                    render_tags: None,
                    pos: Some(v(0, -2 * FX_ONE, 0)),
                    scale: Some(v(10 * FX_ONE, FX_ONE / 10, 10 * FX_ONE)),
                    body: Some(BodyCfg { shape: ColliderShapeCfg::Cube, movable: Some(false) }),
                    mesh: Some(MeshCfg { path: Some("cube.obj".to_string()), prefab: None }),
                    materials: Some(vec!["gray".to_string()]),
                    components: None,
                },
            ),
            (
                "box".to_string(),
                NodeCfg {
                    render_order: None,
                    render_tags: None,
                    pos: Some(v(0, 5 * FX_ONE, 0)),
                    scale: Some(v(FX_ONE, FX_ONE, FX_ONE)),
                    body: Some(BodyCfg { shape: ColliderShapeCfg::Cube, movable: Some(true) }),
                    mesh: Some(MeshCfg { path: Some("cube.obj".to_string()), prefab: None }),
                    materials: Some(vec!["gray".to_string()]),
                    components: None,
                },
            ),
        ],
    };
    assert!(s.insert_from_cfg(&cfg).is_ok());
    let box_entity = scene_core::world::Entity(s.world.num_entities() - 1);

    // mirror the library's body records into the outside solver
    let mut bodies = RigidBodySet::new();
    let mut colliders = ColliderSet::new();
    let mut mirror: Vec<RigidBodyHandle> = Vec::new();
    for (i, b) in s.physics.bodies.iter().enumerate() {
        let builder = if b.movable {
            RigidBodyBuilder::dynamic()
        } else {
            RigidBodyBuilder::fixed()
        };
        let rb = builder
            .translation(rapier3d::na::Vector3::new(fx_to_f32(b.pos.x), fx_to_f32(b.pos.y), fx_to_f32(b.pos.z)))
            .build();
        let handle = bodies.insert(rb);
        mirror.push(handle);
        // the collider that hangs on this body, with its shape
        for c in s.physics.colliders.iter() {
            if c.parent == Some(scene_core::physics::BodyHandle(i)) {
                if let scene_core::physics::ColliderShape::Cuboid { half_extents } = c.shape {
                    let col = ColliderBuilder::cuboid(
                        fx_to_f32(half_extents.x),
                        fx_to_f32(half_extents.y),
                        fx_to_f32(half_extents.z),
                    )
                    .restitution(0.0)
                    .build();
                    colliders.insert_with_parent(col, handle, &mut bodies);
                }
            }
        }
    }

    let gravity = rapier3d::na::Vector3::new(0.0f32, -9.81, 0.0);
    let params = IntegrationParameters::default();
    let mut pipeline = PhysicsPipeline::new();
    let mut islands = IslandManager::new();
    let mut broad = BroadPhaseMultiSap::new();
    let mut narrow = NarrowPhase::new();
    let mut impulse_joints = ImpulseJointSet::new();
    let mut multibody_joints = MultibodyJointSet::new();
    let mut ccd = CCDSolver::new();

    let mut last_y: i64 = 5 * FX_ONE;
    for _ in 0..240 {
        pipeline.step(
            &gravity,
            &params,
            &mut islands,
            &mut broad,
            &mut narrow,
            &mut bodies,
            &mut colliders,
            &mut impulse_joints,
            &mut multibody_joints,
            &mut ccd,
            None,
            &(),
            &(),
        );
        // report every pose back to the library and run the frame
        let mut poses: Vec<(BodyHandle, Vec3Fx, QuatFx)> = Vec::new();
        for (i, handle) in mirror.iter().enumerate() {
            let rb = &bodies[*handle];
            let t = rb.translation();
            let q = rb.rotation();
            poses.push((
                BodyHandle(i),
                v(f32_to_fx(t.x), f32_to_fx(t.y), f32_to_fx(t.z)),
                QuatFx {
                    w: f32_to_fx(q.w),
                    x: f32_to_fx(q.i),
                    y: f32_to_fx(q.j),
                    z: f32_to_fx(q.k),
                },
            ));
        }
        s.note_physics_stepped(&poses, None);
        s.player_apply_look(QuatFx::identity(), QuatFx::identity());
        s.player_move_request(MovementInput::default(), FX_ONE / 60);
        s.player_apply_move(v(0, 0, 0));
        s.player_toggle(false);
        s.player_cast_ray(None);
        s.player_set_focus(None);
        s.player_spawn(false);
        s.note_grab_done();
        s.focus_marker_update();
        s.post_process_update();
        s.sync_physics();
        s.note_ui_events_forwarded();
        s.note_overlay_done();
        s.render();

        let y = s.world.transform(box_entity).as_ref().unwrap().pos.y;
        // non-increasing frame over frame (a grain of solver jitter allowed)
        assert!(y <= last_y + 1500, "height rose from {last_y} to {y}");
        last_y = y;
    }
    // settled on the ground: ground top (-1.9) plus the half-extent (1.0)
    let expected = -(9 * FX_ONE) / 10;
    let diff = (last_y - expected).abs();
    assert!(diff < FX_ONE / 10, "settled at {last_y}, expected near {expected}");
}
