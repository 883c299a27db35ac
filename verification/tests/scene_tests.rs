use scene_core::fx::{QuatFx, Vec3Fx, FX_ONE};
use scene_core::physics::{Body, ColliderShape, RayCastResult};
use scene_core::player::MovementInput;
use scene_core::scene::Scene;
use scene_core::scene_config::{
    BodyCfg, CfgError, ColliderShapeCfg, ComponentCfg, MaterialCfg, MeshCfg, MeshPrefabCfg,
    NodeCfg, SceneCfg,
};

fn v(x: i64, y: i64, z: i64) -> Vec3Fx {
    Vec3Fx { x, y, z }
}

fn new_scene() -> Scene {
    Scene::new(800, 600, v(7 * FX_ONE, 7 * FX_ONE, 7 * FX_ONE), QuatFx::identity())
}

/// Walk one whole frame with neutral inputs, up to (and including)
/// the render step, and hand the passes back.
fn run_idle_frame(s: &mut Scene) -> Vec<scene_core::render::PassSubmission> {
    let poses: Vec<(scene_core::physics::BodyHandle, Vec3Fx, QuatFx)> = Vec::new();
    s.note_physics_stepped(&poses, None);
    s.player_apply_look(QuatFx::identity(), QuatFx::identity());
    let desired = s.player_move_request(MovementInput::default(), FX_ONE / 60);
    assert_eq!(desired, None);
    s.player_apply_move(v(0, 0, 0));
    s.player_toggle(false);
    s.player_cast_ray(None);
    s.player_set_focus(None);
    s.player_spawn(false);
    s.note_grab_done();
    s.focus_marker_update();
    s.post_process_update();
    s.sync_physics();
    s.note_ui_events_forwarded();
    s.note_overlay_done();
    s.render()
}

#[test]
fn frame_emits_player_pass_before_post_process_pass() {
    let mut s = new_scene();
    let passes = run_idle_frame(&mut s);
    assert_eq!(passes.len(), 2);
    // the offscreen player camera (order 0) runs first
    assert_eq!(passes[0].order, 0);
    assert!(passes[0].target.is_some());
    assert!(!passes[0].overlay);
    // the post-process camera (order 100) runs last, to the surface,
    // and carries the overlay
    assert_eq!(passes[1].order, 100);
    assert!(passes[1].target.is_none());
    assert!(passes[1].overlay);
    // the late pass replays exactly the post-process quad
    assert_eq!(passes[1].bundles.len(), 1);
    // whose single material samples the player camera's target
    let mat_h = passes[1].bundles[0].materials[0];
    let mat = *s.assets.material(mat_h);
    let target = s.world.camera(s.player).as_ref().unwrap().target.unwrap();
    match mat {
        scene_core::materials::Material::PostProcess { texture, .. } => {
            assert_eq!(texture, target.color_texture)
        },
        _ => panic!("expected a post-process material"),
    }
}

#[test]
fn post_process_rebuild_replaces_the_material_every_frame() {
    let mut s = new_scene();
    let first = s.world.materials(s.post_fx).as_ref().unwrap().0[0].unwrap();
    run_idle_frame(&mut s);
    let second = s.world.materials(s.post_fx).as_ref().unwrap().0[0].unwrap();
    assert_ne!(first, second);
    // the old handle is stale for good
    assert!(!s.assets.materials.contains(first));
    assert!(s.assets.materials.contains(second));
}

#[test]
fn uncontrolled_cast_without_cursor_clears_focus_and_ray() {
    let mut s = new_scene();
    let poses: Vec<(scene_core::physics::BodyHandle, Vec3Fx, QuatFx)> = Vec::new();
    s.note_physics_stepped(&poses, None);
    s.player_apply_look(QuatFx::identity(), QuatFx::identity());
    s.player_move_request(MovementInput::default(), FX_ONE / 60);
    s.player_apply_move(v(0, 0, 0));
    // toggling while uncontrolled flips into controlled mode...
    let grab = s.player_toggle(true);
    assert_eq!(grab, Some(true));
    // ...but the cast that follows still finds no focus when nothing
    // is hit, while recording the attempted ray
    let ray = s.player_cast_ray(None);
    assert!(ray.is_some());
    s.player_set_focus(None);
    assert!(s.player_focus().is_none());
    assert!(s.player_focus_ray().is_some());
}

#[test]
fn uncontrolled_without_cursor_has_no_ray_at_all() {
    let mut s = new_scene();
    let poses: Vec<(scene_core::physics::BodyHandle, Vec3Fx, QuatFx)> = Vec::new();
    s.note_physics_stepped(&poses, None);
    s.player_apply_look(QuatFx::identity(), QuatFx::identity());
    s.player_move_request(MovementInput::default(), FX_ONE / 60);
    s.player_apply_move(v(0, 0, 0));
    s.player_toggle(false);
    let ray = s.player_cast_ray(None);
    assert_eq!(ray, None);
    s.player_set_focus(None);
    assert!(s.player_focus().is_none());
    assert!(s.player_focus_ray().is_none());
}

#[test]
fn controlled_cast_with_a_hit_populates_focus() {
    let mut s = new_scene();
    // a block for the ray to hit, tracked in the physics tables
    let body = s.physics.add_body(
        Body { pos: v(0, 0, -5 * FX_ONE), rot: QuatFx::identity(), movable: false },
        Some(ColliderShape::Cuboid { half_extents: Vec3Fx::splat(FX_ONE) }),
    );
    let block_collider = scene_core::physics::ColliderHandle(1);
    let poses: Vec<(scene_core::physics::BodyHandle, Vec3Fx, QuatFx)> = Vec::new();
    s.note_physics_stepped(&poses, None);
    s.player_apply_look(QuatFx::identity(), QuatFx::identity());
    s.player_move_request(MovementInput::default(), FX_ONE / 60);
    s.player_apply_move(v(0, 0, 0));
    s.player_toggle(true);
    let ray = s.player_cast_ray(None).unwrap();
    // controlled: the ray leaves from the player along its forward
    assert_eq!(ray.origin, v(7 * FX_ONE, 7 * FX_ONE, 7 * FX_ONE));
    assert_eq!(ray.dir, v(0, 0, -FX_ONE));
    // the driver reports the hit it found along that ray
    s.player_set_focus(Some(RayCastResult { distance: 2 * FX_ONE, collider: block_collider }));
    let focus = s.player_focus().unwrap();
    assert_eq!(focus.distance, 2 * FX_ONE);
    assert_eq!(focus.body, body);
    // the focus point is origin + direction * distance, exactly
    assert_eq!(focus.point, v(7 * FX_ONE, 7 * FX_ONE, 5 * FX_ONE));
}

#[test]
fn new_scene_registers_the_player_ball_collider() {
    let s = new_scene();
    let c = s.physics.colliders[s.player_collider().0];
    match c.shape {
        ColliderShape::Ball { radius } => assert_eq!(radius, FX_ONE / 2),
        _ => panic!("expected a ball collider"),
    }
    assert_eq!(c.pos, v(7 * FX_ONE, 7 * FX_ONE, 7 * FX_ONE));
    assert!(c.parent.is_none());
}

#[test]
fn controlled_spawn_drops_a_crate_five_units_ahead() {
    let mut s = new_scene();
    let poses: Vec<(scene_core::physics::BodyHandle, Vec3Fx, QuatFx)> = Vec::new();
    s.note_physics_stepped(&poses, None);
    s.player_apply_look(QuatFx::identity(), QuatFx::identity());
    s.player_move_request(MovementInput::default(), FX_ONE / 60);
    s.player_apply_move(v(0, 0, 0));
    s.player_toggle(true);
    s.player_cast_ray(None);
    s.player_set_focus(None);
    let (e, bh) = s.player_spawn(true).expect("controlled spawn must create the crate");
    // five units along the identity forward (-z) from (7, 7, 7)
    let t = s.world.transform(e).as_ref().unwrap();
    assert_eq!(t.pos, v(7 * FX_ONE, 7 * FX_ONE, 2 * FX_ONE));
    assert_eq!(t.scale, Vec3Fx::splat(FX_ONE));
    // a movable body at the same spot, mirrored in the world
    let rb = s.world.body(e).as_ref().unwrap();
    assert!(rb.movable);
    assert_eq!(rb.handle, bh);
    assert_eq!(s.physics.bodies[bh.0].pos, v(7 * FX_ONE, 7 * FX_ONE, 2 * FX_ONE));
    assert!(s.physics.bodies[bh.0].movable);
    // drawn with a freshly textured material
    let mat_h = s.world.materials(e).as_ref().unwrap().0[0].unwrap();
    match *s.assets.material(mat_h) {
        scene_core::materials::Material::Textured { .. } => {},
        _ => panic!("expected a textured material"),
    }
}

fn simple_cfg() -> SceneCfg {
    SceneCfg {
        materials: vec![
            MaterialCfg::Color {
                name: "red".to_string(),
                color: v(FX_ONE, 0, 0),
                wireframe: None,
            },
        ],
        nodes: vec![
            (
                "ground".to_string(),
                NodeCfg {
                    render_order: None,
                    render_tags: None,
                    pos: Some(v(0, -2 * FX_ONE, 0)),
                    scale: Some(v(10 * FX_ONE, FX_ONE / 10, 10 * FX_ONE)),
                    body: Some(BodyCfg { shape: ColliderShapeCfg::Cube, movable: Some(false) }),
                    mesh: Some(MeshCfg { path: Some("cube.obj".to_string()), prefab: None }),
                    materials: Some(vec!["red".to_string()]),
                    components: None,
                },
            ),
            (
                "marker".to_string(),
                NodeCfg {
                    render_order: Some(7),
                    render_tags: Some(2),
                    pos: None,
                    scale: None,
                    body: None,
                    mesh: Some(MeshCfg { path: None, prefab: Some(MeshPrefabCfg::Quad) }),
                    materials: Some(vec!["red".to_string()]),
                    components: Some(vec![ComponentCfg::PlayerFocusMarker]),
                },
            ),
        ],
    }
}

#[test]
fn config_builds_entities_in_document_order() {
    let mut s = new_scene();
    let base = s.world.num_entities();
    let r = s.insert_from_cfg(&simple_cfg());
    assert!(r.is_ok());
    assert_eq!(s.world.num_entities(), base + 2);
    let ground = scene_core::world::Entity(base);
    let marker = scene_core::world::Entity(base + 1);
    let gt = s.world.transform(ground).as_ref().unwrap();
    assert_eq!(gt.pos, v(0, -2 * FX_ONE, 0));
    assert!(s.world.body(ground).is_some());
    assert!(!s.world.body(ground).as_ref().unwrap().movable);
    assert!(s.world.mesh(ground).is_some());
    assert_eq!(s.world.render_order(marker), &Some(scene_core::components::RenderOrder(7)));
    assert!(s.world.has_focus_marker(marker));
    assert!(!s.world.has_focus_marker(ground));
    // both nodes resolved "red", but each got its own material entry
    let g0 = s.world.materials(ground).as_ref().unwrap().0[0].unwrap();
    let m0 = s.world.materials(marker).as_ref().unwrap().0[0].unwrap();
    assert_ne!(g0, m0);
    match *s.assets.material(g0) {
        scene_core::materials::Material::Color { color, wireframe, .. } => {
            assert_eq!(color, v(FX_ONE, 0, 0));
            assert!(!wireframe);
        },
        _ => panic!("expected a color material"),
    }
}

#[test]
fn unresolved_material_reference_is_fatal_and_builds_nothing() {
    let mut s = new_scene();
    let base = s.world.num_entities();
    let mut cfg = simple_cfg();
    cfg.nodes.push((
        "bad".to_string(),
        NodeCfg {
            render_order: None,
            render_tags: None,
            pos: None,
            scale: None,
            body: None,
            mesh: None,
            materials: Some(vec!["missing".to_string()]),
            components: None,
        },
    ));
    let r = s.insert_from_cfg(&cfg);
    match r {
        Err(CfgError::UnresolvedMaterial { node, name }) => {
            assert_eq!(node, "bad".to_string());
            assert_eq!(name, "missing".to_string());
        },
        _ => panic!("expected an unresolved material error"),
    }
    // no partial scene: not even the valid leading nodes were built
    assert_eq!(s.world.num_entities(), base);
}

#[test]
fn mesh_without_source_is_fatal() {
    let mut s = new_scene();
    let mut cfg = simple_cfg();
    cfg.nodes[0].1.mesh = Some(MeshCfg { path: None, prefab: None });
    match s.insert_from_cfg(&cfg) {
        Err(CfgError::InvalidMesh { node }) => assert_eq!(node, "ground".to_string()),
        _ => panic!("expected an invalid mesh error"),
    }
}

#[test]
fn empty_materials_list_is_fatal() {
    let mut s = new_scene();
    let mut cfg = simple_cfg();
    cfg.nodes[1].1.materials = Some(Vec::new());
    match s.insert_from_cfg(&cfg) {
        Err(CfgError::EmptyMaterials { node }) => assert_eq!(node, "marker".to_string()),
        _ => panic!("expected an empty materials error"),
    }
}

#[test]
fn same_mesh_path_across_nodes_shares_one_cache_entry() {
    let mut s = new_scene();
    let base = s.world.num_entities();
    let mut cfg = simple_cfg();
    cfg.nodes[1].1.mesh = Some(MeshCfg { path: Some("cube.obj".to_string()), prefab: None });
    assert!(s.insert_from_cfg(&cfg).is_ok());
    let m1 = s.world.mesh(scene_core::world::Entity(base)).as_ref().unwrap().0;
    let m2 = s.world.mesh(scene_core::world::Entity(base + 1)).as_ref().unwrap().0;
    assert_eq!(m1, m2);
}

#[test]
fn focus_marker_follows_the_focus_point() {
    let mut s = new_scene();
    assert!(s.insert_from_cfg(&simple_cfg()).is_ok());
    // hand the player a focus by casting against a tracked block
    let body = s.physics.add_body(
        Body { pos: v(7 * FX_ONE, 7 * FX_ONE, 0), rot: QuatFx::identity(), movable: false },
        Some(ColliderShape::Cuboid { half_extents: Vec3Fx::splat(FX_ONE) }),
    );
    let _ = body;
    let block_collider = scene_core::physics::ColliderHandle(s.physics.colliders.len() - 1);
    let poses: Vec<(scene_core::physics::BodyHandle, Vec3Fx, QuatFx)> = Vec::new();
    s.note_physics_stepped(&poses, None);
    s.player_apply_look(QuatFx::identity(), QuatFx::identity());
    s.player_move_request(MovementInput::default(), FX_ONE / 60);
    s.player_apply_move(v(0, 0, 0));
    s.player_toggle(true);
    s.player_cast_ray(None);
    s.player_set_focus(Some(RayCastResult { distance: 6 * FX_ONE, collider: block_collider }));
    s.player_spawn(false);
    s.note_grab_done();
    s.focus_marker_update();
    // the marker entity moved to the focus point, on the visible layer
    let marker = s.world.marker_entity().unwrap();
    let t = s.world.transform(marker).as_ref().unwrap();
    assert_eq!(t.pos, v(7 * FX_ONE, 7 * FX_ONE, FX_ONE));
    // six units away: scale clamps to the upper bound of one half
    assert_eq!(t.scale.x, FX_ONE / 2);
    assert_eq!(
        s.world.render_tags(marker),
        &Some(scene_core::components::RenderTags(scene_core::components::RENDER_TAG_SCENE))
    );
}
