use scene_core::arena::Handle;
use scene_core::camera::Camera;
use scene_core::components::{
    Materials, Mesh, RenderOrder, RenderTags, RENDER_TAG_HIDDEN, RENDER_TAG_SCENE,
};
use scene_core::fx::{Vec3Fx, FX_ONE};
use scene_core::render::compose_frame;
use scene_core::transform::Transform;
use scene_core::world::World;

fn mesh_handle(i: usize) -> Handle {
    Handle { index: i, generation: 0 }
}

fn spawn_drawable(w: &mut World, order: Option<i32>, tag: Option<u32>) -> scene_core::world::Entity {
    let e = w.spawn();
    w.set_transform(e, Transform::new(Vec3Fx { x: 0, y: 0, z: 0 }, Vec3Fx::splat(FX_ONE)));
    w.set_mesh(e, Mesh(mesh_handle(e.0)));
    w.set_materials(e, Materials::single(mesh_handle(100 + e.0)));
    if let Some(o) = order {
        w.set_render_order(e, RenderOrder(o));
    }
    if let Some(t) = tag {
        w.set_render_tags(e, RenderTags(t));
    }
    e
}

fn spawn_camera(w: &mut World, order: i32, tags: u32) -> scene_core::world::Entity {
    let e = w.spawn();
    w.set_transform(e, Transform::new(Vec3Fx { x: 0, y: 0, z: 0 }, Vec3Fx::splat(FX_ONE)));
    w.set_camera(e, Camera::new(4, 3, tags, None));
    w.set_render_order(e, RenderOrder(order));
    e
}

#[test]
fn drawables_are_emitted_in_ascending_render_order() {
    let mut w = World::new();
    let cam = spawn_camera(&mut w, 0, RENDER_TAG_SCENE);
    let a = spawn_drawable(&mut w, Some(5), None);
    let b = spawn_drawable(&mut w, Some(-1), None);
    let c = spawn_drawable(&mut w, Some(0), None);
    let passes = compose_frame(&w);
    assert_eq!(passes.len(), 1);
    assert_eq!(passes[0].camera, cam);
    let orders: Vec<i32> = passes[0].bundles.iter().map(|bb| bb.order).collect();
    assert_eq!(orders, vec![-1, 0, 5]);
    let entities: Vec<usize> = passes[0].bundles.iter().map(|bb| bb.entity.0).collect();
    assert_eq!(entities, vec![b.0, c.0, a.0]);
}

#[test]
fn cameras_run_in_ascending_render_order() {
    let mut w = World::new();
    let late = spawn_camera(&mut w, 100, RENDER_TAG_SCENE);
    let early = spawn_camera(&mut w, 0, RENDER_TAG_SCENE);
    let passes = compose_frame(&w);
    assert_eq!(passes.len(), 2);
    assert_eq!(passes[0].camera, early);
    assert_eq!(passes[1].camera, late);
    assert_eq!(passes[0].order, 0);
    assert_eq!(passes[1].order, 100);
}

#[test]
fn default_tag_is_visible_to_default_mask() {
    let mut w = World::new();
    spawn_camera(&mut w, 0, RENDER_TAG_SCENE);
    let d = spawn_drawable(&mut w, None, None);
    let passes = compose_frame(&w);
    assert_eq!(passes[0].bundles.len(), 1);
    assert_eq!(passes[0].bundles[0].entity, d);
    // absent order defaults to zero
    assert_eq!(passes[0].bundles[0].order, 0);
}

#[test]
fn hidden_tag_is_visible_to_no_default_camera() {
    let mut w = World::new();
    spawn_camera(&mut w, 0, RENDER_TAG_SCENE);
    spawn_drawable(&mut w, None, Some(RENDER_TAG_HIDDEN));
    let passes = compose_frame(&w);
    assert_eq!(passes[0].bundles.len(), 0);
    // a camera that explicitly requests the hidden layer draws it
    let mut w2 = World::new();
    spawn_camera(&mut w2, 0, RENDER_TAG_HIDDEN);
    spawn_drawable(&mut w2, None, Some(RENDER_TAG_HIDDEN));
    let passes2 = compose_frame(&w2);
    assert_eq!(passes2[0].bundles.len(), 1);
}

#[test]
fn ties_keep_entity_order() {
    let mut w = World::new();
    spawn_camera(&mut w, 0, RENDER_TAG_SCENE);
    let a = spawn_drawable(&mut w, Some(3), None);
    let b = spawn_drawable(&mut w, Some(3), None);
    let c = spawn_drawable(&mut w, Some(3), None);
    let passes = compose_frame(&w);
    let entities: Vec<usize> = passes[0].bundles.iter().map(|bb| bb.entity.0).collect();
    assert_eq!(entities, vec![a.0, b.0, c.0]);
}
