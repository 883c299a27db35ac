//! The scene: world, physics record, asset cache, and the fixed
//! per-frame system order. The order is a contract, not a convention:
//! a `FramePhase` field tracks where in the frame the scene is, every
//! system method requires its phase and advances to the next, so the
//! driver cannot run the player before the physics step, the marker
//! after the render, or the post-process rebuild after composition.

use crate::assets::{Assets, MaterialHandle};
use crate::camera::{Camera, RenderTarget};
use crate::components::{
    Materials, Mesh, RenderOrder, RenderTags, RigidBody, RENDER_TAG_HIDDEN, RENDER_TAG_SCENE,
};
use crate::fx::{
    fx_mul, fx_mul_s, iabs, lemma_fx_mul_bound, QuatFx, Vec3Fx, FX_LIMIT, FX_ONE,
};
use crate::materials::Material;
use crate::physics::{clamp_sweep, Body, BodyHandle, Collider, ColliderShape, Physics, RayCastResult};
use crate::player::{
    clamp_look_delta, clamp_look_delta_s, desired_translation, movement_direction, MovementInput,
    Player, PlayerFocus, Ray, PI_FX,
};
use crate::transform::{Transform, TransformSpace};
use crate::world::{Entity, World};
use vstd::prelude::*;

verus! {

/// Scale applied to raw mouse deltas before they become look angles.
pub const ROTATION_SPEED: i64 = 197;

/// The per-frame mouse delta the look step accepts (raw fixed point):
/// a machine limit that keeps the scaled angles within one turn.
pub const LOOK_DELTA_LIMIT: i64 = 0x800_0000;

/// The farthest hit distance a focus cast reports (raw fixed point):
/// a machine limit on the driver's translation of the solver's hits.
pub const CAST_RANGE: i64 = 0x10_0000_0000;

/// Where in the frame the scene is. The variants are in frame order.
#[derive(Clone, Copy, PartialEq, Eq, Structural, Debug)]
pub enum FramePhase {
    /// Waiting for the solver step's reported poses.
    Physics,
    /// Waiting for the player's look rotations.
    PlayerLook,
    /// Waiting for the player's movement request.
    PlayerMove,
    /// Waiting for the sweep outcome of the requested movement.
    PlayerMoveApply,
    /// Waiting for the control-mode toggle.
    PlayerToggle,
    /// Waiting to decide the focus ray.
    PlayerFocusRay,
    /// Waiting for the focus ray's cast outcome.
    PlayerFocusHit,
    /// Waiting for the spawn action.
    PlayerSpawn,
    /// The grab/drag interaction runs here.
    Grab,
    /// The focus-marker visualization updates here.
    FocusMarker,
    /// The post-process material is rebuilt here.
    PostProcessRebuild,
    /// Simulated poses are written into transforms here.
    PhysicsSync,
    /// Raw input events are forwarded to the UI here.
    UiEvents,
    /// The overlay updates here.
    Overlay,
    /// The frame is composed and submitted here.
    Render,
}

/// The focus marker's scale: a tenth of its distance to the player,
/// clamped between a tenth and a half.
pub open spec fn marker_scale_s(d: int) -> int {
    let s = d / 10;
    if s < 6553 {
        6553
    } else if s > 32768 {
        32768
    } else {
        s
    }
}

/// A node's position; absent means the origin.
pub open spec fn node_pos_s(node: crate::scene_config::NodeCfg) -> Vec3Fx {
    match node.pos {
        Some(p) => p,
        None => Vec3Fx { x: 0, y: 0, z: 0 },
    }
}

/// A node's scale; absent means one.
pub open spec fn node_scale_s(node: crate::scene_config::NodeCfg) -> Vec3Fx {
    match node.scale {
        Some(s) => s,
        None => Vec3Fx { x: FX_ONE as i64, y: FX_ONE as i64, z: FX_ONE as i64 },
    }
}

/// Whether a node asks for the focus-marker component.
pub open spec fn node_has_marker_s(node: crate::scene_config::NodeCfg) -> bool {
    match node.components {
        Some(cs) => exists|q: int|
            0 <= q < cs@.len() && cs@[q] == crate::scene_config::ComponentCfg::PlayerFocusMarker,
        None => false,
    }
}

/// A built material agrees with its catalog entry: same kind, the
/// given color and wireframe flag, and textures bound through the
/// deduplicating texture table by the entry's path.
pub open spec fn material_matches(
    a: Assets,
    m: Material,
    c: crate::scene_config::MaterialCfg,
) -> bool {
    match c {
        crate::scene_config::MaterialCfg::Color { color, wireframe, .. } => (m
            matches Material::Color { color: mc, wireframe: mw, .. } && mc == color && mw == (
        match wireframe {
            Some(w) => w,
            None => false,
        })),
        crate::scene_config::MaterialCfg::Textured { texture, .. } => (m matches Material::Textured {
            texture: t,
            ..
        } && a.textures.valid(t) && crate::assets::has_key(a.texture_keys@, texture@) && t
            == crate::assets::key_handle(a.texture_keys@, texture@)),
        crate::scene_config::MaterialCfg::Skybox { texture, .. } => (m matches Material::Skybox {
            texture: t,
            ..
        } && a.textures.valid(t) && crate::assets::has_key(a.texture_keys@, texture@) && t
            == crate::assets::key_handle(a.texture_keys@, texture@)),
    }
}

/// A material that agrees with its catalog entry still does after the
/// cache has only grown.
proof fn lemma_material_matches_stable(
    a: Assets,
    b: Assets,
    m: Material,
    c: crate::scene_config::MaterialCfg,
)
    requires
        a.wf(),
        b.wf(),
        a.extends(b),
        material_matches(a, m, c),
    ensures
        material_matches(b, m, c),
{
    match c {
        crate::scene_config::MaterialCfg::Color { .. } => {},
        crate::scene_config::MaterialCfg::Textured { texture, .. } => {
            crate::assets::lemma_key_handle_stable(
                a.texture_keys@,
                a.textures,
                b.texture_keys@,
                b.textures,
                texture@,
            );
        },
        crate::scene_config::MaterialCfg::Skybox { texture, .. } => {
            crate::assets::lemma_key_handle_stable(
                a.texture_keys@,
                a.textures,
                b.texture_keys@,
                b.textures,
                texture@,
            );
        },
    }
}

/// A mesh reference agrees with its configuration: bound through the
/// deduplicating mesh table by the path, or by the prefab's name.
pub open spec fn mesh_ref_matches(
    a: Assets,
    h: crate::assets::MeshHandle,
    mc: crate::scene_config::MeshCfg,
) -> bool {
    if mc.path is Some {
        crate::assets::has_key(a.mesh_keys@, mc.path->Some_0@) && h == crate::assets::key_handle(
            a.mesh_keys@,
            mc.path->Some_0@,
        )
    } else {
        match mc.prefab {
            Some(crate::scene_config::MeshPrefabCfg::Quad) => crate::assets::has_key(
                a.mesh_keys@,
                "quad"@,
            ) && h == crate::assets::key_handle(a.mesh_keys@, "quad"@),
            Some(crate::scene_config::MeshPrefabCfg::Basis) => crate::assets::has_key(
                a.mesh_keys@,
                "basis"@,
            ) && h == crate::assets::key_handle(a.mesh_keys@, "basis"@),
            None => false,
        }
    }
}

proof fn lemma_mesh_ref_matches_stable(
    a: Assets,
    b: Assets,
    h: crate::assets::MeshHandle,
    mc: crate::scene_config::MeshCfg,
)
    requires
        a.wf(),
        b.wf(),
        a.extends(b),
        mesh_ref_matches(a, h, mc),
    ensures
        mesh_ref_matches(b, h, mc),
{
    if mc.path is Some {
        crate::assets::lemma_key_handle_stable(
            a.mesh_keys@,
            a.meshes,
            b.mesh_keys@,
            b.meshes,
            mc.path->Some_0@,
        );
    } else {
        match mc.prefab {
            Some(crate::scene_config::MeshPrefabCfg::Quad) => {
                crate::assets::lemma_key_handle_stable(
                    a.mesh_keys@,
                    a.meshes,
                    b.mesh_keys@,
                    b.meshes,
                    "quad"@,
                );
            },
            Some(crate::scene_config::MeshPrefabCfg::Basis) => {
                crate::assets::lemma_key_handle_stable(
                    a.mesh_keys@,
                    a.meshes,
                    b.mesh_keys@,
                    b.meshes,
                    "basis"@,
                );
            },
            None => {},
        }
    }
}

/// What building one node means: the entity carries exactly the
/// components the node asks for, in the stated shapes. A body comes
/// with a cuboid collider sized by the node's scale and parented to
/// it, and the node's material handles are its own: pairwise distinct
/// and held by no other entity, so two nodes naming the same catalog
/// entry still get two handles.
pub open spec fn node_built(
    post: Scene,
    e: int,
    catalog: Seq<crate::scene_config::MaterialCfg>,
    node: crate::scene_config::NodeCfg,
) -> bool {
    &&& (post.world.transforms@[e] matches Some(t) && t.wf() && t.pos == node_pos_s(node)
        && t.scale == node_scale_s(node) && t.rot == (QuatFx {
        w: FX_ONE as i64,
        x: 0,
        y: 0,
        z: 0,
    }))
    &&& post.world.render_orders@[e] == (match node.render_order {
        Some(o) => Some(RenderOrder(o)),
        None => None::<RenderOrder>,
    })
    &&& post.world.render_tags@[e] == (match node.render_tags {
        Some(t2) => Some(RenderTags(t2)),
        None => None::<RenderTags>,
    })
    &&& (post.world.bodies@[e] is Some <==> node.body is Some)
    &&& (node.body matches Some(b) ==> (post.world.bodies@[e] matches Some(rb) && rb.movable == (
    match b.movable {
        Some(m) => m,
        None => true,
    }) && post.physics.body_valid(rb.handle) && post.physics.bodies@[rb.handle.0 as int].pos
        == node_pos_s(node) && post.physics.bodies@[rb.handle.0 as int].movable == rb.movable
        && exists|ci: int|
        0 <= ci < post.physics.colliders@.len() && #[trigger] post.physics.colliders@[ci] == (Collider {
            shape: ColliderShape::Cuboid { half_extents: node_scale_s(node) },
            pos: node_pos_s(node),
            parent: Some(rb.handle),
        })))
    &&& (post.world.meshes@[e] is Some <==> node.mesh is Some)
    &&& (node.mesh matches Some(mc) ==> (post.world.meshes@[e] matches Some(m)
        && post.assets.meshes.valid(m.0) && mesh_ref_matches(post.assets, m.0, mc)))
    &&& (post.world.material_sets@[e] is Some <==> node.materials is Some)
    &&& (node.materials matches Some(list) ==> (post.world.material_sets@[e] matches Some(ms)
        && (forall|s: int|
        0 <= s < 4 ==> {
            &&& ((#[trigger] ms.0@[s]) is Some <==> s < vstd::math::min(4, list@.len() as int))
            &&& (ms.0@[s] matches Some(h) ==> post.assets.materials.valid(h) && material_matches(
                post.assets,
                post.assets.materials.value_of(h),
                crate::scene_config::resolve_s(catalog, list@[s]@)->Some_0,
            ))
        }) && (forall|s1: int, s2: int|
        0 <= s1 < s2 < 4 ==> !((#[trigger] ms.0@[s1]) is Some && ms.0@[s1] == #[trigger] ms.0@[s2]))
        && (forall|i: int, s1: int, s2: int|
        0 <= i < post.world.len_s() && i != e && 0 <= s1 < 4 && 0 <= s2 < 4 ==> !((
        #[trigger] slot_handle(post.world, i, s1)) is Some && slot_handle(post.world, i, s1)
            == #[trigger] ms.0@[s2]))))
    &&& (post.world.focus_markers@[e] is Some <==> node_has_marker_s(node))
    &&& post.world.cameras@[e] is None
    &&& post.world.players@[e] is None
    &&& post.world.post_process@[e] is None
}

/// The material handle an entity holds in one of its four slots.
pub open spec fn slot_handle(w: World, i: int, s: int) -> Option<MaterialHandle> {
    match w.material_sets@[i] {
        Some(ms) => ms.0@[s],
        None => None,
    }
}

/// The two material-slot clauses of the scene invariant survive any
/// step that leaves the material columns and the material table alone.
proof fn lemma_material_clauses_preserved(pre: Scene, post: Scene)
    requires
        pre.wf(),
        post.world.material_sets@ == pre.world.material_sets@,
        post.world.len_s() == pre.world.len_s(),
        post.assets.materials == pre.assets.materials,
        post.post_fx == pre.post_fx,
    ensures
        forall|i: int, s: int|
            0 <= i < post.world.len_s() && 0 <= s < 4 ==> ((#[trigger] slot_handle(post.world, i, s))
                matches Some(h) ==> post.assets.materials.valid(h)),
        slot_handle(post.world, post.post_fx.0 as int, 0) == slot_handle(
            pre.world,
            pre.post_fx.0 as int,
            0,
        ),
        forall|i: int, s: int|
            0 <= i < post.world.len_s() && 0 <= s < 4 && !(i == post.post_fx.0 as int && s == 0)
                ==> (#[trigger] slot_handle(post.world, i, s)) != Some(post.post_fx_material_s()),
{
    assert forall|i: int, s: int|
        0 <= i < post.world.len_s() && 0 <= s < 4 implies ((#[trigger] slot_handle(post.world, i, s))
        matches Some(h) ==> post.assets.materials.valid(h)) by {
        assert(slot_handle(post.world, i, s) == slot_handle(pre.world, i, s));
    }
    assert(post.post_fx_material_s() == pre.post_fx_material_s());
    assert forall|i: int, s: int|
        0 <= i < post.world.len_s() && 0 <= s < 4 && !(i == post.post_fx.0 as int && s == 0) implies (
    #[trigger] slot_handle(post.world, i, s)) != Some(post.post_fx_material_s()) by {
        assert(slot_handle(post.world, i, s) == slot_handle(pre.world, i, s));
    }
}

/// The scene invariant survives replacing one entity's transform with
/// another well-formed one (and re-tagging entities at will).
proof fn lemma_wf_after_transform_at(pre: Scene, post: Scene, e: int, t: Transform)
    requires
        pre.wf(),
        t.wf(),
        0 <= e < pre.world.len_s(),
        post.world.transforms@ == pre.world.transforms@.update(e, Some(t)),
        post.world.cameras == pre.world.cameras,
        post.world.meshes == pre.world.meshes,
        post.world.material_sets == pre.world.material_sets,
        post.world.render_tags@.len() == pre.world.render_tags@.len(),
        post.world.render_orders == pre.world.render_orders,
        post.world.bodies == pre.world.bodies,
        post.world.players == pre.world.players,
        post.world.post_process == pre.world.post_process,
        post.world.focus_markers == pre.world.focus_markers,
        post.physics == pre.physics,
        post.assets == pre.assets,
        post.player == pre.player,
        post.post_fx == pre.post_fx,
        (post.pending_move matches Some(d) ==> d.bounded(FX_LIMIT as int)),
    ensures
        post.wf(),
{
    assert forall|i: int|
        0 <= i < post.world.len_s() implies ((#[trigger] post.world.transforms@[i]) matches Some(tr)
        ==> tr.wf()) by {
        if i != e {
            assert(post.world.transforms@[i] == pre.world.transforms@[i]);
        }
    }
    lemma_material_clauses_preserved(pre, post);
}

/// The scene invariant survives replacing the player component with
/// one whose collider is live.
proof fn lemma_wf_after_player_set(pre: Scene, post: Scene, p: Player)
    requires
        pre.wf(),
        pre.physics.collider_valid(p.collider),
        (p.focus_ray matches Some(ray) ==> ray.origin.bounded(FX_LIMIT as int) && ray.dir.bounded(
            5 * FX_LIMIT as int,
        )),
        (p.focus matches Some(f) ==> f.point.bounded(FX_LIMIT as int)),
        post.world.players@ == pre.world.players@.update(pre.player.0 as int, Some(p)),
        post.world.transforms == pre.world.transforms,
        post.world.cameras == pre.world.cameras,
        post.world.meshes == pre.world.meshes,
        post.world.material_sets == pre.world.material_sets,
        post.world.render_tags == pre.world.render_tags,
        post.world.render_orders == pre.world.render_orders,
        post.world.bodies == pre.world.bodies,
        post.world.post_process == pre.world.post_process,
        post.world.focus_markers == pre.world.focus_markers,
        post.physics == pre.physics,
        post.assets == pre.assets,
        post.player == pre.player,
        post.post_fx == pre.post_fx,
        (post.pending_move matches Some(d) ==> d.bounded(FX_LIMIT as int)),
    ensures
        post.wf(),
{
    lemma_material_clauses_preserved(pre, post);
}

/// After one node is built — entity appended, its components written,
/// body registered, assets grown — the scene invariant holds again
/// and the node is built as specified.
proof fn lemma_insert_node_wrapup(
    pre: Scene,
    post: Scene,
    e: int,
    catalog: Seq<crate::scene_config::MaterialCfg>,
    node: crate::scene_config::NodeCfg,
    assets_mid: Assets,
)
    requires
        pre.wf(),
        e == pre.world.len_s(),
        post.world.wf(),
        post.world.len_s() == pre.world.len_s() + 1,
        forall|i: int|
            0 <= i < pre.world.len_s() ==> {
                &&& (#[trigger] post.world.transforms@[i]) == pre.world.transforms@[i]
                &&& post.world.cameras@[i] == pre.world.cameras@[i]
                &&& post.world.meshes@[i] == pre.world.meshes@[i]
                &&& post.world.material_sets@[i] == pre.world.material_sets@[i]
                &&& post.world.render_tags@[i] == pre.world.render_tags@[i]
                &&& post.world.render_orders@[i] == pre.world.render_orders@[i]
                &&& post.world.bodies@[i] == pre.world.bodies@[i]
                &&& post.world.players@[i] == pre.world.players@[i]
                &&& post.world.post_process@[i] == pre.world.post_process@[i]
                &&& post.world.focus_markers@[i] == pre.world.focus_markers@[i]
            },
        (post.world.transforms@[e] matches Some(t) && t.wf() && t.pos == node_pos_s(node)
            && t.scale == node_scale_s(node) && t.rot == (QuatFx {
            w: FX_ONE as i64,
            x: 0,
            y: 0,
            z: 0,
        })),
        post.world.cameras@[e] is None,
        post.world.players@[e] is None,
        post.world.post_process@[e] is None,
        post.world.render_orders@[e] == (match node.render_order {
            Some(o) => Some(RenderOrder(o)),
            None => None::<RenderOrder>,
        }),
        post.world.render_tags@[e] == (match node.render_tags {
            Some(t2) => Some(RenderTags(t2)),
            None => None::<RenderTags>,
        }),
        (post.world.bodies@[e] is Some <==> node.body is Some),
        (node.body matches Some(b) ==> (post.world.bodies@[e] matches Some(rb) && rb.movable == (
        match b.movable {
            Some(m) => m,
            None => true,
        }) && post.physics.body_valid(rb.handle) && post.physics.bodies@[rb.handle.0 as int].pos
            == node_pos_s(node) && post.physics.bodies@[rb.handle.0 as int].movable
            == rb.movable && exists|ci: int|
            0 <= ci < post.physics.colliders@.len() && #[trigger] post.physics.colliders@[ci] == (
            Collider {
                shape: ColliderShape::Cuboid { half_extents: node_scale_s(node) },
                pos: node_pos_s(node),
                parent: Some(rb.handle),
            }))),
        (post.world.meshes@[e] is Some <==> node.mesh is Some),
        (node.mesh matches Some(mc) ==> (post.world.meshes@[e] matches Some(m)
            && assets_mid.meshes.valid(m.0) && mesh_ref_matches(assets_mid, m.0, mc))),
        (post.world.material_sets@[e] is Some <==> node.materials is Some),
        (node.materials matches Some(list) ==> (post.world.material_sets@[e] matches Some(ms)
            && (forall|s: int|
            0 <= s < 4 ==> {
                &&& ((#[trigger] ms.0@[s]) is Some <==> s < vstd::math::min(4, list@.len() as int))
                &&& (ms.0@[s] matches Some(h) ==> post.assets.materials.valid(h)
                    && !pre.assets.materials.valid(h) && material_matches(
                    post.assets,
                    post.assets.materials.value_of(h),
                    crate::scene_config::resolve_s(catalog, list@[s]@)->Some_0,
                ))
            }) && (forall|s1: int, s2: int|
            0 <= s1 < s2 < 4 ==> !((#[trigger] ms.0@[s1]) is Some && ms.0@[s1]
                == #[trigger] ms.0@[s2])))),
        (post.world.focus_markers@[e] is Some <==> node_has_marker_s(node)),
        assets_mid.wf(),
        post.assets.wf(),
        pre.assets.extends(assets_mid),
        assets_mid.extends(post.assets),
        forall|h: crate::arena::Handle|
            pre.assets.materials.valid(h) ==> post.assets.materials.valid(h)
                && post.assets.materials.value_of(h) == pre.assets.materials.value_of(h),
        post.physics.wf(),
        pre.physics.bodies@.len() <= post.physics.bodies@.len(),
        pre.physics.colliders@.len() <= post.physics.colliders@.len(),
        forall|i: int|
            0 <= i < pre.physics.colliders@.len() ==> (#[trigger] post.physics.colliders@[i])
                == pre.physics.colliders@[i],
        post.player == pre.player,
        post.post_fx == pre.post_fx,
        post.pending_move == pre.pending_move,
    ensures
        post.wf(),
        node_built(post, e, catalog, node),
{
    assert forall|i: int|
        0 <= i < post.world.len_s() implies ((#[trigger] post.world.transforms@[i]) matches Some(t)
        ==> t.wf()) by {
        if i < pre.world.len_s() {
            assert(post.world.transforms@[i] == pre.world.transforms@[i]);
        }
    }
    assert forall|i: int|
        0 <= i < post.world.len_s() implies ((#[trigger] post.world.bodies@[i]) matches Some(rb)
        ==> post.physics.body_valid(rb.handle)) by {
        if i < pre.world.len_s() {
            assert(post.world.transforms@[i] == pre.world.transforms@[i]);
            assert(post.world.bodies@[i] == pre.world.bodies@[i]);
        }
    }
    assert forall|i: int, s: int|
        0 <= i < post.world.len_s() && 0 <= s < 4 implies ((#[trigger] slot_handle(post.world, i, s))
        matches Some(h) ==> post.assets.materials.valid(h)) by {
        if i < pre.world.len_s() {
            assert(post.world.transforms@[i] == pre.world.transforms@[i]);
            assert(slot_handle(post.world, i, s) == slot_handle(pre.world, i, s));
        }
    }
    assert(post.world.transforms@[post.post_fx.0 as int] == pre.world.transforms@[pre.post_fx.0 as int]);
    assert(post.post_fx_material_s() == pre.post_fx_material_s());
    assert forall|i: int, s: int|
        0 <= i < post.world.len_s() && 0 <= s < 4 && !(i == post.post_fx.0 as int && s == 0) implies (
    #[trigger] slot_handle(post.world, i, s)) != Some(post.post_fx_material_s()) by {
        if i < pre.world.len_s() {
            assert(post.world.transforms@[i] == pre.world.transforms@[i]);
            assert(slot_handle(post.world, i, s) == slot_handle(pre.world, i, s));
        } else {
            if slot_handle(post.world, i, s) is Some {
                assert(pre.assets.materials.valid(pre.post_fx_material_s()));
                assert(!pre.assets.materials.valid(slot_handle(post.world, i, s)->Some_0));
            }
        }
    }
    if node.mesh is Some {
        lemma_mesh_ref_matches_stable(
            assets_mid,
            post.assets,
            post.world.meshes@[e]->Some_0.0,
            node.mesh->Some_0,
        );
    }
    if node.materials is Some {
        let ms = post.world.material_sets@[e]->Some_0;
        assert forall|i: int, s1: int, s2: int|
            0 <= i < post.world.len_s() && i != e && 0 <= s1 < 4 && 0 <= s2 < 4 implies !((
        #[trigger] slot_handle(post.world, i, s1)) is Some && slot_handle(post.world, i, s1)
            == #[trigger] ms.0@[s2]) by {
            assert(i < pre.world.len_s());
            assert(post.world.transforms@[i] == pre.world.transforms@[i]);
            assert(post.world.material_sets@[i] == pre.world.material_sets@[i]);
            assert(slot_handle(post.world, i, s1) == slot_handle(pre.world, i, s1));
            if slot_handle(pre.world, i, s1) is Some && ms.0@[s2] is Some {
                assert(pre.assets.materials.valid(slot_handle(pre.world, i, s1)->Some_0));
                assert(!pre.assets.materials.valid(ms.0@[s2]->Some_0));
            }
        }
    }
}

/// A built node stays built while later nodes are added: earlier
/// entities' components are untouched, the physics tables and the
/// cache only grow.
proof fn lemma_node_built_stable(
    pre: Scene,
    post: Scene,
    e: int,
    catalog: Seq<crate::scene_config::MaterialCfg>,
    node: crate::scene_config::NodeCfg,
)
    requires
        pre.wf(),
        post.wf(),
        node_built(pre, e, catalog, node),
        0 <= e < pre.world.len_s(),
        forall|i: int|
            0 <= i < pre.world.len_s() ==> {
                &&& (#[trigger] post.world.transforms@[i]) == pre.world.transforms@[i]
                &&& post.world.cameras@[i] == pre.world.cameras@[i]
                &&& post.world.meshes@[i] == pre.world.meshes@[i]
                &&& post.world.material_sets@[i] == pre.world.material_sets@[i]
                &&& post.world.render_tags@[i] == pre.world.render_tags@[i]
                &&& post.world.render_orders@[i] == pre.world.render_orders@[i]
                &&& post.world.bodies@[i] == pre.world.bodies@[i]
                &&& post.world.players@[i] == pre.world.players@[i]
                &&& post.world.post_process@[i] == pre.world.post_process@[i]
                &&& post.world.focus_markers@[i] == pre.world.focus_markers@[i]
            },
        pre.world.len_s() <= post.world.len_s(),
        pre.assets.extends(post.assets),
        forall|h: crate::arena::Handle|
            pre.assets.materials.valid(h) ==> post.assets.materials.valid(h)
                && post.assets.materials.value_of(h) == pre.assets.materials.value_of(h),
        pre.physics.bodies@.len() <= post.physics.bodies@.len(),
        forall|i: int|
            0 <= i < pre.physics.bodies@.len() ==> (#[trigger] post.physics.bodies@[i])
                == pre.physics.bodies@[i],
        pre.physics.colliders@.len() <= post.physics.colliders@.len(),
        forall|i: int|
            0 <= i < pre.physics.colliders@.len() ==> (#[trigger] post.physics.colliders@[i])
                == pre.physics.colliders@[i],
        forall|i: int, s: int|
            pre.world.len_s() <= i < post.world.len_s() && 0 <= s < 4 ==> ((#[trigger] slot_handle(
                post.world,
                i,
                s,
            )) matches Some(h2) ==> !pre.assets.materials.valid(h2)),
    ensures
        node_built(post, e, catalog, node),
{
    assert(post.world.transforms@[e] == pre.world.transforms@[e]);
    if node.body is Some {
        let rb = pre.world.bodies@[e]->Some_0;
        let c = Collider {
            shape: ColliderShape::Cuboid { half_extents: node_scale_s(node) },
            pos: node_pos_s(node),
            parent: Some(rb.handle),
        };
        let ci = choose|ci: int|
            0 <= ci < pre.physics.colliders@.len() && #[trigger] pre.physics.colliders@[ci] == c;
        assert(post.physics.colliders@[ci] == c);
    }
    if node.mesh is Some {
        lemma_mesh_ref_matches_stable(
            pre.assets,
            post.assets,
            pre.world.meshes@[e]->Some_0.0,
            node.mesh->Some_0,
        );
    }
    if node.materials is Some {
        let list = node.materials->Some_0;
        let ms = pre.world.material_sets@[e]->Some_0;
        assert forall|s: int| 0 <= s < 4 implies {
            &&& ((#[trigger] ms.0@[s]) is Some <==> s < vstd::math::min(4, list@.len() as int))
            &&& (ms.0@[s] matches Some(h) ==> post.assets.materials.valid(h) && material_matches(
                post.assets,
                post.assets.materials.value_of(h),
                crate::scene_config::resolve_s(catalog, list@[s]@)->Some_0,
            ))
        } by {
            if ms.0@[s] is Some {
                let h = ms.0@[s]->Some_0;
                lemma_material_matches_stable(
                    pre.assets,
                    post.assets,
                    pre.assets.materials.value_of(h),
                    crate::scene_config::resolve_s(catalog, list@[s]@)->Some_0,
                );
            }
        }
        assert forall|i: int, s1: int, s2: int|
            0 <= i < post.world.len_s() && i != e && 0 <= s1 < 4 && 0 <= s2 < 4 implies !((
        #[trigger] slot_handle(post.world, i, s1)) is Some && slot_handle(post.world, i, s1)
            == #[trigger] ms.0@[s2]) by {
            if ms.0@[s2] is Some {
                assert(pre.assets.materials.valid(ms.0@[s2]->Some_0));
                if i < pre.world.len_s() {
                    assert(post.world.transforms@[i] == pre.world.transforms@[i]);
                    assert(post.world.material_sets@[i] == pre.world.material_sets@[i]);
                    assert(slot_handle(post.world, i, s1) == slot_handle(pre.world, i, s1));
                }
            }
        }
    }
}

/// Instantiate up to four materials from resolved catalog references:
/// one fresh (never deduplicated) material table entry per reference,
/// in reference order; extras beyond four are dropped.
fn build_node_materials(
    assets: &mut Assets,
    catalog: &Vec<crate::scene_config::MaterialCfg>,
    list: &Vec<String>,
) -> (handles: Vec<MaterialHandle>)
    requires
        old(assets).wf(),
        forall|q: int|
            0 <= q < list@.len() ==> crate::scene_config::resolve_s(catalog@, (#[trigger] list@[q])@)
                is Some,
    ensures
        final(assets).wf(),
        old(assets).extends(*final(assets)),
        final(assets).materials.slots@.len() >= old(assets).materials.slots@.len(),
        forall|h: crate::arena::Handle|
            old(assets).materials.valid(h) ==> final(assets).materials.valid(h) && final(assets).materials.value_of(h) == old(assets).materials.value_of(h),
        handles@.len() == vstd::math::min(4, list@.len() as int),
        forall|q: int|
            0 <= q < handles@.len() ==> final(assets).materials.valid(#[trigger] handles@[q])
                && !old(assets).materials.valid(handles@[q]) && material_matches(
                *final(assets),
                final(assets).materials.value_of(handles@[q]),
                crate::scene_config::resolve_s(catalog@, list@[q]@)->Some_0,
            ),
        forall|q1: int, q2: int|
            0 <= q1 < q2 < handles@.len() ==> #[trigger] handles@[q1] != #[trigger] handles@[q2],
{
    let take: usize = if list.len() < 4 {
        list.len()
    } else {
        4
    };
    let mut handles: Vec<MaterialHandle> = Vec::new();
    let mut j: usize = 0;
    while j < take
        invariant
            take as int == vstd::math::min(4, list@.len() as int),
            j <= take,
            assets.wf(),
            old(assets).wf(),
            old(assets).extends(*assets),
            assets.materials.slots@.len() >= old(assets).materials.slots@.len(),
            forall|q: int|
                0 <= q < list@.len() ==> crate::scene_config::resolve_s(
                    catalog@,
                    (#[trigger] list@[q])@,
                ) is Some,
            forall|h: crate::arena::Handle|
                old(assets).materials.valid(h) ==> assets.materials.valid(h)
                    && assets.materials.value_of(h) == old(assets).materials.value_of(h),
            handles@.len() == j,
            forall|q: int|
                0 <= q < j ==> assets.materials.valid(#[trigger] handles@[q])
                    && !old(assets).materials.valid(handles@[q]) && material_matches(
                    *assets,
                    assets.materials.value_of(handles@[q]),
                    crate::scene_config::resolve_s(catalog@, list@[q]@)->Some_0,
                ),
            forall|q1: int, q2: int|
                0 <= q1 < q2 < j ==> #[trigger] handles@[q1] != #[trigger] handles@[q2],
        decreases take - j,
    {
        let ghost assets_before = *assets;
        let idx: usize = match crate::scene_config::resolve(catalog, &list[j]) {
            Some(i) => i,
            None => unreached(),
        };
        let m: Material = match &catalog[idx] {
            crate::scene_config::MaterialCfg::Color { color, wireframe, .. } => {
                let w: bool = match wireframe {
                    Some(w) => *w,
                    None => false,
                };
                Material::color(assets, *color, w)
            },
            crate::scene_config::MaterialCfg::Textured { texture, .. } => Material::textured(
                assets,
                texture.as_str(),
            ),
            crate::scene_config::MaterialCfg::Skybox { texture, .. } => Material::skybox(
                assets,
                texture.as_str(),
            ),
        };
        let h = assets.add_material(m);
        handles.push(h);
        proof {
            assert(material_matches(
                *assets,
                m,
                crate::scene_config::resolve_s(catalog@, list@[j as int]@)->Some_0,
            ));
            crate::assets::lemma_extends_transitive(*old(assets), assets_before, *assets);
            assert forall|q: int|
                0 <= q < j + 1 implies assets.materials.valid(#[trigger] handles@[q])
                && !old(assets).materials.valid(handles@[q]) && material_matches(
                *assets,
                assets.materials.value_of(handles@[q]),
                crate::scene_config::resolve_s(catalog@, list@[q]@)->Some_0,
            ) by {
                if q < j {
                    lemma_material_matches_stable(
                        assets_before,
                        *assets,
                        assets_before.materials.value_of(handles@[q]),
                        crate::scene_config::resolve_s(catalog@, list@[q]@)->Some_0,
                    );
                }
            }
            assert forall|q1: int, q2: int|
                0 <= q1 < q2 < j + 1 implies #[trigger] handles@[q1] != #[trigger] handles@[q2] by {
                if q2 == j {
                    assert(assets_before.materials.valid(handles@[q1]));
                }
            }
        }
        j += 1;
    }
    handles
}

/// Attach the marker components a node asks for.
fn set_node_markers(world: &mut World, e: Entity, cs: &Vec<crate::scene_config::ComponentCfg>)
    requires
        old(world).wf(),
        old(world).alive(e),
    ensures
        final(world).wf(),
        final(world).len_s() == old(world).len_s(),
        final(world).transforms == old(world).transforms,
        final(world).cameras == old(world).cameras,
        final(world).meshes == old(world).meshes,
        final(world).material_sets == old(world).material_sets,
        final(world).render_tags == old(world).render_tags,
        final(world).render_orders == old(world).render_orders,
        final(world).bodies == old(world).bodies,
        final(world).players == old(world).players,
        final(world).post_process == old(world).post_process,
        final(world).focus_markers@.len() == old(world).focus_markers@.len(),
        forall|i: int|
            0 <= i < old(world).len_s() && i != e.0 as int
                ==> (#[trigger] final(world).focus_markers@[i]) == old(world).focus_markers@[i],
        (final(world).focus_markers@[e.0 as int] is Some <==> ((exists|q: int|
            0 <= q < cs@.len() && cs@[q] == crate::scene_config::ComponentCfg::PlayerFocusMarker)
            || old(world).focus_markers@[e.0 as int] is Some)),
{
    let n: usize = cs.len();
    let mut ci: usize = 0;
    while ci < n
        invariant
            n == cs@.len(),
            ci <= n,
            world.wf(),
            world.alive(e),
            world.len_s() == old(world).len_s(),
            world.transforms == old(world).transforms,
            world.cameras == old(world).cameras,
            world.meshes == old(world).meshes,
            world.material_sets == old(world).material_sets,
            world.render_tags == old(world).render_tags,
            world.render_orders == old(world).render_orders,
            world.bodies == old(world).bodies,
            world.players == old(world).players,
            world.post_process == old(world).post_process,
            world.focus_markers@.len() == old(world).focus_markers@.len(),
            forall|i: int|
                0 <= i < old(world).len_s() && i != e.0 as int
                    ==> (#[trigger] world.focus_markers@[i]) == old(world).focus_markers@[i],
            (world.focus_markers@[e.0 as int] is Some <==> ((exists|q: int|
                0 <= q < ci && cs@[q] == crate::scene_config::ComponentCfg::PlayerFocusMarker)
                || old(world).focus_markers@[e.0 as int] is Some)),
        decreases n - ci,
    {
        let c: crate::scene_config::ComponentCfg = cs[ci];
        match c {
            crate::scene_config::ComponentCfg::PlayerFocusMarker => {
                world.set_focus_marker(e);
                proof {
                    assert(cs@[ci as int] == crate::scene_config::ComponentCfg::PlayerFocusMarker);
                }
            },
        }
        ci += 1;
    }
}

pub struct Scene {
    pub world: World,
    pub physics: Physics,
    pub assets: Assets,
    pub player: Entity,
    pub post_fx: Entity,
    pub pending_move: Option<Vec3Fx>,
    pub phase: FramePhase,
}

impl Scene {
    /// The player's component values (the player entity always carries
    /// a player, a transform and an offscreen-targeted camera).
    pub open spec fn player_s(self) -> Player {
        self.world.players@[self.player.0 as int]->Some_0
    }

    pub open spec fn player_transform_s(self) -> Transform {
        self.world.transforms@[self.player.0 as int]->Some_0
    }

    pub open spec fn player_camera_s(self) -> Camera {
        self.world.cameras@[self.player.0 as int]->Some_0
    }

    /// The post-process entity's first material slot.
    pub open spec fn post_fx_material_s(self) -> MaterialHandle {
        slot_handle(self.world, self.post_fx.0 as int, 0)->Some_0
    }

    /// The scene invariant: the containers are well-formed, every
    /// stored transform keeps its cached matrix, every rigid-body link
    /// and material slot points at a live table entry, the player and
    /// post-process entities carry what their systems read, and the
    /// post-process material handle is held nowhere else (so replacing
    /// it can strand no other entity).
    pub open spec fn wf(self) -> bool {
        &&& self.world.wf()
        &&& self.assets.wf()
        &&& self.physics.wf()
        &&& forall|i: int|
            0 <= i < self.world.len_s() ==> ((#[trigger] self.world.transforms@[i]) matches Some(t)
                ==> t.wf())
        &&& forall|i: int|
            0 <= i < self.world.len_s() ==> ((#[trigger] self.world.bodies@[i]) matches Some(rb)
                ==> self.physics.body_valid(rb.handle))
        &&& forall|i: int, s: int|
            0 <= i < self.world.len_s() && 0 <= s < 4 ==> ((#[trigger] slot_handle(
                self.world,
                i,
                s,
            )) matches Some(h) ==> self.assets.materials.valid(h))
        &&& self.world.alive(self.player)
        &&& self.world.players@[self.player.0 as int] is Some
        &&& self.world.transforms@[self.player.0 as int] is Some
        &&& self.world.cameras@[self.player.0 as int] is Some
        &&& self.player_camera_s().target is Some
        &&& self.assets.textures.valid(self.player_camera_s().target->Some_0.color_texture)
        &&& self.physics.collider_valid(self.player_s().collider)
        &&& self.world.alive(self.post_fx)
        &&& self.world.post_process@[self.post_fx.0 as int] is Some
        &&& self.world.material_sets@[self.post_fx.0 as int] is Some
        &&& slot_handle(self.world, self.post_fx.0 as int, 0) is Some
        &&& forall|i: int, s: int|
            0 <= i < self.world.len_s() && 0 <= s < 4 && !(i == self.post_fx.0 as int && s == 0)
                ==> (#[trigger] slot_handle(self.world, i, s)) != Some(self.post_fx_material_s())
        &&& (self.pending_move matches Some(d) ==> d.bounded(FX_LIMIT as int))
        &&& (self.player_s().focus_ray matches Some(ray) ==> ray.origin.bounded(FX_LIMIT as int)
            && ray.dir.bounded(5 * FX_LIMIT as int))
        &&& (self.player_s().focus matches Some(f) ==> f.point.bounded(FX_LIMIT as int))
    }

    /// Whether the player is in controlled mode.
    pub fn controlled(&self) -> (r: bool)
        requires
            self.wf(),
        ensures
            r == self.player_s().controlled,
    {
        match self.world.player(self.player) {
            Some(p) => p.controlled,
            None => unreached(),
        }
    }

    /// The player's collider, for the driver's sweep and cast filters.
    pub fn player_collider(&self) -> (r: crate::physics::ColliderHandle)
        requires
            self.wf(),
        ensures
            r == self.player_s().collider,
    {
        match self.world.player(self.player) {
            Some(p) => p.collider,
            None => unreached(),
        }
    }

    /// The player's current focus.
    pub fn player_focus(&self) -> (r: Option<PlayerFocus>)
        requires
            self.wf(),
        ensures
            r == self.player_s().focus,
    {
        match self.world.player(self.player) {
            Some(p) => p.focus,
            None => unreached(),
        }
    }

    /// The player's current focus ray.
    pub fn player_focus_ray(&self) -> (r: Option<Ray>)
        requires
            self.wf(),
        ensures
            r == self.player_s().focus_ray,
    {
        match self.world.player(self.player) {
            Some(p) => p.focus_ray,
            None => unreached(),
        }
    }

    /// Build the scene: the player (an offscreen-targeted camera, a
    /// ball collider, uncontrolled, no focus) and the post-process
    /// quad (drawn last, on its own layer, sampling the player
    /// camera's color attachment).
    #[verifier::rlimit(100)]
    pub fn new(surface_w: u32, surface_h: u32, player_pos: Vec3Fx, player_rot: QuatFx) -> (r: Scene)
        requires
            player_pos.bounded(FX_LIMIT as int),
            player_rot.bounded(FX_ONE as int),
        ensures
            r.wf(),
            r.phase == FramePhase::Physics,
            r.player_s().controlled == false,
            r.player_s().focus is None,
            r.player_s().focus_ray is None,
            r.player_s().translation_acc == (Vec3Fx { x: 0, y: 0, z: 0 }),
            r.player_transform_s().pos == player_pos,
            r.player_transform_s().rot == player_rot.normalize_s(),
            r.player_camera_s().tags == RENDER_TAG_SCENE,
            r.player_camera_s().aspect_w == surface_w,
            r.player_camera_s().aspect_h == surface_h,
            r.physics.bodies@.len() == 0,
            r.physics.colliders@.len() == 1,
            r.physics.colliders@[r.player_s().collider.0 as int] == (Collider {
                shape: ColliderShape::Ball { radius: 32768 },
                pos: player_pos,
                parent: None,
            }),
            (r.assets.materials.value_of(r.post_fx_material_s()) matches Material::PostProcess {
                texture,
                ..
            } && texture == r.player_camera_s().target->Some_0.color_texture),
            r.world.render_orders@[r.post_fx.0 as int] == Some(RenderOrder(100)),
            r.world.render_tags@[r.post_fx.0 as int] == Some(
                RenderTags(crate::components::RENDER_TAG_POST_PROCESS),
            ),
            r.world.cameras@[r.post_fx.0 as int] matches Some(c) && c.tags
                == crate::components::RENDER_TAG_POST_PROCESS && c.target is None && c.aspect_w == 1
                && c.aspect_h == 1,
            (r.world.transforms@[r.post_fx.0 as int] matches Some(t) && t.pos == (Vec3Fx {
                x: 0,
                y: 0,
                z: 0,
            }) && t.scale == (Vec3Fx { x: FX_ONE as i64, y: FX_ONE as i64, z: FX_ONE as i64 })
                && t.rot == (QuatFx { w: FX_ONE as i64, x: 0, y: 0, z: 0 })),
            (r.world.meshes@[r.post_fx.0 as int] matches Some(m) && r.assets.meshes.valid(m.0)
                && crate::assets::has_key(r.assets.mesh_keys@, "quad"@) && m.0
                == crate::assets::key_handle(r.assets.mesh_keys@, "quad"@)
                && r.assets.meshes.value_of(m.0) == crate::assets::MeshAsset::Quad),
            slot_handle(r.world, r.post_fx.0 as int, 1) is None,
            slot_handle(r.world, r.post_fx.0 as int, 2) is None,
            slot_handle(r.world, r.post_fx.0 as int, 3) is None,
            r.world.len_s() == 2,
    {
        let mut assets = Assets::new();
        let mut world = World::new();
        let mut physics = Physics::new();
        let target = RenderTarget::new(&mut assets, surface_w, surface_h);
        let cam = Camera::new(surface_w, surface_h, RENDER_TAG_SCENE, Some(target));
        let mut tr = Transform::from_pos(player_pos);
        tr.set_rotation(player_rot);
        let collider = physics.add_collider(
            Collider {
                shape: ColliderShape::Ball { radius: 32768 },
                pos: player_pos,
                parent: None,
            },
        );
        let player = world.spawn();
        world.set_player(
            player,
            Player {
                collider,
                translation_acc: Vec3Fx::zero(),
                controlled: false,
                focus_ray: None,
                focus: None,
            },
        );
        world.set_camera(player, cam);
        world.set_transform(player, tr);
        let mat = Material::post_process(&mut assets, target.color_texture);
        let mesh = assets.add_mesh(crate::assets::MeshAsset::Quad, Some("quad"));
        let mat_h = assets.add_material(mat);
        let post_fx = world.spawn();
        world.set_post_process(post_fx);
        world.set_transform(post_fx, Transform::new(Vec3Fx::zero(), Vec3Fx::splat(FX_ONE)));
        world.set_camera(
            post_fx,
            Camera::new(1, 1, crate::components::RENDER_TAG_POST_PROCESS, None),
        );
        world.set_mesh(post_fx, Mesh(mesh));
        world.set_materials(post_fx, Materials::single(mat_h));
        world.set_render_order(post_fx, RenderOrder(100));
        world.set_render_tags(
            post_fx,
            RenderTags(crate::components::RENDER_TAG_POST_PROCESS),
        );
        let r = Scene {
            world,
            physics,
            assets,
            player,
            post_fx,
            pending_move: None,
            phase: FramePhase::Physics,
        };
        proof {
            assert forall|i: int, s: int|
                0 <= i < r.world.len_s() && 0 <= s < 4 implies ((#[trigger] slot_handle(
                r.world,
                i,
                s,
            )) matches Some(h) ==> r.assets.materials.valid(h)) by {
                if i == 1 && s == 0 {
                    assert(slot_handle(r.world, i, s) == Some(mat_h));
                }
            }
            assert forall|i: int, s: int|
                0 <= i < r.world.len_s() && 0 <= s < 4 && !(i == r.post_fx.0 as int && s == 0)
                implies (#[trigger] slot_handle(r.world, i, s)) != Some(r.post_fx_material_s()) by {
                if i == 1 {
                    assert(slot_handle(r.world, i, s) is None);
                }
            }
        }
        r
    }

    /// Record the poses the solver reported for this frame's step, and
    /// apply a deferred surface resize to the player camera and its
    /// render target. This is the frame's first system.
    pub fn note_physics_stepped(
        &mut self,
        poses: &Vec<(BodyHandle, Vec3Fx, QuatFx)>,
        new_size: Option<(u32, u32)>,
    )
        requires
            old(self).wf(),
            old(self).phase == FramePhase::Physics,
            forall|k: int|
                0 <= k < poses@.len() ==> old(self).physics.body_valid((#[trigger] poses@[k]).0)
                    && poses@[k].1.bounded(FX_LIMIT as int) && poses@[k].2.bounded(FX_ONE as int),
            forall|a: int, b: int| 0 <= a < b < poses@.len() ==> poses@[a].0 != poses@[b].0,
        ensures
            final(self).wf(),
            final(self).phase == FramePhase::PlayerLook,
            final(self).physics.bodies@.len() == old(self).physics.bodies@.len(),
            forall|k: int|
                0 <= k < poses@.len() ==> final(self).physics.bodies@[(#[trigger] poses@[k]).0.0 as int]
                    == (Body {
                    pos: poses@[k].1,
                    rot: poses@[k].2,
                    movable: old(self).physics.bodies@[poses@[k].0.0 as int].movable,
                }),
            forall|h: int|
                0 <= h < old(self).physics.bodies@.len() && (forall|k: int|
                    0 <= k < poses@.len() ==> (#[trigger] poses@[k]).0.0 != h)
                    ==> final(self).physics.bodies@[h] == old(self).physics.bodies@[h],
            final(self).physics.colliders == old(self).physics.colliders,
            old(self).assets.extends(final(self).assets),
            (match new_size {
                Some((w, h)) => final(self).player_camera_s().aspect_w == w
                    && final(self).player_camera_s().aspect_h == h
                    && (final(self).player_camera_s().target matches Some(t) && t.width == w
                    && t.height == h),
                None => final(self).world == old(self).world
                    && final(self).assets == old(self).assets,
            }),
            final(self).world.len_s() == old(self).world.len_s(),
            old(self).world.others_unchanged(final(self).world, old(self).player),
            final(self).world.transforms == old(self).world.transforms,
            final(self).world.players == old(self).world.players,
            final(self).world.material_sets == old(self).world.material_sets,
            final(self).player == old(self).player,
            final(self).post_fx == old(self).post_fx,
            final(self).pending_move == old(self).pending_move,
    {
        let n: usize = poses.len();
        let mut k: usize = 0;
        while k < n
            invariant
                n == poses@.len(),
                k <= n,
                self.physics.wf(),
                self.physics.bodies@.len() == old(self).physics.bodies@.len(),
                self.physics.colliders == old(self).physics.colliders,
                self.world == old(self).world,
                self.assets == old(self).assets,
                self.player == old(self).player,
                self.post_fx == old(self).post_fx,
                self.pending_move == old(self).pending_move,
                self.phase == old(self).phase,
                forall|q: int|
                    0 <= q < poses@.len() ==> old(self).physics.body_valid((#[trigger] poses@[q]).0)
                        && poses@[q].1.bounded(FX_LIMIT as int) && poses@[q].2.bounded(
                        FX_ONE as int,
                    ),
                forall|a: int, b: int| 0 <= a < b < poses@.len() ==> poses@[a].0 != poses@[b].0,
                forall|q: int|
                    0 <= q < k ==> self.physics.bodies@[(#[trigger] poses@[q]).0.0 as int] == (Body {
                        pos: poses@[q].1,
                        rot: poses@[q].2,
                        movable: old(self).physics.bodies@[poses@[q].0.0 as int].movable,
                    }),
                forall|h: int|
                    0 <= h < old(self).physics.bodies@.len() && (forall|q: int|
                        0 <= q < k ==> (#[trigger] poses@[q]).0.0 != h) ==> self.physics.bodies@[h]
                        == old(self).physics.bodies@[h],
            decreases n - k,
        {
            let (handle, pos, rot) = poses[k];
            proof {
                assert(old(self).physics.body_valid(poses@[k as int].0));
            }
            self.physics.set_body_pose(handle, pos, rot);
            k += 1;
        }
        if let Some((w, h)) = new_size {
            let mut cam: Camera = match self.world.camera(self.player) {
                Some(c) => *c,
                None => unreached(),
            };
            let mut t: RenderTarget = match cam.target {
                Some(t) => t,
                None => unreached(),
            };
            t.resize(&mut self.assets, w, h);
            cam.set_aspect(w, h);
            cam.target = Some(t);
            self.world.set_camera(self.player, cam);
        }
        self.phase = FramePhase::PlayerLook;
        proof {
            assert forall|i: int, s: int| 0 <= i < self.world.len_s() && 0 <= s < 4 implies ((
            #[trigger] slot_handle(self.world, i, s)) matches Some(h)
                ==> self.assets.materials.valid(h)) by {
                assert(slot_handle(self.world, i, s) == slot_handle(old(self).world, i, s));
            }
            assert(self.post_fx_material_s() == old(self).post_fx_material_s());
            assert forall|i: int, s: int|
                0 <= i < self.world.len_s() && 0 <= s < 4 && !(i == self.post_fx.0 as int && s
                    == 0) implies (#[trigger] slot_handle(self.world, i, s)) != Some(
                self.post_fx_material_s(),
            ) by {
                assert(slot_handle(self.world, i, s) == slot_handle(old(self).world, i, s));
            }
        }
    }

    /// Turn raw mouse deltas into look angles: horizontal scaled by
    /// the rotation speed, vertical scaled and then clamped so the
    /// forward vector never crosses the vertical margins. Uncontrolled,
    /// the player does not look around at all.
    pub fn look_deltas(&self, angle_to_top: i64, dx: i64, dy: i64) -> (r: (i64, i64))
        requires
            self.wf(),
            iabs(angle_to_top as int) <= 2 * PI_FX as int,
            iabs(dx as int) <= LOOK_DELTA_LIMIT as int,
            iabs(dy as int) <= LOOK_DELTA_LIMIT as int,
        ensures
            self.player_s().controlled ==> r.0 as int == fx_mul_s(dx as int, ROTATION_SPEED as int)
                && r.1 as int == clamp_look_delta_s(
                angle_to_top as int,
                fx_mul_s(dy as int, ROTATION_SPEED as int),
            ),
            !self.player_s().controlled ==> r == (0i64, 0i64),
    {
        if !self.controlled() {
            return (0, 0);
        }
        proof {
            lemma_fx_mul_bound(dx as int, ROTATION_SPEED as int, LOOK_DELTA_LIMIT as int, 197);
            lemma_fx_mul_bound(dy as int, ROTATION_SPEED as int, LOOK_DELTA_LIMIT as int, 197);
            assert(((0x800_0000 * 197) as int) / 65536 == 403456);
        }
        let h: i64 = fx_mul(dx, ROTATION_SPEED);
        let v0: i64 = fx_mul(dy, ROTATION_SPEED);
        let v: i64 = clamp_look_delta(angle_to_top, v0);
        (h, v)
    }

    /// Apply the frame's look rotations: the horizontal one about the
    /// world axes, then the vertical one about the local axes. Without
    /// control the transform stays untouched.
    pub fn player_apply_look(&mut self, h_quat: QuatFx, v_quat: QuatFx)
        requires
            old(self).wf(),
            old(self).phase == FramePhase::PlayerLook,
            h_quat.bounded(2 * FX_ONE as int),
            v_quat.bounded(2 * FX_ONE as int),
        ensures
            final(self).wf(),
            final(self).phase == FramePhase::PlayerMove,
            old(self).player_s().controlled ==> {
                &&& final(self).player_transform_s().rot == v_quat.mul_s(
                    old(self).player_transform_s().rot.mul_s(h_quat).normalize_s(),
                ).normalize_s()
                &&& final(self).player_transform_s().pos == old(self).player_transform_s().pos
                &&& final(self).player_transform_s().scale == old(self).player_transform_s().scale
            },
            !old(self).player_s().controlled ==> final(self).world == old(self).world,
            old(self).world.others_unchanged(final(self).world, old(self).player),
            final(self).world.players == old(self).world.players,
            final(self).world.cameras == old(self).world.cameras,
            final(self).physics == old(self).physics,
            final(self).assets == old(self).assets,
            final(self).player == old(self).player,
            final(self).post_fx == old(self).post_fx,
            final(self).pending_move == old(self).pending_move,
    {
        if self.controlled() {
            let mut tr: Transform = match self.world.transform(self.player) {
                Some(t) => *t,
                None => unreached(),
            };
            tr.rotate(h_quat, TransformSpace::World);
            tr.rotate(v_quat, TransformSpace::Local);
            self.world.set_transform(self.player, tr);
            proof {
                lemma_wf_after_transform_at(*old(self), Scene { phase: FramePhase::PlayerMove, ..*self }, old(self).player.0 as int, tr);
            }
        }
        self.phase = FramePhase::PlayerMove;
    }

    /// Decide this frame's movement: sum the selected basis vectors,
    /// and below the threshold clear the residual accumulator and ask
    /// for nothing; otherwise normalize, scale by speed and frame
    /// time, remember the request, and hand it out for the sweep.
    pub fn player_move_request(&mut self, input: MovementInput, dt: i64) -> (r: Option<Vec3Fx>)
        requires
            old(self).wf(),
            old(self).phase == FramePhase::PlayerMove,
            0 <= dt <= 16 * FX_ONE as int,
        ensures
            final(self).wf(),
            final(self).phase == FramePhase::PlayerMoveApply,
            final(self).pending_move == r,
            old(self).player_s().controlled ==> {
                let dir = Vec3Fx {
                    x: crate::player::dir_component(
                        input,
                        -old(self).player_transform_s().m.c2.x as int,
                        old(self).player_transform_s().m.c0.x as int,
                        old(self).player_transform_s().m.c1.x as int,
                    ) as i64,
                    y: crate::player::dir_component(
                        input,
                        -old(self).player_transform_s().m.c2.y as int,
                        old(self).player_transform_s().m.c0.y as int,
                        old(self).player_transform_s().m.c1.y as int,
                    ) as i64,
                    z: crate::player::dir_component(
                        input,
                        -old(self).player_transform_s().m.c2.z as int,
                        old(self).player_transform_s().m.c0.z as int,
                        old(self).player_transform_s().m.c1.z as int,
                    ) as i64,
                };
                &&& (crate::player::mag_sq_s(dir) < crate::player::MOVE_EPS_SQ as int ==> r is None
                    && final(self).player_s().translation_acc == (Vec3Fx { x: 0, y: 0, z: 0 }))
                &&& (crate::player::mag_sq_s(dir) >= crate::player::MOVE_EPS_SQ as int ==> r
                    == Some(
                    crate::player::desired_translation_s(
                        dir,
                        fx_mul_s(crate::player::SPEED as int, dt as int),
                    ),
                ))
            },
            !old(self).player_s().controlled ==> r is None && final(self).player_s().translation_acc
                == (Vec3Fx { x: 0, y: 0, z: 0 }),
            final(self).world.transforms == old(self).world.transforms,
            final(self).physics == old(self).physics,
            final(self).assets == old(self).assets,
            final(self).player == old(self).player,
            final(self).post_fx == old(self).post_fx,
    {
        let mut p: Player = match self.world.player(self.player) {
            Some(p) => *p,
            None => unreached(),
        };
        let r: Option<Vec3Fx>;
        if p.controlled {
            let tr: &Transform = match self.world.transform(self.player) {
                Some(t) => t,
                None => unreached(),
            };
            let dir = movement_direction(tr, input);
            r = desired_translation(dir, dt);
            if r.is_none() {
                p.translation_acc = Vec3Fx::zero();
                self.world.set_player(self.player, p);
                proof {
                    lemma_wf_after_player_set(
                        *old(self),
                        Scene { phase: FramePhase::PlayerMoveApply, ..*self },
                        p,
                    );
                }
            }
        } else {
            p.translation_acc = Vec3Fx::zero();
            self.world.set_player(self.player, p);
            r = None;
            proof {
                lemma_wf_after_player_set(
                    *old(self),
                    Scene { phase: FramePhase::PlayerMoveApply, ..*self },
                    p,
                );
            }
        }
        self.pending_move = r;
        self.phase = FramePhase::PlayerMoveApply;
        proof {
            if r is Some {
                assert(r->Some_0.bounded(FX_LIMIT as int));
            }
        }
        r
    }

    /// Apply the sweep's outcome to the requested movement: the
    /// translation actually applied never exceeds the request, and the
    /// player's collider is mirrored to the transform. A destination
    /// outside the representable range moves nothing.
    pub fn player_apply_move(&mut self, allowed: Vec3Fx)
        requires
            old(self).wf(),
            old(self).phase == FramePhase::PlayerMoveApply,
            allowed.bounded(0x7fff_ffff_ffff_ffff),
        ensures
            final(self).wf(),
            final(self).phase == FramePhase::PlayerToggle,
            final(self).pending_move is None,
            (match old(self).pending_move {
                Some(desired) => {
                    let t = crate::physics::clamp_sweep_s(desired, allowed);
                    let p0 = old(self).player_transform_s().pos;
                    &&& crate::physics::sweep_mag_sq(t) <= crate::physics::sweep_mag_sq(desired)
                    &&& (iabs(p0.x + t.x) <= FX_LIMIT as int && iabs(p0.y + t.y) <= FX_LIMIT as int
                        && iabs(p0.z + t.z) <= FX_LIMIT as int) ==> {
                        let c0 = old(self).physics.colliders@[old(self).player_s().collider.0 as int];
                        let n = Vec3Fx {
                            x: (c0.pos.x + t.x) as i64,
                            y: (c0.pos.y + t.y) as i64,
                            z: (c0.pos.z + t.z) as i64,
                        };
                        &&& final(self).player_transform_s().pos == (Vec3Fx {
                            x: (p0.x + t.x) as i64,
                            y: (p0.y + t.y) as i64,
                            z: (p0.z + t.z) as i64,
                        })
                        &&& final(self).player_transform_s().rot == old(self).player_transform_s().rot
                        &&& final(self).player_transform_s().scale == old(self).player_transform_s().scale
                        &&& (n.bounded(FX_LIMIT as int) ==> final(self).physics.colliders@ == old(
                            self,
                        ).physics.colliders@.update(
                            old(self).player_s().collider.0 as int,
                            Collider { shape: c0.shape, pos: n, parent: c0.parent },
                        ))
                        &&& (!n.bounded(FX_LIMIT as int) ==> final(self).physics.colliders@ == old(
                            self,
                        ).physics.colliders@)
                    }
                },
                None => final(self).world == old(self).world && final(self).physics == old(self).physics,
            }),
            final(self).physics.bodies == old(self).physics.bodies,
            final(self).assets == old(self).assets,
            final(self).player == old(self).player,
            final(self).post_fx == old(self).post_fx,
            old(self).world.others_unchanged(final(self).world, old(self).player),
            final(self).world.players == old(self).world.players,
    {
        if let Some(desired) = self.pending_move {
            let t = clamp_sweep(desired, allowed);
            let mut tr: Transform = match self.world.transform(self.player) {
                Some(t2) => *t2,
                None => unreached(),
            };
            let in_bounds: bool = tr.pos.x + t.x >= -FX_LIMIT && tr.pos.x + t.x <= FX_LIMIT
                && tr.pos.y + t.y >= -FX_LIMIT && tr.pos.y + t.y <= FX_LIMIT && tr.pos.z + t.z
                >= -FX_LIMIT && tr.pos.z + t.z <= FX_LIMIT;
            if in_bounds {
                let collider = self.player_collider();
                let cpos: Vec3Fx = self.physics.collider(collider).pos;
                tr.translate(t);
                self.world.set_transform(self.player, tr);
                let npos = Vec3Fx { x: cpos.x + t.x, y: cpos.y + t.y, z: cpos.z + t.z };
                let cin: bool = npos.x >= -FX_LIMIT && npos.x <= FX_LIMIT && npos.y >= -FX_LIMIT
                    && npos.y <= FX_LIMIT && npos.z >= -FX_LIMIT && npos.z <= FX_LIMIT;
                if cin {
                    self.physics.set_collider_translation(collider, npos);
                }
                proof {
                    lemma_wf_after_transform_at(
                        *old(self),
                        Scene {
                            phase: FramePhase::PlayerToggle,
                            pending_move: None,
                            physics: old(self).physics,
                            ..*self
                        },
                        old(self).player.0 as int,
                        tr,
                    );
                    lemma_material_clauses_preserved(*old(self), *self);
                }
            }
        }
        self.pending_move = None;
        self.phase = FramePhase::PlayerToggle;
    }

    /// Toggle the control mode when the toggle action fired; the
    /// returned flag tells the driver to grab or release the cursor.
    pub fn player_toggle(&mut self, requested: bool) -> (r: Option<bool>)
        requires
            old(self).wf(),
            old(self).phase == FramePhase::PlayerToggle,
        ensures
            final(self).wf(),
            final(self).phase == FramePhase::PlayerFocusRay,
            requested ==> final(self).player_s().controlled == !old(self).player_s().controlled
                && r == Some(!old(self).player_s().controlled),
            !requested ==> final(self).world == old(self).world && r is None,
            final(self).player_s().focus == old(self).player_s().focus,
            final(self).player_s().focus_ray == old(self).player_s().focus_ray,
            final(self).world.transforms == old(self).world.transforms,
            final(self).physics == old(self).physics,
            final(self).assets == old(self).assets,
            final(self).player == old(self).player,
            final(self).post_fx == old(self).post_fx,
            final(self).pending_move == old(self).pending_move,
            old(self).world.others_unchanged(final(self).world, old(self).player),
    {
        let r: Option<bool>;
        if requested {
            let mut p: Player = match self.world.player(self.player) {
                Some(p) => *p,
                None => unreached(),
            };
            p.controlled = !p.controlled;
            r = Some(p.controlled);
            self.world.set_player(self.player, p);
            proof {
                lemma_wf_after_player_set(
                    *old(self),
                    Scene { phase: FramePhase::PlayerFocusRay, ..*self },
                    p,
                );
            }
        } else {
            r = None;
        }
        self.phase = FramePhase::PlayerFocusRay;
        r
    }

    /// Decide the frame's focus ray: from the player's position along
    /// its forward vector while controlled, else along the direction
    /// the driver unprojected from the cursor; with no cursor there is
    /// no ray. The previous focus is cleared either way, and the ray
    /// (if any) is handed out for the driver to cast.
    pub fn player_cast_ray(&mut self, cursor_dir: Option<Vec3Fx>) -> (r: Option<Ray>)
        requires
            old(self).wf(),
            old(self).phase == FramePhase::PlayerFocusRay,
            (cursor_dir matches Some(d) ==> d.bounded(2 * FX_ONE as int)),
        ensures
            final(self).wf(),
            final(self).phase == FramePhase::PlayerFocusHit,
            old(self).player_s().controlled ==> r == Some(
                Ray {
                    origin: old(self).player_transform_s().pos,
                    dir: Vec3Fx {
                        x: (-old(self).player_transform_s().m.c2.x as int) as i64,
                        y: (-old(self).player_transform_s().m.c2.y as int) as i64,
                        z: (-old(self).player_transform_s().m.c2.z as int) as i64,
                    },
                },
            ),
            !old(self).player_s().controlled ==> r == (match cursor_dir {
                Some(d) => Some(Ray { origin: old(self).player_transform_s().pos, dir: d }),
                None => None,
            }),
            final(self).player_s().focus_ray == r,
            final(self).player_s().focus is None,
            final(self).player_s().controlled == old(self).player_s().controlled,
            final(self).player_s().collider == old(self).player_s().collider,
            final(self).world.transforms == old(self).world.transforms,
            final(self).physics == old(self).physics,
            final(self).assets == old(self).assets,
            final(self).player == old(self).player,
            final(self).post_fx == old(self).post_fx,
            final(self).pending_move == old(self).pending_move,
            old(self).world.others_unchanged(final(self).world, old(self).player),
    {
        let mut p: Player = match self.world.player(self.player) {
            Some(p) => *p,
            None => unreached(),
        };
        let tr: &Transform = match self.world.transform(self.player) {
            Some(t) => t,
            None => unreached(),
        };
        let r: Option<Ray>;
        if p.controlled {
            proof {
                crate::transform::lemma_compose_entry_bounds(tr.m, tr.pos, tr.rot, tr.scale);
            }
            let fwd = tr.forward();
            r = Some(Ray { origin: tr.position(), dir: fwd });
        } else if let Some(d) = cursor_dir {
            r = Some(Ray { origin: tr.position(), dir: d });
        } else {
            r = None;
        }
        p.focus_ray = r;
        p.focus = None;
        self.world.set_player(self.player, p);
        proof {
            lemma_wf_after_player_set(
                *old(self),
                Scene { phase: FramePhase::PlayerFocusHit, ..*self },
                p,
            );
        }
        self.phase = FramePhase::PlayerFocusHit;
        r
    }

    /// Record the cast's outcome. A hit populates the focus with the
    /// point along the ray, the distance, and the body owning the hit
    /// collider; a miss clears the focus but the attempted ray stays
    /// recorded. A hit whose point falls outside the representable
    /// range counts as a miss.
    pub fn player_set_focus(&mut self, hit: Option<RayCastResult>)
        requires
            old(self).wf(),
            old(self).phase == FramePhase::PlayerFocusHit,
            (hit matches Some(h) ==> {
                &&& old(self).player_s().focus_ray is Some
                &&& old(self).physics.collider_valid(h.collider)
                &&& old(self).physics.colliders@[h.collider.0 as int].parent is Some
                &&& 0 <= h.distance <= CAST_RANGE as int
            }),
        ensures
            final(self).wf(),
            final(self).phase == FramePhase::PlayerSpawn,
            final(self).player_s().focus_ray == old(self).player_s().focus_ray,
            final(self).player_s().controlled == old(self).player_s().controlled,
            hit is None ==> final(self).player_s().focus is None,
            (hit matches Some(h) ==> {
                let ray = old(self).player_s().focus_ray->Some_0;
                let pt = Vec3Fx {
                    x: (ray.origin.x + fx_mul_s(ray.dir.x as int, h.distance as int)) as i64,
                    y: (ray.origin.y + fx_mul_s(ray.dir.y as int, h.distance as int)) as i64,
                    z: (ray.origin.z + fx_mul_s(ray.dir.z as int, h.distance as int)) as i64,
                };
                if pt.bounded(FX_LIMIT as int) {
                    final(self).player_s().focus == Some(
                        PlayerFocus {
                            point: pt,
                            distance: h.distance,
                            body: old(self).physics.colliders@[h.collider.0 as int].parent->Some_0,
                        },
                    )
                } else {
                    final(self).player_s().focus is None
                }
            }),
            final(self).world.transforms == old(self).world.transforms,
            final(self).physics == old(self).physics,
            final(self).assets == old(self).assets,
            final(self).player == old(self).player,
            final(self).post_fx == old(self).post_fx,
            final(self).pending_move == old(self).pending_move,
            old(self).world.others_unchanged(final(self).world, old(self).player),
    {
        let mut p: Player = match self.world.player(self.player) {
            Some(p) => *p,
            None => unreached(),
        };
        p.focus = None;
        if let Some(h) = hit {
            let ray: Ray = match p.focus_ray {
                Some(ray) => ray,
                None => unreached(),
            };
            proof {
                lemma_fx_mul_bound(
                    ray.dir.x as int,
                    h.distance as int,
                    5 * FX_LIMIT as int,
                    CAST_RANGE as int,
                );
                lemma_fx_mul_bound(
                    ray.dir.y as int,
                    h.distance as int,
                    5 * FX_LIMIT as int,
                    CAST_RANGE as int,
                );
                lemma_fx_mul_bound(
                    ray.dir.z as int,
                    h.distance as int,
                    5 * FX_LIMIT as int,
                    CAST_RANGE as int,
                );
            }
            let px: i64 = ray.origin.x + fx_mul(ray.dir.x, h.distance);
            let py: i64 = ray.origin.y + fx_mul(ray.dir.y, h.distance);
            let pz: i64 = ray.origin.z + fx_mul(ray.dir.z, h.distance);
            let in_bounds: bool = px >= -FX_LIMIT && px <= FX_LIMIT && py >= -FX_LIMIT && py
                <= FX_LIMIT && pz >= -FX_LIMIT && pz <= FX_LIMIT;
            if in_bounds {
                let body: BodyHandle = match self.physics.collider(h.collider).parent {
                    Some(b) => b,
                    None => unreached(),
                };
                p.focus = Some(
                    PlayerFocus {
                        point: Vec3Fx { x: px, y: py, z: pz },
                        distance: h.distance,
                        body,
                    },
                );
            }
        }
        self.world.set_player(self.player, p);
        proof {
            lemma_wf_after_player_set(
                *old(self),
                Scene { phase: FramePhase::PlayerSpawn, ..*self },
                p,
            );
        }
        self.phase = FramePhase::PlayerSpawn;
    }

    /// While controlled, the spawn action drops a new dynamic crate
    /// five units ahead of the player: a unit cuboid body plus a
    /// matching drawable. The driver mirrors the returned body into
    /// the solver. A destination outside the representable range
    /// spawns nothing.
    pub fn player_spawn(&mut self, pressed: bool) -> (r: Option<(Entity, BodyHandle)>)
        requires
            old(self).wf(),
            old(self).phase == FramePhase::PlayerSpawn,
        ensures
            final(self).wf(),
            final(self).phase == FramePhase::Grab,
            (!old(self).player_s().controlled || !pressed) ==> r is None && final(self).world == old(self).world && final(self).physics == old(self).physics && final(self).assets == old(self).assets,
            (old(self).player_s().controlled && pressed && iabs(
                old(self).player_transform_s().pos.x + fx_mul_s(
                    -old(self).player_transform_s().m.c2.x as int,
                    5 * FX_ONE as int,
                ),
            ) <= FX_LIMIT as int && iabs(
                old(self).player_transform_s().pos.y + fx_mul_s(
                    -old(self).player_transform_s().m.c2.y as int,
                    5 * FX_ONE as int,
                ),
            ) <= FX_LIMIT as int && iabs(
                old(self).player_transform_s().pos.z + fx_mul_s(
                    -old(self).player_transform_s().m.c2.z as int,
                    5 * FX_ONE as int,
                ),
            ) <= FX_LIMIT as int) ==> r is Some,
            (r matches Some((e, bh)) ==> {
                &&& old(self).player_s().controlled && pressed
                &&& e.0 as int == old(self).world.len_s()
                &&& final(self).world.len_s() == old(self).world.len_s() + 1
                &&& (final(self).world.transforms@[e.0 as int] matches Some(t) && t.wf() && t.scale
                    == (Vec3Fx { x: FX_ONE as i64, y: FX_ONE as i64, z: FX_ONE as i64 }) && t.pos
                    == (Vec3Fx {
                    x: (old(self).player_transform_s().pos.x + fx_mul_s(
                        -old(self).player_transform_s().m.c2.x as int,
                        5 * FX_ONE as int,
                    )) as i64,
                    y: (old(self).player_transform_s().pos.y + fx_mul_s(
                        -old(self).player_transform_s().m.c2.y as int,
                        5 * FX_ONE as int,
                    )) as i64,
                    z: (old(self).player_transform_s().pos.z + fx_mul_s(
                        -old(self).player_transform_s().m.c2.z as int,
                        5 * FX_ONE as int,
                    )) as i64,
                }))
                &&& (final(self).world.bodies@[e.0 as int] matches Some(rb) && rb.movable
                    && rb.handle == bh && final(self).physics.body_valid(bh) && final(self).physics.bodies@[bh.0 as int].movable)
                &&& (final(self).world.meshes@[e.0 as int] matches Some(m) && final(self).assets.meshes.valid(m.0) && crate::assets::has_key(
                    final(self).assets.mesh_keys@,
                    "cube.obj"@,
                ) && m.0 == crate::assets::key_handle(final(self).assets.mesh_keys@, "cube.obj"@))
                &&& (slot_handle(final(self).world, e.0 as int, 0) matches Some(mh) && final(self).assets.materials.valid(mh) && (final(self).assets.materials.value_of(mh)
                    matches Material::Textured { texture, .. } && final(self).assets.textures.valid(texture)))
                &&& forall|i: int|
                    0 <= i < old(self).world.len_s() ==> {
                        &&& (#[trigger] final(self).world.transforms@[i])
                            == old(self).world.transforms@[i]
                        &&& final(self).world.cameras@[i] == old(self).world.cameras@[i]
                        &&& final(self).world.meshes@[i] == old(self).world.meshes@[i]
                        &&& final(self).world.material_sets@[i]
                            == old(self).world.material_sets@[i]
                        &&& final(self).world.render_tags@[i] == old(self).world.render_tags@[i]
                        &&& final(self).world.render_orders@[i]
                            == old(self).world.render_orders@[i]
                        &&& final(self).world.bodies@[i] == old(self).world.bodies@[i]
                        &&& final(self).world.players@[i] == old(self).world.players@[i]
                        &&& final(self).world.post_process@[i]
                            == old(self).world.post_process@[i]
                        &&& final(self).world.focus_markers@[i]
                            == old(self).world.focus_markers@[i]
                    }
            }),
            final(self).player == old(self).player,
            final(self).post_fx == old(self).post_fx,
            final(self).pending_move == old(self).pending_move,
            old(self).assets.extends(final(self).assets),
            final(self).world.players@[old(self).player.0 as int] == old(self).world.players@[old(self).player.0 as int],
    {
        if !pressed || !self.controlled() {
            self.phase = FramePhase::Grab;
            return None;
        }
        let tr: &Transform = match self.world.transform(self.player) {
            Some(t) => t,
            None => unreached(),
        };
        proof {
            crate::transform::lemma_compose_entry_bounds(tr.m, tr.pos, tr.rot, tr.scale);
            lemma_fx_mul_bound(
                -tr.m.c2.x as int,
                5 * FX_ONE as int,
                5 * FX_LIMIT as int,
                5 * FX_ONE as int,
            );
            lemma_fx_mul_bound(
                -tr.m.c2.y as int,
                5 * FX_ONE as int,
                5 * FX_LIMIT as int,
                5 * FX_ONE as int,
            );
            lemma_fx_mul_bound(
                -tr.m.c2.z as int,
                5 * FX_ONE as int,
                5 * FX_LIMIT as int,
                5 * FX_ONE as int,
            );
        }
        let fwd = tr.forward();
        let px: i64 = tr.position().x + fx_mul(fwd.x, 5 * FX_ONE);
        let py: i64 = tr.position().y + fx_mul(fwd.y, 5 * FX_ONE);
        let pz: i64 = tr.position().z + fx_mul(fwd.z, 5 * FX_ONE);
        let in_bounds: bool = px >= -FX_LIMIT && px <= FX_LIMIT && py >= -FX_LIMIT && py <= FX_LIMIT
            && pz >= -FX_LIMIT && pz <= FX_LIMIT;
        if !in_bounds {
            self.phase = FramePhase::Grab;
            return None;
        }
        let pos = Vec3Fx { x: px, y: py, z: pz };
        let scale = Vec3Fx::splat(FX_ONE);
        let bh = self.physics.add_body(
            Body { pos, rot: QuatFx::identity(), movable: true },
            Some(ColliderShape::Cuboid { half_extents: scale }),
        );
        let mat = Material::textured(&mut self.assets, "crate.png");
        let mat_h = self.assets.add_material(mat);
        let mesh_h = self.assets.add_mesh_from_file("cube.obj");
        let e = self.world.spawn();
        self.world.set_transform(e, Transform::new(pos, scale));
        self.world.set_mesh(e, Mesh(mesh_h));
        self.world.set_materials(e, Materials::single(mat_h));
        self.world.set_body(e, RigidBody { handle: bh, movable: true });
        self.phase = FramePhase::Grab;
        proof {
            let pre = *old(self);
            let post = *self;
            assert forall|i: int|
                0 <= i < post.world.len_s() implies ((#[trigger] post.world.transforms@[i])
                matches Some(t) ==> t.wf()) by {
                if i < pre.world.len_s() {
                    assert(post.world.transforms@[i] == pre.world.transforms@[i]);
                }
            }
            assert forall|i: int|
                0 <= i < post.world.len_s() implies ((#[trigger] post.world.bodies@[i])
                matches Some(rb) ==> post.physics.body_valid(rb.handle)) by {
                if i < pre.world.len_s() {
                    assert(post.world.bodies@[i] == pre.world.bodies@[i]);
                }
            }
            assert forall|i: int, s: int|
                0 <= i < post.world.len_s() && 0 <= s < 4 implies ((#[trigger] slot_handle(
                post.world,
                i,
                s,
            )) matches Some(h) ==> post.assets.materials.valid(h)) by {
                if i < pre.world.len_s() {
                    assert(slot_handle(post.world, i, s) == slot_handle(pre.world, i, s));
                } else {
                    assert(slot_handle(post.world, i, s) == Materials([
                        Some(mat_h),
                        None,
                        None,
                        None,
                    ]).0@[s]);
                }
            }
            assert(post.post_fx_material_s() == pre.post_fx_material_s());
            assert forall|i: int, s: int|
                0 <= i < post.world.len_s() && 0 <= s < 4 && !(i == post.post_fx.0 as int && s == 0)
                implies (#[trigger] slot_handle(post.world, i, s)) != Some(
                post.post_fx_material_s(),
            ) by {
                if i < pre.world.len_s() {
                    assert(slot_handle(post.world, i, s) == slot_handle(pre.world, i, s));
                } else {
                    assert(pre.assets.materials.valid(pre.post_fx_material_s()));
                }
            }
        }
        Some((e, bh))
    }

    /// Reposition and re-tag the focus-marker entity from the player's
    /// focus: at the focus point, scaled with its distance to the
    /// player (clamped to a tenth up to a half), on the normal scene
    /// layer; without a focus, hidden at the origin at unit scale.
    /// Without a marker entity nothing changes.
    pub fn focus_marker_update(&mut self)
        requires
            old(self).wf(),
            old(self).phase == FramePhase::FocusMarker,
        ensures
            final(self).wf(),
            final(self).phase == FramePhase::PostProcessRebuild,
            (forall|j: int| 0 <= j < old(self).world.len_s() ==> !old(self).world.is_marker(j))
                ==> final(self).world == old(self).world,
            (exists|j: int| 0 <= j < old(self).world.len_s() && old(self).world.is_marker(j)) ==> {
                let m = choose|m: int|
                    0 <= m < old(self).world.len_s() && old(self).world.is_marker(m) && (forall|
                        j: int,
                    | 0 <= j < m ==> !old(self).world.is_marker(j));
                &&& (match old(self).player_s().focus {
                    Some(f) => {
                        let diff = Vec3Fx {
                            x: (old(self).player_transform_s().pos.x - f.point.x) as i64,
                            y: (old(self).player_transform_s().pos.y - f.point.y) as i64,
                            z: (old(self).player_transform_s().pos.z - f.point.z) as i64,
                        };
                        let sc = marker_scale_s(
                            crate::fx::isqrt_s(crate::player::mag_sq_s(diff)),
                        );
                        &&& (final(self).world.transforms@[m] matches Some(t) && t.pos == f.point
                            && t.scale == (Vec3Fx { x: sc as i64, y: sc as i64, z: sc as i64 })
                            && t.rot == old(self).world.transforms@[m]->Some_0.rot && t.wf())
                        &&& final(self).world.render_tags@[m] == Some(RenderTags(RENDER_TAG_SCENE))
                    },
                    None => {
                        &&& (final(self).world.transforms@[m] matches Some(t) && t.pos == (Vec3Fx {
                            x: 0,
                            y: 0,
                            z: 0,
                        }) && t.scale == (Vec3Fx {
                            x: FX_ONE as i64,
                            y: FX_ONE as i64,
                            z: FX_ONE as i64,
                        }) && t.rot == old(self).world.transforms@[m]->Some_0.rot && t.wf())
                        &&& final(self).world.render_tags@[m] == Some(RenderTags(RENDER_TAG_HIDDEN))
                    },
                })
                &&& forall|i: int|
                    0 <= i < old(self).world.len_s() && i != m
                        ==> (#[trigger] final(self).world.transforms@[i])
                        == old(self).world.transforms@[i] && final(self).world.render_tags@[i]
                        == old(self).world.render_tags@[i]
            },
            final(self).world.len_s() == old(self).world.len_s(),
            final(self).world.cameras == old(self).world.cameras,
            final(self).world.meshes == old(self).world.meshes,
            final(self).world.material_sets == old(self).world.material_sets,
            final(self).world.render_orders == old(self).world.render_orders,
            final(self).world.bodies == old(self).world.bodies,
            final(self).world.players == old(self).world.players,
            final(self).world.post_process == old(self).world.post_process,
            final(self).world.focus_markers == old(self).world.focus_markers,
            final(self).physics == old(self).physics,
            final(self).assets == old(self).assets,
            final(self).player == old(self).player,
            final(self).post_fx == old(self).post_fx,
            final(self).pending_move == old(self).pending_move,
    {
        let marker: Option<Entity> = self.world.marker_entity();
        if let Some(me) = marker {
            let focus: Option<PlayerFocus> = self.player_focus();
            let ppos: Vec3Fx = match self.world.transform(self.player) {
                Some(t) => t.position(),
                None => unreached(),
            };
            let new_tag: u32;
            let new_pos: Vec3Fx;
            let new_scale: i64;
            if let Some(f) = focus {
                let diff = Vec3Fx {
                    x: ppos.x - f.point.x,
                    y: ppos.y - f.point.y,
                    z: ppos.z - f.point.z,
                };
                let dist: u64 = diff.raw_magnitude();
                let s0: u64 = dist / 10;
                let sc: i64 = if s0 < 6553 {
                    6553
                } else if s0 > 32768 {
                    32768
                } else {
                    s0 as i64
                };
                new_tag = RENDER_TAG_SCENE;
                new_pos = f.point;
                new_scale = sc;
            } else {
                new_tag = RENDER_TAG_HIDDEN;
                new_pos = Vec3Fx::zero();
                new_scale = FX_ONE;
            }
            let mut t: Transform = match self.world.transform(me) {
                Some(t) => *t,
                None => unreached(),
            };
            t.set_position(new_pos);
            t.set_scale(Vec3Fx::splat(new_scale));
            self.world.set_transform(me, t);
            self.world.set_render_tags(me, RenderTags(new_tag));
            proof {
                let m = choose|m: int|
                    0 <= m < old(self).world.len_s() && old(self).world.is_marker(m) && (forall|
                        j: int,
                    | 0 <= j < m ==> !old(self).world.is_marker(j));
                assert(m == me.0 as int);
                lemma_wf_after_transform_at(
                    *old(self),
                    Scene { phase: FramePhase::PostProcessRebuild, ..*self },
                    me.0 as int,
                    t,
                );
            }
        }
        self.phase = FramePhase::PostProcessRebuild;
    }

    /// Rebuild the post-process material: the previous frame's entry
    /// is released (its handle goes stale for good) and a fresh one is
    /// bound to the player camera's current target texture, so the
    /// late pass always samples this frame's output.
    pub fn post_process_update(&mut self)
        requires
            old(self).wf(),
            old(self).phase == FramePhase::PostProcessRebuild,
        ensures
            final(self).wf(),
            final(self).phase == FramePhase::PhysicsSync,
            !final(self).assets.materials.valid(old(self).post_fx_material_s()),
            !old(self).assets.materials.valid(final(self).post_fx_material_s()),
            final(self).assets.materials.valid(final(self).post_fx_material_s()),
            (final(self).assets.materials.value_of(final(self).post_fx_material_s())
                matches Material::PostProcess { texture, .. } && texture == old(self).player_camera_s().target->Some_0.color_texture),
            (final(self).world.material_sets@[old(self).post_fx.0 as int] matches Some(m2)
                && m2.0@[0] == Some(final(self).post_fx_material_s()) && m2.0@[1] == slot_handle(
                old(self).world,
                old(self).post_fx.0 as int,
                1,
            ) && m2.0@[2] == slot_handle(old(self).world, old(self).post_fx.0 as int, 2)
                && m2.0@[3] == slot_handle(old(self).world, old(self).post_fx.0 as int, 3)),
            forall|i: int|
                0 <= i < old(self).world.len_s() && i != old(self).post_fx.0 as int
                    ==> (#[trigger] final(self).world.material_sets@[i])
                    == old(self).world.material_sets@[i],
            forall|i: int, s: int|
                0 <= i < old(self).world.len_s() && 0 <= s < 4 && !(i == old(self).post_fx.0 as int
                    && s == 0) ==> ((#[trigger] slot_handle(old(self).world, i, s)) matches Some(h)
                    ==> final(self).assets.materials.valid(h)
                    && final(self).assets.materials.value_of(h)
                    == old(self).assets.materials.value_of(h)),
            final(self).world.transforms == old(self).world.transforms,
            final(self).world.cameras == old(self).world.cameras,
            final(self).world.meshes == old(self).world.meshes,
            final(self).world.render_tags == old(self).world.render_tags,
            final(self).world.render_orders == old(self).world.render_orders,
            final(self).world.bodies == old(self).world.bodies,
            final(self).world.players == old(self).world.players,
            final(self).physics == old(self).physics,
            old(self).assets.extends(final(self).assets),
            final(self).player == old(self).player,
            final(self).post_fx == old(self).post_fx,
            final(self).pending_move == old(self).pending_move,
    {
        let tex = match self.world.camera(self.player) {
            Some(c) => match &c.target {
                Some(t) => t.color_texture,
                None => unreached(),
            },
            None => unreached(),
        };
        let new_mat = Material::post_process(&mut self.assets, tex);
        let ms: Materials = match self.world.materials(self.post_fx) {
            Some(m) => *m,
            None => unreached(),
        };
        let old_h: MaterialHandle = match ms.0[0] {
            Some(h) => h,
            None => unreached(),
        };
        self.assets.remove_material(old_h);
        let new_h = self.assets.add_material(new_mat);
        let ms2 = Materials([Some(new_h), ms.0[1], ms.0[2], ms.0[3]]);
        self.world.set_materials(self.post_fx, ms2);
        self.phase = FramePhase::PhysicsSync;
        proof {
            let pre = *old(self);
            let post = *self;
            assert(new_h != old_h) by {
                if new_h == old_h {
                    assert(false);
                }
            }
            assert(slot_handle(post.world, post.post_fx.0 as int, 0) == Some(new_h));
            assert forall|i: int, s: int|
                0 <= i < post.world.len_s() && 0 <= s < 4 implies ((#[trigger] slot_handle(
                post.world,
                i,
                s,
            )) matches Some(h) ==> post.assets.materials.valid(h)) by {
                if i == post.post_fx.0 as int {
                    assert(slot_handle(post.world, i, s) == ms2.0@[s]);
                    if s != 0 {
                        assert(ms2.0@[s] == slot_handle(pre.world, i, s));
                        if slot_handle(pre.world, i, s) is Some {
                            let h = slot_handle(pre.world, i, s)->Some_0;
                            assert(h != old_h);
                            assert(pre.assets.materials.valid(h));
                        }
                    }
                } else {
                    assert(slot_handle(post.world, i, s) == slot_handle(pre.world, i, s));
                    if slot_handle(pre.world, i, s) is Some {
                        let h = slot_handle(pre.world, i, s)->Some_0;
                        assert(h != old_h);
                        assert(pre.assets.materials.valid(h));
                    }
                }
            }
            assert forall|i: int, s: int|
                0 <= i < post.world.len_s() && 0 <= s < 4 && !(i == post.post_fx.0 as int && s == 0)
                implies (#[trigger] slot_handle(post.world, i, s)) != Some(
                post.post_fx_material_s(),
            ) by {
                if i == post.post_fx.0 as int {
                    assert(slot_handle(post.world, i, s) == ms2.0@[s]);
                } else {
                    assert(slot_handle(post.world, i, s) == slot_handle(pre.world, i, s));
                }
                if slot_handle(post.world, i, s) is Some {
                    let h = slot_handle(post.world, i, s)->Some_0;
                    assert(h != old_h);
                    assert(pre.assets.materials.valid(h));
                }
            }
        }
    }

    /// Write this frame's simulated poses into the transforms of every
    /// entity linked to a body: position as reported, rotation as the
    /// normalized conjugate of the body's (the transform convention
    /// runs the other way), scale untouched.
    pub fn sync_physics(&mut self)
        requires
            old(self).wf(),
            old(self).phase == FramePhase::PhysicsSync,
        ensures
            final(self).wf(),
            final(self).phase == FramePhase::UiEvents,
            forall|i: int|
                0 <= i < old(self).world.len_s() && (#[trigger] old(self).world.transforms@[i])
                    is Some && old(self).world.bodies@[i] is Some ==> {
                    let rb = old(self).world.bodies@[i]->Some_0;
                    let b = old(self).physics.bodies@[rb.handle.0 as int];
                    &&& (final(self).world.transforms@[i] matches Some(t) && t.pos == b.pos
                        && t.rot == b.rot.conj_s().normalize_s() && t.scale == old(self).world.transforms@[i]->Some_0.scale && t.wf())
                },
            forall|i: int|
                0 <= i < old(self).world.len_s() && !((#[trigger] old(self).world.transforms@[i])
                    is Some && old(self).world.bodies@[i] is Some) ==> final(self).world.transforms@[i] == old(self).world.transforms@[i],
            final(self).world.len_s() == old(self).world.len_s(),
            final(self).world.cameras == old(self).world.cameras,
            final(self).world.meshes == old(self).world.meshes,
            final(self).world.material_sets == old(self).world.material_sets,
            final(self).world.render_tags == old(self).world.render_tags,
            final(self).world.render_orders == old(self).world.render_orders,
            final(self).world.bodies == old(self).world.bodies,
            final(self).world.players == old(self).world.players,
            final(self).world.post_process == old(self).world.post_process,
            final(self).world.focus_markers == old(self).world.focus_markers,
            final(self).physics == old(self).physics,
            final(self).assets == old(self).assets,
            final(self).player == old(self).player,
            final(self).post_fx == old(self).post_fx,
            final(self).pending_move == old(self).pending_move,
    {
        let n: usize = self.world.num_entities();
        let mut i: usize = 0;
        while i < n
            invariant
                n as int == old(self).world.len_s(),
                i <= n,
                self.world.wf(),
                self.world.len_s() == old(self).world.len_s(),
                old(self).wf(),
                self.physics == old(self).physics,
                self.assets == old(self).assets,
                self.player == old(self).player,
                self.post_fx == old(self).post_fx,
                self.pending_move == old(self).pending_move,
                self.phase == old(self).phase,
                self.world.cameras == old(self).world.cameras,
                self.world.meshes == old(self).world.meshes,
                self.world.material_sets == old(self).world.material_sets,
                self.world.render_tags == old(self).world.render_tags,
                self.world.render_orders == old(self).world.render_orders,
                self.world.bodies == old(self).world.bodies,
                self.world.players == old(self).world.players,
                self.world.post_process == old(self).world.post_process,
                self.world.focus_markers == old(self).world.focus_markers,
                forall|j: int|
                    i <= j < old(self).world.len_s() ==> (#[trigger] self.world.transforms@[j])
                        == old(self).world.transforms@[j],
                forall|j: int|
                    0 <= j < i && (#[trigger] old(self).world.transforms@[j]) is Some && old(self).world.bodies@[j] is Some ==> {
                        let rb = old(self).world.bodies@[j]->Some_0;
                        let b = old(self).physics.bodies@[rb.handle.0 as int];
                        &&& (self.world.transforms@[j] matches Some(t) && t.pos == b.pos && t.rot
                            == b.rot.conj_s().normalize_s() && t.scale == old(self).world.transforms@[j]->Some_0.scale && t.wf())
                    },
                forall|j: int|
                    0 <= j < i && !((#[trigger] old(self).world.transforms@[j]) is Some && old(self).world.bodies@[j] is Some) ==> self.world.transforms@[j] == old(self).world.transforms@[j],
                forall|j: int|
                    0 <= j < self.world.len_s() ==> ((#[trigger] self.world.transforms@[j])
                        matches Some(t) ==> t.wf()),
            decreases n - i,
        {
            let e = Entity(i);
            let has_both: bool = self.world.transform(e).is_some() && self.world.body(e).is_some();
            if has_both {
                let rb: RigidBody = match self.world.body(e) {
                    Some(rb) => *rb,
                    None => unreached(),
                };
                proof {
                    assert(old(self).physics.body_valid(rb.handle));
                    let ghost bp = old(self).physics.bodies@[rb.handle.0 as int].pos;
                    assert(bp.bounded(FX_LIMIT as int));
                }
                let b: Body = *self.physics.body(rb.handle);
                let mut t: Transform = match self.world.transform(e) {
                    Some(t) => *t,
                    None => unreached(),
                };
                let rot = b.rot.conj();
                t.set(b.pos, rot);
                self.world.set_transform(e, t);
            }
            i += 1;
        }
        self.phase = FramePhase::UiEvents;
        proof {
            lemma_material_clauses_preserved(*old(self), *self);
        }
    }

    /// The grab/drag interaction runs between the spawn action and the
    /// focus-marker update; its work happens outside, and this records
    /// that the slot has passed.
    pub fn note_grab_done(&mut self)
        requires
            old(self).wf(),
            old(self).phase == FramePhase::Grab,
        ensures
            final(self).wf(),
            final(self).phase == FramePhase::FocusMarker,
            final(self).world == old(self).world,
            final(self).physics == old(self).physics,
            final(self).assets == old(self).assets,
            final(self).player == old(self).player,
            final(self).post_fx == old(self).post_fx,
            final(self).pending_move == old(self).pending_move,
    {
        self.phase = FramePhase::FocusMarker;
    }

    /// Raw input events are forwarded to the UI between the physics
    /// synchronization and the overlay update.
    pub fn note_ui_events_forwarded(&mut self)
        requires
            old(self).wf(),
            old(self).phase == FramePhase::UiEvents,
        ensures
            final(self).wf(),
            final(self).phase == FramePhase::Overlay,
            final(self).world == old(self).world,
            final(self).physics == old(self).physics,
            final(self).assets == old(self).assets,
            final(self).player == old(self).player,
            final(self).post_fx == old(self).post_fx,
            final(self).pending_move == old(self).pending_move,
    {
        self.phase = FramePhase::Overlay;
    }

    /// The overlay updates last before composition.
    pub fn note_overlay_done(&mut self)
        requires
            old(self).wf(),
            old(self).phase == FramePhase::Overlay,
        ensures
            final(self).wf(),
            final(self).phase == FramePhase::Render,
            final(self).world == old(self).world,
            final(self).physics == old(self).physics,
            final(self).assets == old(self).assets,
            final(self).player == old(self).player,
            final(self).post_fx == old(self).post_fx,
            final(self).pending_move == old(self).pending_move,
    {
        self.phase = FramePhase::Render;
    }

    /// Build one validated node: an entity with a transform, then
    /// render order and tags, physics body, mesh, up to four resolved
    /// materials (each a fresh, never-deduplicated entry), and marker
    /// components — in that fixed order.
    #[verifier::rlimit(100)]
    fn insert_node(&mut self, catalog: &Vec<crate::scene_config::MaterialCfg>, node: &crate::scene_config::NodeCfg) -> (e: Entity)
        requires
            old(self).wf(),
            crate::scene_config::node_valid_s(catalog@, *node),
            crate::scene_config::node_bounded_s(*node),
        ensures
            final(self).wf(),
            e.0 as int == old(self).world.len_s(),
            final(self).world.len_s() == old(self).world.len_s() + 1,
            node_built(*final(self), e.0 as int, catalog@, *node),
            forall|i: int|
                0 <= i < old(self).world.len_s() ==> {
                    &&& (#[trigger] final(self).world.transforms@[i])
                        == old(self).world.transforms@[i]
                    &&& final(self).world.cameras@[i] == old(self).world.cameras@[i]
                    &&& final(self).world.meshes@[i] == old(self).world.meshes@[i]
                    &&& final(self).world.material_sets@[i] == old(self).world.material_sets@[i]
                    &&& final(self).world.render_tags@[i] == old(self).world.render_tags@[i]
                    &&& final(self).world.render_orders@[i] == old(self).world.render_orders@[i]
                    &&& final(self).world.bodies@[i] == old(self).world.bodies@[i]
                    &&& final(self).world.players@[i] == old(self).world.players@[i]
                    &&& final(self).world.post_process@[i] == old(self).world.post_process@[i]
                    &&& final(self).world.focus_markers@[i] == old(self).world.focus_markers@[i]
                },
            old(self).assets.extends(final(self).assets),
            final(self).assets.materials.slots@.len() >= old(self).assets.materials.slots@.len(),
            forall|h: crate::arena::Handle|
                old(self).assets.materials.valid(h) ==> final(self).assets.materials.valid(h)
                    && final(self).assets.materials.value_of(h)
                    == old(self).assets.materials.value_of(h),
            old(self).physics.bodies@.len() <= final(self).physics.bodies@.len(),
            forall|i: int|
                0 <= i < old(self).physics.bodies@.len() ==> final(self).physics.bodies@[i] == old(self).physics.bodies@[i],
            old(self).physics.colliders@.len() <= final(self).physics.colliders@.len(),
            forall|i: int|
                0 <= i < old(self).physics.colliders@.len() ==> final(self).physics.colliders@[i]
                    == old(self).physics.colliders@[i],
            forall|s: int|
                0 <= s < 4 ==> ((#[trigger] slot_handle(final(self).world, e.0 as int, s))
                    matches Some(h) ==> !old(self).assets.materials.valid(h)),
            final(self).player == old(self).player,
            final(self).post_fx == old(self).post_fx,
            final(self).pending_move == old(self).pending_move,
            final(self).phase == old(self).phase,
    {
        let pos: Vec3Fx = match &node.pos {
            Some(p) => *p,
            None => Vec3Fx::zero(),
        };
        let scale: Vec3Fx = match &node.scale {
            Some(s) => *s,
            None => Vec3Fx::splat(FX_ONE),
        };
        let ro: Option<RenderOrder> = match node.render_order {
            Some(o) => Some(RenderOrder(o)),
            None => None,
        };
        let rt: Option<RenderTags> = match node.render_tags {
            Some(t2) => Some(RenderTags(t2)),
            None => None,
        };
        let rb_opt: Option<RigidBody> = if let Some(b) = &node.body {
            let movable: bool = match b.movable {
                Some(m) => m,
                None => true,
            };
            let bh = self.physics.add_body(
                Body { pos, rot: QuatFx::identity(), movable },
                Some(ColliderShape::Cuboid { half_extents: scale }),
            );
            Some(RigidBody { handle: bh, movable })
        } else {
            None
        };
        let mesh_opt: Option<Mesh> = if let Some(mc) = &node.mesh {
            let mh: crate::assets::MeshHandle = if mc.path.is_some() {
                let path: &String = match &mc.path {
                    Some(p) => p,
                    None => unreached(),
                };
                self.assets.add_mesh_from_file(path.as_str())
            } else {
                let prefab: crate::scene_config::MeshPrefabCfg = match &mc.prefab {
                    Some(p) => *p,
                    None => unreached(),
                };
                match prefab {
                    crate::scene_config::MeshPrefabCfg::Quad => self.assets.add_mesh(
                        crate::assets::MeshAsset::Quad,
                        Some("quad"),
                    ),
                    crate::scene_config::MeshPrefabCfg::Basis => self.assets.add_mesh(
                        crate::assets::MeshAsset::Basis,
                        Some("basis"),
                    ),
                }
            };
            proof {
                assert(mesh_ref_matches(self.assets, mh, *mc));
            }
            Some(Mesh(mh))
        } else {
            None
        };
        let ghost assets_mid = self.assets;
        let ms_opt: Option<Materials> = if node.materials.is_some() {
            let list: &Vec<String> = match &node.materials {
                Some(l) => l,
                None => unreached(),
            };
            let handles: Vec<MaterialHandle> = build_node_materials(&mut self.assets, catalog, list);
            let s0: Option<MaterialHandle> = if handles.len() > 0 { Some(handles[0]) } else { None };
            let s1: Option<MaterialHandle> = if handles.len() > 1 { Some(handles[1]) } else { None };
            let s2: Option<MaterialHandle> = if handles.len() > 2 { Some(handles[2]) } else { None };
            let s3: Option<MaterialHandle> = if handles.len() > 3 { Some(handles[3]) } else { None };
            let ms = Materials([s0, s1, s2, s3]);
            proof {
                assert(ms.0@ =~= seq![s0, s1, s2, s3]);
            }
            Some(ms)
        } else {
            None
        };
        let marker: bool = match &node.components {
            Some(cs) => crate::scene_config::wants_focus_marker(cs),
            None => false,
        };
        let e = self.world.spawn();
        self.world.set_node_components(
            e,
            Transform::new(pos, scale),
            ro,
            rt,
            rb_opt,
            mesh_opt,
            ms_opt,
            marker,
        );
        proof {
            if node.body is Some {
                let rbv = self.world.bodies@[e.0 as int]->Some_0;
                let ci = old(self).physics.colliders@.len() as int;
                assert(self.physics.colliders@[ci] == (Collider {
                    shape: ColliderShape::Cuboid { half_extents: node_scale_s(*node) },
                    pos: node_pos_s(*node),
                    parent: Some(rbv.handle),
                }));
            }
            lemma_insert_node_wrapup(*old(self), *self, e.0 as int, catalog@, *node, assets_mid);
        }
        e
    }

    /// Build the scene described by a configuration. The whole
    /// document is validated first: on any invalid node an error for
    /// the first offender comes back and nothing at all is built — no
    /// partial scene ever exists. On success every node becomes one
    /// entity, in document order, built exactly as `node_built` says.
    pub fn insert_from_cfg(&mut self, cfg: &crate::scene_config::SceneCfg) -> (r: Result<
        (),
        crate::scene_config::CfgError,
    >)
        requires
            old(self).wf(),
            crate::scene_config::cfg_bounded_s(*cfg),
        ensures
            final(self).wf(),
            final(self).phase == old(self).phase,
            final(self).player == old(self).player,
            final(self).post_fx == old(self).post_fx,
            (r is Ok <==> crate::scene_config::cfg_valid_s(*cfg)),
            r is Err ==> *final(self) == *old(self),
            r is Ok ==> {
                &&& final(self).world.len_s() == old(self).world.len_s() + cfg.nodes@.len()
                &&& forall|k: int|
                    0 <= k < cfg.nodes@.len() ==> node_built(
                        *final(self),
                        old(self).world.len_s() + k,
                        cfg.materials@,
                        (#[trigger] cfg.nodes@[k]).1,
                    )
            },
    {
        if let Some(err) = crate::scene_config::validate_cfg(cfg) {
            return Err(err);
        }
        let base: usize = self.world.num_entities();
        let n: usize = cfg.nodes.len();
        let mut k: usize = 0;
        while k < n
            invariant
                n == cfg.nodes@.len(),
                k <= n,
                self.wf(),
                crate::scene_config::cfg_valid_s(*cfg),
                crate::scene_config::cfg_bounded_s(*cfg),
                base as int == old(self).world.len_s(),
                self.world.len_s() == old(self).world.len_s() + k,
                self.phase == old(self).phase,
                self.player == old(self).player,
                self.post_fx == old(self).post_fx,
                forall|q: int|
                    0 <= q < k ==> node_built(
                        *self,
                        old(self).world.len_s() + q,
                        cfg.materials@,
                        (#[trigger] cfg.nodes@[q]).1,
                    ),
            decreases n - k,
        {
            let ghost snap = *self;
            let e = self.insert_node(&cfg.materials, &cfg.nodes[k].1);
            proof {
                assert forall|i2: int, s: int|
                    snap.world.len_s() <= i2 < self.world.len_s() && 0 <= s < 4 implies ((
                #[trigger] slot_handle(self.world, i2, s)) matches Some(h2)
                    ==> !snap.assets.materials.valid(h2)) by {
                    assert(i2 == e.0 as int);
                }
                assert forall|q: int|
                    0 <= q < k + 1 implies node_built(
                    *self,
                    old(self).world.len_s() + q,
                    cfg.materials@,
                    (#[trigger] cfg.nodes@[q]).1,
                ) by {
                    if q < k {
                        lemma_node_built_stable(
                            snap,
                            *self,
                            old(self).world.len_s() + q,
                            cfg.materials@,
                            cfg.nodes@[q].1,
                        );
                    }
                }
            }
            k += 1;
        }
        Ok(())
    }

    /// Compose the frame's passes; this ends the frame, and the next
    /// call must be the physics step.
    pub fn render(&mut self) -> (r: Vec<crate::render::PassSubmission>)
        requires
            old(self).wf(),
            old(self).phase == FramePhase::Render,
        ensures
            final(self).wf(),
            final(self).phase == FramePhase::Physics,
            crate::render::frame_ok(old(self).world, r@),
            final(self).world == old(self).world,
            final(self).physics == old(self).physics,
            final(self).assets == old(self).assets,
            final(self).player == old(self).player,
            final(self).post_fx == old(self).post_fx,
            final(self).pending_move == old(self).pending_move,
    {
        let r = crate::render::compose_frame(&self.world);
        self.phase = FramePhase::Physics;
        r
    }
}

} // verus!
