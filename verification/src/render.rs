//! Camera composition: one pass per camera, cameras in ascending
//! render order, and within each pass the visible drawables in
//! ascending render order, compiled into draw bundles. Ties keep the
//! entity order, which the sort key makes explicit: passes and bundles
//! are ordered by (render order, entity id), and entity ids are
//! unique, so the emitted sequences are pinned completely.

use crate::camera::{Camera, RenderTarget};
use crate::components::RENDER_TAG_SCENE;
use crate::assets::{MaterialHandle, MeshHandle};
use crate::transform::Mat4Fx;
use crate::world::{Entity, World};
use vstd::prelude::*;
use vstd::seq_lib::*;

verus! {

/// Lexicographic order on (render order, entity id).
pub open spec fn lex_le(a: (i32, usize), b: (i32, usize)) -> bool {
    a.0 < b.0 || (a.0 == b.0 && a.1 <= b.1)
}

pub open spec fn sorted_lex(s: Seq<(i32, usize)>) -> bool {
    forall|i: int, j: int| 0 <= i < j < s.len() ==> lex_le(#[trigger] s[i], #[trigger] s[j])
}

pub open spec fn distinct_ids(s: Seq<(i32, usize)>) -> bool {
    forall|i: int, j: int| 0 <= i < j < s.len() ==> (#[trigger] s[i]).1 != (#[trigger] s[j]).1
}

/// The render order an entity advertises; absent means zero.
pub open spec fn eff_order(w: World, i: int) -> int {
    match w.render_orders@[i] {
        Some(o) => o.0 as int,
        None => 0,
    }
}

/// The render tag an entity advertises; absent means the scene layer.
pub open spec fn eff_tag(w: World, i: int) -> u32 {
    match w.render_tags@[i] {
        Some(t) => t.0,
        None => RENDER_TAG_SCENE,
    }
}

/// A camera entity: it carries a camera and a transform.
pub open spec fn is_camera(w: World, i: int) -> bool {
    &&& 0 <= i < w.len_s()
    &&& w.cameras@[i] is Some
    &&& w.transforms@[i] is Some
}

/// A drawable entity: it carries a mesh, materials and a transform.
pub open spec fn is_drawable(w: World, i: int) -> bool {
    &&& 0 <= i < w.len_s()
    &&& w.meshes@[i] is Some
    &&& w.material_sets@[i] is Some
    &&& w.transforms@[i] is Some
}

/// Whether a camera draws an entity: the entity is drawable and its
/// tag satisfies the camera's visibility predicate.
pub open spec fn visible_to(w: World, cam: Camera, i: int) -> bool {
    is_drawable(w, i) && cam.should_render_s(eff_tag(w, i))
}

/// A drawable carrying the default tag is visible to a camera
/// carrying the default (empty) mask.
pub proof fn lemma_default_tag_visible(cam: Camera)
    requires
        cam.tags == RENDER_TAG_SCENE,
    ensures
        cam.should_render_s(RENDER_TAG_SCENE),
{
}

/// A drawable tagged hidden is visible to no camera that does not
/// explicitly request the hidden layer.
pub proof fn lemma_hidden_tag_invisible(cam: Camera)
    requires
        cam.tags != crate::components::RENDER_TAG_HIDDEN,
    ensures
        !cam.should_render_s(crate::components::RENDER_TAG_HIDDEN),
{
}

/// Read the effective render order of an entity.
fn read_order(w: &World, e: Entity) -> (r: i32)
    requires
        w.wf(),
        w.alive(e),
    ensures
        r as int == eff_order(*w, e.0 as int),
{
    match w.render_order(e) {
        Some(o) => o.0,
        None => 0,
    }
}

/// Insert a pair with a fresh id into a sorted run, keeping it sorted.
fn insert_pair_sorted(v: &mut Vec<(i32, usize)>, x: (i32, usize))
    requires
        sorted_lex(old(v)@),
        distinct_ids(old(v)@),
        forall|k: int| 0 <= k < old(v)@.len() ==> (#[trigger] old(v)@[k]).1 != x.1,
    ensures
        sorted_lex(final(v)@),
        distinct_ids(final(v)@),
        final(v)@.len() == old(v)@.len() + 1,
        forall|y: (i32, usize)| final(v)@.contains(y) <==> (old(v)@.contains(y) || y == x),
        exists|p: int| 0 <= p <= old(v)@.len() && final(v)@ == old(v)@.insert(p, x),
{
    let n: usize = v.len();
    let mut p: usize = 0;
    while p < n && (v[p].0 < x.0 || (v[p].0 == x.0 && v[p].1 <= x.1))
        invariant
            n == v@.len(),
            p <= n,
            *v == *old(v),
            forall|k: int| 0 <= k < p ==> lex_le(#[trigger] v@[k], x),
        decreases n - p,
    {
        p += 1;
    }
    let ghost prior = v@;
    v.insert(p, x);
    proof {
        prior.insert_ensures(p as int, x);
        assert forall|i: int, j: int| 0 <= i < j < v@.len() implies lex_le(
            #[trigger] v@[i],
            #[trigger] v@[j],
        ) by {
            if j < p {
                assert(lex_le(prior[i], prior[j]));
            } else if i < p && j == p {
                assert(lex_le(prior[i], x));
            } else if i < p && j > p {
                assert(lex_le(prior[i], prior[j - 1]));
            } else if i == p {
                assert(!lex_le(prior[j - 1], x) || p == prior.len());
                if p < prior.len() {
                    if j - 1 > p {
                        assert(lex_le(prior[p as int], prior[j - 1]));
                    }
                    assert(!lex_le(prior[p as int], x));
                }
            } else {
                assert(lex_le(prior[i - 1], prior[j - 1]));
            }
        }
        assert forall|i: int, j: int| 0 <= i < j < v@.len() implies (#[trigger] v@[i]).1 != (
        #[trigger] v@[j]).1 by {
            if j < p {
                assert(prior[i].1 != prior[j].1);
            } else if i < p && j == p {
                assert(prior[i].1 != x.1);
            } else if i < p && j > p {
                assert(prior[i].1 != prior[j - 1].1);
            } else if i == p {
                assert(prior[j - 1].1 != x.1);
            } else {
                assert(prior[i - 1].1 != prior[j - 1].1);
            }
        }
        assert forall|y: (i32, usize)| v@.contains(y) <==> (prior.contains(y) || y == x) by {
            if v@.contains(y) {
                let idx = choose|idx: int| 0 <= idx < v@.len() && v@[idx] == y;
                if idx < p {
                    assert(prior[idx] == y);
                } else if idx == p {
                } else {
                    assert(prior[idx - 1] == y);
                }
            }
            if prior.contains(y) {
                let idx = choose|idx: int| 0 <= idx < prior.len() && prior[idx] == y;
                if idx < p {
                    assert(v@[idx] == y);
                } else {
                    assert(v@[idx + 1] == y);
                }
            }
            if y == x {
                assert(v@[p as int] == y);
            }
        }
    }
}

/// Collect the camera entities as (order, id) pairs, sorted.
fn sorted_cameras(w: &World) -> (r: Vec<(i32, usize)>)
    requires
        w.wf(),
    ensures
        sorted_lex(r@),
        distinct_ids(r@),
        forall|k: int|
            0 <= k < r@.len() ==> is_camera(*w, (#[trigger] r@[k]).1 as int) && r@[k].0 as int
                == eff_order(*w, r@[k].1 as int),
        forall|i: int|
            is_camera(*w, i) ==> exists|k: int| 0 <= k < r@.len() && (#[trigger] r@[k]).1 == i,
{
    let n: usize = w.num_entities();
    let mut r: Vec<(i32, usize)> = Vec::new();
    let mut i: usize = 0;
    while i < n
        invariant
            w.wf(),
            n as int == w.len_s(),
            i <= n,
            sorted_lex(r@),
            distinct_ids(r@),
            forall|k: int|
                0 <= k < r@.len() ==> is_camera(*w, (#[trigger] r@[k]).1 as int) && r@[k].0 as int
                    == eff_order(*w, r@[k].1 as int) && (r@[k].1 as int) < i,
            forall|j: int|
                0 <= j < i && is_camera(*w, j) ==> exists|k: int|
                    0 <= k < r@.len() && (#[trigger] r@[k]).1 == j,
        decreases n - i,
    {
        let e = Entity(i);
        if w.camera(e).is_some() && w.transform(e).is_some() {
            let order: i32 = read_order(w, e);
            let ghost r0 = r@;
            insert_pair_sorted(&mut r, (order, i));
            proof {
                let p = choose|p: int| 0 <= p <= r0.len() && r@ == r0.insert(p, (order, i));
                r0.insert_ensures(p, (order, i));
                assert forall|k: int|
                    0 <= k < r@.len() implies is_camera(*w, (#[trigger] r@[k]).1 as int)
                    && r@[k].0 as int == eff_order(*w, r@[k].1 as int) && (r@[k].1 as int) < i + 1 by {
                    if k < p {
                        assert(r@[k] == r0[k]);
                    } else if k == p {
                    } else {
                        assert(r@[k] == r0[k - 1]);
                    }
                }
                assert forall|j: int| 0 <= j < i + 1 && is_camera(*w, j) implies exists|k: int|
                    0 <= k < r@.len() && (#[trigger] r@[k]).1 == j by {
                    if j < i {
                        let m = choose|m: int| 0 <= m < r0.len() && (#[trigger] r0[m]).1 == j;
                        if m < p {
                            assert(r@[m].1 == j);
                        } else {
                            assert(r@[m + 1].1 == j);
                        }
                    } else {
                        assert(r@[p].1 == j);
                    }
                }
            }
        }
        i += 1;
    }
    r
}

/// Collect the entities a camera draws as (order, id) pairs, sorted.
fn sorted_visible(w: &World, cam: &Camera) -> (r: Vec<(i32, usize)>)
    requires
        w.wf(),
    ensures
        sorted_lex(r@),
        distinct_ids(r@),
        forall|k: int|
            0 <= k < r@.len() ==> visible_to(*w, *cam, (#[trigger] r@[k]).1 as int) && r@[k].0 as int
                == eff_order(*w, r@[k].1 as int),
        forall|i: int|
            visible_to(*w, *cam, i) ==> exists|k: int| 0 <= k < r@.len() && (#[trigger] r@[k]).1 == i,
{
    let n: usize = w.num_entities();
    let mut r: Vec<(i32, usize)> = Vec::new();
    let mut i: usize = 0;
    while i < n
        invariant
            w.wf(),
            n as int == w.len_s(),
            i <= n,
            sorted_lex(r@),
            distinct_ids(r@),
            forall|k: int|
                0 <= k < r@.len() ==> visible_to(*w, *cam, (#[trigger] r@[k]).1 as int)
                    && r@[k].0 as int == eff_order(*w, r@[k].1 as int) && (r@[k].1 as int) < i,
            forall|j: int|
                0 <= j < i && visible_to(*w, *cam, j) ==> exists|k: int|
                    0 <= k < r@.len() && (#[trigger] r@[k]).1 == j,
        decreases n - i,
    {
        let e = Entity(i);
        if w.mesh(e).is_some() && w.materials(e).is_some() && w.transform(e).is_some() {
            let tag: u32 = match w.render_tags(e) {
                Some(t) => t.0,
                None => RENDER_TAG_SCENE,
            };
            if cam.should_render(tag) {
                let order: i32 = read_order(w, e);
                let ghost r0 = r@;
                insert_pair_sorted(&mut r, (order, i));
                proof {
                    let p = choose|p: int| 0 <= p <= r0.len() && r@ == r0.insert(p, (order, i));
                    r0.insert_ensures(p, (order, i));
                    assert forall|k: int|
                        0 <= k < r@.len() implies visible_to(*w, *cam, (#[trigger] r@[k]).1 as int)
                        && r@[k].0 as int == eff_order(*w, r@[k].1 as int) && (r@[k].1 as int) < i
                        + 1 by {
                        if k < p {
                            assert(r@[k] == r0[k]);
                        } else if k == p {
                        } else {
                            assert(r@[k] == r0[k - 1]);
                        }
                    }
                    assert forall|j: int| 0 <= j < i + 1 && visible_to(*w, *cam, j) implies exists|
                        k: int,
                    | 0 <= k < r@.len() && (#[trigger] r@[k]).1 == j by {
                        if j < i {
                            let m = choose|m: int| 0 <= m < r0.len() && (#[trigger] r0[m]).1 == j;
                            if m < p {
                                assert(r@[m].1 == j);
                            } else {
                                assert(r@[m + 1].1 == j);
                            }
                        } else {
                            assert(r@[p].1 == j);
                        }
                    }
                }
            }
        }
        i += 1;
    }
    r
}

/// An immutable draw command: the drawable's mesh and materials, its
/// world matrix for the per-object uniforms, and its sort key.
#[derive(Clone, Debug)]
pub struct DrawBundle {
    pub entity: Entity,
    pub order: i32,
    pub mesh: MeshHandle,
    pub materials: Vec<MaterialHandle>,
    pub world_matrix: Mat4Fx,
}

/// One render pass: the camera it draws for, where it draws to, what
/// it replays, and whether the UI overlay is drawn on top (only the
/// pass that targets the swapchain surface draws it).
#[derive(Clone, Debug)]
pub struct PassSubmission {
    pub camera: Entity,
    pub order: i32,
    pub target: Option<RenderTarget>,
    pub overlay: bool,
    pub cam_matrix: Mat4Fx,
    pub aspect_w: u32,
    pub aspect_h: u32,
    pub bundles: Vec<DrawBundle>,
}

/// The material handles of a set, in slot order, absent slots skipped.
pub open spec fn some_seq(o: Option<MaterialHandle>) -> Seq<MaterialHandle> {
    match o {
        Some(h) => seq![h],
        None => Seq::empty(),
    }
}

pub open spec fn flatten_materials(m: crate::components::Materials) -> Seq<MaterialHandle> {
    some_seq(m.0@[0]) + some_seq(m.0@[1]) + some_seq(m.0@[2]) + some_seq(m.0@[3])
}

/// Collect the present material handles in slot order.
fn material_list(m: &crate::components::Materials) -> (r: Vec<MaterialHandle>)
    ensures
        r@ == flatten_materials(*m),
{
    let mut r: Vec<MaterialHandle> = Vec::new();
    if let Some(h) = m.0[0] {
        r.push(h);
    }
    if let Some(h) = m.0[1] {
        r.push(h);
    }
    if let Some(h) = m.0[2] {
        r.push(h);
    }
    if let Some(h) = m.0[3] {
        r.push(h);
    }
    proof {
        assert(r@ =~= flatten_materials(*m));
    }
    r
}

/// What one bundle must be for its entity.
pub open spec fn bundle_ok(w: World, b: DrawBundle) -> bool {
    &&& is_drawable(w, b.entity.0 as int)
    &&& b.order as int == eff_order(w, b.entity.0 as int)
    &&& b.mesh == w.meshes@[b.entity.0 as int]->Some_0.0
    &&& b.materials@ == flatten_materials(w.material_sets@[b.entity.0 as int]->Some_0)
    &&& b.world_matrix == w.transforms@[b.entity.0 as int]->Some_0.m
}

/// What a pass's bundle list must be for its camera: each bundle
/// correct, ordered by (render order, entity id), entities distinct,
/// and exactly the entities the camera draws.
pub open spec fn bundles_ok(w: World, cam: Camera, bs: Seq<DrawBundle>) -> bool {
    &&& forall|k: int| 0 <= k < bs.len() ==> bundle_ok(w, #[trigger] bs[k])
    &&& forall|k: int|
        0 <= k < bs.len() ==> visible_to(w, cam, (#[trigger] bs[k]).entity.0 as int)
    &&& forall|i: int, j: int|
        0 <= i < j < bs.len() ==> lex_le(
            (bs[i].order, bs[i].entity.0),
            (bs[j].order, bs[j].entity.0),
        ) && bs[i].entity != bs[j].entity
    &&& forall|i: int|
        visible_to(w, cam, i) ==> exists|k: int| 0 <= k < bs.len() && (#[trigger] bs[k]).entity.0 == i
}

/// What one pass must be for its camera entity.
pub open spec fn pass_ok(w: World, p: PassSubmission) -> bool {
    &&& is_camera(w, p.camera.0 as int)
    &&& p.order as int == eff_order(w, p.camera.0 as int)
    &&& p.target == w.cameras@[p.camera.0 as int]->Some_0.target
    &&& p.overlay == (w.cameras@[p.camera.0 as int]->Some_0.target is None)
    &&& p.cam_matrix == w.transforms@[p.camera.0 as int]->Some_0.m
    &&& p.aspect_w == w.cameras@[p.camera.0 as int]->Some_0.aspect_w
    &&& p.aspect_h == w.cameras@[p.camera.0 as int]->Some_0.aspect_h
    &&& bundles_ok(w, w.cameras@[p.camera.0 as int]->Some_0, p.bundles@)
}

/// The whole frame: every camera exactly once, passes in ascending
/// (render order, entity id), each pass correct for its camera.
pub open spec fn frame_ok(w: World, r: Seq<PassSubmission>) -> bool {
    &&& forall|k: int| 0 <= k < r.len() ==> pass_ok(w, #[trigger] r[k])
    &&& forall|i: int, j: int|
        0 <= i < j < r.len() ==> lex_le((r[i].order, r[i].camera.0), (r[j].order, r[j].camera.0))
            && r[i].camera != r[j].camera
    &&& forall|i: int|
        is_camera(w, i) ==> exists|k: int| 0 <= k < r.len() && (#[trigger] r[k]).camera.0 == i
}

/// Any two bundles of a correct bundle list stand in ascending
/// (render order, entity id) order and belong to distinct entities;
/// stated as a lemma so a caller can order any chosen pair.
pub proof fn lemma_bundles_pairwise_ordered(
    w: World,
    cam: Camera,
    bs: Seq<DrawBundle>,
    i: int,
    j: int,
)
    requires
        bundles_ok(w, cam, bs),
        0 <= i < j < bs.len(),
    ensures
        lex_le((bs[i].order, bs[i].entity.0), (bs[j].order, bs[j].entity.0)),
        bs[i].entity != bs[j].entity,
{
    assert(lex_le((bs[i].order, bs[i].entity.0), (bs[j].order, bs[j].entity.0)) && bs[i].entity
        != bs[j].entity);
}

/// Any two passes of a correct frame stand in ascending
/// (render order, entity id) order and draw for distinct cameras.
pub proof fn lemma_passes_pairwise_ordered(w: World, r: Seq<PassSubmission>, i: int, j: int)
    requires
        frame_ok(w, r),
        0 <= i < j < r.len(),
    ensures
        lex_le((r[i].order, r[i].camera.0), (r[j].order, r[j].camera.0)),
        r[i].camera != r[j].camera,
{
    assert(lex_le((r[i].order, r[i].camera.0), (r[j].order, r[j].camera.0)) && r[i].camera
        != r[j].camera);
}

/// Compose the frame: cameras sorted ascending by render order (ties
/// in entity order), and for each camera its visible drawables sorted
/// the same way and compiled into bundles.
pub fn compose_frame(w: &World) -> (r: Vec<PassSubmission>)
    requires
        w.wf(),
    ensures
        frame_ok(*w, r@),
{
    let cams = sorted_cameras(w);
    let mut r: Vec<PassSubmission> = Vec::new();
    let mut ci: usize = 0;
    let ncams: usize = cams.len();
    while ci < ncams
        invariant
            w.wf(),
            ncams == cams@.len(),
            ci <= ncams,
            r@.len() == ci,
            sorted_lex(cams@),
            distinct_ids(cams@),
            forall|k: int|
                0 <= k < cams@.len() ==> is_camera(*w, (#[trigger] cams@[k]).1 as int)
                    && cams@[k].0 as int == eff_order(*w, cams@[k].1 as int),
            forall|i: int|
                is_camera(*w, i) ==> exists|k: int| 0 <= k < cams@.len() && (#[trigger] cams@[k]).1 == i,
            forall|k: int|
                0 <= k < ci ==> pass_ok(*w, #[trigger] r@[k]) && r@[k].camera.0 == cams@[k].1
                    && r@[k].order == cams@[k].0,
        decreases ncams - ci,
    {
        let (order, id) = cams[ci];
        let e = Entity(id);
        let cam: Camera = match w.camera(e) {
            Some(c) => *c,
            None => {
                proof {
                    assert(false);
                }
                Camera { aspect_w: 1, aspect_h: 1, tags: 0, target: None }
            },
        };
        let cam_matrix: Mat4Fx = match w.transform(e) {
            Some(t) => t.m,
            None => {
                proof {
                    assert(false);
                }
                crate::transform::Mat4Fx::identity()
            },
        };
        let pairs = sorted_visible(w, &cam);
        let mut bundles: Vec<DrawBundle> = Vec::new();
        let mut bi: usize = 0;
        let npairs: usize = pairs.len();
        while bi < npairs
            invariant
                w.wf(),
                npairs == pairs@.len(),
                bi <= npairs,
                bundles@.len() == bi,
                sorted_lex(pairs@),
                distinct_ids(pairs@),
                forall|k: int|
                    0 <= k < pairs@.len() ==> visible_to(*w, cam, (#[trigger] pairs@[k]).1 as int)
                        && pairs@[k].0 as int == eff_order(*w, pairs@[k].1 as int),
                forall|i: int|
                    visible_to(*w, cam, i) ==> exists|k: int|
                        0 <= k < pairs@.len() && (#[trigger] pairs@[k]).1 == i,
                forall|k: int|
                    0 <= k < bi ==> bundle_ok(*w, #[trigger] bundles@[k]) && bundles@[k].entity.0
                        == pairs@[k].1 && bundles@[k].order == pairs@[k].0,
            decreases npairs - bi,
        {
            let (border, bid) = pairs[bi];
            let be = Entity(bid);
            let mesh: MeshHandle = match w.mesh(be) {
                Some(m) => m.0,
                None => {
                    proof {
                        assert(false);
                    }
                    crate::arena::Handle { index: 0, generation: 0 }
                },
            };
            let materials: Vec<MaterialHandle> = match w.materials(be) {
                Some(m) => material_list(m),
                None => {
                    proof {
                        assert(false);
                    }
                    Vec::new()
                },
            };
            let world_matrix: Mat4Fx = match w.transform(be) {
                Some(t) => t.m,
                None => {
                    proof {
                        assert(false);
                    }
                    crate::transform::Mat4Fx::identity()
                },
            };
            bundles.push(
                DrawBundle { entity: be, order: border, mesh, materials, world_matrix },
            );
            bi += 1;
        }
        proof {
            assert forall|i: int| visible_to(*w, cam, i) implies exists|k: int|
                0 <= k < bundles@.len() && (#[trigger] bundles@[k]).entity.0 == i by {
                let k = choose|k: int| 0 <= k < pairs@.len() && (#[trigger] pairs@[k]).1 == i;
                assert(bundles@[k].entity.0 == i);
            }
        }
        let overlay: bool = cam.target.is_none();
        r.push(
            PassSubmission {
                camera: e,
                order,
                target: cam.target,
                overlay,
                cam_matrix,
                aspect_w: cam.aspect_w,
                aspect_h: cam.aspect_h,
                bundles,
            },
        );
        ci += 1;
    }
    proof {
        assert forall|i: int| is_camera(*w, i) implies exists|k: int|
            0 <= k < r@.len() && (#[trigger] r@[k]).camera.0 == i by {
            let k = choose|k: int| 0 <= k < cams@.len() && (#[trigger] cams@[k]).1 == i;
            assert(r@[k].camera.0 == i);
        }
    }
    r
}

} // verus!
