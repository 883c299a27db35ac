//! The entity-component world: opaque entity identities with one
//! sparse column per component type. Entities are never destroyed
//! during the frame loop, so a column is a vector of options indexed
//! by the entity id.

use crate::camera::Camera;
use crate::components::{
    Materials, Mesh, PlayerFocusMarker, PostProcess, RenderOrder, RenderTags, RigidBody,
};
use crate::player::Player;
use crate::transform::Transform;
use vstd::prelude::*;

verus! {

/// An opaque entity identity.
#[derive(Clone, Copy, PartialEq, Eq, Structural, Debug)]
pub struct Entity(pub usize);

/// All component columns. Every column has one slot per entity.
pub struct World {
    pub transforms: Vec<Option<Transform>>,
    pub cameras: Vec<Option<Camera>>,
    pub meshes: Vec<Option<Mesh>>,
    pub material_sets: Vec<Option<Materials>>,
    pub render_tags: Vec<Option<RenderTags>>,
    pub render_orders: Vec<Option<RenderOrder>>,
    pub bodies: Vec<Option<RigidBody>>,
    pub players: Vec<Option<Player>>,
    pub post_process: Vec<Option<PostProcess>>,
    pub focus_markers: Vec<Option<PlayerFocusMarker>>,
}

impl World {
    /// How many entities exist.
    pub open spec fn len_s(self) -> int {
        self.transforms@.len() as int
    }

    /// Every column covers every entity.
    pub open spec fn wf(self) -> bool {
        &&& self.cameras@.len() == self.len_s()
        &&& self.meshes@.len() == self.len_s()
        &&& self.material_sets@.len() == self.len_s()
        &&& self.render_tags@.len() == self.len_s()
        &&& self.render_orders@.len() == self.len_s()
        &&& self.bodies@.len() == self.len_s()
        &&& self.players@.len() == self.len_s()
        &&& self.post_process@.len() == self.len_s()
        &&& self.focus_markers@.len() == self.len_s()
    }

    pub open spec fn alive(self, e: Entity) -> bool {
        (e.0 as int) < self.len_s()
    }

    pub fn new() -> (r: World)
        ensures
            r.wf(),
            r.len_s() == 0,
    {
        World {
            transforms: Vec::new(),
            cameras: Vec::new(),
            meshes: Vec::new(),
            material_sets: Vec::new(),
            render_tags: Vec::new(),
            render_orders: Vec::new(),
            bodies: Vec::new(),
            players: Vec::new(),
            post_process: Vec::new(),
            focus_markers: Vec::new(),
        }
    }

    pub fn num_entities(&self) -> (r: usize)
        requires
            self.wf(),
        ensures
            r as int == self.len_s(),
    {
        self.transforms.len()
    }

    /// Create an entity with no components attached yet.
    pub fn spawn(&mut self) -> (e: Entity)
        requires
            old(self).wf(),
        ensures
            final(self).wf(),
            e.0 as int == old(self).len_s(),
            final(self).len_s() == old(self).len_s() + 1,
            final(self).transforms@ == old(self).transforms@.push(None),
            final(self).cameras@ == old(self).cameras@.push(None),
            final(self).meshes@ == old(self).meshes@.push(None),
            final(self).material_sets@ == old(self).material_sets@.push(None),
            final(self).render_tags@ == old(self).render_tags@.push(None),
            final(self).render_orders@ == old(self).render_orders@.push(None),
            final(self).bodies@ == old(self).bodies@.push(None),
            final(self).players@ == old(self).players@.push(None),
            final(self).post_process@ == old(self).post_process@.push(None),
            final(self).focus_markers@ == old(self).focus_markers@.push(None),
    {
        let e = Entity(self.transforms.len());
        self.transforms.push(None);
        self.cameras.push(None);
        self.meshes.push(None);
        self.material_sets.push(None);
        self.render_tags.push(None);
        self.render_orders.push(None);
        self.bodies.push(None);
        self.players.push(None);
        self.post_process.push(None);
        self.focus_markers.push(None);
        e
    }

    /// Untouched except possibly the named entity's slots.
    pub open spec fn others_unchanged(self, later: World, e: Entity) -> bool {
        &&& later.len_s() == self.len_s()
        &&& forall|i: int|
            0 <= i < self.len_s() && i != e.0 as int ==> later.transforms@[i] == self.transforms@[i]
                && later.cameras@[i] == self.cameras@[i] && later.meshes@[i] == self.meshes@[i]
                && later.material_sets@[i] == self.material_sets@[i] && later.render_tags@[i]
                == self.render_tags@[i] && later.render_orders@[i] == self.render_orders@[i]
                && later.bodies@[i] == self.bodies@[i] && later.players@[i] == self.players@[i]
                && later.post_process@[i] == self.post_process@[i] && later.focus_markers@[i]
                == self.focus_markers@[i]
    }

    pub fn set_transform(&mut self, e: Entity, c: Transform)
        requires
            old(self).wf(),
            old(self).alive(e),
        ensures
            final(self).wf(),
            final(self).transforms@ == old(self).transforms@.update(e.0 as int, Some(c)),
            final(self).cameras == old(self).cameras,
            final(self).meshes == old(self).meshes,
            final(self).material_sets == old(self).material_sets,
            final(self).render_tags == old(self).render_tags,
            final(self).render_orders == old(self).render_orders,
            final(self).bodies == old(self).bodies,
            final(self).players == old(self).players,
            final(self).post_process == old(self).post_process,
            final(self).focus_markers == old(self).focus_markers,
    {
        self.transforms.set(e.0, Some(c));
    }

    pub fn transform(&self, e: Entity) -> (r: &Option<Transform>)
        requires
            self.wf(),
            self.alive(e),
        ensures
            *r == self.transforms@[e.0 as int],
    {
        &self.transforms[e.0]
    }

    pub fn set_camera(&mut self, e: Entity, c: Camera)
        requires
            old(self).wf(),
            old(self).alive(e),
        ensures
            final(self).wf(),
            final(self).cameras@ == old(self).cameras@.update(e.0 as int, Some(c)),
            final(self).transforms == old(self).transforms,
            final(self).meshes == old(self).meshes,
            final(self).material_sets == old(self).material_sets,
            final(self).render_tags == old(self).render_tags,
            final(self).render_orders == old(self).render_orders,
            final(self).bodies == old(self).bodies,
            final(self).players == old(self).players,
            final(self).post_process == old(self).post_process,
            final(self).focus_markers == old(self).focus_markers,
    {
        self.cameras.set(e.0, Some(c));
    }

    pub fn camera(&self, e: Entity) -> (r: &Option<Camera>)
        requires
            self.wf(),
            self.alive(e),
        ensures
            *r == self.cameras@[e.0 as int],
    {
        &self.cameras[e.0]
    }

    pub fn set_mesh(&mut self, e: Entity, c: Mesh)
        requires
            old(self).wf(),
            old(self).alive(e),
        ensures
            final(self).wf(),
            final(self).meshes@ == old(self).meshes@.update(e.0 as int, Some(c)),
            final(self).transforms == old(self).transforms,
            final(self).cameras == old(self).cameras,
            final(self).material_sets == old(self).material_sets,
            final(self).render_tags == old(self).render_tags,
            final(self).render_orders == old(self).render_orders,
            final(self).bodies == old(self).bodies,
            final(self).players == old(self).players,
            final(self).post_process == old(self).post_process,
            final(self).focus_markers == old(self).focus_markers,
    {
        self.meshes.set(e.0, Some(c));
    }

    pub fn mesh(&self, e: Entity) -> (r: &Option<Mesh>)
        requires
            self.wf(),
            self.alive(e),
        ensures
            *r == self.meshes@[e.0 as int],
    {
        &self.meshes[e.0]
    }

    pub fn set_materials(&mut self, e: Entity, c: Materials)
        requires
            old(self).wf(),
            old(self).alive(e),
        ensures
            final(self).wf(),
            final(self).material_sets@ == old(self).material_sets@.update(e.0 as int, Some(c)),
            final(self).transforms == old(self).transforms,
            final(self).cameras == old(self).cameras,
            final(self).meshes == old(self).meshes,
            final(self).render_tags == old(self).render_tags,
            final(self).render_orders == old(self).render_orders,
            final(self).bodies == old(self).bodies,
            final(self).players == old(self).players,
            final(self).post_process == old(self).post_process,
            final(self).focus_markers == old(self).focus_markers,
    {
        self.material_sets.set(e.0, Some(c));
    }

    pub fn materials(&self, e: Entity) -> (r: &Option<Materials>)
        requires
            self.wf(),
            self.alive(e),
        ensures
            *r == self.material_sets@[e.0 as int],
    {
        &self.material_sets[e.0]
    }

    pub fn set_render_tags(&mut self, e: Entity, c: RenderTags)
        requires
            old(self).wf(),
            old(self).alive(e),
        ensures
            final(self).wf(),
            final(self).render_tags@ == old(self).render_tags@.update(e.0 as int, Some(c)),
            final(self).transforms == old(self).transforms,
            final(self).cameras == old(self).cameras,
            final(self).meshes == old(self).meshes,
            final(self).material_sets == old(self).material_sets,
            final(self).render_orders == old(self).render_orders,
            final(self).bodies == old(self).bodies,
            final(self).players == old(self).players,
            final(self).post_process == old(self).post_process,
            final(self).focus_markers == old(self).focus_markers,
    {
        self.render_tags.set(e.0, Some(c));
    }

    pub fn render_tags(&self, e: Entity) -> (r: &Option<RenderTags>)
        requires
            self.wf(),
            self.alive(e),
        ensures
            *r == self.render_tags@[e.0 as int],
    {
        &self.render_tags[e.0]
    }

    pub fn set_render_order(&mut self, e: Entity, c: RenderOrder)
        requires
            old(self).wf(),
            old(self).alive(e),
        ensures
            final(self).wf(),
            final(self).render_orders@ == old(self).render_orders@.update(e.0 as int, Some(c)),
            final(self).transforms == old(self).transforms,
            final(self).cameras == old(self).cameras,
            final(self).meshes == old(self).meshes,
            final(self).material_sets == old(self).material_sets,
            final(self).render_tags == old(self).render_tags,
            final(self).bodies == old(self).bodies,
            final(self).players == old(self).players,
            final(self).post_process == old(self).post_process,
            final(self).focus_markers == old(self).focus_markers,
    {
        self.render_orders.set(e.0, Some(c));
    }

    pub fn render_order(&self, e: Entity) -> (r: &Option<RenderOrder>)
        requires
            self.wf(),
            self.alive(e),
        ensures
            *r == self.render_orders@[e.0 as int],
    {
        &self.render_orders[e.0]
    }

    pub fn set_body(&mut self, e: Entity, c: RigidBody)
        requires
            old(self).wf(),
            old(self).alive(e),
        ensures
            final(self).wf(),
            final(self).bodies@ == old(self).bodies@.update(e.0 as int, Some(c)),
            final(self).transforms == old(self).transforms,
            final(self).cameras == old(self).cameras,
            final(self).meshes == old(self).meshes,
            final(self).material_sets == old(self).material_sets,
            final(self).render_tags == old(self).render_tags,
            final(self).render_orders == old(self).render_orders,
            final(self).players == old(self).players,
            final(self).post_process == old(self).post_process,
            final(self).focus_markers == old(self).focus_markers,
    {
        self.bodies.set(e.0, Some(c));
    }

    pub fn body(&self, e: Entity) -> (r: &Option<RigidBody>)
        requires
            self.wf(),
            self.alive(e),
        ensures
            *r == self.bodies@[e.0 as int],
    {
        &self.bodies[e.0]
    }

    pub fn set_player(&mut self, e: Entity, c: Player)
        requires
            old(self).wf(),
            old(self).alive(e),
        ensures
            final(self).wf(),
            final(self).players@ == old(self).players@.update(e.0 as int, Some(c)),
            final(self).transforms == old(self).transforms,
            final(self).cameras == old(self).cameras,
            final(self).meshes == old(self).meshes,
            final(self).material_sets == old(self).material_sets,
            final(self).render_tags == old(self).render_tags,
            final(self).render_orders == old(self).render_orders,
            final(self).bodies == old(self).bodies,
            final(self).post_process == old(self).post_process,
            final(self).focus_markers == old(self).focus_markers,
    {
        self.players.set(e.0, Some(c));
    }

    pub fn player(&self, e: Entity) -> (r: &Option<Player>)
        requires
            self.wf(),
            self.alive(e),
        ensures
            *r == self.players@[e.0 as int],
    {
        &self.players[e.0]
    }

    pub fn set_post_process(&mut self, e: Entity)
        requires
            old(self).wf(),
            old(self).alive(e),
        ensures
            final(self).wf(),
            final(self).post_process@[e.0 as int] is Some,
            final(self).post_process@.len() == old(self).post_process@.len(),
            forall|i: int|
                0 <= i < old(self).post_process@.len() && i != e.0 as int
                    ==> final(self).post_process@[i] == old(self).post_process@[i],
            final(self).transforms == old(self).transforms,
            final(self).cameras == old(self).cameras,
            final(self).meshes == old(self).meshes,
            final(self).material_sets == old(self).material_sets,
            final(self).render_tags == old(self).render_tags,
            final(self).render_orders == old(self).render_orders,
            final(self).bodies == old(self).bodies,
            final(self).players == old(self).players,
            final(self).focus_markers == old(self).focus_markers,
    {
        self.post_process.set(e.0, Some(PostProcess));
    }

    pub fn has_post_process(&self, e: Entity) -> (r: bool)
        requires
            self.wf(),
            self.alive(e),
        ensures
            r == self.post_process@[e.0 as int] is Some,
    {
        self.post_process[e.0].is_some()
    }

    pub fn set_focus_marker(&mut self, e: Entity)
        requires
            old(self).wf(),
            old(self).alive(e),
        ensures
            final(self).wf(),
            final(self).focus_markers@[e.0 as int] is Some,
            final(self).focus_markers@.len() == old(self).focus_markers@.len(),
            forall|i: int|
                0 <= i < old(self).focus_markers@.len() && i != e.0 as int
                    ==> final(self).focus_markers@[i] == old(self).focus_markers@[i],
            final(self).transforms == old(self).transforms,
            final(self).cameras == old(self).cameras,
            final(self).meshes == old(self).meshes,
            final(self).material_sets == old(self).material_sets,
            final(self).render_tags == old(self).render_tags,
            final(self).render_orders == old(self).render_orders,
            final(self).bodies == old(self).bodies,
            final(self).players == old(self).players,
            final(self).post_process == old(self).post_process,
    {
        self.focus_markers.set(e.0, Some(PlayerFocusMarker));
    }

    pub fn has_focus_marker(&self, e: Entity) -> (r: bool)
        requires
            self.wf(),
            self.alive(e),
        ensures
            r == self.focus_markers@[e.0 as int] is Some,
    {
        self.focus_markers[e.0].is_some()
    }

    /// Attach a freshly built entity's components in one step: the
    /// transform always, the rest as given.
    pub fn set_node_components(
        &mut self,
        e: Entity,
        t: Transform,
        ro: Option<RenderOrder>,
        rt: Option<RenderTags>,
        rb: Option<RigidBody>,
        mesh: Option<Mesh>,
        ms: Option<Materials>,
        marker: bool,
    )
        requires
            old(self).wf(),
            old(self).alive(e),
        ensures
            final(self).wf(),
            final(self).len_s() == old(self).len_s(),
            final(self).transforms@ == old(self).transforms@.update(e.0 as int, Some(t)),
            final(self).render_orders@ == (match ro {
                Some(o) => old(self).render_orders@.update(e.0 as int, Some(o)),
                None => old(self).render_orders@,
            }),
            final(self).render_tags@ == (match rt {
                Some(o) => old(self).render_tags@.update(e.0 as int, Some(o)),
                None => old(self).render_tags@,
            }),
            final(self).bodies@ == (match rb {
                Some(o) => old(self).bodies@.update(e.0 as int, Some(o)),
                None => old(self).bodies@,
            }),
            final(self).meshes@ == (match mesh {
                Some(o) => old(self).meshes@.update(e.0 as int, Some(o)),
                None => old(self).meshes@,
            }),
            final(self).material_sets@ == (match ms {
                Some(o) => old(self).material_sets@.update(e.0 as int, Some(o)),
                None => old(self).material_sets@,
            }),
            final(self).focus_markers@ == (if marker {
                old(self).focus_markers@.update(e.0 as int, Some(PlayerFocusMarker))
            } else {
                old(self).focus_markers@
            }),
            final(self).cameras == old(self).cameras,
            final(self).players == old(self).players,
            final(self).post_process == old(self).post_process,
    {
        self.transforms.set(e.0, Some(t));
        if let Some(o) = ro {
            self.render_orders.set(e.0, Some(o));
        }
        if let Some(o) = rt {
            self.render_tags.set(e.0, Some(o));
        }
        if let Some(o) = rb {
            self.bodies.set(e.0, Some(o));
        }
        if let Some(o) = mesh {
            self.meshes.set(e.0, Some(o));
        }
        if let Some(o) = ms {
            self.material_sets.set(e.0, Some(o));
        }
        if marker {
            self.focus_markers.set(e.0, Some(PlayerFocusMarker));
        }
    }

    /// A focus-marker entity that can actually be repositioned and
    /// re-tagged: it carries the marker, a transform and render tags.
    pub open spec fn is_marker(self, i: int) -> bool {
        &&& 0 <= i < self.len_s()
        &&& self.focus_markers@[i] is Some
        &&& self.transforms@[i] is Some
        &&& self.render_tags@[i] is Some
    }

    /// The first focus-marker entity, if any.
    pub fn marker_entity(&self) -> (r: Option<Entity>)
        requires
            self.wf(),
        ensures
            (match r {
                Some(e) => self.is_marker(e.0 as int) && forall|j: int|
                    0 <= j < e.0 as int ==> !self.is_marker(j),
                None => forall|j: int| 0 <= j < self.len_s() ==> !self.is_marker(j),
            }),
    {
        let n: usize = self.transforms.len();
        let mut i: usize = 0;
        while i < n
            invariant
                n as int == self.len_s(),
                i <= n,
                self.wf(),
                forall|j: int| 0 <= j < i ==> !self.is_marker(j),
            decreases n - i,
        {
            if self.focus_markers[i].is_some() && self.transforms[i].is_some()
                && self.render_tags[i].is_some() {
                return Some(Entity(i));
            }
            i += 1;
        }
        None
    }

    /// The first entity carrying a player component, if any: the
    /// controller singleton.
    pub fn player_entity(&self) -> (r: Option<Entity>)
        requires
            self.wf(),
        ensures
            (match r {
                Some(e) => self.alive(e) && self.players@[e.0 as int] is Some && forall|j: int|
                    0 <= j < e.0 as int ==> self.players@[j] is None,
                None => forall|j: int| 0 <= j < self.len_s() ==> self.players@[j] is None,
            }),
    {
        let n: usize = self.players.len();
        let mut i: usize = 0;
        while i < n
            invariant
                n == self.players@.len(),
                i <= n,
                self.wf(),
                forall|j: int| 0 <= j < i ==> self.players@[j] is None,
            decreases n - i,
        {
            if self.players[i].is_some() {
                return Some(Entity(i));
            }
            i += 1;
        }
        None
    }
}

} // verus!
