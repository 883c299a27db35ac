//! The library's record of the physics world: which bodies and
//! colliders exist, their poses, and how they were built. The solver
//! itself (integration, sweeps, ray casts) runs outside; its outcomes
//! come back as plain values and are applied here.

use crate::fx::{iabs, QuatFx, Vec3Fx, FX_LIMIT, FX_ONE};
use vstd::prelude::*;

verus! {

/// A reference to a simulated body. Bodies are never destroyed, so a
/// plain index suffices.
#[derive(Clone, Copy, PartialEq, Eq, Structural, Debug)]
pub struct BodyHandle(pub usize);

/// A reference to a collider.
#[derive(Clone, Copy, PartialEq, Eq, Structural, Debug)]
pub struct ColliderHandle(pub usize);

/// The shape a collider was built with.
#[derive(Clone, Copy, PartialEq, Eq, Structural, Debug)]
pub enum ColliderShape {
    /// Half-extents per axis.
    Cuboid { half_extents: Vec3Fx },
    /// Radius.
    Ball { radius: i64 },
}

/// A rigid body as the scene tracks it: pose plus movability.
#[derive(Clone, Copy, PartialEq, Eq, Structural, Debug)]
pub struct Body {
    pub pos: Vec3Fx,
    pub rot: QuatFx,
    pub movable: bool,
}

/// A collider: a shape, a pose, and optionally the body it hangs on.
#[derive(Clone, Copy, PartialEq, Eq, Structural, Debug)]
pub struct Collider {
    pub shape: ColliderShape,
    pub pos: Vec3Fx,
    pub parent: Option<BodyHandle>,
}

/// The handle tables of the physics world. Poses are written here when
/// the outside solver reports them, and read by the synchronization
/// step.
pub struct Physics {
    pub bodies: Vec<Body>,
    pub colliders: Vec<Collider>,
}

impl Physics {
    pub open spec fn body_valid(self, h: BodyHandle) -> bool {
        (h.0 as int) < self.bodies@.len()
    }

    pub open spec fn collider_valid(self, h: ColliderHandle) -> bool {
        (h.0 as int) < self.colliders@.len()
    }

    /// Every collider's parent handle points at an existing body, and
    /// every pose is within representable bounds.
    pub open spec fn wf(self) -> bool {
        &&& forall|i: int|
            0 <= i < self.colliders@.len() ==> ((#[trigger] self.colliders@[i].parent) matches Some(p)
                ==> (p.0 as int) < self.bodies@.len())
        &&& forall|i: int|
            0 <= i < self.bodies@.len() ==> (#[trigger] self.bodies@[i].pos).bounded(FX_LIMIT as int)
                && self.bodies@[i].rot.bounded(FX_ONE as int)
        &&& forall|i: int|
            0 <= i < self.colliders@.len() ==> (#[trigger] self.colliders@[i].pos).bounded(
                FX_LIMIT as int,
            )
    }

    pub fn new() -> (r: Physics)
        ensures
            r.wf(),
            r.bodies@.len() == 0,
            r.colliders@.len() == 0,
    {
        Physics { bodies: Vec::new(), colliders: Vec::new() }
    }

    /// Register a standalone collider.
    pub fn add_collider(&mut self, collider: Collider) -> (h: ColliderHandle)
        requires
            old(self).wf(),
            collider.pos.bounded(FX_LIMIT as int),
            (collider.parent matches Some(p) ==> old(self).body_valid(p)),
        ensures
            final(self).wf(),
            h.0 == old(self).colliders@.len(),
            final(self).colliders@ == old(self).colliders@.push(collider),
            final(self).bodies == old(self).bodies,
            final(self).collider_valid(h),
            !old(self).collider_valid(h),
    {
        let h = ColliderHandle(self.colliders.len());
        self.colliders.push(collider);
        h
    }

    /// Register a body, optionally with a collider hung on it.
    pub fn add_body(&mut self, body: Body, collider: Option<ColliderShape>) -> (h: BodyHandle)
        requires
            old(self).wf(),
            body.pos.bounded(FX_LIMIT as int),
            body.rot.bounded(FX_ONE as int),
        ensures
            final(self).wf(),
            h.0 == old(self).bodies@.len(),
            final(self).bodies@ == old(self).bodies@.push(body),
            final(self).body_valid(h),
            !old(self).body_valid(h),
            (match collider {
                Some(shape) => final(self).colliders@ == old(self).colliders@.push(
                    Collider { shape, pos: body.pos, parent: Some(h) },
                ),
                None => final(self).colliders@ == old(self).colliders@,
            }),
    {
        let h = BodyHandle(self.bodies.len());
        let pos = body.pos;
        self.bodies.push(body);
        if let Some(shape) = collider {
            self.colliders.push(Collider { shape, pos, parent: Some(h) });
        }
        h
    }

    /// Read a body; a stale or foreign handle is a caller error.
    pub fn body(&self, handle: BodyHandle) -> (r: &Body)
        requires
            self.wf(),
            self.body_valid(handle),
        ensures
            *r == self.bodies@[handle.0 as int],
    {
        &self.bodies[handle.0]
    }

    /// Read a collider; a stale or foreign handle is a caller error.
    pub fn collider(&self, handle: ColliderHandle) -> (r: &Collider)
        requires
            self.wf(),
            self.collider_valid(handle),
        ensures
            *r == self.colliders@[handle.0 as int],
    {
        &self.colliders[handle.0]
    }

    /// Record a pose the outside solver reported for a body.
    pub fn set_body_pose(&mut self, handle: BodyHandle, pos: Vec3Fx, rot: QuatFx)
        requires
            old(self).wf(),
            old(self).body_valid(handle),
            pos.bounded(FX_LIMIT as int),
            rot.bounded(FX_ONE as int),
        ensures
            final(self).wf(),
            final(self).bodies@ == old(self).bodies@.update(
                handle.0 as int,
                Body { pos, rot, movable: old(self).bodies@[handle.0 as int].movable },
            ),
            final(self).colliders == old(self).colliders,
    {
        let movable: bool = self.bodies[handle.0].movable;
        let updated = Body { pos, rot, movable };
        self.bodies.set(handle.0, updated);
    }

    /// Record a collider position (the player mirrors its collider to
    /// its transform after a movement sweep).
    pub fn set_collider_translation(&mut self, handle: ColliderHandle, pos: Vec3Fx)
        requires
            old(self).wf(),
            old(self).collider_valid(handle),
            pos.bounded(FX_LIMIT as int),
        ensures
            final(self).wf(),
            final(self).colliders@ == old(self).colliders@.update(
                handle.0 as int,
                Collider {
                    shape: old(self).colliders@[handle.0 as int].shape,
                    pos,
                    parent: old(self).colliders@[handle.0 as int].parent,
                },
            ),
            final(self).bodies == old(self).bodies,
    {
        let shape: ColliderShape = self.colliders[handle.0].shape;
        let parent: Option<BodyHandle> = self.colliders[handle.0].parent;
        self.colliders.set(handle.0, Collider { shape, pos, parent });
    }
}

/// What a ray cast against the physics world reports on a hit.
#[derive(Clone, Copy, PartialEq, Eq, Structural, Debug)]
pub struct RayCastResult {
    /// Distance from the ray origin to the hit, in fixed point.
    pub distance: i64,
    /// The collider that was hit.
    pub collider: ColliderHandle,
}

/// The squared raw magnitude of a vector.
pub open spec fn sweep_mag_sq(v: Vec3Fx) -> int {
    iabs(v.x as int) * iabs(v.x as int) + iabs(v.y as int) * iabs(v.y as int) + iabs(v.z as int)
        * iabs(v.z as int)
}

/// What the sweep clamp returns: the reported translation when it is
/// representable and no longer than the request, otherwise none.
pub open spec fn clamp_sweep_s(desired: Vec3Fx, allowed: Vec3Fx) -> Vec3Fx {
    if sweep_mag_sq(allowed) <= sweep_mag_sq(desired) && allowed.bounded(FX_LIMIT as int) {
        allowed
    } else {
        Vec3Fx { x: 0, y: 0, z: 0 }
    }
}

/// Whatever translation the sweep reports, the movement actually
/// applied never exceeds the desired one in magnitude.
pub proof fn lemma_sweep_never_exceeds(desired: Vec3Fx, allowed: Vec3Fx)
    ensures
        sweep_mag_sq(clamp_sweep_s(desired, allowed)) <= sweep_mag_sq(desired),
{
    let dx = iabs(desired.x as int);
    let dy = iabs(desired.y as int);
    let dz = iabs(desired.z as int);
    assert(dx * dx >= 0 && dy * dy >= 0 && dz * dz >= 0) by (nonlinear_arith)
        requires
            dx >= 0,
            dy >= 0,
            dz >= 0,
    ;
    assert(iabs(0) * iabs(0) == 0) by (nonlinear_arith);
}

/// Clamp a sweep outcome to the desired translation: the applied
/// movement never exceeds what was asked for. A well-behaved solver
/// already returns such a translation, and then passes unchanged; an
/// out-of-range report falls back to no movement at all.
pub fn clamp_sweep(desired: Vec3Fx, allowed: Vec3Fx) -> (r: Vec3Fx)
    requires
        desired.bounded(FX_LIMIT as int),
        allowed.bounded(0x7fff_ffff_ffff_ffff),
    ensures
        r == clamp_sweep_s(desired, allowed),
        r.bounded(FX_LIMIT as int),
        iabs(r.x as int) * iabs(r.x as int) + iabs(r.y as int) * iabs(r.y as int) + iabs(
            r.z as int,
        ) * iabs(r.z as int) <= iabs(desired.x as int) * iabs(desired.x as int) + iabs(
            desired.y as int,
        ) * iabs(desired.y as int) + iabs(desired.z as int) * iabs(desired.z as int),
        (iabs(allowed.x as int) * iabs(allowed.x as int) + iabs(allowed.y as int) * iabs(
            allowed.y as int,
        ) + iabs(allowed.z as int) * iabs(allowed.z as int) <= iabs(desired.x as int) * iabs(
            desired.x as int,
        ) + iabs(desired.y as int) * iabs(desired.y as int) + iabs(desired.z as int) * iabs(
            desired.z as int,
        ) && allowed.bounded(FX_LIMIT as int)) ==> r == allowed,
{
    let da: u128 = desired.raw_magnitude_sq();
    let aa: u128 = allowed.raw_magnitude_sq();
    let in_bounds: bool = allowed.x >= -FX_LIMIT && allowed.x <= FX_LIMIT && allowed.y >= -FX_LIMIT
        && allowed.y <= FX_LIMIT && allowed.z >= -FX_LIMIT && allowed.z <= FX_LIMIT;
    if aa <= da && in_bounds {
        proof {
            assert(aa as int <= da as int);
        }
        allowed
    } else {
        let r = Vec3Fx { x: 0, y: 0, z: 0 };
        proof {
            let dx = iabs(desired.x as int);
            let dy = iabs(desired.y as int);
            let dz = iabs(desired.z as int);
            assert(dx * dx >= 0 && dy * dy >= 0 && dz * dz >= 0) by (nonlinear_arith)
                requires
                    dx >= 0,
                    dy >= 0,
                    dz >= 0,
            ;
            assert(iabs(r.x as int) == 0);
            assert(iabs(r.x as int) * iabs(r.x as int) == 0) by (nonlinear_arith)
                requires
                    iabs(r.x as int) == 0,
            ;
            assert(iabs(r.y as int) * iabs(r.y as int) == 0) by (nonlinear_arith)
                requires
                    iabs(r.y as int) == 0,
            ;
            assert(iabs(r.z as int) * iabs(r.z as int) == 0) by (nonlinear_arith)
                requires
                    iabs(r.z as int) == 0,
            ;
        }
        r
    }
}

} // verus!
