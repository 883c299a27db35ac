//! The transform component: position, unit rotation, non-uniform scale,
//! and a cached world matrix that is rebuilt after every mutation.
//!
//! The well-formedness predicate `Transform::wf` pins the cached matrix
//! to the exact fixed-point composition of the current fields, so a
//! reader can never observe a stale matrix.

use crate::fx::{
    fx_mul, fx_mul_s, iabs, lemma_fx_mul_bound, QuatFx, Vec3Fx, FX_LIMIT, FX_ONE, FX_QUAT_LIMIT,
};
use vstd::prelude::*;

verus! {

/// Whether a rotation is applied about the body's own axes or about
/// the world axes.
#[derive(Clone, Copy, PartialEq, Eq, Structural, Debug)]
pub enum TransformSpace {
    Local,
    World,
}

/// One column of a 4x4 fixed-point matrix.
#[derive(Clone, Copy, PartialEq, Eq, Structural, Debug)]
pub struct Vec4Fx {
    pub x: i64,
    pub y: i64,
    pub z: i64,
    pub w: i64,
}

/// A 4x4 fixed-point matrix, stored as four columns.
#[derive(Clone, Copy, PartialEq, Eq, Structural, Debug)]
pub struct Mat4Fx {
    pub c0: Vec4Fx,
    pub c1: Vec4Fx,
    pub c2: Vec4Fx,
    pub c3: Vec4Fx,
}

impl Mat4Fx {
    pub fn identity() -> (r: Mat4Fx)
        ensures
            r == Mat4Fx::identity_s(),
    {
        Mat4Fx {
            c0: Vec4Fx { x: FX_ONE, y: 0, z: 0, w: 0 },
            c1: Vec4Fx { x: 0, y: FX_ONE, z: 0, w: 0 },
            c2: Vec4Fx { x: 0, y: 0, z: FX_ONE, w: 0 },
            c3: Vec4Fx { x: 0, y: 0, z: 0, w: FX_ONE },
        }
    }

    pub open spec fn identity_s() -> Mat4Fx {
        Mat4Fx {
            c0: Vec4Fx { x: FX_ONE as i64, y: 0, z: 0, w: 0 },
            c1: Vec4Fx { x: 0, y: FX_ONE as i64, z: 0, w: 0 },
            c2: Vec4Fx { x: 0, y: 0, z: FX_ONE as i64, w: 0 },
            c3: Vec4Fx { x: 0, y: 0, z: 0, w: FX_ONE as i64 },
        }
    }
}

/// Entries of the rotation matrix of a quaternion, row by row, in
/// fixed point: the standard polynomial form of a unit quaternion.
pub open spec fn rot_r00(q: QuatFx) -> int {
    FX_ONE - 2 * (fx_mul_s(q.y as int, q.y as int) + fx_mul_s(q.z as int, q.z as int))
}

pub open spec fn rot_r01(q: QuatFx) -> int {
    2 * (fx_mul_s(q.x as int, q.y as int) - fx_mul_s(q.w as int, q.z as int))
}

pub open spec fn rot_r02(q: QuatFx) -> int {
    2 * (fx_mul_s(q.x as int, q.z as int) + fx_mul_s(q.w as int, q.y as int))
}

pub open spec fn rot_r10(q: QuatFx) -> int {
    2 * (fx_mul_s(q.x as int, q.y as int) + fx_mul_s(q.w as int, q.z as int))
}

pub open spec fn rot_r11(q: QuatFx) -> int {
    FX_ONE - 2 * (fx_mul_s(q.x as int, q.x as int) + fx_mul_s(q.z as int, q.z as int))
}

pub open spec fn rot_r12(q: QuatFx) -> int {
    2 * (fx_mul_s(q.y as int, q.z as int) - fx_mul_s(q.w as int, q.x as int))
}

pub open spec fn rot_r20(q: QuatFx) -> int {
    2 * (fx_mul_s(q.x as int, q.z as int) - fx_mul_s(q.w as int, q.y as int))
}

pub open spec fn rot_r21(q: QuatFx) -> int {
    2 * (fx_mul_s(q.y as int, q.z as int) + fx_mul_s(q.w as int, q.x as int))
}

pub open spec fn rot_r22(q: QuatFx) -> int {
    FX_ONE - 2 * (fx_mul_s(q.x as int, q.x as int) + fx_mul_s(q.y as int, q.y as int))
}

/// The world matrix is translation, then the transposed rotation
/// matrix, with the scale applied to the three basis columns:
/// column `j` of the matrix is row `j` of the rotation matrix times
/// the `j`-th scale component, and the last column is the position.
pub open spec fn is_compose(m: Mat4Fx, pos: Vec3Fx, rot: QuatFx, scale: Vec3Fx) -> bool {
    &&& m.c0.x as int == fx_mul_s(rot_r00(rot), scale.x as int)
    &&& m.c0.y as int == fx_mul_s(rot_r01(rot), scale.x as int)
    &&& m.c0.z as int == fx_mul_s(rot_r02(rot), scale.x as int)
    &&& m.c0.w == 0
    &&& m.c1.x as int == fx_mul_s(rot_r10(rot), scale.y as int)
    &&& m.c1.y as int == fx_mul_s(rot_r11(rot), scale.y as int)
    &&& m.c1.z as int == fx_mul_s(rot_r12(rot), scale.y as int)
    &&& m.c1.w == 0
    &&& m.c2.x as int == fx_mul_s(rot_r20(rot), scale.z as int)
    &&& m.c2.y as int == fx_mul_s(rot_r21(rot), scale.z as int)
    &&& m.c2.z as int == fx_mul_s(rot_r22(rot), scale.z as int)
    &&& m.c2.w == 0
    &&& m.c3.x == pos.x
    &&& m.c3.y == pos.y
    &&& m.c3.z == pos.z
    &&& m.c3.w == FX_ONE
}

/// Position, unit rotation, non-uniform scale, and the cached world
/// matrix, kept equal to the composition of the other three fields.
#[derive(Clone, Copy, PartialEq, Eq, Structural, Debug)]
pub struct Transform {
    pub m: Mat4Fx,
    pub scale: Vec3Fx,
    pub pos: Vec3Fx,
    pub rot: QuatFx,
}

impl Transform {
    /// Field bounds plus the cached-matrix equation: this is the
    /// transform's whole invariant, established by every constructor
    /// and preserved by every mutation.
    pub open spec fn wf(self) -> bool {
        &&& self.pos.bounded(FX_LIMIT as int)
        &&& self.scale.bounded(FX_LIMIT as int)
        &&& self.rot.bounded(FX_ONE as int)
        &&& is_compose(self.m, self.pos, self.rot, self.scale)
    }

    pub fn new(pos: Vec3Fx, scale: Vec3Fx) -> (r: Transform)
        requires
            pos.bounded(FX_LIMIT as int),
            scale.bounded(FX_LIMIT as int),
        ensures
            r.wf(),
            r.pos == pos,
            r.scale == scale,
            r.rot == (QuatFx { w: FX_ONE as i64, x: 0, y: 0, z: 0 }),
    {
        let mut t = Transform {
            m: Mat4Fx::identity(),
            scale,
            pos,
            rot: QuatFx::identity(),
        };
        t.rebuild_matrix();
        t
    }

    pub fn from_pos(pos: Vec3Fx) -> (r: Transform)
        requires
            pos.bounded(FX_LIMIT as int),
        ensures
            r.wf(),
            r.pos == pos,
            r.scale == (Vec3Fx { x: FX_ONE as i64, y: FX_ONE as i64, z: FX_ONE as i64 }),
            r.rot == (QuatFx { w: FX_ONE as i64, x: 0, y: 0, z: 0 }),
    {
        Transform::new(pos, Vec3Fx::splat(FX_ONE))
    }

    /// The cached world matrix; by `wf` it is never stale.
    pub fn matrix(&self) -> (r: Mat4Fx)
        ensures
            r == self.m,
    {
        self.m
    }

    /// The basis vector the transform looks along: the negated third
    /// basis column, unscaled only when the scale is one.
    pub fn forward(&self) -> (r: Vec3Fx)
        requires
            self.wf(),
        ensures
            r.x == -self.m.c2.x,
            r.y == -self.m.c2.y,
            r.z == -self.m.c2.z,
    {
        proof {
            lemma_compose_entry_bounds(self.m, self.pos, self.rot, self.scale);
        }
        Vec3Fx { x: -self.m.c2.x, y: -self.m.c2.y, z: -self.m.c2.z }
    }

    pub fn right(&self) -> (r: Vec3Fx)
        requires
            self.wf(),
        ensures
            r == (Vec3Fx { x: self.m.c0.x, y: self.m.c0.y, z: self.m.c0.z }),
    {
        Vec3Fx { x: self.m.c0.x, y: self.m.c0.y, z: self.m.c0.z }
    }

    pub fn up(&self) -> (r: Vec3Fx)
        requires
            self.wf(),
        ensures
            r == (Vec3Fx { x: self.m.c1.x, y: self.m.c1.y, z: self.m.c1.z }),
    {
        Vec3Fx { x: self.m.c1.x, y: self.m.c1.y, z: self.m.c1.z }
    }

    pub fn position(&self) -> (r: Vec3Fx)
        ensures
            r == self.pos,
    {
        self.pos
    }

    pub fn rotation(&self) -> (r: QuatFx)
        ensures
            r == self.rot,
    {
        self.rot
    }

    pub fn translate(&mut self, v: Vec3Fx)
        requires
            old(self).wf(),
            iabs(old(self).pos.x + v.x) <= FX_LIMIT as int,
            iabs(old(self).pos.y + v.y) <= FX_LIMIT as int,
            iabs(old(self).pos.z + v.z) <= FX_LIMIT as int,
            v.bounded(FX_LIMIT as int),
        ensures
            final(self).wf(),
            final(self).pos.x == old(self).pos.x + v.x,
            final(self).pos.y == old(self).pos.y + v.y,
            final(self).pos.z == old(self).pos.z + v.z,
            final(self).rot == old(self).rot,
            final(self).scale == old(self).scale,
    {
        self.pos = Vec3Fx { x: self.pos.x + v.x, y: self.pos.y + v.y, z: self.pos.z + v.z };
        self.rebuild_matrix();
    }

    pub fn set_position(&mut self, pos: Vec3Fx)
        requires
            old(self).wf(),
            pos.bounded(FX_LIMIT as int),
        ensures
            final(self).wf(),
            final(self).pos == pos,
            final(self).rot == old(self).rot,
            final(self).scale == old(self).scale,
    {
        self.pos = pos;
        self.rebuild_matrix();
    }

    pub fn set_scale(&mut self, scale: Vec3Fx)
        requires
            old(self).wf(),
            scale.bounded(FX_LIMIT as int),
        ensures
            final(self).wf(),
            final(self).scale == scale,
            final(self).pos == old(self).pos,
            final(self).rot == old(self).rot,
    {
        self.scale = scale;
        self.rebuild_matrix();
    }

    /// Overwrite position and rotation together, as the physics
    /// synchronization does with a simulated body's pose. The rotation
    /// is normalized on the way in, so the stored one stays unit.
    pub fn set(&mut self, pos: Vec3Fx, rotation: QuatFx)
        requires
            old(self).wf(),
            pos.bounded(FX_LIMIT as int),
            rotation.bounded(FX_QUAT_LIMIT as int),
        ensures
            final(self).wf(),
            final(self).pos == pos,
            final(self).rot == rotation.normalize_s(),
            final(self).scale == old(self).scale,
    {
        self.pos = pos;
        self.rot = rotation.normalize();
        self.rebuild_matrix();
    }

    /// Overwrite the rotation alone; like `set`, it is normalized on
    /// the way in.
    pub fn set_rotation(&mut self, rotation: QuatFx)
        requires
            old(self).wf(),
            rotation.bounded(FX_QUAT_LIMIT as int),
        ensures
            final(self).wf(),
            final(self).rot == rotation.normalize_s(),
            final(self).pos == old(self).pos,
            final(self).scale == old(self).scale,
    {
        self.rot = rotation.normalize();
        self.rebuild_matrix();
    }

    /// Compose a rotation onto the current one. A local rotation
    /// multiplies on the left, a world rotation on the right; the
    /// product is renormalized to keep the rotation near unit.
    pub fn rotate(&mut self, q: QuatFx, space: TransformSpace)
        requires
            old(self).wf(),
            q.bounded(2 * FX_ONE as int),
        ensures
            final(self).wf(),
            final(self).pos == old(self).pos,
            final(self).scale == old(self).scale,
            space == TransformSpace::Local ==> final(self).rot == q.mul_s(old(self).rot).normalize_s(),
            space == TransformSpace::World ==> final(self).rot == old(self).rot.mul_s(q).normalize_s(),
    {
        let p = match space {
            TransformSpace::Local => q.mul(self.rot),
            TransformSpace::World => self.rot.mul(q),
        };
        self.rot = p.normalize();
        self.rebuild_matrix();
    }

    /// Recompute the cached matrix from the current fields.
    fn rebuild_matrix(&mut self)
        requires
            old(self).pos.bounded(FX_LIMIT as int),
            old(self).scale.bounded(FX_LIMIT as int),
            old(self).rot.bounded(FX_ONE as int),
        ensures
            final(self).pos == old(self).pos,
            final(self).scale == old(self).scale,
            final(self).rot == old(self).rot,
            final(self).wf(),
    {
        let q = self.rot;
        proof {
            lemma_unit_sq(q.x as int, q.x as int);
            lemma_unit_sq(q.y as int, q.y as int);
            lemma_unit_sq(q.z as int, q.z as int);
            lemma_unit_sq(q.x as int, q.y as int);
            lemma_unit_sq(q.x as int, q.z as int);
            lemma_unit_sq(q.y as int, q.z as int);
            lemma_unit_sq(q.w as int, q.x as int);
            lemma_unit_sq(q.w as int, q.y as int);
            lemma_unit_sq(q.w as int, q.z as int);
        }
        let xx: i64 = fx_mul(q.x, q.x);
        let yy: i64 = fx_mul(q.y, q.y);
        let zz: i64 = fx_mul(q.z, q.z);
        let xy: i64 = fx_mul(q.x, q.y);
        let xz: i64 = fx_mul(q.x, q.z);
        let yz: i64 = fx_mul(q.y, q.z);
        let wx: i64 = fx_mul(q.w, q.x);
        let wy: i64 = fx_mul(q.w, q.y);
        let wz: i64 = fx_mul(q.w, q.z);
        let r00: i64 = FX_ONE - 2 * (yy + zz);
        let r01: i64 = 2 * (xy - wz);
        let r02: i64 = 2 * (xz + wy);
        let r10: i64 = 2 * (xy + wz);
        let r11: i64 = FX_ONE - 2 * (xx + zz);
        let r12: i64 = 2 * (yz - wx);
        let r20: i64 = 2 * (xz - wy);
        let r21: i64 = 2 * (yz + wx);
        let r22: i64 = FX_ONE - 2 * (xx + yy);
        proof {
            lemma_scale_products(r00 as int, self.scale.x as int);
            lemma_scale_products(r01 as int, self.scale.x as int);
            lemma_scale_products(r02 as int, self.scale.x as int);
            lemma_scale_products(r10 as int, self.scale.y as int);
            lemma_scale_products(r11 as int, self.scale.y as int);
            lemma_scale_products(r12 as int, self.scale.y as int);
            lemma_scale_products(r20 as int, self.scale.z as int);
            lemma_scale_products(r21 as int, self.scale.z as int);
            lemma_scale_products(r22 as int, self.scale.z as int);
        }
        self.m = Mat4Fx {
            c0: Vec4Fx {
                x: fx_mul(r00, self.scale.x),
                y: fx_mul(r01, self.scale.x),
                z: fx_mul(r02, self.scale.x),
                w: 0,
            },
            c1: Vec4Fx {
                x: fx_mul(r10, self.scale.y),
                y: fx_mul(r11, self.scale.y),
                z: fx_mul(r12, self.scale.y),
                w: 0,
            },
            c2: Vec4Fx {
                x: fx_mul(r20, self.scale.z),
                y: fx_mul(r21, self.scale.z),
                z: fx_mul(r22, self.scale.z),
                w: 0,
            },
            c3: Vec4Fx { x: self.pos.x, y: self.pos.y, z: self.pos.z, w: FX_ONE },
        };
    }
}

/// A product of two unit-bounded quaternion components neither
/// overflows nor exceeds one.
proof fn lemma_unit_sq(a: int, b: int)
    requires
        iabs(a) <= FX_ONE as int,
        iabs(b) <= FX_ONE as int,
    ensures
        iabs(a * b) <= 0x7fff_ffff_ffff_ffff * 0x10000,
        iabs(fx_mul_s(a, b)) <= FX_ONE as int,
{
    lemma_fx_mul_bound(a, b, FX_ONE as int, FX_ONE as int);
    assert(((65536 * 65536) as int) / 65536 == 65536);
}

/// A rotation-matrix entry times a bounded scale neither overflows
/// the product nor the matrix-entry bound.
proof fn lemma_scale_products(e: int, s: int)
    requires
        iabs(e) <= 5 * FX_ONE as int,
        iabs(s) <= FX_LIMIT as int,
    ensures
        iabs(e * s) <= 0x7fff_ffff_ffff_ffff * 0x10000,
        iabs(fx_mul_s(e, s)) <= 5 * FX_LIMIT as int,
{
    lemma_fx_mul_bound(e, s, 5 * FX_ONE as int, FX_LIMIT as int);
    assert(((5 * 65536 * 0x80_0000_0000) as int) / 65536 == 5 * 0x80_0000_0000);
}

/// Under `is_compose`, with bounded fields, every matrix entry is
/// bounded well inside the representable range.
pub proof fn lemma_compose_entry_bounds(m: Mat4Fx, pos: Vec3Fx, rot: QuatFx, scale: Vec3Fx)
    requires
        is_compose(m, pos, rot, scale),
        pos.bounded(FX_LIMIT as int),
        scale.bounded(FX_LIMIT as int),
        rot.bounded(FX_ONE as int),
    ensures
        iabs(m.c0.x as int) <= 5 * FX_LIMIT as int,
        iabs(m.c0.y as int) <= 5 * FX_LIMIT as int,
        iabs(m.c0.z as int) <= 5 * FX_LIMIT as int,
        iabs(m.c1.x as int) <= 5 * FX_LIMIT as int,
        iabs(m.c1.y as int) <= 5 * FX_LIMIT as int,
        iabs(m.c1.z as int) <= 5 * FX_LIMIT as int,
        iabs(m.c2.x as int) <= 5 * FX_LIMIT as int,
        iabs(m.c2.y as int) <= 5 * FX_LIMIT as int,
        iabs(m.c2.z as int) <= 5 * FX_LIMIT as int,
{
    lemma_unit_sq(rot.x as int, rot.x as int);
    lemma_unit_sq(rot.y as int, rot.y as int);
    lemma_unit_sq(rot.z as int, rot.z as int);
    lemma_unit_sq(rot.x as int, rot.y as int);
    lemma_unit_sq(rot.x as int, rot.z as int);
    lemma_unit_sq(rot.y as int, rot.z as int);
    lemma_unit_sq(rot.w as int, rot.x as int);
    lemma_unit_sq(rot.w as int, rot.y as int);
    lemma_unit_sq(rot.w as int, rot.z as int);
    lemma_scale_products(rot_r00(rot), scale.x as int);
    lemma_scale_products(rot_r01(rot), scale.x as int);
    lemma_scale_products(rot_r02(rot), scale.x as int);
    lemma_scale_products(rot_r10(rot), scale.y as int);
    lemma_scale_products(rot_r11(rot), scale.y as int);
    lemma_scale_products(rot_r12(rot), scale.y as int);
    lemma_scale_products(rot_r20(rot), scale.z as int);
    lemma_scale_products(rot_r21(rot), scale.z as int);
    lemma_scale_products(rot_r22(rot), scale.z as int);
}

/// A well-formed transform never carries a stale matrix: the cached
/// matrix is exactly the composition of position, rotation and scale.
pub proof fn lemma_matrix_never_stale(t: Transform)
    requires
        t.wf(),
    ensures
        is_compose(t.m, t.pos, t.rot, t.scale),
{
}

} // verus!
