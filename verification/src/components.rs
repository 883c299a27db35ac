//! Plain components: render tags and order, mesh and material
//! references, the marker components, and the rigid-body link.

use crate::assets::{MaterialHandle, MeshHandle};
use crate::fx::Vec3Fx;
use crate::physics::BodyHandle;
use vstd::prelude::*;

verus! {

/// The normal scene layer: the tag a drawable advertises by default
/// and the mask a camera carries by default.
pub const RENDER_TAG_SCENE: u32 = 0b00000000;

/// The post-process layer.
pub const RENDER_TAG_POST_PROCESS: u32 = 0b00000001;

/// A layer no default camera draws.
pub const RENDER_TAG_HIDDEN: u32 = 0b00000010;

/// The layer mask an entity advertises.
#[derive(Clone, Copy, PartialEq, Eq, Structural, Debug)]
pub struct RenderTags(pub u32);

/// Signed draw/evaluation order; lower runs first, absent means zero.
#[derive(Clone, Copy, PartialEq, Eq, Structural, Debug)]
pub struct RenderOrder(pub i32);

/// A reference into the asset cache's mesh table.
#[derive(Clone, Copy, PartialEq, Eq, Structural, Debug)]
pub struct Mesh(pub MeshHandle);

/// Up to four material handles; the slot index is the draw sub-pass
/// order within one drawable.
#[derive(Clone, Copy, Debug)]
pub struct Materials(pub [Option<MaterialHandle>; 4]);

impl Materials {
    pub fn single(handle: MaterialHandle) -> (r: Materials)
        ensures
            r.0@ == seq![Some(handle), None, None, None],
    {
        let r = Materials([Some(handle), None, None, None]);
        proof {
            assert(r.0@ =~= seq![Some(handle), None, None, None]);
        }
        r
    }
}

/// Marks the entity that visualizes the player's focus point.
#[derive(Clone, Copy, Debug)]
pub struct PlayerFocusMarker;

/// Marks the post-process quad entity.
#[derive(Clone, Copy, Debug)]
pub struct PostProcess;

/// The inputs a cuboid body is built from.
#[derive(Clone, Copy, PartialEq, Eq, Structural, Debug)]
pub struct RigidBodyParams {
    pub pos: Vec3Fx,
    pub rotation: Vec3Fx,
    pub scale: Vec3Fx,
    pub movable: bool,
}

/// The component linking an entity to its simulated body.
#[derive(Clone, Copy, PartialEq, Eq, Structural, Debug)]
pub struct RigidBody {
    pub handle: BodyHandle,
    pub movable: bool,
}

impl RigidBody {
    pub fn handle(&self) -> (r: BodyHandle)
        ensures
            r == self.handle,
    {
        self.handle
    }
}

} // verus!
