//! Core of a per-frame 3D scene orchestrator: an entity-component world,
//! a deduplicating asset cache with generational handles, a fixed-point
//! transform component with a cached world matrix, player-controller
//! decision logic, and a camera composition pass that filters by render
//! tag and orders by render order.
//!
//! All geometry is carried in 16.16 fixed-point scalars so that every
//! computation here is exact; the collaborators that genuinely need
//! floating point (the GPU layer, the rigid-body solver, trigonometry
//! for look rotations) run outside the library and exchange plain
//! fixed-point values with it.

pub mod arena;
pub mod assets;
pub mod camera;
pub mod components;
pub mod fx;
pub mod materials;
pub mod physics;
pub mod player;
pub mod render;
pub mod scene;
pub mod scene_config;
pub mod transform;
pub mod world;

pub use arena::{Arena, Handle};
pub use assets::{
    Assets, MaterialHandle, MeshAsset, MeshHandle, ShaderAsset, ShaderHandle, TextureAsset,
    TextureHandle,
};
pub use camera::{Camera, RenderTarget};
pub use components::{
    Materials, Mesh, PlayerFocusMarker, PostProcess, RenderOrder, RenderTags, RigidBody,
    RigidBodyParams, RENDER_TAG_HIDDEN, RENDER_TAG_POST_PROCESS, RENDER_TAG_SCENE,
};
pub use materials::{ColorMaterial, Material};
pub use physics::{
    Body, BodyHandle, Collider, ColliderHandle, ColliderShape, Physics, RayCastResult,
};
pub use player::{MovementInput, Player, PlayerFocus, Ray};
pub use render::{compose_frame, DrawBundle, PassSubmission};
pub use scene::{FramePhase, Scene};
pub use scene_config::{
    BodyCfg, CfgError, ColliderShapeCfg, ComponentCfg, MaterialCfg, MeshCfg, MeshPrefabCfg,
    NodeCfg, SceneCfg,
};
pub use world::{Entity, World};

pub use fx::{Fx, QuatFx, Vec3Fx, FX_LIMIT, FX_ONE};
pub use transform::{Mat4Fx, Transform, TransformSpace, Vec4Fx};

use vstd::prelude::*;

verus! {

} // verus!
