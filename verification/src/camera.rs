//! The camera component: an aspect ratio (kept as an exact pixel
//! pair), a render-tag visibility mask, and an optional offscreen
//! render target.

use crate::assets::{Assets, TextureAsset, TextureHandle};
use vstd::prelude::*;

verus! {

/// An offscreen color+depth texture pair a camera can render into.
#[derive(Clone, Copy, PartialEq, Eq, Structural, Debug)]
pub struct RenderTarget {
    pub color_texture: TextureHandle,
    pub depth_texture: TextureHandle,
    pub width: u32,
    pub height: u32,
}

impl RenderTarget {
    /// Allocate a fresh color and depth attachment of the given size.
    pub fn new(assets: &mut Assets, width: u32, height: u32) -> (r: RenderTarget)
        requires
            old(assets).wf(),
        ensures
            final(assets).wf(),
            old(assets).extends(*final(assets)),
            r.width == width,
            r.height == height,
            final(assets).textures.valid(r.color_texture),
            final(assets).textures.value_of(r.color_texture) == (TextureAsset::Attachment {
                width,
                height,
            }),
            final(assets).textures.valid(r.depth_texture),
            final(assets).textures.value_of(r.depth_texture) == (TextureAsset::Depth {
                width,
                height,
            }),
            !old(assets).textures.valid(r.color_texture),
            !old(assets).textures.valid(r.depth_texture),
            r.color_texture != r.depth_texture,
            final(assets).materials == old(assets).materials,
            final(assets).meshes == old(assets).meshes,
            final(assets).shaders == old(assets).shaders,
    {
        let color_texture = assets.add_texture(TextureAsset::Attachment { width, height });
        let depth_texture = assets.add_texture(TextureAsset::Depth { width, height });
        RenderTarget { color_texture, depth_texture, width, height }
    }

    /// Re-allocate both attachments at a new size; the old texture
    /// handles keep their entries but the target no longer uses them.
    pub fn resize(&mut self, assets: &mut Assets, width: u32, height: u32)
        requires
            old(assets).wf(),
        ensures
            final(assets).wf(),
            old(assets).extends(*final(assets)),
            final(self).width == width,
            final(self).height == height,
            final(assets).textures.valid(final(self).color_texture),
            final(assets).textures.value_of(final(self).color_texture)
                == (TextureAsset::Attachment { width, height }),
            final(assets).textures.valid(final(self).depth_texture),
            final(assets).textures.value_of(final(self).depth_texture) == (TextureAsset::Depth {
                width,
                height,
            }),
            !old(assets).textures.valid(final(self).color_texture),
            final(assets).materials == old(assets).materials,
            final(assets).meshes == old(assets).meshes,
            final(assets).shaders == old(assets).shaders,
    {
        let fresh = RenderTarget::new(assets, width, height);
        *self = fresh;
    }

    pub fn color_texture(&self) -> (r: TextureHandle)
        ensures
            r == self.color_texture,
    {
        self.color_texture
    }

    pub fn depth_texture(&self) -> (r: TextureHandle)
        ensures
            r == self.depth_texture,
    {
        self.depth_texture
    }
}

/// A camera: pixel aspect (width and height kept exactly), the single
/// render-tag layer it draws, and an optional offscreen target.
#[derive(Clone, Copy, PartialEq, Eq, Structural, Debug)]
pub struct Camera {
    pub aspect_w: u32,
    pub aspect_h: u32,
    pub tags: u32,
    pub target: Option<RenderTarget>,
}

impl Camera {
    pub fn new(aspect_w: u32, aspect_h: u32, tags: u32, target: Option<RenderTarget>) -> (r: Camera)
        ensures
            r == (Camera { aspect_w, aspect_h, tags, target }),
    {
        Camera { aspect_w, aspect_h, tags, target }
    }

    /// The visibility predicate: a camera draws exactly the entities
    /// whose tag equals its own mask.
    pub open spec fn should_render_s(self, tag: u32) -> bool {
        tag == self.tags
    }

    pub fn should_render(&self, tag: u32) -> (r: bool)
        ensures
            r == self.should_render_s(tag),
    {
        tag == self.tags
    }

    pub fn set_aspect(&mut self, aspect_w: u32, aspect_h: u32)
        ensures
            final(self).aspect_w == aspect_w,
            final(self).aspect_h == aspect_h,
            final(self).tags == old(self).tags,
            final(self).target == old(self).target,
    {
        self.aspect_w = aspect_w;
        self.aspect_h = aspect_h;
    }

    pub fn target(&self) -> (r: Option<RenderTarget>)
        ensures
            r == self.target,
    {
        self.target
    }
}

} // verus!
