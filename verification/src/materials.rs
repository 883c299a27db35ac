//! Scene materials: a closed sum of variants, each holding the cached
//! shader and texture handles it draws with. Constructors get-or-create
//! their shader (and any file texture) through the asset cache, so two
//! materials built from the same sources share those entries.

use crate::assets::{has_key, key_handle, Assets, ShaderHandle, TextureHandle};
use crate::fx::Vec3Fx;
use vstd::prelude::*;

verus! {

/// A material is one of four kinds; the kind picks the shader and the
/// per-variant data.
#[derive(Clone, Copy, PartialEq, Eq, Structural, Debug)]
pub enum Material {
    /// A flat color, optionally drawn as wireframe.
    Color { shader: ShaderHandle, color: Vec3Fx, wireframe: bool },
    /// A two-dimensional texture.
    Textured { shader: ShaderHandle, texture: TextureHandle },
    /// A cube texture drawn behind everything.
    Skybox { shader: ShaderHandle, texture: TextureHandle },
    /// A full-screen pass sampling an offscreen color attachment.
    PostProcess { shader: ShaderHandle, texture: TextureHandle },
}

/// A standalone flat-color material around an already-cached shader:
/// the caller picks the shader module, unlike `Material::color`,
/// which get-or-creates the stock color shader itself.
#[derive(Clone, Copy, PartialEq, Eq, Structural, Debug)]
pub struct ColorMaterial {
    pub shader: ShaderHandle,
    pub color: Vec3Fx,
    pub wireframe: bool,
}

impl ColorMaterial {
    pub fn new(shader: ShaderHandle, color: Vec3Fx, wireframe: bool) -> (r: ColorMaterial)
        ensures
            r == (ColorMaterial { shader, color, wireframe }),
    {
        ColorMaterial { shader, color, wireframe }
    }
}

impl Material {
    /// Build a textured material: its shader and texture are
    /// get-or-created, so repeated builds share cache entries.
    pub fn textured(assets: &mut Assets, tex_path: &str) -> (m: Material)
        requires
            old(assets).wf(),
        ensures
            final(assets).wf(),
            old(assets).extends(*final(assets)),
            (m matches Material::Textured { shader, texture } && {
                &&& final(assets).shaders.valid(shader)
                &&& has_key(final(assets).shader_keys@, "textured.wgsl"@)
                &&& shader == key_handle(final(assets).shader_keys@, "textured.wgsl"@)
                &&& final(assets).textures.valid(texture)
                &&& has_key(final(assets).texture_keys@, tex_path@)
                &&& texture == key_handle(final(assets).texture_keys@, tex_path@)
            }),
            final(assets).materials == old(assets).materials,
            final(assets).meshes == old(assets).meshes,
            final(assets).mesh_keys == old(assets).mesh_keys,
    {
        let shader = assets.add_shader_from_file("textured.wgsl");
        let texture = assets.add_2d_texture_from_file(tex_path);
        Material::Textured { shader, texture }
    }

    /// Build a flat-color material.
    pub fn color(assets: &mut Assets, color: Vec3Fx, wireframe: bool) -> (m: Material)
        requires
            old(assets).wf(),
        ensures
            final(assets).wf(),
            old(assets).extends(*final(assets)),
            (m matches Material::Color { shader, color: c, wireframe: w } && {
                &&& final(assets).shaders.valid(shader)
                &&& has_key(final(assets).shader_keys@, "color.wgsl"@)
                &&& shader == key_handle(final(assets).shader_keys@, "color.wgsl"@)
                &&& c == color
                &&& w == wireframe
            }),
            final(assets).materials == old(assets).materials,
            final(assets).meshes == old(assets).meshes,
            final(assets).mesh_keys == old(assets).mesh_keys,
            final(assets).textures == old(assets).textures,
            final(assets).texture_keys == old(assets).texture_keys,
    {
        let shader = assets.add_shader_from_file("color.wgsl");
        Material::Color { shader, color, wireframe }
    }

    /// Build a skybox material around a cube texture.
    pub fn skybox(assets: &mut Assets, tex_path: &str) -> (m: Material)
        requires
            old(assets).wf(),
        ensures
            final(assets).wf(),
            old(assets).extends(*final(assets)),
            (m matches Material::Skybox { shader, texture } && {
                &&& final(assets).shaders.valid(shader)
                &&& has_key(final(assets).shader_keys@, "skybox.wgsl"@)
                &&& shader == key_handle(final(assets).shader_keys@, "skybox.wgsl"@)
                &&& final(assets).textures.valid(texture)
                &&& has_key(final(assets).texture_keys@, tex_path@)
                &&& texture == key_handle(final(assets).texture_keys@, tex_path@)
            }),
            final(assets).materials == old(assets).materials,
            final(assets).meshes == old(assets).meshes,
            final(assets).mesh_keys == old(assets).mesh_keys,
    {
        let shader = assets.add_shader_from_file("skybox.wgsl");
        let texture = assets.add_cube_texture_from_file(tex_path);
        Material::Skybox { shader, texture }
    }

    /// Build the post-process material around a source texture that is
    /// already in the cache: the current color attachment of the pass
    /// it samples.
    pub fn post_process(assets: &mut Assets, src_texture: TextureHandle) -> (m: Material)
        requires
            old(assets).wf(),
            old(assets).textures.valid(src_texture),
        ensures
            final(assets).wf(),
            old(assets).extends(*final(assets)),
            (m matches Material::PostProcess { shader, texture } && {
                &&& final(assets).shaders.valid(shader)
                &&& has_key(final(assets).shader_keys@, "post-process.wgsl"@)
                &&& shader == key_handle(final(assets).shader_keys@, "post-process.wgsl"@)
                &&& texture == src_texture
            }),
            final(assets).materials == old(assets).materials,
            final(assets).meshes == old(assets).meshes,
            final(assets).mesh_keys == old(assets).mesh_keys,
            final(assets).textures == old(assets).textures,
            final(assets).texture_keys == old(assets).texture_keys,
    {
        let shader = assets.add_shader_from_file("post-process.wgsl");
        Material::PostProcess { shader, texture: src_texture }
    }
}

} // verus!
