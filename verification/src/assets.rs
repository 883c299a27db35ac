//! The asset cache: four generational handle tables. Meshes, shaders
//! and textures deduplicate by a string key (the same key always comes
//! back as the same handle); materials deliberately do not, so every
//! material insertion allocates a fresh entry.

use crate::arena::{Arena, Handle};
use crate::materials::Material;
use vstd::prelude::*;

verus! {

pub type MeshHandle = Handle;

pub type ShaderHandle = Handle;

pub type TextureHandle = Handle;

pub type MaterialHandle = Handle;

/// What a cached texture is, as the scene logic sees it.
#[derive(Clone, PartialEq, Eq, Debug)]
pub enum TextureAsset {
    /// A two-dimensional texture decoded from the file behind `key`.
    File2d { key: String },
    /// A cube texture decoded from the file behind `key`.
    FileCube { key: String },
    /// An offscreen color attachment of the given pixel size.
    Attachment { width: u32, height: u32 },
    /// An offscreen depth attachment of the given pixel size.
    Depth { width: u32, height: u32 },
}

/// A shader module, identified by its source file.
#[derive(Clone, PartialEq, Eq, Debug)]
pub enum ShaderAsset {
    File { key: String },
}

/// What a cached mesh is: a named prefab or a file-loaded model.
#[derive(Clone, PartialEq, Eq, Debug)]
pub enum MeshAsset {
    /// A unit quad in the plane.
    Quad,
    /// Three axis guides.
    Basis,
    /// Geometry loaded from the file behind `key`.
    File { key: String },
}

/// Some entry of the key map carries this key.
pub open spec fn has_key(keys: Seq<(String, Handle)>, k: Seq<char>) -> bool {
    exists|i: int| 0 <= i < keys.len() && #[trigger] keys[i].0@ == k
}

/// The handle the key map assigns to a key it carries.
pub open spec fn key_handle(keys: Seq<(String, Handle)>, k: Seq<char>) -> Handle
    recommends
        has_key(keys, k),
{
    keys[choose|i: int| 0 <= i < keys.len() && #[trigger] keys[i].0@ == k].1
}

/// Keys are pairwise distinct, their handles are pairwise distinct,
/// and every mapped handle is live in the table it indexes.
pub open spec fn keys_wf<T>(keys: Seq<(String, Handle)>, arena: Arena<T>) -> bool {
    &&& forall|i: int, j: int|
        0 <= i < j < keys.len() ==> keys[i].0@ != keys[j].0@ && keys[i].1 != keys[j].1
    &&& forall|i: int| 0 <= i < keys.len() ==> arena.valid(#[trigger] keys[i].1)
}

/// With distinct keys, an entry that matches a key is the entry the
/// map assigns to it.
pub proof fn lemma_key_handle_at<T>(keys: Seq<(String, Handle)>, arena: Arena<T>, k: Seq<char>, i: int)
    requires
        keys_wf(keys, arena),
        0 <= i < keys.len(),
        keys[i].0@ == k,
    ensures
        has_key(keys, k),
        key_handle(keys, k) == keys[i].1,
{
    let c = choose|j: int| 0 <= j < keys.len() && #[trigger] keys[j].0@ == k;
    if c < i {
        assert(keys[c].0@ != keys[i].0@);
    } else if i < c {
        assert(keys[i].0@ != keys[c].0@);
    }
}

/// Distinct keys are never assigned the same handle.
pub proof fn lemma_distinct_keys_distinct_handles<T>(
    keys: Seq<(String, Handle)>,
    arena: Arena<T>,
    k1: Seq<char>,
    k2: Seq<char>,
)
    requires
        keys_wf(keys, arena),
        has_key(keys, k1),
        has_key(keys, k2),
        k1 != k2,
    ensures
        key_handle(keys, k1) != key_handle(keys, k2),
{
    let i1 = choose|i: int| 0 <= i < keys.len() && #[trigger] keys[i].0@ == k1;
    let i2 = choose|i: int| 0 <= i < keys.len() && #[trigger] keys[i].0@ == k2;
    assert(keys[i1].0@ == k1 && keys[i2].0@ == k2);
    if i1 < i2 {
        assert(keys[i1].1 != keys[i2].1);
    } else {
        assert(i2 < i1);
        assert(keys[i2].1 != keys[i1].1);
    }
}

/// Growth of the cache composes.
pub proof fn lemma_extends_transitive(a: Assets, b: Assets, c: Assets)
    requires
        a.extends(b),
        b.extends(c),
    ensures
        a.extends(c),
{
}

/// A key map that only grew keeps every key bound to the same handle.
pub proof fn lemma_key_handle_stable<A, B>(
    ka: Seq<(String, Handle)>,
    arena_a: Arena<A>,
    kb: Seq<(String, Handle)>,
    arena_b: Arena<B>,
    k: Seq<char>,
)
    requires
        keys_wf(ka, arena_a),
        keys_wf(kb, arena_b),
        ka.len() <= kb.len(),
        forall|i: int| 0 <= i < ka.len() ==> kb[i] == ka[i],
        has_key(ka, k),
    ensures
        has_key(kb, k),
        key_handle(kb, k) == key_handle(ka, k),
{
    let i = choose|i: int| 0 <= i < ka.len() && #[trigger] ka[i].0@ == k;
    lemma_key_handle_at(ka, arena_a, k, i);
    assert(kb[i].0@ == k);
    lemma_key_handle_at(kb, arena_b, k, i);
}

/// Find a key's handle, or store the given value under a fresh one.
fn get_or_create<T>(arena: &mut Arena<T>, keys: &mut Vec<(String, Handle)>, key: &str, value: T) -> (h:
    Handle)
    requires
        old(arena).wf(),
        keys_wf(old(keys)@, *old(arena)),
    ensures
        final(arena).wf(),
        keys_wf(final(keys)@, *final(arena)),
        final(arena).valid(h),
        has_key(final(keys)@, key@),
        key_handle(final(keys)@, key@) == h,
        forall|h2: Handle|
            old(arena).valid(h2) ==> final(arena).valid(h2) && final(arena).value_of(h2) == old(
                arena,
            ).value_of(h2),
        has_key(old(keys)@, key@) ==> h == key_handle(old(keys)@, key@) && *final(arena) == *old(
            arena,
        ) && *final(keys) == *old(keys),
        !has_key(old(keys)@, key@) ==> {
            &&& !old(arena).valid(h)
            &&& final(arena).value_of(h) == value
            &&& old(arena).others_unchanged(*final(arena), h)
            &&& forall|h2: Handle| final(arena).valid(h2) ==> old(arena).valid(h2) || h2 == h
            &&& final(keys)@.len() == old(keys)@.len() + 1
            &&& final(keys)@[old(keys)@.len() as int].0@ == key@
            &&& final(keys)@[old(keys)@.len() as int].1 == h
            &&& forall|i: int| 0 <= i < old(keys)@.len() ==> final(keys)@[i] == old(keys)@[i]
        },
{
    let owned: String = key.to_owned();
    let n: usize = keys.len();
    let mut i: usize = 0;
    while i < n
        invariant
            n == keys@.len(),
            i <= n,
            *keys == *old(keys),
            *arena == *old(arena),
            owned@ == key@,
            arena.wf(),
            keys_wf(keys@, *arena),
            forall|j: int| 0 <= j < i ==> keys@[j].0@ != key@,
        decreases n - i,
    {
        if keys[i].0 == owned {
            proof {
                lemma_key_handle_at(keys@, *arena, key@, i as int);
            }
            return keys[i].1;
        }
        i += 1;
    }
    assert(!has_key(keys@, key@));
    let h = arena.insert(value);
    keys.push((owned, h));
    proof {
        assert(keys@[old(keys)@.len() as int].0@ == key@);
        assert forall|a: int, b: int| 0 <= a < b < keys@.len() implies keys@[a].0@ != keys@[b].0@
            && keys@[a].1 != keys@[b].1 by {
            if b == keys@.len() - 1 {
                assert(old(arena).valid(keys@[a].1));
            }
        }
        assert forall|a: int| 0 <= a < keys@.len() implies arena.valid(#[trigger] keys@[a].1) by {
            if a < keys@.len() - 1 {
                assert(old(arena).valid(keys@[a].1));
            }
        }
        lemma_key_handle_at(keys@, *arena, key@, keys@.len() - 1);
    }
    h
}

/// Relies on `ulid::Ulid::new` and its canonical text form: a fresh
/// 26-character identifier drawn from the clock and randomness;
/// nothing is assumed about which identifier comes back.
#[verifier::external_body]
fn fresh_random_key() -> (r: String)
    ensures
        r@.len() == 26,
{
    ulid::Ulid::new().to_string()
}

/// The deduplicating handle tables for meshes, shaders and textures,
/// and the non-deduplicating material table.
pub struct Assets {
    pub meshes: Arena<MeshAsset>,
    pub mesh_keys: Vec<(String, Handle)>,
    pub shaders: Arena<ShaderAsset>,
    pub shader_keys: Vec<(String, Handle)>,
    pub textures: Arena<TextureAsset>,
    pub texture_keys: Vec<(String, Handle)>,
    pub materials: Arena<Material>,
}

impl Assets {
    pub open spec fn wf(self) -> bool {
        &&& self.meshes.wf()
        &&& self.shaders.wf()
        &&& self.textures.wf()
        &&& self.materials.wf()
        &&& keys_wf(self.mesh_keys@, self.meshes)
        &&& keys_wf(self.shader_keys@, self.shaders)
        &&& keys_wf(self.texture_keys@, self.textures)
    }

    /// Every asset live before is still live, with the same value, and
    /// every key keeps its handle. Only materials may disappear.
    pub open spec fn extends(self, later: Assets) -> bool {
        &&& forall|h: Handle|
            self.meshes.valid(h) ==> later.meshes.valid(h) && later.meshes.value_of(h)
                == self.meshes.value_of(h)
        &&& forall|h: Handle|
            self.shaders.valid(h) ==> later.shaders.valid(h) && later.shaders.value_of(h)
                == self.shaders.value_of(h)
        &&& forall|h: Handle|
            self.textures.valid(h) ==> later.textures.valid(h) && later.textures.value_of(h)
                == self.textures.value_of(h)
        &&& self.mesh_keys@.len() <= later.mesh_keys@.len()
        &&& forall|i: int| 0 <= i < self.mesh_keys@.len() ==> later.mesh_keys@[i] == self.mesh_keys@[i]
        &&& self.shader_keys@.len() <= later.shader_keys@.len()
        &&& forall|i: int|
            0 <= i < self.shader_keys@.len() ==> later.shader_keys@[i] == self.shader_keys@[i]
        &&& self.texture_keys@.len() <= later.texture_keys@.len()
        &&& forall|i: int|
            0 <= i < self.texture_keys@.len() ==> later.texture_keys@[i] == self.texture_keys@[i]
    }

    pub fn new() -> (r: Assets)
        ensures
            r.wf(),
            r.mesh_keys@.len() == 0,
            r.shader_keys@.len() == 0,
            r.texture_keys@.len() == 0,
            forall|h: Handle| !r.meshes.valid(h) && !r.shaders.valid(h),
            forall|h: Handle| !r.textures.valid(h) && !r.materials.valid(h),
    {
        Assets {
            meshes: Arena::new(),
            mesh_keys: Vec::new(),
            shaders: Arena::new(),
            shader_keys: Vec::new(),
            textures: Arena::new(),
            texture_keys: Vec::new(),
            materials: Arena::new(),
        }
    }

    /// Get-or-create a shader by its source path: the same path always
    /// yields the same handle.
    pub fn add_shader_from_file(&mut self, path: &str) -> (h: ShaderHandle)
        requires
            old(self).wf(),
        ensures
            final(self).wf(),
            old(self).extends(*final(self)),
            final(self).shaders.valid(h),
            has_key(final(self).shader_keys@, path@),
            key_handle(final(self).shader_keys@, path@) == h,
            has_key(old(self).shader_keys@, path@) ==> h == key_handle(
                old(self).shader_keys@,
                path@,
            ) && *final(self) == *old(self),
            !has_key(old(self).shader_keys@, path@) ==> !old(self).shaders.valid(h) && (
            final(self).shaders.value_of(h) matches ShaderAsset::File { key } && key@ == path@)
                && final(self).shader_keys@.len() == old(self).shader_keys@.len() + 1,
            final(self).meshes == old(self).meshes,
            final(self).textures == old(self).textures,
            final(self).materials == old(self).materials,
            final(self).mesh_keys == old(self).mesh_keys,
            final(self).texture_keys == old(self).texture_keys,
    {
        let value = ShaderAsset::File { key: path.to_owned() };
        get_or_create(&mut self.shaders, &mut self.shader_keys, path, value)
    }

    /// Look a shader up; a stale or foreign handle is a caller error.
    pub fn shader(&self, handle: ShaderHandle) -> (r: &ShaderAsset)
        requires
            self.wf(),
            self.shaders.valid(handle),
        ensures
            *r == self.shaders.value_of(handle),
    {
        let got = self.shaders.get(handle);
        got.unwrap()
    }

    /// Get-or-create a mesh loaded from a file path.
    pub fn add_mesh_from_file(&mut self, path: &str) -> (h: MeshHandle)
        requires
            old(self).wf(),
        ensures
            final(self).wf(),
            old(self).extends(*final(self)),
            final(self).meshes.valid(h),
            has_key(final(self).mesh_keys@, path@),
            key_handle(final(self).mesh_keys@, path@) == h,
            has_key(old(self).mesh_keys@, path@) ==> h == key_handle(old(self).mesh_keys@, path@)
                && *final(self) == *old(self),
            !has_key(old(self).mesh_keys@, path@) ==> !old(self).meshes.valid(h) && (
            final(self).meshes.value_of(h) matches MeshAsset::File { key } && key@ == path@)
                && final(self).mesh_keys@.len() == old(self).mesh_keys@.len() + 1,
            final(self).shaders == old(self).shaders,
            final(self).textures == old(self).textures,
            final(self).materials == old(self).materials,
            final(self).shader_keys == old(self).shader_keys,
            final(self).texture_keys == old(self).texture_keys,
    {
        let value = MeshAsset::File { key: path.to_owned() };
        get_or_create(&mut self.meshes, &mut self.mesh_keys, path, value)
    }

    /// Store a mesh under a key (get-or-create), or, without a key,
    /// under a freshly drawn random identifier. In the latter case the
    /// value is stored anew unless the random identifier happens to
    /// collide with a key already present.
    pub fn add_mesh(&mut self, mesh: MeshAsset, key: Option<&str>) -> (h: MeshHandle)
        requires
            old(self).wf(),
        ensures
            final(self).wf(),
            old(self).extends(*final(self)),
            final(self).meshes.valid(h),
            (match key {
                Some(k) => {
                    &&& has_key(final(self).mesh_keys@, k@)
                    &&& key_handle(final(self).mesh_keys@, k@) == h
                    &&& has_key(old(self).mesh_keys@, k@) ==> h == key_handle(
                        old(self).mesh_keys@,
                        k@,
                    ) && *final(self) == *old(self)
                    &&& !has_key(old(self).mesh_keys@, k@) ==> !old(self).meshes.valid(h)
                        && final(self).meshes.value_of(h) == mesh
                },
                None => (!old(self).meshes.valid(h) && final(self).meshes.value_of(h) == mesh)
                    || old(self).meshes.valid(h),
            }),
            final(self).shaders == old(self).shaders,
            final(self).textures == old(self).textures,
            final(self).materials == old(self).materials,
            final(self).shader_keys == old(self).shader_keys,
            final(self).texture_keys == old(self).texture_keys,
    {
        match key {
            Some(k) => get_or_create(&mut self.meshes, &mut self.mesh_keys, k, mesh),
            None => {
                let k = fresh_random_key();
                get_or_create(&mut self.meshes, &mut self.mesh_keys, k.as_str(), mesh)
            },
        }
    }

    /// Look a mesh up; a stale or foreign handle is a caller error.
    pub fn mesh(&self, handle: MeshHandle) -> (r: &MeshAsset)
        requires
            self.wf(),
            self.meshes.valid(handle),
        ensures
            *r == self.meshes.value_of(handle),
    {
        let got = self.meshes.get(handle);
        got.unwrap()
    }

    /// Get-or-create a two-dimensional texture by its file path.
    pub fn add_2d_texture_from_file(&mut self, path: &str) -> (h: TextureHandle)
        requires
            old(self).wf(),
        ensures
            final(self).wf(),
            old(self).extends(*final(self)),
            final(self).textures.valid(h),
            has_key(final(self).texture_keys@, path@),
            key_handle(final(self).texture_keys@, path@) == h,
            has_key(old(self).texture_keys@, path@) ==> h == key_handle(
                old(self).texture_keys@,
                path@,
            ) && *final(self) == *old(self),
            !has_key(old(self).texture_keys@, path@) ==> !old(self).textures.valid(h) && (
            final(self).textures.value_of(h) matches TextureAsset::File2d { key } && key@ == path@)
                && final(self).texture_keys@.len() == old(self).texture_keys@.len() + 1,
            final(self).meshes == old(self).meshes,
            final(self).shaders == old(self).shaders,
            final(self).materials == old(self).materials,
            final(self).mesh_keys == old(self).mesh_keys,
            final(self).shader_keys == old(self).shader_keys,
    {
        let value = TextureAsset::File2d { key: path.to_owned() };
        get_or_create(&mut self.textures, &mut self.texture_keys, path, value)
    }

    /// Get-or-create a cube texture by its file path.
    pub fn add_cube_texture_from_file(&mut self, path: &str) -> (h: TextureHandle)
        requires
            old(self).wf(),
        ensures
            final(self).wf(),
            old(self).extends(*final(self)),
            final(self).textures.valid(h),
            has_key(final(self).texture_keys@, path@),
            key_handle(final(self).texture_keys@, path@) == h,
            has_key(old(self).texture_keys@, path@) ==> h == key_handle(
                old(self).texture_keys@,
                path@,
            ) && *final(self) == *old(self),
            !has_key(old(self).texture_keys@, path@) ==> !old(self).textures.valid(h) && (
            final(self).textures.value_of(h) matches TextureAsset::FileCube { key } && key@
                == path@) && final(self).texture_keys@.len() == old(self).texture_keys@.len() + 1,
            final(self).meshes == old(self).meshes,
            final(self).shaders == old(self).shaders,
            final(self).materials == old(self).materials,
            final(self).mesh_keys == old(self).mesh_keys,
            final(self).shader_keys == old(self).shader_keys,
    {
        let value = TextureAsset::FileCube { key: path.to_owned() };
        get_or_create(&mut self.textures, &mut self.texture_keys, path, value)
    }

    /// Store an offscreen texture (a render-target attachment) without
    /// a key: target textures are never deduplicated.
    pub fn add_texture(&mut self, value: TextureAsset) -> (h: TextureHandle)
        requires
            old(self).wf(),
        ensures
            final(self).wf(),
            old(self).extends(*final(self)),
            !old(self).textures.valid(h),
            final(self).textures.valid(h),
            final(self).textures.value_of(h) == value,
            final(self).texture_keys == old(self).texture_keys,
            final(self).meshes == old(self).meshes,
            final(self).shaders == old(self).shaders,
            final(self).materials == old(self).materials,
            final(self).mesh_keys == old(self).mesh_keys,
            final(self).shader_keys == old(self).shader_keys,
    {
        let h = self.textures.insert(value);
        h
    }

    /// Look a texture up; a stale or foreign handle is a caller error.
    pub fn texture(&self, handle: TextureHandle) -> (r: &TextureAsset)
        requires
            self.wf(),
            self.textures.valid(handle),
        ensures
            *r == self.textures.value_of(handle),
    {
        let got = self.textures.get(handle);
        got.unwrap()
    }

    /// Store a material. Materials never deduplicate: every call
    /// allocates a fresh handle, even for an identical value.
    pub fn add_material(&mut self, material: Material) -> (h: MaterialHandle)
        requires
            old(self).wf(),
        ensures
            final(self).wf(),
            old(self).extends(*final(self)),
            !old(self).materials.valid(h),
            final(self).materials.valid(h),
            final(self).materials.value_of(h) == material,
            old(self).materials.others_unchanged(final(self).materials, h),
            forall|h2: Handle|
                final(self).materials.valid(h2) ==> old(self).materials.valid(h2) || h2 == h,
            forall|h2: Handle|
                old(self).materials.valid(h2) ==> final(self).materials.valid(h2)
                    && final(self).materials.value_of(h2) == old(self).materials.value_of(h2),
            h.generation == final(self).materials.slots@[h.index as int].generation,
            final(self).materials.slots@.len() >= old(self).materials.slots@.len(),
            forall|j: int|
                0 <= j < old(self).materials.slots@.len() ==> (#[trigger] final(self).materials.slots@[j]).generation == old(self).materials.slots@[j].generation,
            final(self).meshes == old(self).meshes,
            final(self).shaders == old(self).shaders,
            final(self).textures == old(self).textures,
            final(self).mesh_keys == old(self).mesh_keys,
            final(self).shader_keys == old(self).shader_keys,
            final(self).texture_keys == old(self).texture_keys,
    {
        let h = self.materials.insert(material);
        h
    }

    /// Release a material; its handle goes stale for good.
    pub fn remove_material(&mut self, handle: MaterialHandle)
        requires
            old(self).wf(),
        ensures
            final(self).wf(),
            old(self).extends(*final(self)),
            !final(self).materials.valid(handle),
            old(self).materials.others_unchanged(final(self).materials, handle),
            forall|h2: Handle| final(self).materials.valid(h2) ==> old(self).materials.valid(h2),
            forall|h2: Handle|
                h2 != handle && old(self).materials.valid(h2) ==> final(self).materials.valid(h2)
                    && final(self).materials.value_of(h2) == old(self).materials.value_of(h2),
            old(self).materials.valid(handle) ==> final(self).materials.slots@[handle.index as int].generation
                == handle.generation + 1,
            final(self).materials.slots@.len() == old(self).materials.slots@.len(),
            final(self).meshes == old(self).meshes,
            final(self).shaders == old(self).shaders,
            final(self).textures == old(self).textures,
            final(self).mesh_keys == old(self).mesh_keys,
            final(self).shader_keys == old(self).shader_keys,
            final(self).texture_keys == old(self).texture_keys,
    {
        let taken = self.materials.remove(handle);
    }

    /// Look a material up; a stale or foreign handle is a caller error.
    pub fn material(&self, handle: MaterialHandle) -> (r: &Material)
        requires
            self.wf(),
            self.materials.valid(handle),
        ensures
            *r == self.materials.value_of(handle),
    {
        let got = self.materials.get(handle);
        got.unwrap()
    }
}

} // verus!
