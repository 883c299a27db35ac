use scene_core::arena::Arena;
use scene_core::assets::Assets;
use scene_core::fx::{Vec3Fx, FX_ONE};
use scene_core::materials::Material;

#[test]
fn same_key_returns_identical_handle() {
    let mut a = Assets::new();
    let h1 = a.add_shader_from_file("color.wgsl");
    let h2 = a.add_shader_from_file("color.wgsl");
    assert_eq!(h1, h2);

    let m1 = a.add_mesh_from_file("cube.obj");
    let m2 = a.add_mesh_from_file("cube.obj");
    assert_eq!(m1, m2);

    let t1 = a.add_2d_texture_from_file("crate.png");
    let t2 = a.add_2d_texture_from_file("crate.png");
    assert_eq!(t1, t2);
}

#[test]
fn distinct_keys_yield_distinct_handles() {
    let mut a = Assets::new();
    let h1 = a.add_shader_from_file("color.wgsl");
    let h2 = a.add_shader_from_file("textured.wgsl");
    assert_ne!(h1, h2);

    let m1 = a.add_mesh_from_file("cube.obj");
    let m2 = a.add_mesh_from_file("quad.obj");
    assert_ne!(m1, m2);
}

#[test]
fn materials_never_deduplicate() {
    let mut a = Assets::new();
    let red = Vec3Fx { x: FX_ONE, y: 0, z: 0 };
    let m1 = Material::color(&mut a, red, false);
    let m2 = Material::color(&mut a, red, false);
    let h1 = a.add_material(m1);
    let h2 = a.add_material(m2);
    assert_ne!(h1, h2);
}

#[test]
fn removed_handle_stays_stale_even_after_reuse() {
    let mut arena: Arena<u32> = Arena::new();
    let h1 = arena.insert(7);
    assert_eq!(arena.get(h1), Some(&7));
    let taken = arena.remove(h1);
    assert_eq!(taken, Some(7));
    assert_eq!(arena.get(h1), None);
    // the slot is reused, but the stale handle still reaches nothing
    let h2 = arena.insert(9);
    assert_eq!(arena.get(h2), Some(&9));
    assert_eq!(arena.get(h1), None);
    assert_ne!(h1, h2);
}

#[test]
fn untouched_entries_survive_removal() {
    let mut arena: Arena<u32> = Arena::new();
    let h1 = arena.insert(1);
    let h2 = arena.insert(2);
    let h3 = arena.insert(3);
    arena.remove(h2);
    assert_eq!(arena.get(h1), Some(&1));
    assert_eq!(arena.get(h3), Some(&3));
    assert!(!arena.contains(h2));
}
