//! The declarative scene description: a materials catalog and a node
//! list. A configuration is validated as a whole before anything is
//! built from it — a bad reference is fatal at load time and no
//! partial scene is ever produced.

use crate::fx::{Vec3Fx, FX_LIMIT};
use vstd::prelude::*;

verus! {

/// The physics shape a node's body can ask for.
#[derive(Clone, Copy, PartialEq, Eq, Structural, Debug)]
pub enum ColliderShapeCfg {
    Cube,
}

/// The named mesh prefabs a node can ask for.
#[derive(Clone, Copy, PartialEq, Eq, Structural, Debug)]
pub enum MeshPrefabCfg {
    Quad,
    Basis,
}

/// Marker components a node can ask for.
#[derive(Clone, Copy, PartialEq, Eq, Structural, Debug)]
pub enum ComponentCfg {
    PlayerFocusMarker,
}

/// One entry of the materials catalog.
#[derive(Clone, Debug)]
pub enum MaterialCfg {
    Color { name: String, color: Vec3Fx, wireframe: Option<bool> },
    Textured { name: String, texture: String },
    Skybox { name: String, texture: String },
}

impl MaterialCfg {
    pub open spec fn name_s(self) -> Seq<char> {
        match self {
            MaterialCfg::Color { name, .. } => name@,
            MaterialCfg::Textured { name, .. } => name@,
            MaterialCfg::Skybox { name, .. } => name@,
        }
    }
}

/// A node's physics body.
#[derive(Clone, Copy, PartialEq, Eq, Structural, Debug)]
pub struct BodyCfg {
    pub shape: ColliderShapeCfg,
    pub movable: Option<bool>,
}

/// A node's mesh: a file path or a prefab; one of the two must be
/// given.
#[derive(Clone, Debug)]
pub struct MeshCfg {
    pub path: Option<String>,
    pub prefab: Option<MeshPrefabCfg>,
}

/// One scene node.
#[derive(Clone, Debug)]
pub struct NodeCfg {
    pub render_order: Option<i32>,
    pub render_tags: Option<u32>,
    pub pos: Option<Vec3Fx>,
    pub scale: Option<Vec3Fx>,
    pub body: Option<BodyCfg>,
    pub mesh: Option<MeshCfg>,
    pub materials: Option<Vec<String>>,
    pub components: Option<Vec<ComponentCfg>>,
}

/// The whole scene description: a catalog and named nodes, in the
/// order the document gives them.
#[derive(Clone, Debug)]
pub struct SceneCfg {
    pub materials: Vec<MaterialCfg>,
    pub nodes: Vec<(String, NodeCfg)>,
}

/// Why a configuration was rejected; the node name points at the
/// first offender.
#[derive(Clone, PartialEq, Eq, Debug)]
pub enum CfgError {
    /// A mesh entry named neither a file path nor a prefab.
    InvalidMesh { node: String },
    /// A material reference names no catalog entry.
    UnresolvedMaterial { node: String, name: String },
    /// A materials list with no entries.
    EmptyMaterials { node: String },
}

/// The first catalog entry carrying a name, if any.
pub open spec fn resolve_s(catalog: Seq<MaterialCfg>, name: Seq<char>) -> Option<MaterialCfg>
    decreases catalog.len(),
{
    if catalog.len() == 0 {
        None
    } else if catalog[0].name_s() == name {
        Some(catalog[0])
    } else {
        resolve_s(catalog.drop_first(), name)
    }
}

/// A name resolves exactly when some catalog entry carries it.
pub proof fn lemma_resolve_found(catalog: Seq<MaterialCfg>, name: Seq<char>)
    ensures
        (resolve_s(catalog, name) is Some) <==> exists|i: int|
            0 <= i < catalog.len() && (#[trigger] catalog[i]).name_s() == name,
    decreases catalog.len(),
{
    if catalog.len() > 0 {
        lemma_resolve_found(catalog.drop_first(), name);
        if catalog[0].name_s() == name {
            assert(catalog[0].name_s() == name);
        } else {
            if resolve_s(catalog.drop_first(), name) is Some {
                let i = choose|i: int|
                    0 <= i < catalog.drop_first().len() && (#[trigger] catalog.drop_first()[i]).name_s()
                        == name;
                assert(catalog[i + 1].name_s() == name);
            }
            if exists|i: int| 0 <= i < catalog.len() && (#[trigger] catalog[i]).name_s() == name {
                let i = choose|i: int|
                    0 <= i < catalog.len() && (#[trigger] catalog[i]).name_s() == name;
                assert(catalog.drop_first()[i - 1].name_s() == name);
            }
        }
    }
}

/// Find the first catalog entry with the given name.
pub fn resolve(catalog: &Vec<MaterialCfg>, name: &String) -> (r: Option<usize>)
    ensures
        (match r {
            Some(i) => (i as int) < catalog@.len() && catalog@[i as int].name_s() == name@
                && Some(catalog@[i as int]) == resolve_s(catalog@, name@) && forall|j: int|
                0 <= j < i as int ==> (#[trigger] catalog@[j]).name_s() != name@,
            None => resolve_s(catalog@, name@) is None,
        }),
{
    let n: usize = catalog.len();
    let mut i: usize = 0;
    proof {
        assert(catalog@.skip(0) =~= catalog@);
    }
    while i < n
        invariant
            n == catalog@.len(),
            i <= n,
            forall|j: int| 0 <= j < i ==> (#[trigger] catalog@[j]).name_s() != name@,
            resolve_s(catalog@, name@) == resolve_s(catalog@.skip(i as int), name@),
        decreases n - i,
    {
        proof {
            assert(catalog@.skip(i as int)[0] == catalog@[i as int]);
            assert(catalog@.skip(i as int).drop_first() =~= catalog@.skip(i as int + 1));
        }
        let eq: bool = match &catalog[i] {
            MaterialCfg::Color { name: n2, .. } => *n2 == *name,
            MaterialCfg::Textured { name: n2, .. } => *n2 == *name,
            MaterialCfg::Skybox { name: n2, .. } => *n2 == *name,
        };
        if eq {
            return Some(i);
        }
        i += 1;
    }
    proof {
        assert(catalog@.skip(n as int) =~= Seq::<MaterialCfg>::empty());
    }
    None
}

/// Positions and scales a node gives must be representable: a machine
/// limit, demanded of the caller rather than silently clamped.
pub open spec fn node_bounded_s(node: NodeCfg) -> bool {
    &&& (node.pos matches Some(p) ==> p.bounded(FX_LIMIT as int))
    &&& (node.scale matches Some(s) ==> s.bounded(FX_LIMIT as int))
}

pub open spec fn cfg_bounded_s(cfg: SceneCfg) -> bool {
    forall|k: int| 0 <= k < cfg.nodes@.len() ==> node_bounded_s((#[trigger] cfg.nodes@[k]).1)
}

/// A node is valid against a catalog: its mesh names a source, its
/// materials list (if present) is non-empty and every name resolves.
pub open spec fn node_valid_s(catalog: Seq<MaterialCfg>, node: NodeCfg) -> bool {
    &&& (node.mesh matches Some(m) ==> (m.path is Some || m.prefab is Some))
    &&& (node.materials matches Some(list) ==> list@.len() > 0 && forall|j: int|
        0 <= j < list@.len() ==> resolve_s(catalog, (#[trigger] list@[j])@) is Some)
}

pub open spec fn cfg_valid_s(cfg: SceneCfg) -> bool {
    forall|k: int| 0 <= k < cfg.nodes@.len() ==> node_valid_s(cfg.materials@, (#[trigger] cfg.nodes@[k]).1)
}

/// Whether a component list asks for the focus marker.
pub fn wants_focus_marker(cs: &Vec<ComponentCfg>) -> (r: bool)
    ensures
        r == exists|q: int| 0 <= q < cs@.len() && cs@[q] == ComponentCfg::PlayerFocusMarker,
{
    let n: usize = cs.len();
    let mut i: usize = 0;
    while i < n
        invariant
            n == cs@.len(),
            i <= n,
            forall|q: int| 0 <= q < i ==> cs@[q] != ComponentCfg::PlayerFocusMarker,
        decreases n - i,
    {
        let c: ComponentCfg = cs[i];
        match c {
            ComponentCfg::PlayerFocusMarker => {
                proof {
                    assert(cs@[i as int] == ComponentCfg::PlayerFocusMarker);
                }
                return true;
            },
        }
    }
    false
}

/// Check one node against the catalog.
fn validate_node(catalog: &Vec<MaterialCfg>, name: &String, node: &NodeCfg) -> (r: Option<CfgError>)
    ensures
        r is None <==> node_valid_s(catalog@, *node),
{
    if let Some(m) = &node.mesh {
        if m.path.is_none() && m.prefab.is_none() {
            return Some(CfgError::InvalidMesh { node: name.clone() });
        }
    }
    if node.materials.is_some() {
        let list: &Vec<String> = match &node.materials {
            Some(l) => l,
            None => unreached(),
        };
        proof {
            assert(node.materials == Some(*list));
        }
        if list.len() == 0 {
            return Some(CfgError::EmptyMaterials { node: name.clone() });
        }
        let n: usize = list.len();
        let mut j: usize = 0;
        while j < n
            invariant
                n == list@.len(),
                j <= n,
                node.materials == Some(*list),
                forall|q: int| 0 <= q < j ==> resolve_s(catalog@, (#[trigger] list@[q])@) is Some,
            decreases n - j,
        {
            if resolve(catalog, &list[j]).is_none() {
                proof {
                    assert((node.materials->Some_0)@[j as int] == list@[j as int]);
                    assert(!node_valid_s(catalog@, *node));
                }
                return Some(
                    CfgError::UnresolvedMaterial { node: name.clone(), name: list[j].clone() },
                );
            }
            j += 1;
        }
    }
    None
}

/// Check a whole configuration; `None` exactly when every node is
/// valid, otherwise an error for the first offending node.
pub fn validate_cfg(cfg: &SceneCfg) -> (r: Option<CfgError>)
    ensures
        r is None <==> cfg_valid_s(*cfg),
{
    let n: usize = cfg.nodes.len();
    let mut k: usize = 0;
    while k < n
        invariant
            n == cfg.nodes@.len(),
            k <= n,
            forall|q: int| 0 <= q < k ==> node_valid_s(cfg.materials@, (#[trigger] cfg.nodes@[q]).1),
        decreases n - k,
    {
        let err = validate_node(&cfg.materials, &cfg.nodes[k].0, &cfg.nodes[k].1);
        if let Some(e) = err {
            return Some(e);
        }
        k += 1;
    }
    None
}

} // verus!
