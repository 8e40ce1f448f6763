//! Scenes and the depth-first node walk that fills them.

pub mod camera;
pub mod light;
/// Contains model and material.
pub mod model;

use vstd::prelude::*;

pub use camera::{Camera, Projection};
pub use light::Light;
pub use model::{Material, Model};

use crate::document::{Node, PrimitiveDesc, SceneDesc};
use crate::scene::model::loaded_vertex;
use crate::scene::model::material::{
    lemma_material_matches_same_doc, lemma_material_ok_same_doc, material_matches, material_ok,
};
use crate::utils::GltfData;
use crate::LoadError;

verus! {

/// Contains cameras, models and lights of a scene.
#[derive(Clone, Debug)]
pub struct Scene {
    /// Scene name, when the document carries one.
    pub name: Option<String>,
    /// Scene extra data, as its raw JSON text.
    pub extras: Option<String>,
    /// List of models in the scene.
    pub models: Vec<Model>,
    /// List of cameras in the scene.
    pub cameras: Vec<Camera>,
    /// List of lights in the scene.
    pub lights: Vec<Light>,
}

/// The cameras a depth-first walk of `n` emits: those of the children, in
/// order, then the node's own.
pub open spec fn node_cameras(n: Node) -> Seq<Camera>
    decreases n,
{
    nodes_cameras(n.children@) + match n.camera {
        Some(c) => seq![Camera::load_spec(c, n.world)],
        None => Seq::empty(),
    }
}

/// The cameras the nodes of `ns` emit, in order.
pub open spec fn nodes_cameras(ns: Seq<Node>) -> Seq<Camera>
    decreases ns,
{
    if ns.len() == 0 {
        Seq::empty()
    } else {
        nodes_cameras(ns.drop_last()) + node_cameras(ns.last())
    }
}

/// The lights a depth-first walk of `n` emits: those of the children, in
/// order, then the node's own.
pub open spec fn node_lights(n: Node) -> Seq<Light>
    decreases n,
{
    nodes_lights(n.children@) + match n.light {
        Some(l) => seq![Light::load_spec(l, n.world)],
        None => Seq::empty(),
    }
}

/// The lights the nodes of `ns` emit, in order.
pub open spec fn nodes_lights(ns: Seq<Node>) -> Seq<Light>
    decreases ns,
{
    if ns.len() == 0 {
        Seq::empty()
    } else {
        nodes_lights(ns.drop_last()) + node_lights(ns.last())
    }
}

/// One model-to-be: the mesh name shared by the mesh's models, the
/// primitive's index within its mesh, and the primitive itself.
pub struct PrimSource {
    /// Mesh name.
    pub name: Option<String>,
    /// Mesh extra data, shared by every model of the mesh.
    pub mesh_extras: Option<String>,
    /// Index of the primitive within its mesh.
    pub index: int,
    /// The primitive.
    pub prim: PrimitiveDesc,
}

/// The model sources a depth-first walk of `n` emits: those of the
/// children, in order, then one per primitive of the node's own mesh.
pub open spec fn node_prim_sources(n: Node) -> Seq<PrimSource>
    decreases n,
{
    nodes_prim_sources(n.children@) + match n.mesh {
        Some(mesh) => Seq::new(
            mesh.primitives@.len(),
            |i: int| PrimSource {
                name: mesh.name,
                mesh_extras: mesh.extras,
                index: i,
                prim: mesh.primitives@[i],
            },
        ),
        None => Seq::empty(),
    }
}

/// The model sources the nodes of `ns` emit, in order.
pub open spec fn nodes_prim_sources(ns: Seq<Node>) -> Seq<PrimSource>
    decreases ns,
{
    if ns.len() == 0 {
        Seq::empty()
    } else {
        nodes_prim_sources(ns.drop_last()) + node_prim_sources(ns.last())
    }
}

/// Every primitive in the tree under `n` is well-formed and its material
/// reference stays inside a material table of length `nmat`.
pub open spec fn node_wf(n: Node, nmat: int) -> bool
    decreases n,
{
    nodes_wf(n.children@, nmat) && match n.mesh {
        Some(mesh) => forall|i: int|
            0 <= i < mesh.primitives@.len() ==> (#[trigger] mesh.primitives@[i]).wf() && match mesh
                .primitives@[i].material {
                Some(mi) => mi < nmat,
                None => true,
            },
        None => true,
    }
}

/// Tree-wide well-formedness over a node list.
pub open spec fn nodes_wf(ns: Seq<Node>, nmat: int) -> bool
    decreases ns,
{
    if ns.len() == 0 {
        true
    } else {
        nodes_wf(ns.drop_last(), nmat) && node_wf(ns.last(), nmat)
    }
}

/// True when every material referenced in the tree under `n` loads under
/// the document tables of `d`, so that walking `n` succeeds.
pub open spec fn node_load_ok(n: Node, d: GltfData) -> bool
    decreases n,
{
    nodes_load_ok(n.children@, d) && match n.mesh {
        Some(mesh) => forall|i: int|
            0 <= i < mesh.primitives@.len() ==> material_ok(
                d,
                (#[trigger] mesh.primitives@[i]).material,
            ),
        None => true,
    }
}

/// True when walking every node of `ns` succeeds under `d`.
pub open spec fn nodes_load_ok(ns: Seq<Node>, d: GltfData) -> bool
    decreases ns,
{
    if ns.len() == 0 {
        true
    } else {
        nodes_load_ok(ns.drop_last(), d) && node_load_ok(ns.last(), d)
    }
}

/// True when `m` is the model loaded from `src` under the document tables
/// of `d`: the per-model contract of [`Model::load`], stated once so that
/// whole model lists can be described.
pub open spec fn model_built(m: Model, src: PrimSource, d: GltfData) -> bool {
    &&& m.vertices@.len() == src.prim.positions@.len()
    &&& forall|i: int| 0 <= i < m.vertices@.len() ==> m.vertices@[i] == loaded_vertex(src.prim, i)
    &&& match m.indices {
        Some(v) => src.prim.indices matches Some(w) && v@ == w@,
        None => src.prim.indices is None,
    }
    &&& m.mode == src.prim.mode
    &&& m.primitive_index == src.index
    &&& m.mesh_name == src.name
    &&& m.mesh_extras == src.mesh_extras
    &&& m.primitive_extras == src.prim.extras
    &&& m.has_normals == (src.prim.normals is Some)
    &&& m.has_tangents == (src.prim.tangents is Some)
    &&& m.has_tex_coords == (src.prim.tex_coords is Some)
    &&& m.has_colors == (src.prim.colors is Some)
    &&& material_matches(*m.material, d, src.prim.material)
    &&& m.wf()
}

/// True when `ms` are, position by position, the models loaded from
/// `srcs` under `d`.
pub open spec fn models_built(ms: Seq<Model>, srcs: Seq<PrimSource>, d: GltfData) -> bool {
    ms.len() == srcs.len() && forall|k: int|
        0 <= k < ms.len() ==> model_built(#[trigger] ms[k], srcs[k], d)
}

/// A loaded model has exactly one vertex per source position; an absent
/// normal or tangent stream leaves the zero encoding on every vertex; and
/// a present tangent keeps its source handedness sign untouched in the
/// fourth component.
pub proof fn lemma_model_streams(m: Model, src: PrimSource, d: GltfData, i: int)
    requires
        model_built(m, src, d),
        0 <= i < m.vertices@.len(),
    ensures
        m.vertices@.len() == src.prim.positions@.len(),
        !m.has_normals ==> m.vertices@[i].normal == (crate::vector::Vec3 { x: 0, y: 0, z: 0 }),
        !m.has_tangents ==> m.vertices@[i].tangent == (crate::vector::Vec4 {
            x: 0,
            y: 0,
            z: 0,
            w: 0,
        }),
        src.prim.tangents matches Some(ts) ==> (i < ts@.len() ==> m.vertices@[i].tangent.w
            == ts@[i].sign),
{
    assert(m.vertices@[i] == loaded_vertex(src.prim, i));
}

/// A built model stays built when the document tables are unchanged.
pub proof fn lemma_models_built_same_doc(
    ms: Seq<Model>,
    srcs: Seq<PrimSource>,
    d1: GltfData,
    d2: GltfData,
)
    requires
        models_built(ms, srcs, d1),
        d1.same_doc(d2),
    ensures
        models_built(ms, srcs, d2),
{
    assert forall|k: int| 0 <= k < ms.len() implies model_built(#[trigger] ms[k], srcs[k], d2) by {
        assert(model_built(ms[k], srcs[k], d1));
        lemma_material_matches_same_doc(ms[k].material, d1, d2, srcs[k].prim.material);
    }
}

/// Built model lists concatenate.
proof fn lemma_models_built_concat(
    ms1: Seq<Model>,
    ms2: Seq<Model>,
    srcs1: Seq<PrimSource>,
    srcs2: Seq<PrimSource>,
    d: GltfData,
)
    requires
        models_built(ms1, srcs1, d),
        models_built(ms2, srcs2, d),
    ensures
        models_built(ms1 + ms2, srcs1 + srcs2, d),
{
    assert forall|k: int| 0 <= k < (ms1 + ms2).len() implies model_built(
        #[trigger] (ms1 + ms2)[k],
        (srcs1 + srcs2)[k],
        d,
    ) by {
        if k < ms1.len() {
            assert((ms1 + ms2)[k] == ms1[k]);
            assert((srcs1 + srcs2)[k] == srcs1[k]);
            assert(model_built(ms1[k], srcs1[k], d));
        } else {
            assert((ms1 + ms2)[k] == ms2[k - ms1.len()]);
            assert((srcs1 + srcs2)[k] == srcs2[k - srcs1.len()]);
            assert(model_built(ms2[k - ms1.len()], srcs2[k - srcs1.len()], d));
        }
    }
}

/// Loading succeeds or fails the same way when the document tables are
/// unchanged.
proof fn lemma_node_load_ok_same_doc(n: Node, d1: GltfData, d2: GltfData)
    requires
        d1.same_doc(d2),
    ensures
        node_load_ok(n, d1) == node_load_ok(n, d2),
    decreases n,
{
    lemma_nodes_load_ok_same_doc(n.children@, d1, d2);
    if let Some(mesh) = n.mesh {
        assert forall|i: int| 0 <= i < mesh.primitives@.len() implies material_ok(
            d1,
            (#[trigger] mesh.primitives@[i]).material,
        ) == material_ok(d2, mesh.primitives@[i].material) by {
            lemma_material_ok_same_doc(d1, d2, mesh.primitives@[i].material);
        }
    }
}

/// Loading succeeds or fails the same way when the document tables are
/// unchanged.
pub proof fn lemma_nodes_load_ok_same_doc(ns: Seq<Node>, d1: GltfData, d2: GltfData)
    requires
        d1.same_doc(d2),
    ensures
        nodes_load_ok(ns, d1) == nodes_load_ok(ns, d2),
    decreases ns,
{
    if ns.len() > 0 {
        lemma_nodes_load_ok_same_doc(ns.drop_last(), d1, d2);
        lemma_node_load_ok_same_doc(ns.last(), d1, d2);
    }
}

/// Tree-wide well-formedness restricts to every prefix.
proof fn lemma_nodes_wf_prefix(ns: Seq<Node>, nmat: int, j: int)
    requires
        nodes_wf(ns, nmat),
        0 <= j <= ns.len(),
    ensures
        nodes_wf(ns.take(j), nmat),
    decreases ns.len() - j,
{
    if j == ns.len() {
        assert(ns.take(j) =~= ns);
    } else {
        lemma_nodes_wf_prefix(ns, nmat, j + 1);
        assert(ns.take(j + 1).drop_last() =~= ns.take(j));
    }
}

/// When walking a node list succeeds, walking each of its nodes does.
proof fn lemma_nodes_load_ok_elem(ns: Seq<Node>, d: GltfData, j: int)
    requires
        nodes_load_ok(ns, d),
        0 <= j < ns.len(),
    ensures
        node_load_ok(ns[j], d),
    decreases ns.len(),
{
    if j == ns.len() - 1 {
        assert(ns.last() == ns[j]);
    } else {
        assert(ns.drop_last()[j] == ns[j]);
        lemma_nodes_load_ok_elem(ns.drop_last(), d, j);
    }
}

/// Walks one node: children first, then the node's own camera, light and
/// mesh, appending every extracted entity to `scene`.
fn read_node(scene: &mut Scene, node: &Node, data: &mut GltfData) -> (r: Result<(), LoadError>)
    requires
        old(data).wf(),
        node_wf(*node, old(data).material_descs@.len() as int),
    ensures
        final(data).wf(),
        final(data).same_doc(*old(data)),
        final(scene).name == old(scene).name,
        final(scene).extras == old(scene).extras,
        (r is Ok) == node_load_ok(*node, *old(data)),
        r matches Err(e) ==> e == LoadError::TextureDecode,
        r is Ok ==> {
            &&& final(scene).cameras@ == old(scene).cameras@ + node_cameras(*node)
            &&& final(scene).lights@ == old(scene).lights@ + node_lights(*node)
            &&& final(scene).models@.len() == old(scene).models@.len() + node_prim_sources(
                *node,
            ).len()
            &&& final(scene).models@.take(old(scene).models@.len() as int) == old(scene).models@
            &&& models_built(
                final(scene).models@.skip(old(scene).models@.len() as int),
                node_prim_sources(*node),
                *final(data),
            )
        },
    decreases *node,
{
    let ghost nmat = old(data).material_descs@.len() as int;
    let ghost base = old(scene).models@.len() as int;
    let n = node.children.len();
    let mut i: usize = 0;
    while i < n
        invariant
            old(data).wf(),
            data.wf(),
            data.same_doc(*old(data)),
            nmat == old(data).material_descs@.len() as int,
            base == old(scene).models@.len() as int,
            node_wf(*node, nmat),
            n == node.children@.len(),
            i <= n,
            scene.name == old(scene).name,
            scene.extras == old(scene).extras,
            scene.cameras@ == old(scene).cameras@ + nodes_cameras(node.children@.take(i as int)),
            scene.lights@ == old(scene).lights@ + nodes_lights(node.children@.take(i as int)),
            scene.models@.len() == base + nodes_prim_sources(node.children@.take(i as int)).len(),
            scene.models@.take(base) == old(scene).models@,
            models_built(
                scene.models@.skip(base),
                nodes_prim_sources(node.children@.take(i as int)),
                *data,
            ),
            nodes_load_ok(node.children@.take(i as int), *old(data)),
        decreases n - i,
    {
        proof {
            lemma_nodes_wf_prefix(node.children@, nmat, i as int + 1);
            assert(node.children@.take(i as int + 1).last() == node.children@[i as int]);
            assert(decreases_to!(*node => node.children@[i as int]));
        }
        let ghost d_pre = *data;
        let ghost s_pre = *scene;
        match read_node(scene, &node.children[i], data) {
            Ok(u) => u,
            Err(e) => {
                proof {
                    if node_load_ok(*node, *old(data)) {
                        lemma_nodes_load_ok_elem(node.children@, *old(data), i as int);
                        lemma_node_load_ok_same_doc(node.children@[i as int], *old(data), d_pre);
                    }
                }
                return Err(e);
            },
        };
        proof {
            let child = node.children@[i as int];
            assert(node.children@.take(i as int + 1).drop_last() =~= node.children@.take(i as int));
            assert(node.children@.take(i as int + 1).last() == child);
            // cameras and lights: sequence concatenation is associative
            assert(scene.cameras@ =~= old(scene).cameras@ + nodes_cameras(
                node.children@.take(i as int + 1),
            ));
            assert(scene.lights@ =~= old(scene).lights@ + nodes_lights(
                node.children@.take(i as int + 1),
            ));
            // models: transfer the prefix to the new state and concatenate
            lemma_models_built_same_doc(
                s_pre.models@.skip(base),
                nodes_prim_sources(node.children@.take(i as int)),
                d_pre,
                *data,
            );
            lemma_models_built_concat(
                s_pre.models@.skip(base),
                scene.models@.skip(s_pre.models@.len() as int),
                nodes_prim_sources(node.children@.take(i as int)),
                node_prim_sources(child),
                *data,
            );
            assert(scene.models@.skip(base) =~= s_pre.models@.skip(base) + scene.models@.skip(
                s_pre.models@.len() as int,
            ));
            assert(scene.models@.take(base) =~= old(scene).models@);
            // success so far
            lemma_node_load_ok_same_doc(child, d_pre, *old(data));
        }
        i = i + 1;
    }
    proof {
        assert(node.children@.take(n as int) =~= node.children@);
    }
    if let Some(c) = &node.camera {
        scene.cameras.push(Camera::load(c, &node.world));
    }
    if let Some(l) = &node.light {
        scene.lights.push(Light::load(l, &node.world));
    }
    proof {
        assert(scene.cameras@ =~= old(scene).cameras@ + node_cameras(*node));
        assert(scene.lights@ =~= old(scene).lights@ + node_lights(*node));
    }
    if let Some(mesh) = &node.mesh {
        let ghost mesh_srcs = Seq::new(
            mesh.primitives@.len(),
            |q: int| PrimSource {
                name: mesh.name,
                mesh_extras: mesh.extras,
                index: q,
                prim: mesh.primitives@[q],
            },
        );
        let ghost children_srcs = nodes_prim_sources(node.children@);
        let m = mesh.primitives.len();
        let mut p: usize = 0;
        while p < m
            invariant
                old(data).wf(),
                data.wf(),
                data.same_doc(*old(data)),
                nmat == old(data).material_descs@.len() as int,
                base == old(scene).models@.len() as int,
                node_wf(*node, nmat),
                node.mesh matches Some(me) && me == mesh,
                mesh_srcs == Seq::new(
                    mesh.primitives@.len(),
                    |q: int| PrimSource {
                        name: mesh.name,
                        mesh_extras: mesh.extras,
                        index: q,
                        prim: mesh.primitives@[q],
                    },
                ),
                children_srcs == nodes_prim_sources(node.children@),
                m == mesh.primitives@.len(),
                p <= m,
                scene.name == old(scene).name,
                scene.extras == old(scene).extras,
                scene.cameras@ == old(scene).cameras@ + node_cameras(*node),
                scene.lights@ == old(scene).lights@ + node_lights(*node),
                scene.models@.len() == base + children_srcs.len() + p,
                scene.models@.take(base) == old(scene).models@,
                models_built(
                    scene.models@.skip(base),
                    children_srcs + mesh_srcs.take(p as int),
                    *data,
                ),
                nodes_load_ok(node.children@, *old(data)),
                forall|q: int|
                    0 <= q < p ==> material_ok(
                        *old(data),
                        (#[trigger] mesh.primitives@[q]).material,
                    ),
            decreases m - p,
        {
            let ghost d_pre = *data;
            let ghost s_pre = *scene;
            let mdl = match Model::load(mesh, p, &mesh.primitives[p], data) {
                Ok(mdl) => mdl,
                Err(e) => {
                    proof {
                        lemma_material_ok_same_doc(
                            *old(data),
                            d_pre,
                            mesh.primitives@[p as int].material,
                        );
                    }
                    return Err(e);
                },
            };
            scene.models.push(mdl);
            proof {
                lemma_material_ok_same_doc(*old(data), d_pre, mesh.primitives@[p as int].material);
                lemma_models_built_same_doc(
                    s_pre.models@.skip(base),
                    children_srcs + mesh_srcs.take(p as int),
                    d_pre,
                    *data,
                );
                assert(model_built(mdl, mesh_srcs[p as int], *data));
                lemma_models_built_concat(
                    s_pre.models@.skip(base),
                    seq![mdl],
                    children_srcs + mesh_srcs.take(p as int),
                    seq![mesh_srcs[p as int]],
                    *data,
                );
                assert(scene.models@.skip(base) =~= s_pre.models@.skip(base) + seq![mdl]);
                assert((children_srcs + mesh_srcs.take(p as int)) + seq![mesh_srcs[p as int]]
                    =~= children_srcs + mesh_srcs.take(p as int + 1));
                assert(scene.models@.take(base) =~= old(scene).models@);
            }
            p = p + 1;
        }
        proof {
            assert(mesh_srcs.take(m as int) =~= mesh_srcs);
            assert(children_srcs + mesh_srcs =~= node_prim_sources(*node));
        }
    } else {
        proof {
            assert(nodes_prim_sources(node.children@) + Seq::<PrimSource>::empty()
                =~= node_prim_sources(*node));
            assert(scene.models@.skip(base) =~= scene.models@.skip(base)
                + Seq::<Model>::empty());
        }
    }
    Ok(())
}

impl Scene {
    /// Walks one scene's root nodes depth-first and collects every camera,
    /// light and model in the tree, sharing one cache for the whole
    /// document load; the scene's name and extra data are carried over.
    /// Either the whole scene loads or the first unresolvable texture
    /// aborts it.
    pub fn load(scene_desc: &SceneDesc, data: &mut GltfData) -> (r: Result<Scene, LoadError>)
        requires
            old(data).wf(),
            nodes_wf(scene_desc.nodes@, old(data).material_descs@.len() as int),
        ensures
            final(data).wf(),
            final(data).same_doc(*old(data)),
            (r is Ok) == nodes_load_ok(scene_desc.nodes@, *old(data)),
            r matches Err(e) ==> e == LoadError::TextureDecode,
            r matches Ok(s) ==> {
                &&& s.name == scene_desc.name
                &&& s.extras == scene_desc.extras
                &&& s.cameras@ == nodes_cameras(scene_desc.nodes@)
                &&& s.lights@ == nodes_lights(scene_desc.nodes@)
                &&& models_built(s.models@, nodes_prim_sources(scene_desc.nodes@), *final(data))
            },
    {
        let ghost nmat = old(data).material_descs@.len() as int;
        let nodes = &scene_desc.nodes;
        let mut scene = Scene::default();
        scene.name = crate::clone_opt_string(&scene_desc.name);
        scene.extras = crate::clone_opt_string(&scene_desc.extras);
        let n = nodes.len();
        let mut i: usize = 0;
        while i < n
            invariant
                old(data).wf(),
                data.wf(),
                data.same_doc(*old(data)),
                nmat == old(data).material_descs@.len() as int,
                nodes@ == scene_desc.nodes@,
                nodes_wf(nodes@, nmat),
                n == nodes@.len(),
                i <= n,
                scene.name == scene_desc.name,
                scene.extras == scene_desc.extras,
                scene.cameras@ == nodes_cameras(nodes@.take(i as int)),
                scene.lights@ == nodes_lights(nodes@.take(i as int)),
                models_built(scene.models@, nodes_prim_sources(nodes@.take(i as int)), *data),
                nodes_load_ok(nodes@.take(i as int), *old(data)),
            decreases n - i,
        {
            proof {
                lemma_nodes_wf_prefix(nodes@, nmat, i as int + 1);
                assert(nodes@.take(i as int + 1).last() == nodes@[i as int]);
            }
            let ghost d_pre = *data;
            let ghost s_pre = scene;
            match read_node(&mut scene, &nodes[i], data) {
                Ok(u) => u,
                Err(e) => {
                    proof {
                        if nodes_load_ok(nodes@, *old(data)) {
                            lemma_nodes_load_ok_elem(nodes@, *old(data), i as int);
                            lemma_node_load_ok_same_doc(nodes@[i as int], *old(data), d_pre);
                        }
                    }
                    return Err(e);
                },
            };
            proof {
                let nd = nodes@[i as int];
                assert(nodes@.take(i as int + 1).drop_last() =~= nodes@.take(i as int));
                assert(nodes@.take(i as int + 1).last() == nd);
                assert(scene.cameras@ =~= nodes_cameras(nodes@.take(i as int + 1)));
                assert(scene.lights@ =~= nodes_lights(nodes@.take(i as int + 1)));
                lemma_models_built_same_doc(
                    s_pre.models@,
                    nodes_prim_sources(nodes@.take(i as int)),
                    d_pre,
                    *data,
                );
                lemma_models_built_concat(
                    s_pre.models@,
                    scene.models@.skip(s_pre.models@.len() as int),
                    nodes_prim_sources(nodes@.take(i as int)),
                    node_prim_sources(nd),
                    *data,
                );
                assert(scene.models@ =~= s_pre.models@ + scene.models@.skip(
                    s_pre.models@.len() as int,
                ));
                lemma_node_load_ok_same_doc(nd, d_pre, *old(data));
            }
            i = i + 1;
        }
        proof {
            assert(nodes@.take(n as int) =~= nodes@);
        }
        Ok(scene)
    }
}

impl Default for Scene {
    /// An unnamed scene with no models, cameras or lights.
    fn default() -> (r: Scene)
        ensures
            r.name is None,
            r.extras is None,
            r.models@.len() == 0,
            r.cameras@.len() == 0,
            r.lights@.len() == 0,
    {
        Scene {
            name: None,
            extras: None,
            models: Vec::new(),
            cameras: Vec::new(),
            lights: Vec::new(),
        }
    }
}

} // verus!
