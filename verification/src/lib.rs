//! Loads a parsed 3D-scene document (nodes, meshes, cameras, lights,
//! materials, textures, binary buffers) into a flattened, render-ready
//! representation: world-space cameras and lights, and draw-ready models
//! with resolved materials and decoded, deduplicated textures.
//!
//! Scalar quantities that a renderer interprets as IEEE 754 single-precision
//! values travel through this crate as their 32-bit encodings (`u32`); the
//! crate itself never performs floating-point arithmetic. The application
//! layer parses the document file, converts scalars to and from `f32`, and
//! performs the transform algebra (matrix composition and normalization)
//! whose results this crate consumes as opaque encodings.

pub mod document;
pub mod scene;
pub mod texture;
pub mod utils;
pub mod vector;

use vstd::prelude::*;

pub use scene::camera::{Camera, Projection};
pub use scene::light::Light;
pub use scene::model::{BadMode, Line, Material, Mode, Model, Triangle, Vertex, VertexColor};
pub use scene::Scene;
pub use utils::GltfData;

use document::SceneDesc;
use scene::{
    lemma_models_built_same_doc, lemma_nodes_load_ok_same_doc, models_built, nodes_cameras,
    nodes_lights, nodes_load_ok, nodes_prim_sources, nodes_wf,
};

verus! {

/// The 32-bit encoding of IEEE 754 single-precision positive infinity.
pub const F32_INFINITY_BITS: u32 = 0x7F80_0000;

/// The 32-bit encoding of IEEE 754 single-precision 1.0.
pub const F32_ONE_BITS: u32 = 0x3F80_0000;

/// The 32-bit encoding of IEEE 754 single-precision 0.5.
pub const F32_HALF_BITS: u32 = 0x3F00_0000;

/// Copies an optional name or raw-JSON-extras string; the copy equals the
/// source value.
pub(crate) fn clone_opt_string(s: &Option<String>) -> (r: Option<String>)
    ensures
        r == *s,
{
    match s {
        Some(x) => Some(x.clone()),
        None => None,
    }
}

/// Why a load failed. A load either completes for every scene of the
/// document or fails with one of these; no partial scene list is returned.
#[derive(Clone, Copy, Debug, PartialEq, Eq, Structural)]
pub enum LoadError {
    /// The document could not be parsed.
    DocumentParse,
    /// The document file could not be opened or read.
    Io,
    /// A primitive lacks the required position stream.
    MissingRequiredAttribute,
    /// A topology accessor was called on a model with another draw mode.
    UnsupportedDrawMode,
    /// A referenced texture could not be resolved or decoded.
    TextureDecode,
}

/// Loads every scene of a parsed document, sharing one cache: two
/// primitives naming the same source material anywhere in the document
/// resolve to the same shared material, and each texture's bytes are
/// decoded at most once per requested form. Either every scene loads or
/// the first unresolvable texture aborts the whole call; no partial scene
/// list is returned.
pub fn load_scenes(scenes: &Vec<SceneDesc>, data: &mut GltfData) -> (r: Result<
    Vec<Scene>,
    LoadError,
>)
    requires
        old(data).wf(),
        forall|k: int|
            0 <= k < scenes@.len() ==> nodes_wf(
                (#[trigger] scenes@[k]).nodes@,
                old(data).material_descs@.len() as int,
            ),
    ensures
        final(data).wf(),
        final(data).same_doc(*old(data)),
        (r is Ok) == (forall|k: int|
            0 <= k < scenes@.len() ==> nodes_load_ok((#[trigger] scenes@[k]).nodes@, *old(data))),
        r matches Err(e) ==> e == LoadError::TextureDecode,
        r matches Ok(v) ==> {
            &&& v@.len() == scenes@.len()
            &&& forall|k: int|
                0 <= k < v@.len() ==> (#[trigger] v@[k]).name == scenes@[k].name && v@[k].extras
                    == scenes@[k].extras
            &&& forall|k: int|
                0 <= k < v@.len() ==> (#[trigger] v@[k]).cameras@ == nodes_cameras(
                    scenes@[k].nodes@,
                )
            &&& forall|k: int|
                0 <= k < v@.len() ==> (#[trigger] v@[k]).lights@ == nodes_lights(scenes@[k].nodes@)
            &&& forall|k: int|
                0 <= k < v@.len() ==> models_built(
                    (#[trigger] v@[k]).models@,
                    nodes_prim_sources(scenes@[k].nodes@),
                    *final(data),
                )
        },
{
    let mut res: Vec<Scene> = Vec::new();
    let n = scenes.len();
    let mut i: usize = 0;
    while i < n
        invariant
            old(data).wf(),
            data.wf(),
            data.same_doc(*old(data)),
            forall|k: int|
                0 <= k < scenes@.len() ==> nodes_wf(
                    (#[trigger] scenes@[k]).nodes@,
                    old(data).material_descs@.len() as int,
                ),
            n == scenes@.len(),
            i <= n,
            res@.len() == i,
            forall|k: int|
                0 <= k < i ==> (#[trigger] res@[k]).name == scenes@[k].name && res@[k].extras
                    == scenes@[k].extras,
            forall|k: int|
                0 <= k < i ==> (#[trigger] res@[k]).cameras@ == nodes_cameras(scenes@[k].nodes@),
            forall|k: int|
                0 <= k < i ==> (#[trigger] res@[k]).lights@ == nodes_lights(scenes@[k].nodes@),
            forall|k: int|
                0 <= k < i ==> models_built(
                    (#[trigger] res@[k]).models@,
                    nodes_prim_sources(scenes@[k].nodes@),
                    *data,
                ),
            forall|k: int|
                0 <= k < i ==> nodes_load_ok((#[trigger] scenes@[k]).nodes@, *old(data)),
        decreases n - i,
    {
        let ghost d_pre = *data;
        let s = match Scene::load(&scenes[i], data) {
            Ok(s) => s,
            Err(e) => {
                proof {
                    if forall|k: int|
                        0 <= k < scenes@.len() ==> nodes_load_ok(
                            (#[trigger] scenes@[k]).nodes@,
                            *old(data),
                        ) {
                        assert(nodes_load_ok(scenes@[i as int].nodes@, *old(data)));
                        lemma_nodes_load_ok_same_doc(scenes@[i as int].nodes@, *old(data), d_pre);
                    }
                }
                return Err(e);
            },
        };
        res.push(s);
        proof {
            lemma_nodes_load_ok_same_doc(scenes@[i as int].nodes@, d_pre, *old(data));
            assert forall|k: int| 0 <= k < i as int + 1 implies models_built(
                (#[trigger] res@[k]).models@,
                nodes_prim_sources(scenes@[k].nodes@),
                *data,
            ) by {
                if k < i as int {
                    assert(models_built(
                        res@[k].models@,
                        nodes_prim_sources(scenes@[k].nodes@),
                        d_pre,
                    ));
                    lemma_models_built_same_doc(
                        res@[k].models@,
                        nodes_prim_sources(scenes@[k].nodes@),
                        d_pre,
                        *data,
                    );
                }
            }
        }
        i = i + 1;
    }
    Ok(res)
}

} // verus!
