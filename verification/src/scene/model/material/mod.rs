//! Materials with resolved, shared textures.

pub mod emissive;
pub mod mapper;
pub mod normal;
pub mod occlusion;
pub mod pbr;

use std::sync::Arc;
use vstd::prelude::*;

pub use emissive::Emissive;
pub use mapper::Mapper;
pub use normal::NormalMap;
pub use occlusion::Occlusion;
pub use pbr::PbrMaterial;

use crate::document::MaterialDesc;
use crate::utils::GltfData;
use crate::LoadError;
use crate::F32_HALF_BITS;

verus! {

/// Contains material properties of models. Texture handles are shared: two
/// models whose primitives name the same source material hold the same
/// reference-counted material, and materials naming the same source
/// texture hold the same decoded image.
///
/// Texture sampling (nearest-pixel lookup combined with the scalar
/// factors) is floating-point work and lives in the application layer,
/// which reads the texture planes and factor encodings directly.
#[derive(Clone, Debug)]
pub struct Material {
    /// Parameter values that define the metallic-roughness material model
    /// from Physically-Based Rendering (PBR) methodology.
    pub pbr: PbrMaterial,

    /// Defines the normal texture of a material.
    pub normal: Option<NormalMap>,

    /// Defines the occlusion texture of a material.
    pub occlusion: Option<Occlusion>,

    /// The emissive color of the material.
    pub emissive: Emissive,

    /// The alpha cutoff value of the material.
    pub alpha_cutoff: u32,
}

/// True when `m` is the material that `desc`, resolved against the
/// document tables of `d`, describes: factors copied verbatim, and each
/// referenced texture decoded — or every texture field absent when `d`
/// skips textures.
pub open spec fn material_desc_matches(m: Material, d: GltfData, desc: MaterialDesc) -> bool {
    &&& pbr::pbr_matches(m.pbr, d, desc)
    &&& normal::normal_matches(m.normal, d, desc)
    &&& occlusion::occlusion_matches(m.occlusion, d, desc)
    &&& emissive::emissive_matches(m.emissive, d, desc)
    &&& m.alpha_cutoff == desc.alpha_cutoff
}

/// True when `m` is the material that source index `index` (or the default
/// material, for `None`) describes under the document tables of `d`.
pub open spec fn material_matches(m: Material, d: GltfData, index: Option<usize>) -> bool {
    match index {
        Some(i) => i < d.material_descs@.len() && material_desc_matches(
            m,
            d,
            d.material_descs@[i as int],
        ),
        None => material_desc_matches(m, d, MaterialDesc::default_spec()),
    }
}

/// True when every texture `desc` references (and the load is asked to
/// decode) resolves and decodes, so that loading the material succeeds.
pub open spec fn material_desc_ok(d: GltfData, desc: MaterialDesc) -> bool {
    d.load_textures ==> {
        &&& (desc.base_color_texture matches Some(t) ==> d.rgba_texture_ok(t as int))
        &&& (desc.metallic_roughness_texture matches Some(t) ==> d.rgba_texture_ok(t as int))
        &&& (desc.normal_texture matches Some(tf) ==> d.rgb_texture_ok(tf.texture as int))
        &&& (desc.occlusion_texture matches Some(tf) ==> d.rgba_texture_ok(tf.texture as int))
        &&& (desc.emissive_texture matches Some(t) ==> d.rgb_texture_ok(t as int))
    }
}

/// True when loading material `index` succeeds under the document tables
/// of `d`.
pub open spec fn material_ok(d: GltfData, index: Option<usize>) -> bool {
    match index {
        Some(i) => i < d.material_descs@.len() && material_desc_ok(d, d.material_descs@[i as int]),
        None => material_desc_ok(d, MaterialDesc::default_spec()),
    }
}

/// Which materials exist and what they are depends on the document tables
/// only, so a material carries over between states that share them.
pub proof fn lemma_material_matches_same_doc(
    m: Arc<Material>,
    d1: GltfData,
    d2: GltfData,
    index: Option<usize>,
)
    requires
        material_matches(*m, d1, index),
        d1.same_doc(d2),
    ensures
        material_matches(*m, d2, index),
{
    let desc = match index {
        Some(i) => d1.material_descs@[i as int],
        None => MaterialDesc::default_spec(),
    };
    if d1.load_textures {
        if let Some(t) = desc.base_color_texture {
            d1.lemma_texture_bytes_same_doc(d2, t as int);
        }
        if let Some(t) = desc.metallic_roughness_texture {
            d1.lemma_texture_bytes_same_doc(d2, t as int);
        }
        if let Some(tf) = desc.normal_texture {
            d1.lemma_texture_bytes_same_doc(d2, tf.texture as int);
        }
        if let Some(tf) = desc.occlusion_texture {
            d1.lemma_texture_bytes_same_doc(d2, tf.texture as int);
        }
        if let Some(t) = desc.emissive_texture {
            d1.lemma_texture_bytes_same_doc(d2, t as int);
        }
    }
}

/// Whether loading a material can succeed depends on the document tables
/// only.
pub proof fn lemma_material_ok_same_doc(d1: GltfData, d2: GltfData, index: Option<usize>)
    requires
        d1.same_doc(d2),
    ensures
        material_ok(d1, index) == material_ok(d2, index),
{
    let desc = match index {
        Some(i) => d1.material_descs@[i as int],
        None => MaterialDesc::default_spec(),
    };
    if let Some(t) = desc.base_color_texture {
        d1.lemma_texture_bytes_same_doc(d2, t as int);
    }
    if let Some(t) = desc.metallic_roughness_texture {
        d1.lemma_texture_bytes_same_doc(d2, t as int);
    }
    if let Some(tf) = desc.normal_texture {
        d1.lemma_texture_bytes_same_doc(d2, tf.texture as int);
    }
    if let Some(tf) = desc.occlusion_texture {
        d1.lemma_texture_bytes_same_doc(d2, tf.texture as int);
    }
    if let Some(t) = desc.emissive_texture {
        d1.lemma_texture_bytes_same_doc(d2, t as int);
    }
}

/// Two RGBA texture handles hold the same image: same size, same pixel
/// plane, whether or not they are the same allocation.
pub open spec fn rgba_value_eq(
    a: Option<Arc<crate::texture::RgbaTexture>>,
    b: Option<Arc<crate::texture::RgbaTexture>>,
) -> bool {
    match (a, b) {
        (None, None) => true,
        (Some(x), Some(y)) => x.width == y.width && x.height == y.height && x.pixels@ == y.pixels@,
        _ => false,
    }
}

/// Two RGB texture handles hold the same image.
pub open spec fn rgb_value_eq(
    a: Option<Arc<crate::texture::RgbTexture>>,
    b: Option<Arc<crate::texture::RgbTexture>>,
) -> bool {
    match (a, b) {
        (None, None) => true,
        (Some(x), Some(y)) => x.width == y.width && x.height == y.height && x.pixels@ == y.pixels@,
        _ => false,
    }
}

/// Two single-channel texture handles hold the same image.
pub open spec fn gray_value_eq(
    a: Option<Arc<crate::texture::GrayTexture>>,
    b: Option<Arc<crate::texture::GrayTexture>>,
) -> bool {
    match (a, b) {
        (None, None) => true,
        (Some(x), Some(y)) => x.width == y.width && x.height == y.height && x.pixels@ == y.pixels@,
        _ => false,
    }
}

/// Two materials are value-equal: same factors and, texture by texture,
/// the same decoded pixels — though not necessarily the same shared
/// allocations.
pub open spec fn material_value_eq(a: Material, b: Material) -> bool {
    &&& a.pbr.base_color_factor == b.pbr.base_color_factor
    &&& a.pbr.metallic_factor == b.pbr.metallic_factor
    &&& a.pbr.roughness_factor == b.pbr.roughness_factor
    &&& a.pbr.mapper == b.pbr.mapper
    &&& rgba_value_eq(a.pbr.base_color_texture, b.pbr.base_color_texture)
    &&& gray_value_eq(a.pbr.metallic_texture, b.pbr.metallic_texture)
    &&& gray_value_eq(a.pbr.roughness_texture, b.pbr.roughness_texture)
    &&& match (a.normal, b.normal) {
        (None, None) => true,
        (Some(x), Some(y)) => x.factor == y.factor && rgb_value_eq(
            Some(x.texture),
            Some(y.texture),
        ),
        _ => false,
    }
    &&& match (a.occlusion, b.occlusion) {
        (None, None) => true,
        (Some(x), Some(y)) => x.factor == y.factor && x.mapper == y.mapper && gray_value_eq(
            Some(x.texture),
            Some(y.texture),
        ),
        _ => false,
    }
    &&& a.emissive.factor == b.emissive.factor
    &&& rgb_value_eq(a.emissive.texture, b.emissive.texture)
    &&& a.alpha_cutoff == b.alpha_cutoff
}

/// Loading is reproducible: two materials loaded for the same source
/// reference over the same document tables — in one cache or in two
/// independent ones — are value-equal, factors and decoded pixels alike.
pub proof fn lemma_material_value_reproducible(
    m1: Arc<Material>,
    m2: Arc<Material>,
    d1: GltfData,
    d2: GltfData,
    index: Option<usize>,
)
    requires
        material_matches(*m1, d1, index),
        material_matches(*m2, d2, index),
        d1.same_doc(d2),
    ensures
        material_value_eq(*m1, *m2),
{
    lemma_material_matches_same_doc(m1, d1, d2, index);
}

/// A cached material witnesses that its own load succeeds: every texture
/// it holds decoded once, so it decodes.
pub proof fn lemma_material_matches_implies_ok(m: Arc<Material>, d: GltfData, index: Option<usize>)
    requires
        material_matches(*m, d, index),
    ensures
        material_ok(d, index),
{
}

impl Material {
    /// The default material: default PBR parameters, no normal or
    /// occlusion maps, no emission, and an alpha cutoff of one half.
    pub open spec fn default_spec() -> Material {
        Material {
            pbr: PbrMaterial::default_spec(),
            normal: None,
            occlusion: None,
            emissive: Emissive::default_spec(),
            alpha_cutoff: F32_HALF_BITS,
        }
    }

    /// Resolves a material reference through the cache: on a hit the
    /// existing shared handle is returned and nothing is re-decoded; on a
    /// miss the material is built from its table entry (or the default
    /// entry, for `None`), cached, and returned.
    pub fn load(index: Option<usize>, data: &mut GltfData) -> (r: Result<Arc<Material>, LoadError>)
        requires
            old(data).wf(),
            index matches Some(i) ==> i < old(data).material_descs@.len(),
        ensures
            final(data).wf(),
            final(data).same_doc(*old(data)),
            (r is Ok) == material_ok(*old(data), index),
            r matches Ok(m) ==> material_matches(*m, *final(data), index) && (exists|j: int|
                0 <= j < final(data).materials@.len() && final(data).materials@[j] == (index, m)),
            r matches Err(e) ==> e == LoadError::TextureDecode,
            (exists|j: int|
                0 <= j < old(data).materials@.len() && (#[trigger] old(
                    data,
                ).materials@[j]).0 == index) ==> *final(data) == *old(data),
            r matches Ok(m) ==> ((forall|j: int|
                0 <= j < old(data).materials@.len() ==> (#[trigger] old(
                    data,
                ).materials@[j]).0 != index) ==> final(data).materials@ == old(
                data,
            ).materials@.push((index, m))),
    {
        let n = data.materials.len();
        let mut i: usize = 0;
        while i < n
            invariant
                *data == *old(data),
                old(data).wf(),
                index matches Some(i2) ==> i2 < old(data).material_descs@.len(),
                n == data.materials@.len(),
                i <= n,
                forall|j: int| 0 <= j < i ==> (#[trigger] data.materials@[j]).0 != index,
            decreases n - i,
        {
            let hit = match (&data.materials[i].0, &index) {
                (None, None) => true,
                (Some(a), Some(b)) => *a == *b,
                _ => false,
            };
            if hit {
                let h = data.materials[i].1.clone();
                proof {
                    let jj = i as int;
                    assert(material_matches(*data.materials@[jj].1, *data, data.materials@[jj].0));
                    assert(data.materials@[jj] == (index, h));
                    lemma_material_matches_implies_ok(h, *data, index);
                }
                return Ok(h);
            }
            i = i + 1;
        }
        let desc: MaterialDesc = match index {
            Some(idx) => data.material_descs[idx],
            None => MaterialDesc::default(),
        };
        let pbr = match PbrMaterial::load(&desc, data) {
            Ok(p) => p,
            Err(e) => {
                return Err(e);
            },
        };
        let ghost d1 = *data;
        let normal = match NormalMap::load(&desc, data) {
            Ok(o) => o,
            Err(e) => {
                proof {
                    if old(data).load_textures {
                        if let Some(tf) = desc.normal_texture {
                            d1.lemma_rgb_ok_same_doc(*old(data), tf.texture as int);
                        }
                    }
                }
                return Err(e);
            },
        };
        let ghost d2 = *data;
        let occlusion = match Occlusion::load(&desc, data) {
            Ok(o) => o,
            Err(e) => {
                proof {
                    if old(data).load_textures {
                        if let Some(tf) = desc.occlusion_texture {
                            d2.lemma_rgba_ok_same_doc(*old(data), tf.texture as int);
                        }
                    }
                }
                return Err(e);
            },
        };
        let ghost d3 = *data;
        let emissive = match Emissive::load(&desc, data) {
            Ok(em) => em,
            Err(e) => {
                proof {
                    if old(data).load_textures {
                        if let Some(t) = desc.emissive_texture {
                            d3.lemma_rgb_ok_same_doc(*old(data), t as int);
                        }
                    }
                }
                return Err(e);
            },
        };
        let material = Arc::new(
            Material { pbr, normal, occlusion, emissive, alpha_cutoff: desc.alpha_cutoff },
        );
        proof {
            pbr::lemma_pbr_matches_same_doc(pbr, d1, *data, desc);
            normal::lemma_normal_matches_same_doc(normal, d2, *data, desc);
            occlusion::lemma_occlusion_matches_same_doc(occlusion, d3, *data, desc);
            assert(material_desc_matches(*material, *data, desc));
            // success of every texture load, carried back to the initial state
            if old(data).load_textures {
                if let Some(tf) = desc.normal_texture {
                    d1.lemma_rgb_ok_same_doc(*old(data), tf.texture as int);
                }
                if let Some(tf) = desc.occlusion_texture {
                    d2.lemma_rgba_ok_same_doc(*old(data), tf.texture as int);
                }
                if let Some(t) = desc.emissive_texture {
                    d3.lemma_rgb_ok_same_doc(*old(data), t as int);
                }
            }
            assert(material_ok(*old(data), index));
        }
        let ghost d4 = *data;
        data.materials.push((index, material.clone()));
        proof {
            crate::utils::gltf_data::lemma_rgb_entries_same_doc(d4, *data, data.rgb_images@);
            crate::utils::gltf_data::lemma_rgba_entries_same_doc(d4, *data, data.rgba_images@);
            crate::utils::gltf_data::lemma_gray_entries_same_doc(d4, *data, data.gray_images@);
            crate::utils::gltf_data::lemma_material_entries_same_doc(d4, *data, d4.materials@);
            let m = data.materials@.len() - 1;
            assert(data.materials@[m] == (index, material));
            assert(material_matches(*material, d4, index));
            lemma_material_matches_same_doc(material, d4, *data, index);
            assert forall|j: int|
                0 <= j < data.materials@.len() implies material_matches(
                *(#[trigger] data.materials@[j]).1,
                *data,
                data.materials@[j].0,
            ) by {
                if j < m {
                    assert(data.materials@[j] == d4.materials@[j]);
                    assert(crate::utils::gltf_data::material_entries_ok(*data, d4.materials@));
                }
            }
            assert(data.materials@ == old(data).materials@.push((index, material)));
            assert forall|j1: int, j2: int|
                0 <= j1 < j2 < data.materials@.len() implies (#[trigger] data.materials@[j1]).0
                != (#[trigger] data.materials@[j2]).0 by {
                if j2 < m {
                    assert(d4.materials@[j1].0 != d4.materials@[j2].0);
                } else {
                    assert(data.materials@[j1] == d4.materials@[j1]);
                    assert(d4.materials@[j1] == old(data).materials@[j1]);
                }
            }
        }
        Ok(material)
    }
}

impl Default for Material {
    /// Default PBR parameters, no normal or occlusion maps, no emission,
    /// and the default alpha cutoff of one half.
    fn default() -> (r: Material)
        ensures
            r == Material::default_spec(),
    {
        Material {
            pbr: PbrMaterial::default(),
            normal: None,
            occlusion: None,
            emissive: Emissive::default(),
            alpha_cutoff: F32_HALF_BITS,
        }
    }
}

} // verus!
