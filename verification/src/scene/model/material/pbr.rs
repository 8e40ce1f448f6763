//! The metallic-roughness part of a material.

use std::sync::Arc;
use vstd::prelude::*;

use super::mapper::Mapper;
use crate::document::MaterialDesc;
use crate::texture::{GrayTexture, RgbaTexture};
use crate::utils::GltfData;
use crate::vector::Vec4;
use crate::F32_ONE_BITS;
use crate::LoadError;

verus! {

/// True when `p` carries the factors of `desc` verbatim and, when `d`
/// decodes textures, the decoded base-color image plus the green-channel
/// (roughness) and blue-channel (metalness) extractions of the packed
/// metallic-roughness texture; without textures every texture field is
/// absent.
pub open spec fn pbr_matches(p: PbrMaterial, d: GltfData, desc: MaterialDesc) -> bool {
    &&& p.base_color_factor == desc.base_color_factor
    &&& p.metallic_factor == desc.metallic_factor
    &&& p.roughness_factor == desc.roughness_factor
    &&& p.mapper == Mapper::default_spec()
    &&& match (d.load_textures, desc.base_color_texture) {
        (true, Some(t)) => p.base_color_texture matches Some(h) && (*h).wf()
            && d.rgba_texture_matches(*h, t as int),
        _ => p.base_color_texture is None,
    }
    &&& match (d.load_textures, desc.metallic_roughness_texture) {
        (true, Some(t)) => (p.metallic_texture matches Some(h) && (*h).wf()
            && d.gray_texture_matches(*h, t as int, 2)) && (p.roughness_texture matches Some(h2)
            && (*h2).wf() && d.gray_texture_matches(*h2, t as int, 1)),
        _ => p.metallic_texture is None && p.roughness_texture is None,
    }
}

/// A set of parameter values that define the metallic-roughness material
/// model from Physically-Based Rendering (PBR) methodology. Scalars are
/// 32-bit encodings of single-precision values.
#[derive(Clone, Debug)]
pub struct PbrMaterial {
    /// The `base_color_factor` contains scaling factors for the red, green,
    /// blue and alpha component of the color. If no texture is used, these
    /// values define the color of the whole object.
    pub base_color_factor: Vec4,

    /// The `base_color_texture` is the main texture that will be applied to
    /// the object. It contains RGB(A) components in sRGB color space.
    pub base_color_texture: Option<Arc<RgbaTexture>>,

    /// Contains the metalness value per pixel.
    pub metallic_texture: Option<Arc<GrayTexture>>,

    /// `metallic_factor` is multiplied with the `metallic_texture` value.
    /// If no texture is given, the factor defines the metalness for the
    /// whole object.
    pub metallic_factor: u32,

    /// Contains the roughness value per pixel.
    pub roughness_texture: Option<Arc<GrayTexture>>,

    /// `roughness_factor` is multiplied with the `roughness_texture` value.
    /// If no texture is given, the factor defines the roughness for the
    /// whole object.
    pub roughness_factor: u32,

    /// Mapper to apply a scale and offset on textures.
    pub mapper: Mapper,
}

impl PbrMaterial {
    /// The default PBR parameters: white base color, no textures, zero
    /// metalness and roughness.
    pub open spec fn default_spec() -> PbrMaterial {
        PbrMaterial {
            base_color_factor: Vec4 {
                x: F32_ONE_BITS,
                y: F32_ONE_BITS,
                z: F32_ONE_BITS,
                w: F32_ONE_BITS,
            },
            base_color_texture: None,
            metallic_texture: None,
            metallic_factor: 0,
            roughness_texture: None,
            roughness_factor: 0,
            mapper: Mapper::default_spec(),
        }
    }
}

/// The metallic-roughness parameters depend on the document tables only,
/// so they carry over between states that share them.
pub proof fn lemma_pbr_matches_same_doc(p: PbrMaterial, d1: GltfData, d2: GltfData, desc: MaterialDesc)
    requires
        pbr_matches(p, d1, desc),
        d1.same_doc(d2),
    ensures
        pbr_matches(p, d2, desc),
{
    if d1.load_textures {
        if let Some(t) = desc.base_color_texture {
            d1.lemma_texture_bytes_same_doc(d2, t as int);
        }
        if let Some(t) = desc.metallic_roughness_texture {
            d1.lemma_texture_bytes_same_doc(d2, t as int);
        }
    }
}

impl PbrMaterial {
    /// Loads the metallic-roughness parameters of `desc`: factors are
    /// copied, the base-color texture is decoded as RGBA, and the packed
    /// metallic-roughness texture is decoded once and split into its blue
    /// (metalness) and green (roughness) channels — all through the shared
    /// caches of `data`.
    pub(crate) fn load(desc: &MaterialDesc, data: &mut GltfData) -> (r: Result<
        PbrMaterial,
        LoadError,
    >)
        requires
            old(data).wf(),
        ensures
            final(data).wf(),
            final(data).same_doc(*old(data)),
            final(data).materials == old(data).materials,
            (r is Ok) == (old(data).load_textures ==> (desc.base_color_texture matches Some(t)
                ==> old(data).rgba_texture_ok(t as int)) && (desc.metallic_roughness_texture
                matches Some(t) ==> old(data).rgba_texture_ok(t as int))),
            r matches Ok(p) ==> pbr_matches(p, *final(data), *desc),
            r matches Err(e) ==> e == LoadError::TextureDecode,
    {
        let mut material = PbrMaterial::default();
        material.base_color_factor = desc.base_color_factor;
        material.roughness_factor = desc.roughness_factor;
        material.metallic_factor = desc.metallic_factor;
        if data.load_textures {
            if let Some(t) = desc.base_color_texture {
                match data.load_base_color_image(t) {
                    Ok(h) => {
                        material.base_color_texture = Some(h);
                    },
                    Err(e) => {
                        return Err(e);
                    },
                }
            }
            if let Some(t) = desc.metallic_roughness_texture {
                match data.load_gray_image(t, 2) {
                    Ok(h) => {
                        material.metallic_texture = Some(h);
                    },
                    Err(e) => {
                        return Err(e);
                    },
                }
                match data.load_gray_image(t, 1) {
                    Ok(h) => {
                        material.roughness_texture = Some(h);
                    },
                    Err(e) => {
                        return Err(e);
                    },
                }
            }
        }
        Ok(material)
    }
}

impl Default for PbrMaterial {
    /// White base color, no textures, zero metalness and roughness.
    fn default() -> (r: PbrMaterial)
        ensures
            r == PbrMaterial::default_spec(),
    {
        PbrMaterial {
            base_color_factor: Vec4 {
                x: F32_ONE_BITS,
                y: F32_ONE_BITS,
                z: F32_ONE_BITS,
                w: F32_ONE_BITS,
            },
            base_color_texture: None,
            metallic_texture: None,
            metallic_factor: 0,
            roughness_texture: None,
            roughness_factor: 0,
            mapper: Mapper::default(),
        }
    }
}

} // verus!
