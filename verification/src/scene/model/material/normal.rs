//! Normal maps.

use std::sync::Arc;
use vstd::prelude::*;

use crate::document::MaterialDesc;
use crate::texture::RgbTexture;
use crate::utils::GltfData;
use crate::LoadError;

verus! {

/// Defines the normal texture of a material: a tangent-space normal map.
/// Each texel holds the XYZ components of a normal vector, with red/green
/// mapping [0, 255] to [-1, 1] and blue mapping [128, 255] to [1/255, 1].
#[derive(Clone, Debug)]
pub struct NormalMap {
    /// The normal map image.
    pub texture: Arc<RgbTexture>,

    /// The normal strength to be applied to the texture value.
    pub factor: u32,
}

/// True when `nm` is the normal map `desc` references — the RGB decode of
/// the named texture with the strength scalar copied — or is absent
/// exactly when `desc` references none or `d` skips textures.
pub open spec fn normal_matches(nm: Option<NormalMap>, d: GltfData, desc: MaterialDesc) -> bool {
    match (d.load_textures, desc.normal_texture) {
        (true, Some(tf)) => nm matches Some(n) && (*n.texture).wf() && d.rgb_texture_matches(
            *n.texture,
            tf.texture as int,
        ) && n.factor == tf.factor,
        _ => nm is None,
    }
}

/// The normal map depends on the document tables only, so it carries over
/// between states that share them.
pub proof fn lemma_normal_matches_same_doc(
    nm: Option<NormalMap>,
    d1: GltfData,
    d2: GltfData,
    desc: MaterialDesc,
)
    requires
        normal_matches(nm, d1, desc),
        d1.same_doc(d2),
    ensures
        normal_matches(nm, d2, desc),
{
    if d1.load_textures {
        if let Some(tf) = desc.normal_texture {
            d1.lemma_texture_bytes_same_doc(d2, tf.texture as int);
        }
    }
}

impl NormalMap {
    /// Loads the normal map `desc` references, if any, through the shared
    /// caches of `data`.
    pub(crate) fn load(desc: &MaterialDesc, data: &mut GltfData) -> (r: Result<
        Option<NormalMap>,
        LoadError,
    >)
        requires
            old(data).wf(),
        ensures
            final(data).wf(),
            final(data).same_doc(*old(data)),
            final(data).materials == old(data).materials,
            (r is Ok) == (old(data).load_textures ==> (desc.normal_texture matches Some(tf) ==> old(
                data,
            ).rgb_texture_ok(tf.texture as int))),
            r matches Ok(nm) ==> normal_matches(nm, *final(data), *desc),
            r matches Err(e) ==> e == LoadError::TextureDecode,
    {
        if !data.load_textures {
            return Ok(None);
        }
        match desc.normal_texture {
            Some(tf) => match data.load_rgb_image(tf.texture) {
                Ok(h) => Ok(Some(NormalMap { texture: h, factor: tf.factor })),
                Err(e) => Err(e),
            },
            None => Ok(None),
        }
    }
}

} // verus!
