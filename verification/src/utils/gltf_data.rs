//! Document tables and the content-addressed decode caches.
//!
//! `GltfData` owns the binary buffers, image sources, texture table and
//! material table of one document, together with four caches keyed by
//! source indices: decoded materials, RGB images, RGBA images and
//! single-channel extractions. Within one load, every key is resolved at
//! most once; a second request returns the shared handle made by the
//! first.

use std::sync::Arc;
use vstd::prelude::*;

use base64::Engine;
use vstd::string::StringSliceAdditionalSpecFns;

use crate::document::{ImageSource, MaterialDesc};
use crate::scene::model::material::Material;
use crate::scene::model::material::material_matches;
use crate::texture::{
    channel_plane, is_rgb_decode_of, is_rgba_decode_of, rgb_decoding, rgba_decoding, decode_rgb,
    decode_rgba, extract_channel, GrayTexture, ImageKind, RgbTexture, RgbaTexture,
};
use crate::LoadError;

verus! {

/// The byte value of `,`.
pub const COMMA_BYTE: u8 = 44;

/// The byte value of `:`.
pub const COLON_BYTE: u8 = 58;

/// The byte value of `;`.
pub const SEMICOLON_BYTE: u8 = 59;

/// The position of the first occurrence of `b` in `s`, if any.
pub open spec fn byte_position(s: Seq<u8>, b: u8) -> Option<int>
    decreases s.len(),
{
    if s.len() == 0 {
        None
    } else if s[0] == b {
        Some(0)
    } else {
        match byte_position(s.subrange(1, s.len() as int), b) {
            Some(i) => Some(i + 1),
            None => None,
        }
    }
}

proof fn lemma_byte_position(s: Seq<u8>, b: u8, i: int)
    requires
        0 <= i <= s.len(),
        forall|j: int| 0 <= j < i ==> s[j] != b,
        i < s.len() ==> s[i] == b,
    ensures
        byte_position(s, b) == if i < s.len() {
            Some(i)
        } else {
            None::<int>
        },
    decreases i,
{
    if s.len() == 0 {
    } else if i == 0 {
    } else {
        let t = s.subrange(1, s.len() as int);
        assert(forall|j: int| 0 <= j < i - 1 ==> t[j] == s[j + 1]);
        lemma_byte_position(t, b, i - 1);
    }
}

/// Scans `s` for the first occurrence of `b`.
fn find_byte(s: &[u8], b: u8) -> (r: Option<usize>)
    ensures
        match r {
            Some(i) => byte_position(s@, b) == Some(i as int) && i < s@.len(),
            None => byte_position(s@, b) is None,
        },
{
    let n = s.len();
    let mut i: usize = 0;
    while i < n
        invariant
            n == s@.len(),
            i <= n,
            forall|j: int| 0 <= j < i ==> s@[j] != b,
        decreases n - i,
    {
        if s[i] == b {
            proof {
                lemma_byte_position(s@, b, i as int);
            }
            return Some(i);
        }
        i = i + 1;
    }
    proof {
        lemma_byte_position(s@, b, s@.len() as int);
    }
    None
}

/// Compares two byte strings for equality.
fn bytes_eq(a: &[u8], b: &[u8]) -> (r: bool)
    ensures
        r == (a@ == b@),
{
    if a.len() != b.len() {
        return false;
    }
    let n = a.len();
    let mut i: usize = 0;
    while i < n
        invariant
            n == a@.len() == b@.len(),
            i <= n,
            forall|j: int| 0 <= j < i ==> a@[j] == b@[j],
        decreases n - i,
    {
        if a[i] != b[i] {
            return false;
        }
        i = i + 1;
    }
    proof {
        assert(a@ =~= b@);
    }
    true
}

/// The image format a MIME type names, if the crate knows it.
pub open spec fn mime_kind(m: Seq<u8>) -> Option<ImageKind> {
    if m == "image/png".spec_bytes() {
        Some(ImageKind::Png)
    } else if m == "image/jpeg".spec_bytes() {
        Some(ImageKind::Jpeg)
    } else if m == "image/gif".spec_bytes() {
        Some(ImageKind::Gif)
    } else if m == "image/bmp".spec_bytes() {
        Some(ImageKind::Bmp)
    } else if m == "image/webp".spec_bytes() {
        Some(ImageKind::WebP)
    } else {
        None
    }
}

/// Maps a MIME type to the image format it names.
fn mime_kind_of(m: &[u8]) -> (r: Option<ImageKind>)
    ensures
        r == mime_kind(m@),
{
    if bytes_eq(m, "image/png".as_bytes()) {
        Some(ImageKind::Png)
    } else if bytes_eq(m, "image/jpeg".as_bytes()) {
        Some(ImageKind::Jpeg)
    } else if bytes_eq(m, "image/gif".as_bytes()) {
        Some(ImageKind::Gif)
    } else if bytes_eq(m, "image/bmp".as_bytes()) {
        Some(ImageKind::Bmp)
    } else if bytes_eq(m, "image/webp".as_bytes()) {
        Some(ImageKind::WebP)
    } else {
        None
    }
}

/// What decoding `s` as unpadded URL-safe base64 yields: `None` when `s` is
/// not valid base64 in that alphabet.
pub uninterp spec fn base64_url_decoding(s: Seq<u8>) -> Option<Seq<u8>>;

/// Relies on the `base64` crate's `URL_SAFE_NO_PAD` engine: decoding is a
/// pure function of the input bytes, and it fails exactly on input that is
/// not valid unpadded URL-safe base64.
#[verifier::external_body]
fn decode_base64(s: &[u8]) -> (r: Result<Vec<u8>, LoadError>)
    ensures
        r matches Ok(b) ==> base64_url_decoding(s@) == Some(b@),
        r matches Err(e) ==> base64_url_decoding(s@) is None && e == LoadError::TextureDecode,
{
    match base64::engine::general_purpose::URL_SAFE_NO_PAD.decode(s) {
        Ok(b) => Ok(b),
        Err(_) => Err(LoadError::TextureDecode),
    }
}

/// Every RGBA cache entry is well-formed and the decode of its key, under
/// the document tables of `d`.
pub open spec fn rgba_entries_ok(d: GltfData, entries: Seq<(usize, Arc<RgbaTexture>)>) -> bool {
    forall|j: int|
        0 <= j < entries.len() ==> (#[trigger] entries[j]).1.wf() && d.rgba_texture_matches(
            *entries[j].1,
            entries[j].0 as int,
        )
}

/// Every RGB cache entry is well-formed and the decode of its key, under
/// the document tables of `d`.
pub open spec fn rgb_entries_ok(d: GltfData, entries: Seq<(usize, Arc<RgbTexture>)>) -> bool {
    forall|j: int|
        0 <= j < entries.len() ==> (#[trigger] entries[j]).1.wf() && d.rgb_texture_matches(
            *entries[j].1,
            entries[j].0 as int,
        )
}

/// Every single-channel cache entry is well-formed and the channel
/// extraction of its key, under the document tables of `d`.
pub open spec fn gray_entries_ok(d: GltfData, entries: Seq<((usize, usize), Arc<GrayTexture>)>) -> bool {
    forall|j: int|
        0 <= j < entries.len() ==> (#[trigger] entries[j]).1.wf() && d.gray_texture_matches(
            *entries[j].1,
            entries[j].0.0 as int,
            entries[j].0.1 as int,
        )
}

/// Every material cache entry is the material its key names, under the
/// document tables of `d`.
pub open spec fn material_entries_ok(
    d: GltfData,
    entries: Seq<(Option<usize>, Arc<Material>)>,
) -> bool {
    forall|j: int|
        0 <= j < entries.len() ==> material_matches(
            *(#[trigger] entries[j]).1,
            d,
            entries[j].0,
        )
}

/// No two RGBA cache entries share a key.
pub open spec fn rgba_keys_unique(entries: Seq<(usize, Arc<RgbaTexture>)>) -> bool {
    forall|j1: int, j2: int|
        0 <= j1 < j2 < entries.len() ==> (#[trigger] entries[j1]).0 != (#[trigger] entries[j2]).0
}

/// No two RGB cache entries share a key.
pub open spec fn rgb_keys_unique(entries: Seq<(usize, Arc<RgbTexture>)>) -> bool {
    forall|j1: int, j2: int|
        0 <= j1 < j2 < entries.len() ==> (#[trigger] entries[j1]).0 != (#[trigger] entries[j2]).0
}

/// No two single-channel cache entries share a key.
pub open spec fn gray_keys_unique(entries: Seq<((usize, usize), Arc<GrayTexture>)>) -> bool {
    forall|j1: int, j2: int|
        0 <= j1 < j2 < entries.len() ==> (#[trigger] entries[j1]).0 != (#[trigger] entries[j2]).0
}

/// No two material cache entries share a key.
pub open spec fn material_keys_unique(entries: Seq<(Option<usize>, Arc<Material>)>) -> bool {
    forall|j1: int, j2: int|
        0 <= j1 < j2 < entries.len() ==> (#[trigger] entries[j1]).0 != (#[trigger] entries[j2]).0
}

/// Cache correctness depends on the document tables only, so it carries
/// over between states that share them.
pub proof fn lemma_rgba_entries_same_doc(
    d1: GltfData,
    d2: GltfData,
    entries: Seq<(usize, Arc<RgbaTexture>)>,
)
    requires
        rgba_entries_ok(d1, entries),
        d1.same_doc(d2),
    ensures
        rgba_entries_ok(d2, entries),
{
    assert forall|j: int|
        0 <= j < entries.len() implies (#[trigger] entries[j]).1.wf() && d2.rgba_texture_matches(
        *entries[j].1,
        entries[j].0 as int,
    ) by {
        assert(entries[j].1.wf() && d1.rgba_texture_matches(*entries[j].1, entries[j].0 as int));
        d1.lemma_texture_bytes_same_doc(d2, entries[j].0 as int);
    }
}

/// Cache correctness depends on the document tables only, so it carries
/// over between states that share them.
pub proof fn lemma_rgb_entries_same_doc(
    d1: GltfData,
    d2: GltfData,
    entries: Seq<(usize, Arc<RgbTexture>)>,
)
    requires
        rgb_entries_ok(d1, entries),
        d1.same_doc(d2),
    ensures
        rgb_entries_ok(d2, entries),
{
    assert forall|j: int|
        0 <= j < entries.len() implies (#[trigger] entries[j]).1.wf() && d2.rgb_texture_matches(
        *entries[j].1,
        entries[j].0 as int,
    ) by {
        assert(entries[j].1.wf() && d1.rgb_texture_matches(*entries[j].1, entries[j].0 as int));
        d1.lemma_texture_bytes_same_doc(d2, entries[j].0 as int);
    }
}

/// Cache correctness depends on the document tables only, so it carries
/// over between states that share them.
pub proof fn lemma_gray_entries_same_doc(
    d1: GltfData,
    d2: GltfData,
    entries: Seq<((usize, usize), Arc<GrayTexture>)>,
)
    requires
        gray_entries_ok(d1, entries),
        d1.same_doc(d2),
    ensures
        gray_entries_ok(d2, entries),
{
    assert forall|j: int|
        0 <= j < entries.len() implies (#[trigger] entries[j]).1.wf() && d2.gray_texture_matches(
        *entries[j].1,
        entries[j].0.0 as int,
        entries[j].0.1 as int,
    ) by {
        assert(entries[j].1.wf() && d1.gray_texture_matches(
            *entries[j].1,
            entries[j].0.0 as int,
            entries[j].0.1 as int,
        ));
        d1.lemma_texture_bytes_same_doc(d2, entries[j].0.0 as int);
    }
}

/// Cache correctness depends on the document tables only, so it carries
/// over between states that share them.
pub proof fn lemma_material_entries_same_doc(
    d1: GltfData,
    d2: GltfData,
    entries: Seq<(Option<usize>, Arc<Material>)>,
)
    requires
        material_entries_ok(d1, entries),
        d1.same_doc(d2),
    ensures
        material_entries_ok(d2, entries),
{
    assert forall|j: int|
        0 <= j < entries.len() implies material_matches(
        *(#[trigger] entries[j]).1,
        d2,
        entries[j].0,
    ) by {
        assert(material_matches(*entries[j].1, d1, entries[j].0));
        crate::scene::model::material::lemma_material_matches_same_doc(
            entries[j].1,
            d1,
            d2,
            entries[j].0,
        );
    }
}

/// Helps to simplify the signature of import-related functions: the
/// document's shared tables, plus the caches that deduplicate decoded
/// materials and images across the whole document load.
pub struct GltfData {
    /// Binary buffers of the document.
    pub buffers: Vec<Vec<u8>>,
    /// Image sources of the document.
    pub images: Vec<ImageSource>,
    /// Texture table: the image index each texture refers to.
    pub textures: Vec<usize>,
    /// Material table of the document.
    pub material_descs: Vec<MaterialDesc>,
    /// Whether textures are decoded at all; when false, loaded materials
    /// carry factors only and every texture field stays absent.
    pub load_textures: bool,
    /// Cache of loaded materials, keyed by source material index (`None`
    /// is the document's default material).
    pub materials: Vec<(Option<usize>, Arc<Material>)>,
    /// Cache of decoded RGB images, keyed by texture index.
    pub rgb_images: Vec<(usize, Arc<RgbTexture>)>,
    /// Cache of decoded RGBA images, keyed by texture index.
    pub rgba_images: Vec<(usize, Arc<RgbaTexture>)>,
    /// Cache of single-channel extractions, keyed by texture index and
    /// channel.
    pub gray_images: Vec<((usize, usize), Arc<GrayTexture>)>,
}

impl GltfData {
    /// The encoded bytes and format of one image source, if it resolves:
    /// a buffer view is sliced out of its buffer, a `data:` URI is split
    /// at its first comma and its payload base64-decoded (the MIME type
    /// comes from the document or, failing that, from between the `:` and
    /// `;` of the URI head), and pre-read file bytes stand as they are.
    pub open spec fn source_bytes(self, src: ImageSource) -> Option<(Seq<u8>, ImageKind)> {
        match src {
            ImageSource::View { buffer, offset, length, mime } => {
                if buffer < self.buffers@.len() && offset + length
                    <= self.buffers@[buffer as int]@.len() {
                    match mime_kind(mime@) {
                        Some(k) => Some(
                            (
                                self.buffers@[buffer as int]@.subrange(
                                    offset as int,
                                    offset as int + length as int,
                                ),
                                k,
                            ),
                        ),
                        None => None,
                    }
                } else {
                    None
                }
            },
            ImageSource::DataUri { uri, mime } => match byte_position(uri@, COMMA_BYTE) {
                Some(p) => {
                    let rest = uri@.skip(p + 1);
                    let payload = match byte_position(rest, COMMA_BYTE) {
                        Some(q) => rest.take(q),
                        None => rest,
                    };
                    let mime_bytes = match mime {
                        Some(m) => Some(m@),
                        None => {
                            let head = uri@.take(p);
                            match byte_position(head, COLON_BYTE) {
                                Some(c) => {
                                    let after = head.skip(c + 1);
                                    Some(
                                        match byte_position(after, SEMICOLON_BYTE) {
                                            Some(s2) => after.take(s2),
                                            None => after,
                                        },
                                    )
                                },
                                None => None,
                            }
                        },
                    };
                    match mime_bytes {
                        Some(mb) => match mime_kind(mb) {
                            Some(k) => match base64_url_decoding(payload) {
                                Some(bs) => Some((bs, k)),
                                None => None,
                            },
                            None => None,
                        },
                        None => None,
                    }
                },
                None => None,
            },
            ImageSource::Bytes { bytes, format } => Some((bytes@, format)),
        }
    }

    /// The encoded bytes and format of texture `t`, if the texture and its
    /// image source resolve.
    pub open spec fn texture_bytes(self, t: int) -> Option<(Seq<u8>, ImageKind)> {
        if 0 <= t < self.textures@.len() && (self.textures@[t] as int) < self.images@.len() {
            self.source_bytes(self.images@[self.textures@[t] as int])
        } else {
            None
        }
    }

    /// True when `img` is the RGBA decode of texture `tex`.
    pub open spec fn rgba_texture_matches(self, img: RgbaTexture, tex: int) -> bool {
        match self.texture_bytes(tex) {
            Some((b, k)) => is_rgba_decode_of(img, b, k),
            None => false,
        }
    }

    /// True when `img` is the RGB decode of texture `tex`.
    pub open spec fn rgb_texture_matches(self, img: RgbTexture, tex: int) -> bool {
        match self.texture_bytes(tex) {
            Some((b, k)) => is_rgb_decode_of(img, b, k),
            None => false,
        }
    }

    /// True when `img` holds channel `channel` of the RGBA decode of
    /// texture `tex`.
    pub open spec fn gray_texture_matches(self, img: GrayTexture, tex: int, channel: int) -> bool {
        match self.texture_bytes(tex) {
            Some((b, k)) => match rgba_decoding(b, k) {
                Some(d) => img.width == d.0 && img.height == d.1 && img.pixels@ == channel_plane(
                    d.2,
                    channel,
                ),
                None => false,
            },
            None => false,
        }
    }

    /// True when texture `tex` resolves and its bytes decode as RGBA.
    pub open spec fn rgba_texture_ok(self, tex: int) -> bool {
        match self.texture_bytes(tex) {
            Some((b, k)) => rgba_decoding(b, k) is Some,
            None => false,
        }
    }

    /// True when texture `tex` resolves and its bytes decode as RGB.
    pub open spec fn rgb_texture_ok(self, tex: int) -> bool {
        match self.texture_bytes(tex) {
            Some((b, k)) => rgb_decoding(b, k) is Some,
            None => false,
        }
    }

    /// The two values share the same document tables; only the caches may
    /// differ.
    pub open spec fn same_doc(self, other: GltfData) -> bool {
        &&& self.buffers == other.buffers
        &&& self.images == other.images
        &&& self.textures == other.textures
        &&& self.material_descs == other.material_descs
        &&& self.load_textures == other.load_textures
    }

    /// Every cache entry is the decode its key names, and no key appears
    /// twice: together, the at-most-once invariant. Every loading method
    /// preserves it, so a repeated request returns the one entry its key
    /// has.
    pub open spec fn wf(self) -> bool {
        &&& rgba_entries_ok(self, self.rgba_images@)
        &&& rgb_entries_ok(self, self.rgb_images@)
        &&& gray_entries_ok(self, self.gray_images@)
        &&& material_entries_ok(self, self.materials@)
        &&& rgba_keys_unique(self.rgba_images@)
        &&& rgb_keys_unique(self.rgb_images@)
        &&& gray_keys_unique(self.gray_images@)
        &&& material_keys_unique(self.materials@)
    }

    /// Texture resolution reads the document tables only, so it carries
    /// over between states that share them.
    pub proof fn lemma_texture_bytes_same_doc(self, other: GltfData, tex: int)
        requires
            self.same_doc(other),
        ensures
            self.texture_bytes(tex) == other.texture_bytes(tex),
    {
        if 0 <= tex < self.textures@.len() && (self.textures@[tex] as int) < self.images@.len() {
            assert(self.source_bytes(self.images@[self.textures@[tex] as int])
                == other.source_bytes(other.images@[other.textures@[tex] as int]));
        }
    }

    /// Channel-extraction correctness: a single-channel image cached for
    /// `(tex, channel)` holds, at pixel `(x, y)`, exactly channel
    /// `channel` of the full four-channel decode of that texture at
    /// `(x, y)`.
    pub proof fn lemma_gray_pixel_is_channel(
        self,
        g: GrayTexture,
        tex: int,
        channel: int,
        x: int,
        y: int,
    )
        requires
            self.gray_texture_matches(g, tex, channel),
            g.wf(),
            0 <= channel < 4,
            0 <= x < g.width,
            0 <= y < g.height,
        ensures
            match self.texture_bytes(tex) {
                Some((b, k)) => match rgba_decoding(b, k) {
                    Some(dec) => g.width == dec.0 && g.height == dec.1 && g.pixels@[y * g.width + x]
                        == dec.2[4 * (y * g.width + x) + channel],
                    None => false,
                },
                None => false,
            },
    {
        if let Some((b, k)) = self.texture_bytes(tex) {
            if let Some(dec) = rgba_decoding(b, k) {
                let i = y * g.width + x;
                assert(0 <= y * g.width + x < g.width * g.height) by (nonlinear_arith)
                    requires
                        0 <= x < g.width,
                        0 <= y < g.height,
                ;
                assert(g.pixels@ == channel_plane(dec.2, channel));
                assert(i < channel_plane(dec.2, channel).len());
                assert(channel_plane(dec.2, channel)[i] == dec.2[4 * i + channel]);
            }
        }
    }

    /// Whether a texture decodes as RGBA depends on the document tables
    /// only.
    pub proof fn lemma_rgba_ok_same_doc(self, other: GltfData, tex: int)
        requires
            self.same_doc(other),
        ensures
            self.rgba_texture_ok(tex) == other.rgba_texture_ok(tex),
    {
        self.lemma_texture_bytes_same_doc(other, tex);
    }

    /// Whether a texture decodes as RGB depends on the document tables
    /// only.
    pub proof fn lemma_rgb_ok_same_doc(self, other: GltfData, tex: int)
        requires
            self.same_doc(other),
        ensures
            self.rgb_texture_ok(tex) == other.rgb_texture_ok(tex),
    {
        self.lemma_texture_bytes_same_doc(other, tex);
    }

    /// Fresh load-time state over the document's tables, with every cache
    /// empty.
    pub fn new(
        buffers: Vec<Vec<u8>>,
        images: Vec<ImageSource>,
        textures: Vec<usize>,
        material_descs: Vec<MaterialDesc>,
        load_textures: bool,
    ) -> (r: GltfData)
        ensures
            r.buffers == buffers,
            r.images == images,
            r.textures == textures,
            r.material_descs == material_descs,
            r.load_textures == load_textures,
            r.materials@.len() == 0,
            r.rgb_images@.len() == 0,
            r.rgba_images@.len() == 0,
            r.gray_images@.len() == 0,
            r.wf(),
    {
        GltfData {
            buffers,
            images,
            textures,
            material_descs,
            load_textures,
            materials: Vec::new(),
            rgb_images: Vec::new(),
            rgba_images: Vec::new(),
            gray_images: Vec::new(),
        }
    }

    /// Resolves texture `texture` to its encoded bytes and format, without
    /// decoding pixels: buffer views are sliced, `data:` URIs parsed and
    /// base64-decoded, pre-read file bytes returned as they are.
    pub fn load_texture(&self, texture: usize) -> (r: Result<(Vec<u8>, ImageKind), LoadError>)
        ensures
            match r {
                Ok(bk) => self.texture_bytes(texture as int) == Some((bk.0@, bk.1)),
                Err(e) => self.texture_bytes(texture as int) is None && e
                    == LoadError::TextureDecode,
            },
    {
        if texture >= self.textures.len() {
            return Err(LoadError::TextureDecode);
        }
        let img_idx = self.textures[texture];
        if img_idx >= self.images.len() {
            return Err(LoadError::TextureDecode);
        }
        match &self.images[img_idx] {
            ImageSource::View { buffer, offset, length, mime } => {
                if *buffer >= self.buffers.len() {
                    return Err(LoadError::TextureDecode);
                }
                let buf = &self.buffers[*buffer];
                if *length > buf.len() || *offset > buf.len() - *length {
                    return Err(LoadError::TextureDecode);
                }
                let k = match mime_kind_of(mime.as_slice()) {
                    Some(k) => k,
                    None => {
                        return Err(LoadError::TextureDecode);
                    },
                };
                let bytes = vstd::slice::slice_to_vec(
                    &buf.as_slice()[*offset..*offset + *length],
                );
                Ok((bytes, k))
            },
            ImageSource::DataUri { uri, mime } => {
                let u = uri.as_slice();
                let ulen = u.len();
                let p = match find_byte(u, COMMA_BYTE) {
                    Some(p) => p,
                    None => {
                        return Err(LoadError::TextureDecode);
                    },
                };
                let rest = &u[p + 1..ulen];
                let payload: &[u8] = match find_byte(rest, COMMA_BYTE) {
                    Some(q) => &rest[0..q],
                    None => rest,
                };
                proof {
                    assert(uri@.skip(p as int + 1) =~= u@.subrange(p as int + 1, u@.len() as int));
                }
                let mime_slice: &[u8] = match mime {
                    Some(m) => m.as_slice(),
                    None => {
                        let head = &u[0..p];
                        proof {
                            assert(uri@.take(p as int) =~= u@.subrange(0, p as int));
                        }
                        let hlen = head.len();
                        let c = match find_byte(head, COLON_BYTE) {
                            Some(c) => c,
                            None => {
                                return Err(LoadError::TextureDecode);
                            },
                        };
                        let after = &head[c + 1..hlen];
                        proof {
                            assert(uri@.take(p as int).skip(c as int + 1) =~= head@.subrange(
                                c as int + 1,
                                head@.len() as int,
                            ));
                        }
                        match find_byte(after, SEMICOLON_BYTE) {
                            Some(s2) => &after[0..s2],
                            None => after,
                        }
                    },
                };
                let k = match mime_kind_of(mime_slice) {
                    Some(k) => k,
                    None => {
                        return Err(LoadError::TextureDecode);
                    },
                };
                match decode_base64(payload) {
                    Ok(bytes) => Ok((bytes, k)),
                    Err(e) => Err(e),
                }
            },
            ImageSource::Bytes { bytes, format } => {
                Ok((vstd::slice::slice_to_vec(bytes.as_slice()), *format))
            },
        }
    }

    /// Looks texture `texture` up in the RGB cache; on a miss, resolves
    /// and decodes it, shares the result, and remembers it under the
    /// texture's index.
    pub fn load_rgb_image(&mut self, texture: usize) -> (r: Result<Arc<RgbTexture>, LoadError>)
        requires
            old(self).wf(),
        ensures
            final(self).wf(),
            final(self).same_doc(*old(self)),
            final(self).materials == old(self).materials,
            final(self).rgba_images == old(self).rgba_images,
            final(self).gray_images == old(self).gray_images,
            (r is Ok) == old(self).rgb_texture_ok(texture as int),
            r matches Ok(h) ==> (*h).wf() && final(self).rgb_texture_matches(*h, texture as int)
                && (exists|j: int|
                0 <= j < final(self).rgb_images@.len() && final(self).rgb_images@[j] == (
                texture,
                h,
            )),
            r matches Err(e) ==> e == LoadError::TextureDecode && *final(self) == *old(self),
            (exists|j: int|
                0 <= j < old(self).rgb_images@.len() && (#[trigger] old(
                    self,
                ).rgb_images@[j]).0 == texture) ==> *final(self) == *old(self),
            r matches Ok(h) ==> ((forall|j: int|
                0 <= j < old(self).rgb_images@.len() ==> (#[trigger] old(
                    self,
                ).rgb_images@[j]).0 != texture) ==> final(self).rgb_images@ == old(
                self,
            ).rgb_images@.push((texture, h))),
    {
        let n = self.rgb_images.len();
        let mut i: usize = 0;
        while i < n
            invariant
                *self == *old(self),
                old(self).wf(),
                n == self.rgb_images@.len(),
                i <= n,
                forall|j: int| 0 <= j < i ==> (#[trigger] self.rgb_images@[j]).0 != texture,
            decreases n - i,
        {
            if self.rgb_images[i].0 == texture {
                let h = self.rgb_images[i].1.clone();
                proof {
                    let jj = i as int;
                    assert(self.rgb_images@[jj].1.wf() && self.rgb_texture_matches(
                        *self.rgb_images@[jj].1,
                        self.rgb_images@[jj].0 as int,
                    ));
                    assert(self.rgb_images@[jj] == (texture, h));
                }
                return Ok(h);
            }
            i = i + 1;
        }
        let (bytes, kind) = match self.load_texture(texture) {
            Ok(bk) => bk,
            Err(e) => {
                return Err(e);
            },
        };
        let img = match decode_rgb(bytes.as_slice(), kind) {
            Ok(t) => t,
            Err(e) => {
                return Err(e);
            },
        };
        let h = Arc::new(img);
        self.rgb_images.push((texture, h.clone()));
        proof {
            lemma_rgba_entries_same_doc(*old(self), *self, self.rgba_images@);
            lemma_gray_entries_same_doc(*old(self), *self, self.gray_images@);
            lemma_material_entries_same_doc(*old(self), *self, self.materials@);
            lemma_rgb_entries_same_doc(*old(self), *self, old(self).rgb_images@);
            old(self).lemma_texture_bytes_same_doc(*self, texture as int);
            let m = self.rgb_images@.len() - 1;
            assert(self.rgb_images@[m] == (texture, h));
            assert(self.rgb_texture_matches(*h, texture as int));
            assert forall|j: int|
                0 <= j < self.rgb_images@.len() implies (#[trigger] self.rgb_images@[j]).1.wf()
                && self.rgb_texture_matches(
                *self.rgb_images@[j].1,
                self.rgb_images@[j].0 as int,
            ) by {
                if j < m {
                    assert(self.rgb_images@[j] == old(self).rgb_images@[j]);
                    assert(rgb_entries_ok(*self, old(self).rgb_images@));
                }
            }
            assert(self.rgb_images@ == old(self).rgb_images@.push((texture, h)));
            assert forall|j1: int, j2: int|
                0 <= j1 < j2 < self.rgb_images@.len() implies (#[trigger] self.rgb_images@[j1]).0 != (
            #[trigger] self.rgb_images@[j2]).0 by {
                if j2 < m {
                    assert(old(self).rgb_images@[j1].0 != old(self).rgb_images@[j2].0);
                } else {
                    assert(self.rgb_images@[j1] == old(self).rgb_images@[j1]);
                }
            }
        }
        Ok(h)
    }

    /// Looks texture `texture` up in the RGBA cache; on a miss, resolves
    /// and decodes it, shares the result, and remembers it under the
    /// texture's index.
    pub fn load_base_color_image(&mut self, texture: usize) -> (r: Result<
        Arc<RgbaTexture>,
        LoadError,
    >)
        requires
            old(self).wf(),
        ensures
            final(self).wf(),
            final(self).same_doc(*old(self)),
            final(self).materials == old(self).materials,
            final(self).rgb_images == old(self).rgb_images,
            final(self).gray_images == old(self).gray_images,
            (r is Ok) == old(self).rgba_texture_ok(texture as int),
            r matches Ok(h) ==> (*h).wf() && final(self).rgba_texture_matches(*h, texture as int)
                && (exists|j: int|
                0 <= j < final(self).rgba_images@.len() && final(self).rgba_images@[j] == (
                texture,
                h,
            )),
            r matches Err(e) ==> e == LoadError::TextureDecode && *final(self) == *old(self),
            (exists|j: int|
                0 <= j < old(self).rgba_images@.len() && (#[trigger] old(
                    self,
                ).rgba_images@[j]).0 == texture) ==> *final(self) == *old(self),
            r matches Ok(h) ==> ((forall|j: int|
                0 <= j < old(self).rgba_images@.len() ==> (#[trigger] old(
                    self,
                ).rgba_images@[j]).0 != texture) ==> final(self).rgba_images@ == old(
                self,
            ).rgba_images@.push((texture, h))),
    {
        let n = self.rgba_images.len();
        let mut i: usize = 0;
        while i < n
            invariant
                *self == *old(self),
                old(self).wf(),
                n == self.rgba_images@.len(),
                i <= n,
                forall|j: int| 0 <= j < i ==> (#[trigger] self.rgba_images@[j]).0 != texture,
            decreases n - i,
        {
            if self.rgba_images[i].0 == texture {
                let h = self.rgba_images[i].1.clone();
                proof {
                    let jj = i as int;
                    assert(self.rgba_images@[jj].1.wf() && self.rgba_texture_matches(
                        *self.rgba_images@[jj].1,
                        self.rgba_images@[jj].0 as int,
                    ));
                    assert(self.rgba_images@[jj] == (texture, h));
                }
                return Ok(h);
            }
            i = i + 1;
        }
        let (bytes, kind) = match self.load_texture(texture) {
            Ok(bk) => bk,
            Err(e) => {
                return Err(e);
            },
        };
        let img = match decode_rgba(bytes.as_slice(), kind) {
            Ok(t) => t,
            Err(e) => {
                return Err(e);
            },
        };
        let h = Arc::new(img);
        self.rgba_images.push((texture, h.clone()));
        proof {
            lemma_rgb_entries_same_doc(*old(self), *self, self.rgb_images@);
            lemma_gray_entries_same_doc(*old(self), *self, self.gray_images@);
            lemma_material_entries_same_doc(*old(self), *self, self.materials@);
            lemma_rgba_entries_same_doc(*old(self), *self, old(self).rgba_images@);
            old(self).lemma_texture_bytes_same_doc(*self, texture as int);
            let m = self.rgba_images@.len() - 1;
            assert(self.rgba_images@[m] == (texture, h));
            assert(self.rgba_texture_matches(*h, texture as int));
            assert forall|j: int|
                0 <= j < self.rgba_images@.len() implies (#[trigger] self.rgba_images@[j]).1.wf()
                && self.rgba_texture_matches(
                *self.rgba_images@[j].1,
                self.rgba_images@[j].0 as int,
            ) by {
                if j < m {
                    assert(self.rgba_images@[j] == old(self).rgba_images@[j]);
                    assert(rgba_entries_ok(*self, old(self).rgba_images@));
                }
            }
            assert(self.rgba_images@ == old(self).rgba_images@.push((texture, h)));
            assert forall|j1: int, j2: int|
                0 <= j1 < j2 < self.rgba_images@.len() implies (#[trigger] self.rgba_images@[j1]).0 != (
            #[trigger] self.rgba_images@[j2]).0 by {
                if j2 < m {
                    assert(old(self).rgba_images@[j1].0 != old(self).rgba_images@[j2].0);
                } else {
                    assert(self.rgba_images@[j1] == old(self).rgba_images@[j1]);
                }
            }
        }
        Ok(h)
    }

    /// Looks `(texture, channel)` up in the single-channel cache; on a
    /// miss, decodes the texture's full RGBA image once and copies out the
    /// requested channel (0 = red, 1 = green, 2 = blue), shares the
    /// result, and remembers it under that key.
    pub fn load_gray_image(&mut self, texture: usize, channel: usize) -> (r: Result<
        Arc<GrayTexture>,
        LoadError,
    >)
        requires
            old(self).wf(),
            channel < 4,
        ensures
            final(self).wf(),
            final(self).same_doc(*old(self)),
            final(self).materials == old(self).materials,
            final(self).rgb_images == old(self).rgb_images,
            final(self).rgba_images == old(self).rgba_images,
            (r is Ok) == old(self).rgba_texture_ok(texture as int),
            r matches Ok(h) ==> (*h).wf() && final(self).gray_texture_matches(
                *h,
                texture as int,
                channel as int,
            ) && (exists|j: int|
                0 <= j < final(self).gray_images@.len() && final(self).gray_images@[j] == (
                (texture, channel),
                h,
            )),
            r matches Err(e) ==> e == LoadError::TextureDecode && *final(self) == *old(self),
            (exists|j: int|
                0 <= j < old(self).gray_images@.len() && (#[trigger] old(
                    self,
                ).gray_images@[j]).0 == (texture, channel)) ==> *final(self) == *old(self),
            r matches Ok(h) ==> ((forall|j: int|
                0 <= j < old(self).gray_images@.len() ==> (#[trigger] old(
                    self,
                ).gray_images@[j]).0 != (texture, channel)) ==> final(self).gray_images@ == old(
                self,
            ).gray_images@.push(((texture, channel), h))),
    {
        let n = self.gray_images.len();
        let mut i: usize = 0;
        while i < n
            invariant
                *self == *old(self),
                old(self).wf(),
                n == self.gray_images@.len(),
                i <= n,
                forall|j: int|
                    0 <= j < i ==> (#[trigger] self.gray_images@[j]).0 != (texture, channel),
            decreases n - i,
        {
            if self.gray_images[i].0.0 == texture && self.gray_images[i].0.1 == channel {
                let h = self.gray_images[i].1.clone();
                proof {
                    let jj = i as int;
                    assert(self.gray_images@[jj].1.wf() && self.gray_texture_matches(
                        *self.gray_images@[jj].1,
                        self.gray_images@[jj].0.0 as int,
                        self.gray_images@[jj].0.1 as int,
                    ));
                    assert(self.gray_images@[jj] == ((texture, channel), h));
                }
                return Ok(h);
            }
            i = i + 1;
        }
        let (bytes, kind) = match self.load_texture(texture) {
            Ok(bk) => bk,
            Err(e) => {
                return Err(e);
            },
        };
        let img = match decode_rgba(bytes.as_slice(), kind) {
            Ok(t) => t,
            Err(e) => {
                return Err(e);
            },
        };
        let gray = extract_channel(&img, channel);
        let h = Arc::new(gray);
        self.gray_images.push(((texture, channel), h.clone()));
        proof {
            lemma_rgb_entries_same_doc(*old(self), *self, self.rgb_images@);
            lemma_rgba_entries_same_doc(*old(self), *self, self.rgba_images@);
            lemma_material_entries_same_doc(*old(self), *self, self.materials@);
            lemma_gray_entries_same_doc(*old(self), *self, old(self).gray_images@);
            old(self).lemma_texture_bytes_same_doc(*self, texture as int);
            let m = self.gray_images@.len() - 1;
            assert(self.gray_images@[m] == ((texture, channel), h));
            assert(self.gray_texture_matches(*h, texture as int, channel as int));
            assert forall|j: int|
                0 <= j < self.gray_images@.len() implies (#[trigger] self.gray_images@[j]).1.wf()
                && self.gray_texture_matches(
                *self.gray_images@[j].1,
                self.gray_images@[j].0.0 as int,
                self.gray_images@[j].0.1 as int,
            ) by {
                if j < m {
                    assert(self.gray_images@[j] == old(self).gray_images@[j]);
                    assert(gray_entries_ok(*self, old(self).gray_images@));
                }
            }
            assert(self.gray_images@ == old(self).gray_images@.push(((texture, channel), h)));
            assert forall|j1: int, j2: int|
                0 <= j1 < j2 < self.gray_images@.len() implies (#[trigger] self.gray_images@[j1]).0
                != (#[trigger] self.gray_images@[j2]).0 by {
                if j2 < m {
                    assert(old(self).gray_images@[j1].0 != old(self).gray_images@[j2].0);
                } else {
                    assert(self.gray_images@[j1] == old(self).gray_images@[j1]);
                }
            }
        }
        Ok(h)
    }
}

} // verus!
