//! Decoded texture images and the decoding boundary.
//!
//! The pixel planes themselves are plain byte vectors; decoding the encoded
//! bytes of a PNG/JPEG/... into such a plane is delegated to the `image`
//! crate behind trusted wrappers, whose results are named by the
//! uninterpreted functions [`rgba_decoding`] and [`rgb_decoding`].

use vstd::prelude::*;

use crate::LoadError;

verus! {

/// The encoded format of an image, as declared by the document (MIME type)
/// or by a file extension.
#[derive(Clone, Copy, Debug, PartialEq, Eq, Structural)]
pub enum ImageKind {
    /// PNG.
    Png,
    /// JPEG.
    Jpeg,
    /// GIF.
    Gif,
    /// BMP.
    Bmp,
    /// WebP.
    WebP,
}

/// An immutable decoded image with four bytes per pixel (red, green, blue,
/// alpha), rows stored top to bottom.
#[derive(Clone, Debug)]
pub struct RgbaTexture {
    /// Width in pixels.
    pub width: u32,
    /// Height in pixels.
    pub height: u32,
    /// Pixel plane: `4 * width * height` bytes.
    pub pixels: Vec<u8>,
}

/// An immutable decoded image with three bytes per pixel (red, green, blue).
#[derive(Clone, Debug)]
pub struct RgbTexture {
    /// Width in pixels.
    pub width: u32,
    /// Height in pixels.
    pub height: u32,
    /// Pixel plane: `3 * width * height` bytes.
    pub pixels: Vec<u8>,
}

/// An immutable single-channel image, one byte per pixel, extracted from one
/// channel of an [`RgbaTexture`].
#[derive(Clone, Debug)]
pub struct GrayTexture {
    /// Width in pixels.
    pub width: u32,
    /// Height in pixels.
    pub height: u32,
    /// Pixel plane: `width * height` bytes.
    pub pixels: Vec<u8>,
}

impl RgbaTexture {
    /// The pixel plane holds exactly four bytes per pixel.
    pub open spec fn wf(self) -> bool {
        self.pixels@.len() == 4 * self.width * self.height
    }
}

impl RgbTexture {
    /// The pixel plane holds exactly three bytes per pixel.
    pub open spec fn wf(self) -> bool {
        self.pixels@.len() == 3 * self.width * self.height
    }
}

impl GrayTexture {
    /// The pixel plane holds exactly one byte per pixel.
    pub open spec fn wf(self) -> bool {
        self.pixels@.len() == self.width * self.height
    }
}

/// What decoding `bytes`, declared to be in format `format`, into an
/// four-byte-per-pixel plane yields: `None` when the bytes cannot be
/// decoded, otherwise `Some((width, height, pixels))`.
pub uninterp spec fn rgba_decoding(bytes: Seq<u8>, format: ImageKind) -> Option<(int, int, Seq<u8>)>;

/// What decoding `bytes`, declared to be in format `format`, into a
/// three-byte-per-pixel plane yields.
pub uninterp spec fn rgb_decoding(bytes: Seq<u8>, format: ImageKind) -> Option<(int, int, Seq<u8>)>;

/// True when `t` is the four-channel decode of `bytes` in format `format`.
pub open spec fn is_rgba_decode_of(t: RgbaTexture, bytes: Seq<u8>, format: ImageKind) -> bool {
    rgba_decoding(bytes, format) == Some((t.width as int, t.height as int, t.pixels@))
}

/// True when `t` is the three-channel decode of `bytes` in format `format`.
pub open spec fn is_rgb_decode_of(t: RgbTexture, bytes: Seq<u8>, format: ImageKind) -> bool {
    rgb_decoding(bytes, format) == Some((t.width as int, t.height as int, t.pixels@))
}

/// Relies on `image::load_from_memory_with_format` and
/// `image::DynamicImage::to_rgba8`: decoding is a pure function of the
/// encoded bytes and the declared format, the conversion always yields a
/// buffer of exactly `4 * width * height` bytes, and the call fails exactly
/// when the bytes are not a valid image of that format.
#[verifier::external_body]
pub(crate) fn decode_rgba(bytes: &[u8], format: ImageKind) -> (r: Result<RgbaTexture, LoadError>)
    ensures
        r matches Ok(t) ==> is_rgba_decode_of(t, bytes@, format) && t.wf(),
        r matches Err(e) ==> rgba_decoding(bytes@, format) is None && e == LoadError::TextureDecode,
{
    let fmt = match format {
        ImageKind::Png => image::ImageFormat::Png,
        ImageKind::Jpeg => image::ImageFormat::Jpeg,
        ImageKind::Gif => image::ImageFormat::Gif,
        ImageKind::Bmp => image::ImageFormat::Bmp,
        ImageKind::WebP => image::ImageFormat::WebP,
    };
    match image::load_from_memory_with_format(bytes, fmt) {
        Ok(img) => {
            let buf = img.to_rgba8();
            let (width, height) = (buf.width(), buf.height());
            Ok(RgbaTexture { width, height, pixels: buf.into_raw() })
        },
        Err(_) => Err(LoadError::TextureDecode),
    }
}

/// Relies on `image::load_from_memory_with_format` and
/// `image::DynamicImage::to_rgb8`, as [`decode_rgba`] does for the
/// four-channel plane.
#[verifier::external_body]
pub(crate) fn decode_rgb(bytes: &[u8], format: ImageKind) -> (r: Result<RgbTexture, LoadError>)
    ensures
        r matches Ok(t) ==> is_rgb_decode_of(t, bytes@, format) && t.wf(),
        r matches Err(e) ==> rgb_decoding(bytes@, format) is None && e == LoadError::TextureDecode,
{
    let fmt = match format {
        ImageKind::Png => image::ImageFormat::Png,
        ImageKind::Jpeg => image::ImageFormat::Jpeg,
        ImageKind::Gif => image::ImageFormat::Gif,
        ImageKind::Bmp => image::ImageFormat::Bmp,
        ImageKind::WebP => image::ImageFormat::WebP,
    };
    match image::load_from_memory_with_format(bytes, fmt) {
        Ok(img) => {
            let buf = img.to_rgb8();
            let (width, height) = (buf.width(), buf.height());
            Ok(RgbTexture { width, height, pixels: buf.into_raw() })
        },
        Err(_) => Err(LoadError::TextureDecode),
    }
}

/// The single-channel plane holding channel `channel` of each pixel of the
/// four-byte-per-pixel plane `pixels`.
pub open spec fn channel_plane(pixels: Seq<u8>, channel: int) -> Seq<u8> {
    Seq::new(pixels.len() / 4, |i: int| pixels[4 * i + channel])
}

/// Builds a single-channel image by copying channel `channel`
/// (0 = red, 1 = green, 2 = blue, 3 = alpha) of every pixel of `t`.
pub fn extract_channel(t: &RgbaTexture, channel: usize) -> (r: GrayTexture)
    requires
        t.wf(),
        channel < 4,
    ensures
        r.width == t.width,
        r.height == t.height,
        r.pixels@ == channel_plane(t.pixels@, channel as int),
        r.wf(),
{
    let count: usize = t.pixels.len() / 4;
    let mut pixels: Vec<u8> = Vec::new();
    let mut i: usize = 0;
    while i < count
        invariant
            t.wf(),
            channel < 4,
            count == t.pixels@.len() / 4,
            t.pixels@.len() <= usize::MAX,
            i <= count,
            pixels@ =~= channel_plane(t.pixels@, channel as int).take(i as int),
        decreases count - i,
    {
        proof {
            assert(4 * (i as int) + (channel as int) < t.pixels@.len());
        }
        pixels.push(t.pixels[4 * i + channel]);
        i = i + 1;
        proof {
            assert(pixels@ =~= channel_plane(t.pixels@, channel as int).take(i as int));
        }
    }
    proof {
        assert(pixels@ =~= channel_plane(t.pixels@, channel as int));
        assert(t.pixels@.len() / 4 == t.width * t.height) by (nonlinear_arith)
            requires
                t.pixels@.len() == 4 * t.width * t.height,
        ;
    }
    GrayTexture { width: t.width, height: t.height, pixels }
}

} // verus!
