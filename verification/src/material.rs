//! Preparing a material's texture from encoded image bytes: the bytes are
//! decoded to 8-bit RGBA pixels, and the texture, the copy of the pixels to
//! it and the sampler that reads it are described. The renderer creates the
//! GPU objects from this description.
use vstd::prelude::*;

verus! {

/// An image decoded to 8-bit RGBA, row by row, four bytes per pixel.
pub struct DecodedImage {
    pub width: u32,
    pub height: u32,
    pub rgba: Vec<u8>,
}

/// What decoding `bytes` gives: `None` where the bytes are not an image of a
/// supported format, else the image's width, height and RGBA pixels.
pub uninterp spec fn decoded_rgba8(bytes: Seq<u8>) -> Option<(u32, u32, Seq<u8>)>;

/// Decodes an image with `image::load_from_memory` (which guesses the format
/// from the bytes) and converts it with `DynamicImage::to_rgba8`; the width
/// and height are those that `GenericImageView::dimensions` reports of the
/// decoded image. The result is a function of the bytes alone. The
/// conversion allocates a buffer of exactly four bytes for each of the
/// `width * height` pixels (`ImageBuffer::new`), so the pixel data has that
/// length.
#[verifier::external_body]
fn load_rgba8(bytes: &[u8]) -> (img: Option<DecodedImage>)
    ensures
        match img {
            Some(i) => {
                &&& decoded_rgba8(bytes@) == Some((i.width, i.height, i.rgba@))
                &&& i.rgba@.len() == 4 * i.width * i.height
            },
            None => decoded_rgba8(bytes@) is None,
        },
{
    match image::load_from_memory(bytes) {
        Ok(img) => {
            let (width, height) = image::GenericImageView::dimensions(&img);
            Some(DecodedImage { width, height, rgba: img.to_rgba8().into_raw() })
        },
        Err(_) => None,
    }
}

/// The layout of a texel.
#[derive(Debug, Clone, Copy, PartialEq, Eq, Structural)]
pub enum TextureFormat {
    /// Four 8-bit channels, red, green, blue and alpha, in sRGB colour space.
    Rgba8UnormSrgb,
    /// Four 8-bit channels, red, green, blue and alpha, linear.
    Rgba8Unorm,
}

/// The number of dimensions of a texture.
#[derive(Debug, Clone, Copy, PartialEq, Eq, Structural)]
pub enum TextureDimension {
    D1,
    D2,
    D3,
}

/// The ways in which a texture may be used.
#[derive(Debug, Clone, Copy, PartialEq, Eq, Structural)]
pub struct TextureUsages {
    pub copy_src: bool,
    pub copy_dst: bool,
    pub texture_binding: bool,
    pub storage_binding: bool,
    pub render_attachment: bool,
}

/// What a sampler does with coordinates outside the texture.
#[derive(Debug, Clone, Copy, PartialEq, Eq, Structural)]
pub enum AddressMode {
    /// The colour of the nearest edge pixel.
    ClampToEdge,
    /// The texture repeats.
    Repeat,
    /// The texture repeats, mirrored at every boundary.
    MirrorRepeat,
}

/// How a sampler combines texels.
#[derive(Debug, Clone, Copy, PartialEq, Eq, Structural)]
pub enum FilterMode {
    Nearest,
    Linear,
}

/// How a material's texture is read.
#[derive(Debug, Clone, Copy, PartialEq, Eq, Structural)]
pub struct SamplerSettings {
    pub address_mode_u: AddressMode,
    pub address_mode_v: AddressMode,
    pub address_mode_w: AddressMode,
    pub mag_filter: FilterMode,
    pub min_filter: FilterMode,
    pub mipmap_filter: FilterMode,
}

/// A material's texture, ready to be created and filled on the GPU: the
/// texture's description, the layout of the pixel copy, the pixels and the
/// sampler.
pub struct TextureUpload {
    /// Debug label of the texture.
    pub label: Option<String>,
    pub width: u32,
    pub height: u32,
    pub depth_or_array_layers: u32,
    pub mip_level_count: u32,
    pub sample_count: u32,
    pub dimension: TextureDimension,
    pub format: TextureFormat,
    pub usage: TextureUsages,
    /// Offset of the first pixel in `rgba`.
    pub offset: u64,
    /// Bytes per row of pixels; `None` where it would be zero.
    pub bytes_per_row: Option<u32>,
    /// Rows per image; `None` where it would be zero.
    pub rows_per_image: Option<u32>,
    pub rgba: Vec<u8>,
    pub sampler: SamplerSettings,
}

/// The nonzero value of `x`, as a `NonZeroU32` holds it.
pub open spec fn nonzero(x: u32) -> Option<u32> {
    if x == 0 {
        None
    } else {
        Some(x)
    }
}

/// The characters of an optional label.
pub open spec fn label_view(label: Option<&str>) -> Option<Seq<char>> {
    match label {
        Some(s) => Some(s@),
        None => None,
    }
}

/// The characters of an optional owned label.
pub open spec fn owned_label_view(label: Option<String>) -> Option<Seq<char>> {
    match label {
        Some(s) => Some(s@),
        None => None,
    }
}

/// A texture may be sampled in shaders and written by copies, nothing else.
pub open spec fn material_usage() -> TextureUsages {
    TextureUsages {
        copy_src: false,
        copy_dst: true,
        texture_binding: true,
        storage_binding: false,
        render_attachment: false,
    }
}

/// Coordinates outside the texture repeat it; magnification is linear,
/// minification and mipmap selection take the nearest texel.
pub open spec fn material_sampler() -> SamplerSettings {
    SamplerSettings {
        address_mode_u: AddressMode::Repeat,
        address_mode_v: AddressMode::Repeat,
        address_mode_w: AddressMode::Repeat,
        mag_filter: FilterMode::Linear,
        min_filter: FilterMode::Nearest,
        mipmap_filter: FilterMode::Nearest,
    }
}

/// The upload is the material texture of the given label, size and pixels:
/// a single 2D layer in sRGB RGBA8 without extra mips or samples, usable for
/// sampling and as a copy destination; its pixels start at offset zero and
/// take four bytes each; it is sampled by `material_sampler`.
pub open spec fn is_upload_of(
    t: TextureUpload,
    label: Option<Seq<char>>,
    width: u32,
    height: u32,
    rgba: Seq<u8>,
) -> bool {
    &&& owned_label_view(t.label) == label
    &&& t.width == width
    &&& t.height == height
    &&& t.depth_or_array_layers == 1
    &&& t.mip_level_count == 1
    &&& t.sample_count == 1
    &&& t.dimension == TextureDimension::D2
    &&& t.format == TextureFormat::Rgba8UnormSrgb
    &&& t.usage == material_usage()
    &&& t.offset == 0
    &&& 4 * width <= u32::MAX
    &&& t.bytes_per_row == nonzero((4 * width) as u32)
    &&& t.rows_per_image == nonzero(height)
    &&& t.rgba@ == rgba
    &&& t.sampler == material_sampler()
}

fn owned_label(label: Option<&str>) -> (owned: Option<String>)
    ensures
        owned_label_view(owned) == label_view(label),
{
    match label {
        Some(s) => Some(s.to_owned()),
        None => None,
    }
}

impl TextureUpload {
    /// The upload of decoded RGBA pixels of the given size. Returns `None`
    /// where a row of `width` pixels is too long for the row length of the
    /// GPU copy (four bytes per pixel must fit a `u32`).
    pub fn from_decoded(width: u32, height: u32, rgba: Vec<u8>, label: Option<&str>) -> (t: Option<
        Self,
    >)
        ensures
            if 4 * width <= u32::MAX {
                t is Some && is_upload_of(t.unwrap(), label_view(label), width, height, rgba@)
            } else {
                t is None
            },
    {
        if width > u32::MAX / 4 {
            return None;
        }
        let row = 4 * width;
        Some(
            TextureUpload {
                label: owned_label(label),
                width,
                height,
                depth_or_array_layers: 1,
                mip_level_count: 1,
                sample_count: 1,
                dimension: TextureDimension::D2,
                format: TextureFormat::Rgba8UnormSrgb,
                usage: TextureUsages {
                    copy_src: false,
                    copy_dst: true,
                    texture_binding: true,
                    storage_binding: false,
                    render_attachment: false,
                },
                offset: 0,
                bytes_per_row: if row == 0 {
                    None
                } else {
                    Some(row)
                },
                rows_per_image: if height == 0 {
                    None
                } else {
                    Some(height)
                },
                rgba,
                sampler: SamplerSettings {
                    address_mode_u: AddressMode::Repeat,
                    address_mode_v: AddressMode::Repeat,
                    address_mode_w: AddressMode::Repeat,
                    mag_filter: FilterMode::Linear,
                    min_filter: FilterMode::Nearest,
                    mipmap_filter: FilterMode::Nearest,
                },
            },
        )
    }

    /// Decodes an encoded image and describes its material texture (see
    /// `is_upload_of`), labelled `label`. Returns `None` where the bytes do
    /// not decode or a row of the image is too long for the GPU copy (both
    /// cases in which no texture can be made). The pixels are the decoded
    /// ones, four bytes for each of the image's pixels.
    pub fn from_bytes(bytes: &[u8], label: Option<&str>) -> (t: Option<Self>)
        ensures
            match decoded_rgba8(bytes@) {
                None => t is None,
                Some((w, h, px)) => if 4 * w <= u32::MAX {
                    &&& t is Some
                    &&& is_upload_of(t.unwrap(), label_view(label), w, h, px)
                    &&& px.len() == 4 * w * h
                } else {
                    t is None
                },
            },
    {
        match load_rgba8(bytes) {
            None => None,
            Some(img) => TextureUpload::from_decoded(img.width, img.height, img.rgba, label),
        }
    }
}

} // verus!
