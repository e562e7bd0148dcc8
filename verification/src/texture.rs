//! The texture: decoded pixels, the GPU texture sized to them, the upload
//! that fills it and the sampler that reads it.

use vstd::prelude::*;
use crate::surface::{TextureUsages, TEXTURE_USAGE_COPY_DST, TEXTURE_USAGE_TEXTURE_BINDING};

verus! {

/// `image::ImageError`, carried through without looking inside.
#[verifier::external_type_specification]
#[verifier::external_body]
pub struct ExImageError(image::ImageError);

/// What decoding `bytes` as an image and converting it to 8-bit RGBA gives:
/// width, height and the pixel rows from the top, or nothing where the
/// bytes are no image that can be decoded.
pub uninterp spec fn decoded_rgba8(bytes: Seq<u8>) -> Option<(u32, u32, Seq<u8>)>;

/// Calls `image::load_from_memory`, then `dimensions` and `to_rgba8` on the
/// image it gives. What comes back is named by `decoded_rgba8`. The RGBA
/// buffer is allocated for exactly four bytes per pixel of the decoded
/// width and height.
#[verifier::external_body]
fn decode_rgba8(bytes: &[u8]) -> (decoded: Result<(u32, u32, Vec<u8>), image::ImageError>)
    ensures
        match decoded {
            Ok((width, height, pixels)) => {
                &&& decoded_rgba8(bytes@) == Some((width, height, pixels@))
                &&& pixels@.len() == 4 * width * height
            },
            Err(_) => decoded_rgba8(bytes@) is None,
        },
{
    let decoded = image::load_from_memory(bytes)?;
    let (width, height) = image::GenericImageView::dimensions(&decoded);
    Ok((width, height, decoded.to_rgba8().into_raw()))
}

/// Bytes of one texel: red, green, blue and alpha, eight bits each.
pub const BYTES_PER_TEXEL: u32 = 4;

/// Width, height and depth (or number of layers) of a texture.
#[derive(Clone, Copy, Debug, PartialEq, Eq, Structural)]
pub struct Extent3d {
    pub width: u32,
    pub height: u32,
    pub depth_or_array_layers: u32,
}

/// How many dimensions a texture has.
#[derive(Clone, Copy, Debug, PartialEq, Eq, Structural)]
pub enum TextureDimension {
    D1,
    D2,
    D3,
}

/// The texel formats a decoded image can be uploaded in.
#[derive(Clone, Copy, Debug, PartialEq, Eq, Structural)]
pub enum TexelFormat {
    Rgba8Unorm,
    Rgba8UnormSrgb,
}

/// What the GPU texture is created with.
#[derive(Clone, Copy, Debug, PartialEq, Eq, Structural)]
pub struct TextureDescriptor {
    pub size: Extent3d,
    pub mip_level_count: u32,
    pub sample_count: u32,
    pub dimension: TextureDimension,
    pub format: TexelFormat,
    pub usage: TextureUsages,
}

/// How the uploaded bytes are laid out: where they start, how many bytes
/// make a row and how many rows make the image.
#[derive(Clone, Copy, Debug, PartialEq, Eq, Structural)]
pub struct ImageDataLayout {
    pub offset: u64,
    pub bytes_per_row: u32,
    pub rows_per_image: u32,
}

/// What a sampler does with coordinates outside the texture.
#[derive(Clone, Copy, Debug, PartialEq, Eq, Structural)]
pub enum AddressMode {
    ClampToEdge,
    Repeat,
    MirrorRepeat,
}

/// How a sampler reads between texels.
#[derive(Clone, Copy, Debug, PartialEq, Eq, Structural)]
pub enum FilterMode {
    Nearest,
    Linear,
}

/// What the sampler is created with.
#[derive(Clone, Copy, Debug, PartialEq, Eq, Structural)]
pub struct SamplerDescriptor {
    pub address_mode_u: AddressMode,
    pub address_mode_v: AddressMode,
    pub address_mode_w: AddressMode,
    pub mag_filter: FilterMode,
    pub min_filter: FilterMode,
    pub mipmap_filter: FilterMode,
}

impl SamplerDescriptor {
    /// The sampler reads between texels somewhere, so it needs a binding
    /// that allows filtering.
    pub open spec fn is_filtering(self) -> bool {
        ||| self.mag_filter == FilterMode::Linear
        ||| self.min_filter == FilterMode::Linear
        ||| self.mipmap_filter == FilterMode::Linear
    }
}

/// The texture for an image of `width` by `height` pixels: two dimensions,
/// one layer, one mip level, one sample, gamma-corrected RGBA, to be
/// copied into and bound for sampling.
pub open spec fn texture_descriptor(width: u32, height: u32) -> TextureDescriptor {
    TextureDescriptor {
        size: Extent3d { width, height, depth_or_array_layers: 1 },
        mip_level_count: 1,
        sample_count: 1,
        dimension: TextureDimension::D2,
        format: TexelFormat::Rgba8UnormSrgb,
        usage: TextureUsages { bits: 6 },
    }
}

/// The layout of tightly packed RGBA rows of an image `width` pixels wide
/// and `height` pixels high.
pub open spec fn packed_rows(width: u32, height: u32) -> ImageDataLayout
    recommends
        BYTES_PER_TEXEL * width <= u32::MAX,
{
    ImageDataLayout {
        offset: 0,
        bytes_per_row: (BYTES_PER_TEXEL * width) as u32,
        rows_per_image: height,
    }
}

/// The sampler of every texture here: clamped at the edges, linear when
/// magnified or minified, nearest between mip levels.
pub open spec fn linear_clamped_sampler() -> SamplerDescriptor {
    SamplerDescriptor {
        address_mode_u: AddressMode::ClampToEdge,
        address_mode_v: AddressMode::ClampToEdge,
        address_mode_w: AddressMode::ClampToEdge,
        mag_filter: FilterMode::Linear,
        min_filter: FilterMode::Linear,
        mipmap_filter: FilterMode::Nearest,
    }
}

/// A row of `width` texels can be counted in bytes, and `pixels` holds
/// exactly the texels of `width` by `height`.
pub open spec fn pixels_fill(width: u32, height: u32, pixels: Seq<u8>) -> bool {
    &&& BYTES_PER_TEXEL * width <= u32::MAX
    &&& pixels.len() == BYTES_PER_TEXEL * width * height
}

/// Why there is no texture.
#[derive(Debug)]
pub enum TextureError {
    /// The bytes are no image that can be decoded; the decoder says why.
    Decode(image::ImageError),
    /// A row of the image is longer in bytes than a row length can say.
    RowTooWide,
    /// The pixel data is not four bytes for each pixel of the image.
    PixelCountMismatch,
}

/// A decoded image and what its GPU texture is made with. The texture has
/// the image's dimensions, and the pixels are never changed.
pub struct TextureResource {
    width: u32,
    height: u32,
    pixels: Vec<u8>,
}

impl TextureResource {
    #[verifier::type_invariant]
    spec fn inv(self) -> bool {
        pixels_fill(self.width, self.height, self.pixels@)
    }

    /// Width of the image in pixels.
    pub closed spec fn width(&self) -> u32 {
        self.width
    }

    /// Height of the image in pixels.
    pub closed spec fn height(&self) -> u32 {
        self.height
    }

    /// The RGBA bytes of the image, row by row from the top.
    pub closed spec fn pixels(&self) -> Seq<u8> {
        self.pixels@
    }

    /// The pixels are those of an image of this width and height.
    pub open spec fn wf(&self) -> bool {
        pixels_fill(self.width(), self.height(), self.pixels())
    }

    /// Takes decoded RGBA pixels of an image `width` by `height`. A row
    /// must be countable in bytes, and there must be four bytes per pixel.
    pub fn from_pixels(width: u32, height: u32, pixels: Vec<u8>) -> (made: Result<
        TextureResource,
        TextureError,
    >)
        ensures
            match made {
                Ok(texture) => {
                    &&& pixels_fill(width, height, pixels@)
                    &&& texture.wf()
                    &&& texture.width() == width
                    &&& texture.height() == height
                    &&& texture.pixels() == pixels@
                },
                Err(TextureError::RowTooWide) => BYTES_PER_TEXEL * width > u32::MAX,
                Err(TextureError::PixelCountMismatch) => {
                    &&& BYTES_PER_TEXEL * width <= u32::MAX
                    &&& pixels@.len() != BYTES_PER_TEXEL * width * height
                },
                Err(TextureError::Decode(_)) => false,
            },
    {
        if width > u32::MAX / BYTES_PER_TEXEL {
            return Err(TextureError::RowTooWide);
        }
        let row: u64 = BYTES_PER_TEXEL as u64 * width as u64;
        assert(row * height <= 0xFFFF_FFFF * 0xFFFF_FFFF) by (nonlinear_arith)
            requires
                row <= 0xFFFF_FFFF,
                height <= 0xFFFF_FFFF,
        ;
        let expected: u64 = row * height as u64;
        if pixels.len() as u64 != expected {
            return Err(TextureError::PixelCountMismatch);
        }
        Ok(TextureResource { width, height, pixels })
    }

    /// Decodes `bytes` as an image and takes its pixels as 8-bit RGBA.
    /// Bytes that do not decode give `Decode`; what does decode goes
    /// through `from_pixels` with the decoded dimensions.
    pub fn from_image_bytes(bytes: &[u8]) -> (made: Result<TextureResource, TextureError>)
        ensures
            match decoded_rgba8(bytes@) {
                None => made matches Err(TextureError::Decode(_)),
                Some((width, height, pixels)) => match made {
                    Ok(texture) => {
                        &&& BYTES_PER_TEXEL * width <= u32::MAX
                        &&& texture.wf()
                        &&& texture.width() == width
                        &&& texture.height() == height
                        &&& texture.pixels() == pixels
                    },
                    Err(TextureError::RowTooWide) => BYTES_PER_TEXEL * width > u32::MAX,
                    Err(_) => false,
                },
            },
    {
        match decode_rgba8(bytes) {
            Ok((width, height, pixels)) => TextureResource::from_pixels(width, height, pixels),
            Err(cause) => Err(TextureError::Decode(cause)),
        }
    }

    /// Width and height of the image, which are those of the texture.
    pub fn dimensions(&self) -> (dimensions: (u32, u32))
        ensures
            dimensions == (self.width(), self.height()),
            self.wf(),
    {
        proof {
            use_type_invariant(self);
        }
        (self.width, self.height)
    }

    /// The bytes to upload.
    pub fn pixel_data(&self) -> (data: &Vec<u8>)
        ensures
            data@ == self.pixels(),
            data@.len() == BYTES_PER_TEXEL * self.width() * self.height(),
    {
        proof {
            use_type_invariant(self);
        }
        &self.pixels
    }

    /// What the GPU texture is created with.
    pub fn descriptor(&self) -> (descriptor: TextureDescriptor)
        ensures
            descriptor == texture_descriptor(self.width(), self.height()),
            descriptor.size.width == self.width(),
            descriptor.size.height == self.height(),
            descriptor.size.depth_or_array_layers == 1,
            descriptor.usage.bits == TEXTURE_USAGE_TEXTURE_BINDING | TEXTURE_USAGE_COPY_DST,
    {
        assert(4u32 | 2u32 == 6u32) by (bit_vector);
        TextureDescriptor {
            size: Extent3d { width: self.width, height: self.height, depth_or_array_layers: 1 },
            mip_level_count: 1,
            sample_count: 1,
            dimension: TextureDimension::D2,
            format: TexelFormat::Rgba8UnormSrgb,
            usage: TextureUsages { bits: TEXTURE_USAGE_TEXTURE_BINDING | TEXTURE_USAGE_COPY_DST },
        }
    }

    /// How the uploaded bytes are laid out: rows of four bytes per pixel,
    /// one after the other from offset 0.
    pub fn data_layout(&self) -> (layout: ImageDataLayout)
        ensures
            layout == packed_rows(self.width(), self.height()),
            layout.offset == 0,
            layout.bytes_per_row == BYTES_PER_TEXEL * self.width(),
            layout.rows_per_image == self.height(),
            layout.bytes_per_row * layout.rows_per_image == self.pixels().len(),
    {
        proof {
            use_type_invariant(self);
        }
        ImageDataLayout {
            offset: 0,
            bytes_per_row: BYTES_PER_TEXEL * self.width,
            rows_per_image: self.height,
        }
    }

    /// The region that the upload fills: the whole texture.
    pub fn copy_size(&self) -> (size: Extent3d)
        ensures
            size == texture_descriptor(self.width(), self.height()).size,
    {
        Extent3d { width: self.width, height: self.height, depth_or_array_layers: 1 }
    }

    /// What the sampler is created with.
    pub fn sampler(&self) -> (sampler: SamplerDescriptor)
        ensures
            sampler == linear_clamped_sampler(),
            sampler.is_filtering(),
    {
        SamplerDescriptor {
            address_mode_u: AddressMode::ClampToEdge,
            address_mode_v: AddressMode::ClampToEdge,
            address_mode_w: AddressMode::ClampToEdge,
            mag_filter: FilterMode::Linear,
            min_filter: FilterMode::Linear,
            mipmap_filter: FilterMode::Nearest,
        }
    }
}

} // verus!
