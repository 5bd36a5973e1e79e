//! The texture loader: decodes the bytes of an image file, selects the
//! GPU pixel format from the decoded channel layout, and assembles
//! everything a GPU texture upload needs — pixel data, dimensions, format,
//! wrap and filter parameters, and the demand for a full mipmap chain.
//! The upload itself happens outside this crate.

use vstd::prelude::*;

use crate::LoadError;

verus! {

/// A decoded image, as plain values: dimensions, the channel layout
/// (channel count and bytes per pixel), and the raw pixel bytes.
pub struct DecodedImage {
    pub width: u32,
    pub height: u32,
    pub channels: u8,
    pub bytes_per_pixel: u8,
    pub pixels: Vec<u8>,
}

/// The abstract value of a [`DecodedImage`].
pub ghost struct DecodedImageView {
    pub width: u32,
    pub height: u32,
    pub channels: u8,
    pub bytes_per_pixel: u8,
    pub pixels: Seq<u8>,
}

impl View for DecodedImage {
    type V = DecodedImageView;

    closed spec fn view(&self) -> DecodedImageView {
        DecodedImageView {
            width: self.width,
            height: self.height,
            channels: self.channels,
            bytes_per_pixel: self.bytes_per_pixel,
            pixels: self.pixels@,
        }
    }
}

/// What decoding the given image-file bytes yields, or `None` when they
/// are no supported image format. A pure function of the bytes.
pub uninterp spec fn decoded_image(bytes: Seq<u8>) -> Option<DecodedImageView>;

/// Relies on image::load_from_memory (and the decoded image's accessors
/// for its dimensions, color layout and raw bytes): decoding is a pure
/// function of the file bytes.
#[verifier::external_body]
fn decode_image(bytes: &Vec<u8>) -> (r: Result<DecodedImage, LoadError>)
    ensures
        r is Ok <==> decoded_image(bytes@) is Some,
        r is Ok ==> r->Ok_0@ == decoded_image(bytes@)->Some_0,
        r is Err ==> r->Err_0 == LoadError::ImageDecode,
{
    match image::load_from_memory(bytes.as_slice()) {
        Ok(img) => {
            let color = img.color();
            Ok(DecodedImage {
                width: img.width(),
                height: img.height(),
                channels: color.channel_count(),
                bytes_per_pixel: color.bytes_per_pixel(),
                pixels: img.into_bytes(),
            })
        },
        Err(_) => Err(LoadError::ImageDecode),
    }
}

/// The GPU pixel formats the loader selects from: one per supported
/// channel layout.
#[derive(Clone, Copy, PartialEq, Eq, Structural, Debug)]
pub enum PixelFormat {
    Red,
    Rg,
    Rgb,
    Rgba,
}

/// Texture coordinate wrap behaviour on one axis.
#[derive(Clone, Copy, PartialEq, Eq, Structural, Debug)]
pub enum WrapMode {
    Repeat,
    ClampToEdge,
}

/// Minification filter.
#[derive(Clone, Copy, PartialEq, Eq, Structural, Debug)]
pub enum MinFilter {
    LinearMipmapLinear,
    Linear,
    Nearest,
}

/// Magnification filter.
#[derive(Clone, Copy, PartialEq, Eq, Structural, Debug)]
pub enum MagFilter {
    Linear,
    Nearest,
}

/// The format for a decoded channel layout: exactly the four 8-bit
/// layouts — single-channel, dual-channel, RGB, RGBA — are supported;
/// every other layout (more channels, or wider than 8 bits per channel)
/// is `None`.
pub open spec fn spec_format_for(channels: u8, bytes_per_pixel: u8) -> Option<PixelFormat> {
    if bytes_per_pixel != channels {
        None
    } else if channels == 1 {
        Some(PixelFormat::Red)
    } else if channels == 2 {
        Some(PixelFormat::Rg)
    } else if channels == 3 {
        Some(PixelFormat::Rgb)
    } else if channels == 4 {
        Some(PixelFormat::Rgba)
    } else {
        None
    }
}

/// Everything a GPU texture upload needs, ready for the graphics calls
/// outside this crate: pixel data with its dimensions and format, repeat
/// wrapping on both axes, linear filtering (mipmap-linear minification),
/// and a full mipmap chain.
pub struct PreparedTexture {
    pub width: u32,
    pub height: u32,
    pub format: PixelFormat,
    pub pixels: Vec<u8>,
    pub wrap_s: WrapMode,
    pub wrap_t: WrapMode,
    pub min_filter: MinFilter,
    pub mag_filter: MagFilter,
    pub generate_mipmaps: bool,
}

/// Decodes the bytes of an image file and prepares the texture upload.
/// Fails with `ImageDecode` exactly when the bytes are no supported image
/// format, and with `UnsupportedPixelLayout` exactly when the decoded
/// layout is not one of the four supported ones.
#[allow(non_snake_case)]
pub fn loadTexture(data: &Vec<u8>) -> (r: Result<PreparedTexture, LoadError>)
    ensures
        decoded_image(data@) is None ==> r is Err && r->Err_0 == LoadError::ImageDecode,
        decoded_image(data@) is Some ==> ({
            let d = decoded_image(data@)->Some_0;
            &&& (r is Ok <==> spec_format_for(d.channels, d.bytes_per_pixel) is Some)
            &&& (r is Err ==> spec_format_for(d.channels, d.bytes_per_pixel) is None
                && r->Err_0 == LoadError::UnsupportedPixelLayout)
            &&& (r is Ok ==> {
                &&& r->Ok_0.width == d.width
                &&& r->Ok_0.height == d.height
                &&& r->Ok_0.format == spec_format_for(d.channels, d.bytes_per_pixel)->Some_0
                &&& r->Ok_0.pixels@ == d.pixels
                &&& r->Ok_0.wrap_s == WrapMode::Repeat
                &&& r->Ok_0.wrap_t == WrapMode::Repeat
                &&& r->Ok_0.min_filter == MinFilter::LinearMipmapLinear
                &&& r->Ok_0.mag_filter == MagFilter::Linear
                &&& r->Ok_0.generate_mipmaps
            })
        }),
{
    let decoded = match decode_image(data) {
        Ok(d) => d,
        Err(e) => {
            return Err(e);
        },
    };
    let format: PixelFormat = if decoded.bytes_per_pixel != decoded.channels {
        return Err(LoadError::UnsupportedPixelLayout);
    } else if decoded.channels == 1 {
        PixelFormat::Red
    } else if decoded.channels == 2 {
        PixelFormat::Rg
    } else if decoded.channels == 3 {
        PixelFormat::Rgb
    } else if decoded.channels == 4 {
        PixelFormat::Rgba
    } else {
        return Err(LoadError::UnsupportedPixelLayout);
    };
    Ok(PreparedTexture {
        width: decoded.width,
        height: decoded.height,
        format,
        pixels: decoded.pixels,
        wrap_s: WrapMode::Repeat,
        wrap_t: WrapMode::Repeat,
        min_filter: MinFilter::LinearMipmapLinear,
        mag_filter: MagFilter::Linear,
        generate_mipmaps: true,
    })
}

} // verus!
