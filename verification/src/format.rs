//! The format mapper: a pure, bidirectional translation table between the
//! pixel-format enumeration and the PNG color-type/bit-depth pair.

use vstd::prelude::*;

verus! {

/// The layout of the bytes held by an [`crate::buffer::Image`].
///
/// Every variant but `PNG` is a decoded pixel layout with a fixed number of
/// bytes per pixel. `PNG` is the raw passthrough marker: the buffer holds a
/// complete encoded PNG byte stream, and width and height are metadata only.
#[derive(Clone, Copy, Debug, PartialEq, Eq, Structural)]
pub enum PixelFormat {
    RGBA,
    RGB,
    GrayAlpha,
    Gray,
    Alpha,
    PNG,
}

/// How a decode or encode attempt failed.
#[derive(Clone, Copy, Debug, PartialEq, Eq, Structural)]
pub enum PngError {
    /// The stream declares a PNG color type outside the supported set; the
    /// payload is the offending color type code.
    UnsupportedColorType(u8),
    /// The stream declares a bit depth other than eight; the payload is the
    /// offending depth.
    UnsupportedBitDepth(u8),
    /// The underlying byte transport failed.
    TransportError,
    /// The stream is not a structurally valid PNG, or the data handed to the
    /// encoder violates a format constraint.
    DataFormatError,
    /// A parameter or limit check failed inside the codec.
    ParameterError,
}

/// PNG color type code for grayscale images.
pub const COLOR_TYPE_GRAYSCALE: u8 = 0;

/// PNG color type code for RGB images.
pub const COLOR_TYPE_RGB: u8 = 2;

/// PNG color type code for palette-indexed images (not supported here).
pub const COLOR_TYPE_INDEXED: u8 = 3;

/// PNG color type code for grayscale-with-alpha images.
pub const COLOR_TYPE_GRAYSCALE_ALPHA: u8 = 4;

/// PNG color type code for RGBA images.
pub const COLOR_TYPE_RGBA: u8 = 6;

/// Width in bytes of one pixel of a decoded pixel layout.
///
/// The raw `PNG` variant has no pixel layout; its entry is zero and is never
/// used to size a buffer.
pub open spec fn spec_bytes_per_pixel(format: PixelFormat) -> nat {
    match format {
        PixelFormat::RGBA => 4,
        PixelFormat::RGB => 3,
        PixelFormat::GrayAlpha => 2,
        PixelFormat::Gray => 1,
        PixelFormat::Alpha => 1,
        PixelFormat::PNG => 0,
    }
}

/// Width in bytes of one pixel, for the decoded pixel layouts.
pub fn bytes_per_pixel(format: PixelFormat) -> (r: u8)
    requires
        format != PixelFormat::PNG,
    ensures
        r == spec_bytes_per_pixel(format),
{
    match format {
        PixelFormat::RGBA => 4,
        PixelFormat::RGB => 3,
        PixelFormat::GrayAlpha => 2,
        PixelFormat::Gray => 1,
        PixelFormat::Alpha => 1,
        PixelFormat::PNG => 0,
    }
}

/// What the format mapper resolves a pixel format to on the encode path.
#[derive(Clone, Copy, Debug, PartialEq, Eq, Structural)]
pub enum EncodeTarget {
    /// Encode directly under this PNG color type code.
    ColorType(u8),
    /// No native PNG color type: convert the buffer to this format first,
    /// then encode the converted buffer.
    Convert(PixelFormat),
    /// The buffer already holds an encoded PNG stream: emit it verbatim.
    Raw,
}

/// The encode-direction mapping table.
///
/// `Alpha` has no PNG color-type equivalent and is mapped to a conversion to
/// `GrayAlpha`; this is policy, not an error. `PNG` buffers are written raw.
pub open spec fn spec_to_png_color_type(format: PixelFormat) -> EncodeTarget {
    match format {
        PixelFormat::RGBA => EncodeTarget::ColorType(COLOR_TYPE_RGBA),
        PixelFormat::RGB => EncodeTarget::ColorType(COLOR_TYPE_RGB),
        PixelFormat::GrayAlpha => EncodeTarget::ColorType(COLOR_TYPE_GRAYSCALE_ALPHA),
        PixelFormat::Gray => EncodeTarget::ColorType(COLOR_TYPE_GRAYSCALE),
        PixelFormat::Alpha => EncodeTarget::Convert(PixelFormat::GrayAlpha),
        PixelFormat::PNG => EncodeTarget::Raw,
    }
}

/// Resolves the PNG color type to encode a pixel format under, or the policy
/// branch (convert first, or write raw) that applies instead.
pub fn to_png_color_type(format: PixelFormat) -> (r: EncodeTarget)
    ensures
        r == spec_to_png_color_type(format),
{
    match format {
        PixelFormat::RGBA => EncodeTarget::ColorType(COLOR_TYPE_RGBA),
        PixelFormat::RGB => EncodeTarget::ColorType(COLOR_TYPE_RGB),
        PixelFormat::GrayAlpha => EncodeTarget::ColorType(COLOR_TYPE_GRAYSCALE_ALPHA),
        PixelFormat::Gray => EncodeTarget::ColorType(COLOR_TYPE_GRAYSCALE),
        PixelFormat::Alpha => EncodeTarget::Convert(PixelFormat::GrayAlpha),
        PixelFormat::PNG => EncodeTarget::Raw,
    }
}

/// The decode-direction mapping table.
///
/// Only bit depth eight is accepted; any other depth is rejected first, and
/// reported. With depth eight, exactly the four color types with a direct
/// pixel-format equivalent are accepted; every other color type is rejected
/// and reported.
pub open spec fn spec_from_png_color_type(color_type: u8, bit_depth: u8) -> Result<
    PixelFormat,
    PngError,
> {
    if bit_depth != 8 {
        Err(PngError::UnsupportedBitDepth(bit_depth))
    } else if color_type == COLOR_TYPE_RGBA {
        Ok(PixelFormat::RGBA)
    } else if color_type == COLOR_TYPE_RGB {
        Ok(PixelFormat::RGB)
    } else if color_type == COLOR_TYPE_GRAYSCALE_ALPHA {
        Ok(PixelFormat::GrayAlpha)
    } else if color_type == COLOR_TYPE_GRAYSCALE {
        Ok(PixelFormat::Gray)
    } else {
        Err(PngError::UnsupportedColorType(color_type))
    }
}

/// Maps a PNG color-type/bit-depth pair to the pixel format it decodes to,
/// or to the error naming the unsupported depth or color type.
pub fn from_png_color_type(color_type: u8, bit_depth: u8) -> (r: Result<PixelFormat, PngError>)
    ensures
        r == spec_from_png_color_type(color_type, bit_depth),
{
    if bit_depth != 8 {
        Err(PngError::UnsupportedBitDepth(bit_depth))
    } else if color_type == COLOR_TYPE_RGBA {
        Ok(PixelFormat::RGBA)
    } else if color_type == COLOR_TYPE_RGB {
        Ok(PixelFormat::RGB)
    } else if color_type == COLOR_TYPE_GRAYSCALE_ALPHA {
        Ok(PixelFormat::GrayAlpha)
    } else if color_type == COLOR_TYPE_GRAYSCALE {
        Ok(PixelFormat::Gray)
    } else {
        Err(PngError::UnsupportedColorType(color_type))
    }
}

/// Samples per pixel that the PNG container prescribes for a color type code
/// at bit depth eight (one byte per sample).
pub open spec fn samples_of_color_type(color_type: u8) -> nat {
    if color_type == COLOR_TYPE_GRAYSCALE {
        1
    } else if color_type == COLOR_TYPE_RGB {
        3
    } else if color_type == COLOR_TYPE_INDEXED {
        1
    } else if color_type == COLOR_TYPE_GRAYSCALE_ALPHA {
        2
    } else if color_type == COLOR_TYPE_RGBA {
        4
    } else {
        0
    }
}

/// The two directions of the format mapping agree on the supported subset,
/// and the bytes-per-pixel table matches the sample count of the color type
/// a format is encoded under: a buffer sized by the table is exactly the
/// size the container prescribes for the image it encodes to.
pub proof fn lemma_format_mapping_consistent(format: PixelFormat, color_type: u8)
    ensures
        spec_to_png_color_type(format) == EncodeTarget::ColorType(color_type) ==> {
            &&& spec_from_png_color_type(color_type, 8) == Ok::<PixelFormat, PngError>(format)
            &&& samples_of_color_type(color_type) == spec_bytes_per_pixel(format)
        },
        spec_from_png_color_type(color_type, 8) == Ok::<PixelFormat, PngError>(format)
            ==> spec_to_png_color_type(format) == EncodeTarget::ColorType(color_type),
{
}

} // verus!
