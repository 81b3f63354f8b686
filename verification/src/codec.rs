//! The trusted boundary to the external PNG codec (the `png` crate), and the
//! byte-level view of the PNG container header that its contracts are stated
//! over.
//!
//! A PNG stream opens with an eight-byte signature followed by the IHDR
//! chunk: four length bytes, the four type bytes, then thirteen data bytes of
//! which the first four are the width (big-endian), the next four the height,
//! the ninth the bit depth and the tenth the color type. Whenever the codec
//! accepts a stream, the header values it reports are exactly these bytes.

use crate::format::PngError;
use vstd::prelude::*;

verus! {

/// The big-endian 32-bit value held by four consecutive bytes of a stream.
pub open spec fn be32(b: Seq<u8>, i: int) -> nat {
    (b[i] as nat) * 0x1000000 + (b[i + 1] as nat) * 0x10000 + (b[i + 2] as nat) * 0x100 + (b[i
        + 3] as nat)
}

/// The width a PNG stream declares in its IHDR chunk.
pub open spec fn ihdr_width(b: Seq<u8>) -> nat {
    be32(b, 16)
}

/// The height a PNG stream declares in its IHDR chunk.
pub open spec fn ihdr_height(b: Seq<u8>) -> nat {
    be32(b, 20)
}

/// The bit depth a PNG stream declares in its IHDR chunk.
pub open spec fn ihdr_bit_depth(b: Seq<u8>) -> u8 {
    b[24]
}

/// The color type a PNG stream declares in its IHDR chunk.
pub open spec fn ihdr_color_type(b: Seq<u8>) -> u8 {
    b[25]
}

/// Whether the external codec accepts a stream's signature and metadata: the
/// header parse, run with an unbounded allocation budget so that the outcome
/// is deterministic in the bytes, succeeds.
pub uninterp spec fn png_header_ok(b: Seq<u8>) -> bool;

/// The error kind the external codec reports for a stream it rejects,
/// translated by the fixed taxonomy table: always one of the three
/// collaborator kinds, and deterministic in the bytes. A stream whose header
/// parse fails reports the header parse's kind; one rejected in the image
/// data reports that stage's kind.
pub uninterp spec fn png_decode_err(b: Seq<u8>) -> PngError;

/// Whether the external codec accepts the whole stream: the header parse
/// succeeds and the image data decodes without error into a buffer of
/// exactly the expected size. Deterministic in the bytes; implies
/// `png_header_ok`, since the frame decode begins with the same header
/// parse.
pub uninterp spec fn png_frame_ok(b: Seq<u8>) -> bool;

/// The output buffer size the external codec computes for a stream: the
/// number of bytes the decoded image fills.
pub uninterp spec fn png_output_size(b: Seq<u8>) -> nat;

/// The decoded pixel bytes the external codec produces for a stream, written
/// over a zero-initialized buffer of exactly `png_output_size(b)` bytes.
pub uninterp spec fn png_pixels(b: Seq<u8>) -> Seq<u8>;

/// The PNG stream the external codec emits for the given header values and
/// raw pixel data, at bit depth eight.
pub uninterp spec fn png_encoded(width: u32, height: u32, color_type: u8, data: Seq<u8>) -> Seq<
    u8,
>;

/// The header metadata the external codec reports after parsing a stream,
/// together with the output buffer size it expects.
pub struct PngHeader {
    pub width: u32,
    pub height: u32,
    pub color_type: u8,
    pub bit_depth: u8,
    pub buffer_size: usize,
}

#[verifier::external_type_specification]
#[verifier::external_body]
pub struct ExDecodingError(png::DecodingError);

#[verifier::external_type_specification]
#[verifier::external_body]
pub struct ExEncodingError(png::EncodingError);

/// Relies on the variants of png::DecodingError: IoError is a transport
/// failure, Format a malformed stream, and Parameter and LimitsExceeded are
/// parameter or limit violations.
#[verifier::external_body]
pub(crate) fn decode_error_kind(e: png::DecodingError) -> (r: PngError)
    ensures
        r is TransportError || r is DataFormatError || r is ParameterError,
{
    match e {
        png::DecodingError::IoError(_) => PngError::TransportError,
        png::DecodingError::Format(_) => PngError::DataFormatError,
        png::DecodingError::Parameter(_) => PngError::ParameterError,
        png::DecodingError::LimitsExceeded => PngError::ParameterError,
    }
}

/// Relies on the variants of png::EncodingError: IoError is a transport
/// failure, Format a constraint violation in the handed data, and Parameter
/// and LimitsExceeded are parameter or limit violations.
#[verifier::external_body]
pub(crate) fn encode_error_kind(e: png::EncodingError) -> (r: PngError)
    ensures
        r is TransportError || r is DataFormatError || r is ParameterError,
{
    match e {
        png::EncodingError::IoError(_) => PngError::TransportError,
        png::EncodingError::Format(_) => PngError::DataFormatError,
        png::EncodingError::Parameter(_) => PngError::ParameterError,
        png::EncodingError::LimitsExceeded => PngError::ParameterError,
    }
}

/// Relies on png::Decoder::read_info (with the default identity
/// transformations, and an unbounded allocation budget so that acceptance
/// depends on the stream content alone): it validates the signature and the
/// IHDR chunk, which must come first, and reports exactly the header fields
/// the stream declares; Reader::output_buffer_size is, at bit depth eight,
/// the declared sample count per pixel times width times height. A stream
/// whose header parse fails has no successful frame decode either, since the
/// frame decode begins with the same parse, and reports that parse's error
/// kind.
#[verifier::external_body]
pub(crate) fn png_read_header(input: &[u8]) -> (r: Result<PngHeader, PngError>)
    ensures
        r is Ok <==> png_header_ok(input@),
        match r {
            Ok(h) => {
                &&& input@.len() >= 33
                &&& h.width == ihdr_width(input@)
                &&& h.height == ihdr_height(input@)
                &&& h.bit_depth == ihdr_bit_depth(input@)
                &&& h.color_type == ihdr_color_type(input@)
                &&& h.buffer_size == png_output_size(input@)
                &&& (h.bit_depth == 8 ==> h.buffer_size == crate::format::samples_of_color_type(
                    h.color_type,
                ) * h.width * h.height)
            },
            Err(e) => {
                &&& (e is TransportError || e is DataFormatError || e is ParameterError)
                &&& e == png_decode_err(input@)
                &&& !png_frame_ok(input@)
            },
        },
{
    let decoder = png::Decoder::new_with_limits(input, png::Limits { bytes: usize::MAX });
    let reader = match decoder.read_info() {
        Ok(r) => r,
        Err(e) => return Err(decode_error_kind(e)),
    };
    let info = reader.info();
    Ok(PngHeader {
        width: info.width,
        height: info.height,
        color_type: info.color_type as u8,
        bit_depth: info.bit_depth as u8,
        buffer_size: reader.output_buffer_size(),
    })
}

/// Relies on png::Reader::next_frame (under the same unbounded allocation
/// budget): handed a zero-initialized buffer of exactly the size
/// Reader::output_buffer_size reports, it fills it with the decompressed,
/// de-filtered image data; the outcome, the data, and any error kind are
/// deterministic in the stream bytes.
#[verifier::external_body]
pub(crate) fn png_read_pixels(input: &[u8], buf: &mut Vec<u8>) -> (r: Result<(), PngError>)
    requires
        old(buf)@ == Seq::new(png_output_size(input@), |i: int| 0u8),
    ensures
        final(buf)@.len() == old(buf)@.len(),
        r is Ok <==> png_frame_ok(input@),
        r matches Ok(_) ==> final(buf)@ == png_pixels(input@),
        r matches Err(e) ==> (e is TransportError || e is DataFormatError || e is ParameterError)
            && e == png_decode_err(input@),
{
    let decoder = png::Decoder::new_with_limits(input, png::Limits { bytes: usize::MAX });
    let mut reader = match decoder.read_info() {
        Ok(r) => r,
        Err(e) => return Err(decode_error_kind(e)),
    };
    match reader.next_frame(buf.as_mut_slice()) {
        Ok(_) => Ok(()),
        Err(e) => Err(decode_error_kind(e)),
    }
}

/// Relies on png::Encoder and png::Writer (write_header, write_image_data,
/// finish): on success the emitted stream is a function of the four
/// arguments alone, and opens with the signature and an IHDR chunk declaring
/// exactly the given width, height, color type, and bit depth eight. Writing
/// into a byte vector cannot fail, so the sequence succeeds exactly when the
/// dimensions are nonzero and the data length matches the image size, and a
/// failure is the header writer's format error on a zero dimension, else the
/// data writer's parameter error on a size mismatch; PNG encoding is
/// lossless, so the emitted stream is accepted by the decoder and decodes
/// back to exactly the data handed in.
#[verifier::external_body]
pub(crate) fn png_write(width: u32, height: u32, color_type: u8, data: &[u8]) -> (r: Result<
    Vec<u8>,
    PngError,
>)
    requires
        color_type == 0 || color_type == 2 || color_type == 4 || color_type == 6,
        crate::format::samples_of_color_type(color_type) * width * height <= usize::MAX,
    ensures
        r is Ok <==> (width > 0 && height > 0
            && data@.len() == crate::format::samples_of_color_type(color_type) * width * height),
        match r {
            Ok(out) => {
                &&& out@ == png_encoded(width, height, color_type, data@)
                &&& out@.len() >= 33
                &&& ihdr_width(out@) == width
                &&& ihdr_height(out@) == height
                &&& ihdr_bit_depth(out@) == 8
                &&& ihdr_color_type(out@) == color_type
                &&& png_header_ok(out@)
                &&& png_frame_ok(out@)
                &&& png_output_size(out@) == data@.len()
                &&& png_pixels(out@) == data@
            },
            Err(e) => {
                &&& (width == 0 || height == 0 ==> e == PngError::DataFormatError)
                &&& (width > 0 && height > 0 ==> e == PngError::ParameterError)
            },
        },
{
    let ct = match color_type {
        0 => png::ColorType::Grayscale,
        2 => png::ColorType::Rgb,
        4 => png::ColorType::GrayscaleAlpha,
        _ => png::ColorType::Rgba,
    };
    let mut out: Vec<u8> = Vec::new();
    let mut encoder = png::Encoder::new(&mut out, width, height);
    encoder.set_color(ct);
    encoder.set_depth(png::BitDepth::Eight);
    let mut writer = match encoder.write_header() { Ok(w) => w, Err(e) => return Err(encode_error_kind(e)) };
    if let Err(e) = writer.write_image_data(data) { return Err(encode_error_kind(e)); }
    if let Err(e) = writer.finish() { return Err(encode_error_kind(e)); }
    Ok(out)
}

} // verus!
