//! The codec adapter: decode and encode orchestration against the external
//! PNG codec, using the format mapper to interpret and produce headers, and
//! owning the validation and error-translation policy.

use crate::buffer::Image;
use crate::buffer::alpha_to_gray_alpha;
use crate::codec::ihdr_bit_depth;
use crate::codec::ihdr_color_type;
use crate::codec::ihdr_height;
use crate::codec::ihdr_width;
use crate::codec::png_decode_err;
use crate::codec::png_encoded;
use crate::codec::png_frame_ok;
use crate::codec::png_header_ok;
use crate::codec::png_output_size;
use crate::codec::png_pixels;
use crate::codec::png_read_header;
use crate::codec::png_read_pixels;
use crate::codec::png_write;
use crate::format::COLOR_TYPE_GRAYSCALE_ALPHA;
use crate::format::EncodeTarget;
use crate::format::PixelFormat;
use crate::format::PngError;
use crate::format::from_png_color_type;
use crate::format::lemma_format_mapping_consistent;
use crate::format::spec_bytes_per_pixel;
use crate::format::spec_from_png_color_type;
use crate::format::spec_to_png_color_type;
use crate::format::to_png_color_type;
use vstd::prelude::*;

verus! {

/// The streams a decode must accept: the external codec accepts the whole
/// stream, and its header declares bit depth eight and a supported color
/// type.
pub open spec fn decodable(input: Seq<u8>) -> bool {
    &&& png_frame_ok(input)
    &&& ihdr_bit_depth(input) == 8
    &&& spec_from_png_color_type(ihdr_color_type(input), 8) is Ok
}

/// What a successful decode returns: a well-formed buffer whose format is
/// the mapping of the color type the stream declares (at bit depth eight),
/// whose dimensions are the ones the stream declares, and whose bytes are
/// the decoded image data of a stream the codec accepted in full.
pub open spec fn decode_ok(input: Seq<u8>, img: Image) -> bool {
    &&& input.len() >= 33
    &&& png_header_ok(input)
    &&& png_frame_ok(input)
    &&& ihdr_bit_depth(input) == 8
    &&& spec_from_png_color_type(ihdr_color_type(input), 8) == Ok::<PixelFormat, PngError>(
        img.format,
    )
    &&& img.width == ihdr_width(input)
    &&& img.height == ihdr_height(input)
    &&& img.well_formed()
    &&& img.data@ == png_pixels(input)
}

/// The full decode contract. Every decodable stream is decoded. An
/// unsupported bit depth or color type is rejected exactly when the codec
/// accepts the header and its bytes declare one, reporting the offending
/// value, the depth checked first. A collaborator-kind error is returned
/// only on a stream the codec itself rejects, at the header or in the image
/// data, and is exactly the kind the codec reports, translated once at the
/// boundary.
pub open spec fn decode_post(input: Seq<u8>, r: Result<Image, PngError>) -> bool {
    &&& (decodable(input) ==> r is Ok)
    &&& match r {
        Ok(img) => decode_ok(input, img),
        Err(e) => match e {
            PngError::UnsupportedBitDepth(d) => {
                &&& input.len() >= 33
                &&& png_header_ok(input)
                &&& d == ihdr_bit_depth(input)
                &&& d != 8
            },
            PngError::UnsupportedColorType(c) => {
                &&& input.len() >= 33
                &&& png_header_ok(input)
                &&& c == ihdr_color_type(input)
                &&& ihdr_bit_depth(input) == 8
                &&& spec_from_png_color_type(c, 8) is Err
            },
            _ => {
                &&& e == png_decode_err(input)
                &&& {
                    ||| !png_header_ok(input)
                    ||| {
                        &&& ihdr_bit_depth(input) == 8
                        &&& spec_from_png_color_type(ihdr_color_type(input), 8) is Ok
                        &&& !png_frame_ok(input)
                    }
                }
            },
        },
    }
}

/// What a successful raw passthrough decode returns: the verbatim input
/// bytes under the `PNG` marker format, tagged with the dimensions the
/// stream declares, after the stream passed the same validation as a full
/// decode.
pub open spec fn raw_ok(input: Seq<u8>, img: Image) -> bool {
    &&& img.format == PixelFormat::PNG
    &&& img.data@ == input
    &&& input.len() >= 33
    &&& png_header_ok(input)
    &&& png_frame_ok(input)
    &&& ihdr_bit_depth(input) == 8
    &&& spec_from_png_color_type(ihdr_color_type(input), 8) is Ok
    &&& img.width == ihdr_width(input)
    &&& img.height == ihdr_height(input)
}

/// What a successful encode returns, by the encode-direction mapping of the
/// buffer's format: raw buffers are emitted verbatim; a directly
/// representable format is encoded under its color type; an `Alpha` buffer
/// is first converted to `GrayAlpha` and the conversion is encoded. An
/// emitted stream is itself accepted by the decoder and decodes back to
/// exactly the pixel bytes that were encoded.
pub open spec fn write_ok(img: Image, out: Seq<u8>) -> bool {
    match spec_to_png_color_type(img.format) {
        EncodeTarget::Raw => out == img.data@,
        EncodeTarget::ColorType(ct) => {
            &&& out == png_encoded(img.width, img.height, ct, img.data@)
            &&& out.len() >= 33
            &&& ihdr_width(out) == img.width
            &&& ihdr_height(out) == img.height
            &&& ihdr_bit_depth(out) == 8
            &&& ihdr_color_type(out) == ct
            &&& png_header_ok(out)
            &&& png_frame_ok(out)
            &&& png_output_size(out) == img.data@.len()
            &&& png_pixels(out) == img.data@
        },
        EncodeTarget::Convert(target) => {
            &&& out == png_encoded(
                img.width,
                img.height,
                COLOR_TYPE_GRAYSCALE_ALPHA,
                alpha_to_gray_alpha(img.data@),
            )
            &&& out.len() >= 33
            &&& ihdr_width(out) == img.width
            &&& ihdr_height(out) == img.height
            &&& ihdr_bit_depth(out) == 8
            &&& ihdr_color_type(out) == COLOR_TYPE_GRAYSCALE_ALPHA
            &&& png_header_ok(out)
            &&& png_frame_ok(out)
            &&& png_output_size(out) == alpha_to_gray_alpha(img.data@).len()
            &&& png_pixels(out) == alpha_to_gray_alpha(img.data@)
        },
    }
}

impl Image {
    /// Decodes a PNG byte stream into a pixel buffer.
    ///
    /// The header is parsed and validated before any pixel buffer is
    /// allocated: an unsupported bit depth or color type aborts the decode
    /// first. The buffer is sized from the bytes-per-pixel table, which is
    /// proved equal to the size the external codec reports.
    pub fn decode_from_png(input: &[u8]) -> (r: Result<Image, PngError>)
        ensures
            decode_post(input@, r),
    {
        let header = match png_read_header(input) {
            Ok(h) => h,
            Err(e) => { return Err(e) },
        };
        let format = match from_png_color_type(header.color_type, header.bit_depth) {
            Ok(f) => f,
            Err(e) => { return Err(e) },
        };
        proof {
            lemma_format_mapping_consistent(format, header.color_type);
            assert(spec_bytes_per_pixel(format) * header.width * header.height
                == header.buffer_size);
        }
        let mut image = Image::new(format, header.width, header.height);
        proof {
            assert(image.data@ =~= Seq::new(png_output_size(input@), |i: int| 0u8));
        }
        match png_read_pixels(input, &mut image.data) {
            Ok(_) => Ok(image),
            Err(e) => Err(e),
        }
    }

    /// Reads the raw pixel data from a PNG byte stream.
    pub fn read_png(input: &[u8]) -> (r: Result<Image, PngError>)
        ensures
            decode_post(input@, r),
    {
        Image::decode_from_png(input)
    }

    /// Reads an image from a PNG byte stream without changing the data
    /// (useful for compressed files): the returned buffer holds the verbatim
    /// input under the `PNG` marker format, with the dimensions the stream
    /// declares. The stream is still fully decoded and validated; only the
    /// decoded pixels are discarded.
    pub fn read_png_unchanged(input: Vec<u8>) -> (r: Result<Image, PngError>)
        ensures
            decodable(input@) ==> r is Ok,
            match r {
                Ok(img) => raw_ok(input@, img),
                Err(e) => decode_post(input@, Err::<Image, PngError>(e)),
            },
    {
        let decoded = match Image::decode_from_png(input.as_slice()) {
            Ok(img) => img,
            Err(e) => { return Err(e) },
        };
        Ok(Image {
            format: PixelFormat::PNG,
            width: decoded.width,
            height: decoded.height,
            data: input,
        })
    }

    /// Writes the image to a PNG byte stream.
    ///
    /// A raw `PNG` buffer is emitted verbatim, and that always succeeds. An
    /// `Alpha` buffer is first converted to `GrayAlpha` (a policy choice,
    /// not an error: `Alpha` has no native PNG representation and is
    /// losslessly expressible as `GrayAlpha`). Every other format is encoded
    /// directly under its mapped color type at bit depth eight. Every
    /// well-formed buffer with nonzero dimensions encodes successfully; a
    /// failure can come only from the external codec, on a zero dimension.
    pub fn write_png(&self) -> (r: Result<Vec<u8>, PngError>)
        requires
            self.well_formed(),
            self.format == PixelFormat::Alpha ==> 2 * self.data@.len() <= usize::MAX,
        ensures
            match r {
                Ok(out) => write_ok(*self, out@),
                Err(e) => {
                    &&& self.format != PixelFormat::PNG
                    &&& (self.width == 0 || self.height == 0)
                    &&& e == PngError::DataFormatError
                },
            },
            self.format == PixelFormat::PNG ==> r is Ok,
            self.width > 0 && self.height > 0 ==> r is Ok,
    {
        match to_png_color_type(self.format) {
            EncodeTarget::Raw => Ok(vstd::slice::slice_to_vec(self.data.as_slice())),
            EncodeTarget::Convert(target) => {
                let converted = self.convert_to(target);
                // Binds the buffer length as a usize, which bounds the image
                // size the codec call requires to be addressable.
                let _converted_len: usize = converted.data.len();
                match png_write(
                    converted.width,
                    converted.height,
                    COLOR_TYPE_GRAYSCALE_ALPHA,
                    converted.data.as_slice(),
                ) {
                    Ok(out) => Ok(out),
                    Err(e) => Err(e),
                }
            },
            EncodeTarget::ColorType(ct) => {
                proof {
                    lemma_format_mapping_consistent(self.format, ct);
                }
                // Binds the buffer length as a usize, which bounds the image
                // size the codec call requires to be addressable.
                let _data_len: usize = self.data.len();
                match png_write(self.width, self.height, ct, self.data.as_slice()) {
                    Ok(out) => Ok(out),
                    Err(e) => Err(e),
                }
            },
        }
    }
}

/// Every stream the encoder emits for a pixel-data format is itself
/// accepted by the decoder, at bit depth eight and a supported color type,
/// so decoding it is owed to succeed.
pub proof fn lemma_encoded_stream_decodable(buf: Image, out: Seq<u8>)
    requires
        buf.format != PixelFormat::PNG,
        write_ok(buf, out),
    ensures
        decodable(out),
{
}

/// Round trip: a buffer whose format is directly representable, once
/// encoded and decoded again, is recovered whole: same format, width,
/// height, and pixel bytes.
pub proof fn lemma_round_trip(buf: Image, out: Seq<u8>, dec: Image)
    requires
        buf.well_formed(),
        spec_to_png_color_type(buf.format) matches EncodeTarget::ColorType(_),
        write_ok(buf, out),
        decode_ok(out, dec),
    ensures
        dec.format == buf.format,
        dec.width == buf.width,
        dec.height == buf.height,
        dec.data@ == buf.data@,
{
    let ct = spec_to_png_color_type(buf.format)->ColorType_0;
    lemma_format_mapping_consistent(buf.format, ct);
}

/// Round trip of the `Alpha` policy branch: an `Alpha` buffer is encoded as
/// `GrayAlpha`, so decoding the produced stream yields a `GrayAlpha` buffer
/// of the original dimensions in which every pixel's alpha sample equals the
/// original alpha byte (and the gray sample, chosen by the conversion,
/// repeats it).
pub proof fn lemma_alpha_round_trip(buf: Image, out: Seq<u8>, dec: Image)
    requires
        buf.well_formed(),
        buf.format == PixelFormat::Alpha,
        write_ok(buf, out),
        decode_ok(out, dec),
    ensures
        dec.format == PixelFormat::GrayAlpha,
        dec.width == buf.width,
        dec.height == buf.height,
        dec.data@ == alpha_to_gray_alpha(buf.data@),
        dec.data@.len() == 2 * buf.data@.len(),
        forall|i: int|
            0 <= i < buf.data@.len() ==> dec.data@[2 * i + 1] == buf.data@[i] && dec.data@[2 * i]
                == buf.data@[i],
{
    let w = buf.width as int;
    let h = buf.height as int;
    assert((2 * w) * h == 2 * ((1 * w) * h)) by (nonlinear_arith);
    assert forall|i: int| 0 <= i < buf.data@.len() implies dec.data@[2 * i + 1] == buf.data@[i]
        && dec.data@[2 * i] == buf.data@[i] by {
        crate::buffer::lemma_alpha_conversion_preserves_alpha(buf.data@, i);
    }
}

/// Raw round trip: re-encoding a buffer produced by the raw passthrough
/// decode emits exactly the original byte stream.
pub proof fn lemma_raw_round_trip(input: Seq<u8>, img: Image, out: Seq<u8>)
    requires
        raw_ok(input, img),
        write_ok(img, out),
    ensures
        out == input,
{
}

/// Size invariant: a buffer a successful decode returns holds exactly
/// `bytes_per_pixel(format) * width * height` bytes, the size the external
/// codec independently reports for the stream.
pub proof fn lemma_decode_size_invariant(input: Seq<u8>, img: Image)
    requires
        decode_ok(input, img),
    ensures
        img.data@.len() == spec_bytes_per_pixel(img.format) * img.width * img.height,
{
}


} // verus!
