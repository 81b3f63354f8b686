//! The pixel buffer: a byte buffer tagged with a pixel format and its
//! dimensions, and the one format conversion the encode path needs.

use crate::format::PixelFormat;
use crate::format::spec_bytes_per_pixel;
use vstd::prelude::*;

verus! {

/// An in-memory image: a contiguous byte buffer tagged with a pixel format
/// and dimensions in pixels.
///
/// For every decoded pixel layout the buffer holds exactly
/// `bytes_per_pixel(format) * width * height` bytes, row-major. For the raw
/// `PNG` format the buffer holds a verbatim encoded PNG byte stream, whose
/// length is independent of `width` and `height`; the dimensions are then
/// metadata only, never indices into `data`.
pub struct Image {
    pub format: PixelFormat,
    pub width: u32,
    pub height: u32,
    pub data: Vec<u8>,
}

impl Image {
    /// The buffer-size invariant: decoded pixel data fills exactly
    /// `bytes_per_pixel * width * height` bytes. Raw `PNG` buffers are
    /// unconstrained.
    pub open spec fn well_formed(self) -> bool {
        self.format != PixelFormat::PNG ==> self.data@.len() == spec_bytes_per_pixel(self.format)
            * self.width * self.height
    }

    /// Creates a zero-initialized image of the given decoded pixel layout,
    /// sized exactly for its dimensions.
    pub fn new(format: PixelFormat, width: u32, height: u32) -> (r: Image)
        requires
            format != PixelFormat::PNG,
            spec_bytes_per_pixel(format) * width * height <= usize::MAX,
        ensures
            r.format == format,
            r.width == width,
            r.height == height,
            r.well_formed(),
            r.data@ == Seq::new((spec_bytes_per_pixel(format) * width * height) as nat, |i: int| 0u8),
    {
        let bpp = crate::format::bytes_per_pixel(format);
        proof {
            let b = bpp as int;
            let w = width as int;
            let h = height as int;
            assert(b >= 1);
            assert(w * h <= b * w * h && (w * h) * b == b * w * h) by (nonlinear_arith)
                requires
                    b >= 1,
                    w >= 0,
                    h >= 0,
            ;
        }
        let wh = (width as usize) * (height as usize);
        let n = wh * (bpp as usize);
        let mut data: Vec<u8> = Vec::new();
        let mut i: usize = 0;
        while i < n
            invariant
                i <= n,
                data@.len() == i,
                forall|k: int| 0 <= k < i ==> data@[k] == 0u8,
            decreases n - i,
        {
            data.push(0u8);
            i = i + 1;
        }
        proof {
            assert(n == spec_bytes_per_pixel(format) * width * height);
            assert(data@ =~= Seq::new((spec_bytes_per_pixel(format) * width * height) as nat,
                |i: int| 0u8));
        }
        Image { format, width, height, data }
    }
}

/// The single-channel `Alpha` layout rewritten as two-channel `GrayAlpha`:
/// each alpha byte is duplicated, first as the gray sample and then as the
/// alpha sample of the same pixel.
pub open spec fn alpha_to_gray_alpha(data: Seq<u8>) -> Seq<u8> {
    Seq::new(2 * data.len(), |i: int| data[i / 2])
}

/// In the converted buffer, every pixel's alpha sample equals the original
/// alpha value, and its gray sample repeats that same value.
pub proof fn lemma_alpha_conversion_preserves_alpha(data: Seq<u8>, i: int)
    requires
        0 <= i < data.len(),
    ensures
        alpha_to_gray_alpha(data)[2 * i + 1] == data[i],
        alpha_to_gray_alpha(data)[2 * i] == data[i],
{
    assert((2 * i + 1) / 2 == i);
    assert((2 * i) / 2 == i);
}

impl Image {
    /// Converts an `Alpha` buffer to the `GrayAlpha` layout by duplicating
    /// each alpha byte into a gray sample followed by an alpha sample. This
    /// is the one conversion the encode path needs; the original buffer is
    /// left untouched.
    pub fn convert_to(&self, target: PixelFormat) -> (r: Image)
        requires
            self.format == PixelFormat::Alpha,
            target == PixelFormat::GrayAlpha,
            self.well_formed(),
            2 * self.data@.len() <= usize::MAX,
        ensures
            r.format == PixelFormat::GrayAlpha,
            r.width == self.width,
            r.height == self.height,
            r.well_formed(),
            r.data@ == alpha_to_gray_alpha(self.data@),
    {
        let n = self.data.len();
        let mut data: Vec<u8> = Vec::new();
        let mut i: usize = 0;
        while i < n
            invariant
                i <= n,
                n == self.data@.len(),
                2 * n <= usize::MAX,
                data@.len() == 2 * i,
                forall|k: int| 0 <= k < 2 * i ==> data@[k] == self.data@[k / 2],
            decreases n - i,
        {
            let a = self.data[i];
            data.push(a);
            data.push(a);
            proof {
                assert forall|k: int| 0 <= k < 2 * (i + 1) implies data@[k] == self.data@[k / 2]
                by {
                    if k == 2 * i {
                        assert(k / 2 == i as int);
                    } else if k == 2 * i + 1 {
                        assert(k / 2 == i as int);
                    }
                }
            }
            i = i + 1;
        }
        proof {
            assert(data@ =~= alpha_to_gray_alpha(self.data@));
            let w = self.width as int;
            let h = self.height as int;
            assert((2 * w) * h == 2 * ((1 * w) * h)) by (nonlinear_arith);
        }
        Image { format: PixelFormat::GrayAlpha, width: self.width, height: self.height, data }
    }
}

} // verus!
