//! In-memory bitmaps: the four supported pixel formats and the image type the
//! whole pipeline works on.

use vstd::prelude::*;

verus! {

/// The four pixel layouts the pipeline accepts, each with 8 bits per channel.
#[derive(Clone, Copy, Debug, PartialEq, Eq, Structural)]
pub enum PixelFormat {
    Gray8,
    GrayAlpha8,
    Rgb8,
    Rgba8,
}

/// Bytes per pixel of a format.
pub open spec fn spec_channels(f: PixelFormat) -> int {
    match f {
        PixelFormat::Gray8 => 1,
        PixelFormat::GrayAlpha8 => 2,
        PixelFormat::Rgb8 => 3,
        PixelFormat::Rgba8 => 4,
    }
}

impl PixelFormat {
    /// Bytes per pixel of this format.
    pub fn channels(self) -> (r: u32)
        ensures
            r == spec_channels(self),
    {
        match self {
            PixelFormat::Gray8 => 1,
            PixelFormat::GrayAlpha8 => 2,
            PixelFormat::Rgb8 => 3,
            PixelFormat::Rgba8 => 4,
        }
    }
}

/// Minimum of two integers.
pub open spec fn spec_min(a: int, b: int) -> int {
    if a <= b {
        a
    } else {
        b
    }
}

/// A decoded bitmap: positive dimensions, one of the four formats, and a pixel
/// buffer holding exactly `width * height * channels` bytes.  Never mutated:
/// the resampler builds a new image instead.
pub struct RasterImage {
    pub width: u32,
    pub height: u32,
    pub format: PixelFormat,
    pub data: Vec<u8>,
}

impl RasterImage {
    /// The buffer is sized exactly for the dimensions and format.
    pub open spec fn wf(self) -> bool {
        &&& self.width > 0
        &&& self.height > 0
        &&& self.data@.len() == self.width * self.height * spec_channels(self.format)
    }

    /// Builds an image from its parts, rejecting dimensions of zero and a
    /// buffer whose length does not match `width * height * channels`.
    pub fn new(width: u32, height: u32, format: PixelFormat, data: Vec<u8>) -> (r: Option<
        RasterImage,
    >)
        ensures
            r is Some <==> (width > 0 && height > 0 && data@.len() == width * height
                * spec_channels(format)),
            r is Some ==> {
                &&& r->Some_0.wf()
                &&& r->Some_0.width == width
                &&& r->Some_0.height == height
                &&& r->Some_0.format == format
                &&& r->Some_0.data@ == data@
            },
    {
        if width == 0 || height == 0 {
            return None;
        }
        proof {
            assert((width as int) * (height as int) <= 0xffff_ffff * 0xffff_ffff)
                by (nonlinear_arith)
                requires
                    0 <= width <= 0xffff_ffff,
                    0 <= height <= 0xffff_ffff,
            ;
        }
        let pixels: u64 = (width as u64) * (height as u64);
        let actual: u64 = data.len() as u64;
        match pixels.checked_mul(format.channels() as u64) {
            Some(expected) => {
                proof {
                    assert(expected == width * height * spec_channels(format))
                        by (nonlinear_arith)
                        requires
                            expected == pixels * spec_channels(format),
                            pixels == (width as int) * (height as int),
                    ;
                }
                if actual == expected {
                    Some(RasterImage { width, height, format, data })
                } else {
                    None
                }
            },
            None => {
                proof {
                    assert(width * height * spec_channels(format) > u64::MAX)
                        by (nonlinear_arith)
                        requires
                            pixels * spec_channels(format) > u64::MAX,
                            pixels == (width as int) * (height as int),
                    ;
                    assert(data@.len() <= u64::MAX);
                }
                None
            },
        }
    }

    /// The square dimension classification works on: the smaller edge.
    pub fn square_dim(&self) -> (r: u32)
        ensures
            r == spec_min(self.width as int, self.height as int),
    {
        if self.width <= self.height {
            self.width
        } else {
            self.height
        }
    }
}

} // verus!
