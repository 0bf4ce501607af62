//! Downsampling: the power-of-two target policy and the Lanczos resampler.

use vstd::prelude::*;
use crate::raster::{PixelFormat, RasterImage, spec_channels};

verus! {

/// Whether `n` is a power of two.
pub open spec fn is_pow2(n: int) -> bool
    decreases n,
{
    if n <= 0 {
        false
    } else if n == 1 {
        true
    } else {
        n % 2 == 0 && is_pow2(n / 2)
    }
}

/// The largest power of two that is at most `d`, for `d >= 1`.
pub open spec fn spec_pow2_floor(d: int) -> int
    decreases d,
{
    if d < 2 {
        1
    } else {
        2 * spec_pow2_floor(d / 2)
    }
}

/// `spec_pow2_floor` earns its name: its value is a power of two, at most
/// `d`, and `d` is below its double.
pub proof fn lemma_spec_pow2_floor_props(d: int)
    requires
        d >= 1,
    ensures
        is_pow2(spec_pow2_floor(d)),
        spec_pow2_floor(d) <= d < 2 * spec_pow2_floor(d),
    decreases d,
{
    if d >= 2 {
        lemma_spec_pow2_floor_props(d / 2);
        assert(is_pow2(2 * spec_pow2_floor(d / 2))) by {
            assert((2 * spec_pow2_floor(d / 2)) / 2 == spec_pow2_floor(d / 2));
        }
    }
}

/// The largest power of two that is at most `d`: the size an unclassifiable
/// image is resampled to.  It is strictly below `d` unless `d` is itself a
/// power of two, so the resample-and-retry step can run at most once.
pub fn pow2_floor(d: u32) -> (r: u32)
    requires
        d >= 1,
    ensures
        r == spec_pow2_floor(d as int),
        is_pow2(r as int),
        r <= d,
        d < 2 * (r as int),
{
    let mut p: u32 = 1;
    while p <= d / 2
        invariant
            1 <= p <= d,
            is_pow2(p as int),
            d >= 1,
        decreases d - p,
    {
        proof {
            assert(is_pow2(2 * (p as int))) by {
                assert((2 * (p as int)) / 2 == p as int);
            }
        }
        p = p * 2;
    }
    proof {
        assert(2 * ((d as int) / 2) >= (d as int) - 1);
        lemma_spec_pow2_floor_props(d as int);
        lemma_pow2_floor_unique(d as int, p as int, spec_pow2_floor(d as int));
    }
    p
}

/// Of two distinct powers of two, the larger is at least twice the smaller.
pub proof fn lemma_pow2_gap(a: int, b: int)
    requires
        is_pow2(a),
        is_pow2(b),
        a < b,
    ensures
        2 * a <= b,
    decreases b,
{
    if b > 1 {
        if a < b / 2 {
            lemma_pow2_gap(a, b / 2);
        } else if a > b / 2 {
            lemma_pow2_gap(b / 2, a);
        }
    }
}

/// The floor power of two is unique: two powers of two that both satisfy the
/// contract of `pow2_floor` for the same `d` are equal.
pub proof fn lemma_pow2_floor_unique(d: int, a: int, b: int)
    requires
        is_pow2(a),
        is_pow2(b),
        a <= d < 2 * a,
        b <= d < 2 * b,
    ensures
        a == b,
{
    if a < b {
        lemma_pow2_gap(a, b);
    } else if b < a {
        lemma_pow2_gap(b, a);
    }
}

/// Name for the pixels that the Lanczos filter of the image crate produces
/// when a `width` by `height` source with the given bytes per pixel is
/// resampled to a square of edge `target`; the result depends on the source
/// pixels alone.
pub uninterp spec fn lanczos(
    channels: int,
    width: int,
    height: int,
    data: Seq<u8>,
    target: int,
) -> Seq<u8>;

/// Relies on `image::imageops::resize` with `FilterType::Lanczos3` on an
/// 8-bit RGBA buffer: the result has exactly the requested dimensions and is a
/// function of the source pixels alone.
#[verifier::external_body]
fn resample_rgba(width: u32, height: u32, data: &Vec<u8>, target: u32) -> (r: Vec<u8>)
    requires
        width > 0,
        height > 0,
        target > 0,
        data@.len() == width * height * 4,
    ensures
        r@ == lanczos(4, width as int, height as int, data@, target as int),
        r@.len() == target * target * 4,
{
    let buf: image::RgbaImage = image::ImageBuffer::from_raw(width, height, data.clone()).unwrap();
    image::imageops::resize(&buf, target, target, image::imageops::FilterType::Lanczos3).into_raw()
}

/// Relies on `image::imageops::resize` with `FilterType::Lanczos3` on an
/// 8-bit RGB buffer: the result has exactly the requested dimensions and is a
/// function of the source pixels alone.
#[verifier::external_body]
fn resample_rgb(width: u32, height: u32, data: &Vec<u8>, target: u32) -> (r: Vec<u8>)
    requires
        width > 0,
        height > 0,
        target > 0,
        data@.len() == width * height * 3,
    ensures
        r@ == lanczos(3, width as int, height as int, data@, target as int),
        r@.len() == target * target * 3,
{
    let buf: image::RgbImage = image::ImageBuffer::from_raw(width, height, data.clone()).unwrap();
    image::imageops::resize(&buf, target, target, image::imageops::FilterType::Lanczos3).into_raw()
}

/// Relies on `image::imageops::resize` with `FilterType::Lanczos3` on an
/// 8-bit gray-plus-alpha buffer: the result has exactly the requested
/// dimensions and is a function of the source pixels alone.
#[verifier::external_body]
fn resample_gray_alpha(width: u32, height: u32, data: &Vec<u8>, target: u32) -> (r: Vec<u8>)
    requires
        width > 0,
        height > 0,
        target > 0,
        data@.len() == width * height * 2,
    ensures
        r@ == lanczos(2, width as int, height as int, data@, target as int),
        r@.len() == target * target * 2,
{
    let buf: image::GrayAlphaImage = image::ImageBuffer::from_raw(
        width,
        height,
        data.clone(),
    ).unwrap();
    image::imageops::resize(&buf, target, target, image::imageops::FilterType::Lanczos3).into_raw()
}

/// Relies on `image::imageops::resize` with `FilterType::Lanczos3` on an
/// 8-bit grayscale buffer: the result has exactly the requested dimensions and
/// is a function of the source pixels alone.
#[verifier::external_body]
fn resample_gray(width: u32, height: u32, data: &Vec<u8>, target: u32) -> (r: Vec<u8>)
    requires
        width > 0,
        height > 0,
        target > 0,
        data@.len() == width * height * 1,
    ensures
        r@ == lanczos(1, width as int, height as int, data@, target as int),
        r@.len() == target * target * 1,
{
    let buf: image::GrayImage = image::ImageBuffer::from_raw(width, height, data.clone()).unwrap();
    image::imageops::resize(&buf, target, target, image::imageops::FilterType::Lanczos3).into_raw()
}

/// Resamples an image to a `target` by `target` square with the Lanczos
/// filter, keeping its pixel format.  The source is read, never changed; the
/// result is a fresh, well-formed image whose pixels are the filter's output.
pub fn resample(img: &RasterImage, target: u32) -> (r: RasterImage)
    requires
        img.wf(),
        target > 0,
    ensures
        r.wf(),
        r.width == target,
        r.height == target,
        r.format == img.format,
        r.data@ == lanczos(
            spec_channels(img.format),
            img.width as int,
            img.height as int,
            img.data@,
            target as int,
        ),
{
    let data = match img.format {
        PixelFormat::Rgba8 => resample_rgba(img.width, img.height, &img.data, target),
        PixelFormat::Rgb8 => resample_rgb(img.width, img.height, &img.data, target),
        PixelFormat::GrayAlpha8 => resample_gray_alpha(img.width, img.height, &img.data, target),
        PixelFormat::Gray8 => resample_gray(img.width, img.height, &img.data, target),
    };
    RasterImage { width: target, height: target, format: img.format, data }
}

} // verus!
