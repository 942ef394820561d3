//! Image marshaling: normalizing an arbitrary decoded image into the
//! 3- or 4-channel interleaved 8-bit layout the engine accepts, and
//! reconstructing a typed image from the engine's raw output bytes.
//!
//! Pixel storage and format conversion belong to the `image` crate; a
//! value of its `DynamicImage` type is opaque here, so its dimensions,
//! bytes-per-pixel and raw contents are named by uninterpreted spec
//! functions, and each conversion the adapter performs is a trusted
//! wrapper whose contract records what the crate's source shows.

use vstd::prelude::*;

verus! {

#[verifier::external_type_specification]
#[verifier::external_body]
pub struct ExDynamicImage(image::DynamicImage);

/// The width, in pixels, that `DynamicImage::width` reports.
pub uninterp spec fn width_of(img: image::DynamicImage) -> u32;

/// The height, in pixels, that `DynamicImage::height` reports.
pub uninterp spec fn height_of(img: image::DynamicImage) -> u32;

/// The bytes-per-pixel figure of the image's color type, as
/// `ColorType::bytes_per_pixel` reports it.
pub uninterp spec fn bpp_of(img: image::DynamicImage) -> u8;

/// The raw interleaved sample bytes backing the image.
pub uninterp spec fn data_of(img: image::DynamicImage) -> Seq<u8>;

/// The 8-bit RGB image that `DynamicImage::to_rgb8` converts this image
/// into; a pure function of the pixel data alone.
pub uninterp spec fn rgb8_of(img: image::DynamicImage) -> image::DynamicImage;

/// The 8-bit RGBA image that `DynamicImage::to_rgba8` converts this image
/// into; a pure function of the pixel data alone.
pub uninterp spec fn rgba8_of(img: image::DynamicImage) -> image::DynamicImage;

/// Relies on `DynamicImage::width`.
#[verifier::external_body]
pub(crate) fn image_width(img: &image::DynamicImage) -> (r: u32)
    ensures
        r == width_of(*img),
{
    img.width()
}

/// Relies on `DynamicImage::height`.
#[verifier::external_body]
pub(crate) fn image_height(img: &image::DynamicImage) -> (r: u32)
    ensures
        r == height_of(*img),
{
    img.height()
}

/// Relies on `DynamicImage::color` and `ColorType::bytes_per_pixel`: one
/// of 1, 2, 3, 4, 6, 8, 12 or 16 bytes for each pixel, fixed by the
/// image's color variant.
#[verifier::external_body]
fn image_bytes_per_pixel(img: &image::DynamicImage) -> (r: u8)
    ensures
        r == bpp_of(*img),
        r == 1 || r == 2 || r == 3 || r == 4 || r == 6 || r == 8 || r == 12 || r == 16,
{
    img.color().bytes_per_pixel()
}

/// Relies on `DynamicImage::to_rgb8`: a copy of the image as 8-bit RGB
/// with the same dimensions, so three bytes for each pixel.
#[verifier::external_body]
fn image_to_rgb8(img: &image::DynamicImage) -> (r: image::DynamicImage)
    ensures
        r == rgb8_of(*img),
        width_of(r) == width_of(*img),
        height_of(r) == height_of(*img),
        bpp_of(r) == 3,
        data_of(r).len() == width_of(*img) as int * height_of(*img) as int * 3,
{
    image::DynamicImage::from(img.to_rgb8())
}

/// Relies on `DynamicImage::to_rgba8`: a copy of the image as 8-bit RGBA
/// with the same dimensions, so four bytes for each pixel.
#[verifier::external_body]
fn image_to_rgba8(img: &image::DynamicImage) -> (r: image::DynamicImage)
    ensures
        r == rgba8_of(*img),
        width_of(r) == width_of(*img),
        height_of(r) == height_of(*img),
        bpp_of(r) == 4,
        data_of(r).len() == width_of(*img) as int * height_of(*img) as int * 4,
{
    image::DynamicImage::from(img.to_rgba8())
}

/// Relies on `ImageBuffer::from_raw` for `Luma<u8>` pixels: an exactly
/// sized buffer is accepted and kept as the image's backing storage.
#[verifier::external_body]
fn gray_image_from_raw(width: u32, height: u32, bytes: Vec<u8>) -> (r: image::DynamicImage)
    requires
        bytes@.len() == width * height,
    ensures
        width_of(r) == width,
        height_of(r) == height,
        bpp_of(r) == 1,
        data_of(r) == bytes@,
{
    image::DynamicImage::from(image::GrayImage::from_raw(width, height, bytes).unwrap())
}

/// Relies on `ImageBuffer::from_raw` for `LumaA<u8>` pixels: an exactly
/// sized buffer is accepted and kept as the image's backing storage.
#[verifier::external_body]
fn gray_alpha_image_from_raw(width: u32, height: u32, bytes: Vec<u8>) -> (r: image::DynamicImage)
    requires
        bytes@.len() == width * height * 2,
    ensures
        width_of(r) == width,
        height_of(r) == height,
        bpp_of(r) == 2,
        data_of(r) == bytes@,
{
    image::DynamicImage::from(image::GrayAlphaImage::from_raw(width, height, bytes).unwrap())
}

/// Relies on `ImageBuffer::from_raw` for `Rgb<u8>` pixels: an exactly
/// sized buffer is accepted and kept as the image's backing storage.
#[verifier::external_body]
fn rgb_image_from_raw(width: u32, height: u32, bytes: Vec<u8>) -> (r: image::DynamicImage)
    requires
        bytes@.len() == width * height * 3,
    ensures
        width_of(r) == width,
        height_of(r) == height,
        bpp_of(r) == 3,
        data_of(r) == bytes@,
{
    image::DynamicImage::from(image::RgbImage::from_raw(width, height, bytes).unwrap())
}

/// Relies on `ImageBuffer::from_raw` for `Rgba<u8>` pixels: an exactly
/// sized buffer is accepted and kept as the image's backing storage.
#[verifier::external_body]
fn rgba_image_from_raw(width: u32, height: u32, bytes: Vec<u8>) -> (r: image::DynamicImage)
    requires
        bytes@.len() == width * height * 4,
    ensures
        width_of(r) == width,
        height_of(r) == height,
        bpp_of(r) == 4,
        data_of(r) == bytes@,
{
    image::DynamicImage::from(image::RgbaImage::from_raw(width, height, bytes).unwrap())
}

/// The channel count an input with this bytes-per-pixel figure has after
/// normalization: 1-byte pixels are promoted to 3-channel RGB, 2-byte
/// pixels to 4-channel RGBA, and everything else passes through.
pub open spec fn spec_normalized_channels(bpp: u8) -> u8 {
    if bpp == 1 {
        3
    } else if bpp == 2 {
        4
    } else {
        bpp
    }
}

/// A byte buffer can be reconstructed into a typed image exactly when the
/// channel count names one of the four 8-bit layouts and the buffer holds
/// exactly one byte per channel per pixel.
pub open spec fn reconstruct_accepts(width: u32, height: u32, channels: u8, len: nat) -> bool {
    &&& 1 <= channels <= 4
    &&& len == width * height * channels
}

/// An engine output buffer whose shape does not describe a typed image.
#[derive(Debug, Copy, Clone, PartialEq, Eq, Structural)]
pub enum MarshalError {
    /// The channel count is not one of the four 8-bit layouts.
    UnsupportedChannelCount,
    /// The buffer does not hold exactly `width * height * channels` bytes.
    BufferSizeMismatch,
}

/// Normalizes a decoded image into a layout the engine accepts, returning
/// it with its channel count.
///
/// A 1-byte-per-pixel image becomes 3-channel 8-bit RGB, a
/// 2-byte-per-pixel image becomes 4-channel 8-bit RGBA, and any other
/// image passes through unchanged with its own bytes-per-pixel figure as
/// the channel count.
pub fn normalize(img: image::DynamicImage) -> (r: (image::DynamicImage, u8))
    ensures
        r.1 == spec_normalized_channels(bpp_of(img)),
        bpp_of(img) == 1 ==> r.0 == rgb8_of(img),
        bpp_of(img) == 2 ==> r.0 == rgba8_of(img),
        bpp_of(img) != 1 && bpp_of(img) != 2 ==> r.0 == img,
        width_of(r.0) == width_of(img),
        height_of(r.0) == height_of(img),
        bpp_of(r.0) == r.1,
{
    let bpp = image_bytes_per_pixel(&img);
    if bpp == 1 {
        (image_to_rgb8(&img), 3)
    } else if bpp == 2 {
        (image_to_rgba8(&img), 4)
    } else {
        (img, bpp)
    }
}

/// Rebuilds a typed image from the raw bytes the engine returned.
///
/// Channel count 4 yields RGBA, 3 RGB, 2 gray-plus-alpha and 1 gray; any
/// other count, or a buffer whose length does not match the dimensions,
/// is rejected rather than silently reinterpreted.
pub fn reconstruct(width: u32, height: u32, channels: u8, bytes: Vec<u8>) -> (r: Result<
    image::DynamicImage,
    MarshalError,
>)
    ensures
        r is Ok <==> reconstruct_accepts(width, height, channels, bytes@.len()),
        r is Ok ==> {
            let img = r->Ok_0;
            &&& width_of(img) == width
            &&& height_of(img) == height
            &&& bpp_of(img) == channels
            &&& data_of(img) == bytes@
        },
        r is Err ==> r->Err_0 == (if 1 <= channels <= 4 {
            MarshalError::BufferSizeMismatch
        } else {
            MarshalError::UnsupportedChannelCount
        }),
{
    if channels < 1 || channels > 4 {
        return Err(MarshalError::UnsupportedChannelCount);
    }
    let w: u128 = width as u128;
    let h: u128 = height as u128;
    let c: u128 = channels as u128;
    proof {
        assert(w * h < 0x10000000000000000 && w * h * c < 0x1000000000000000000000000) by (nonlinear_arith)
            requires
                w < 0x100000000,
                h < 0x100000000,
                c < 0x100000000,
        ;
    }
    let expected: u128 = w * h * c;
    if (bytes.len() as u128) != expected {
        return Err(MarshalError::BufferSizeMismatch);
    }
    if channels == 4 {
        Ok(rgba_image_from_raw(width, height, bytes))
    } else if channels == 3 {
        Ok(rgb_image_from_raw(width, height, bytes))
    } else if channels == 2 {
        Ok(gray_alpha_image_from_raw(width, height, bytes))
    } else {
        proof {
            assert(w * h * c == w * h) by (nonlinear_arith)
                requires
                    c == 1,
            ;
        }
        Ok(gray_image_from_raw(width, height, bytes))
    }
}

} // verus!
