use image::{DynamicImage, GrayAlphaImage, GrayImage, ImageBuffer, Luma, RgbImage, RgbaImage};
use realcugan::marshal::{normalize, reconstruct, MarshalError};

fn gray(w: u32, h: u32, bytes: Vec<u8>) -> DynamicImage {
    DynamicImage::from(GrayImage::from_raw(w, h, bytes).unwrap())
}

#[test]
fn one_byte_pixels_normalize_to_three_channels() {
    let (out, channels) = normalize(gray(2, 2, vec![10, 20, 30, 40]));
    assert_eq!(channels, 3);
    assert_eq!(out.color().bytes_per_pixel(), 3);
    assert_eq!(out.width(), 2);
    assert_eq!(out.height(), 2);
    // Grayscale promotes by replicating the luminance into each channel,
    // so the converted buffer is more than the input handed back.
    assert_eq!(out.as_bytes(), &[10, 10, 10, 20, 20, 20, 30, 30, 30, 40, 40, 40]);
}

#[test]
fn two_byte_pixels_normalize_to_four_channels() {
    let la = DynamicImage::from(GrayAlphaImage::from_raw(2, 1, vec![9, 200, 17, 255]).unwrap());
    let (out, channels) = normalize(la);
    assert_eq!(channels, 4);
    assert_eq!(out.color().bytes_per_pixel(), 4);
    assert_eq!(out.width(), 2);
    assert_eq!(out.height(), 1);
    assert_eq!(out.as_bytes(), &[9, 9, 9, 200, 17, 17, 17, 255]);
}

#[test]
fn sixteen_bit_gray_counts_as_two_byte_pixels() {
    let l16: ImageBuffer<Luma<u16>, Vec<u16>> =
        ImageBuffer::from_raw(1, 1, vec![0xffffu16]).unwrap();
    let (out, channels) = normalize(DynamicImage::from(l16));
    assert_eq!(channels, 4);
    assert_eq!(out.color().bytes_per_pixel(), 4);
}

#[test]
fn three_byte_pixels_pass_through() {
    let rgb = DynamicImage::from(RgbImage::from_raw(1, 2, vec![1, 2, 3, 4, 5, 6]).unwrap());
    let (out, channels) = normalize(rgb);
    assert_eq!(channels, 3);
    assert_eq!(out.color().bytes_per_pixel(), 3);
    assert_eq!(out.as_bytes(), &[1, 2, 3, 4, 5, 6]);
}

#[test]
fn four_byte_pixels_pass_through() {
    let rgba = DynamicImage::from(RgbaImage::from_raw(1, 1, vec![1, 2, 3, 4]).unwrap());
    let (out, channels) = normalize(rgba);
    assert_eq!(channels, 4);
    assert_eq!(out.color().bytes_per_pixel(), 4);
    assert_eq!(out.as_bytes(), &[1, 2, 3, 4]);
}

#[test]
fn reconstruct_builds_each_supported_layout() {
    let rgba = reconstruct(1, 2, 4, vec![1, 2, 3, 4, 5, 6, 7, 8]).unwrap();
    assert_eq!(rgba.color(), image::ColorType::Rgba8);
    assert_eq!(rgba.as_bytes(), &[1, 2, 3, 4, 5, 6, 7, 8]);

    let rgb = reconstruct(2, 1, 3, vec![1, 2, 3, 4, 5, 6]).unwrap();
    assert_eq!(rgb.color(), image::ColorType::Rgb8);
    assert_eq!(rgb.as_bytes(), &[1, 2, 3, 4, 5, 6]);

    let la = reconstruct(1, 1, 2, vec![7, 8]).unwrap();
    assert_eq!(la.color(), image::ColorType::La8);
    assert_eq!(la.as_bytes(), &[7, 8]);

    let l = reconstruct(3, 1, 1, vec![7, 8, 9]).unwrap();
    assert_eq!(l.color(), image::ColorType::L8);
    assert_eq!(l.as_bytes(), &[7, 8, 9]);
    assert_eq!(l.width(), 3);
    assert_eq!(l.height(), 1);
}

#[test]
fn reconstruct_rejects_unsupported_channel_counts() {
    assert_eq!(
        reconstruct(1, 1, 6, vec![0; 6]).unwrap_err(),
        MarshalError::UnsupportedChannelCount
    );
    assert_eq!(
        reconstruct(1, 1, 0, vec![]).unwrap_err(),
        MarshalError::UnsupportedChannelCount
    );
}

#[test]
fn reconstruct_rejects_wrong_buffer_size() {
    assert_eq!(
        reconstruct(2, 2, 3, vec![0; 11]).unwrap_err(),
        MarshalError::BufferSizeMismatch
    );
    assert_eq!(
        reconstruct(2, 2, 3, vec![0; 13]).unwrap_err(),
        MarshalError::BufferSizeMismatch
    );
}
