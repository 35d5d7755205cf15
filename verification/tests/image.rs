//! Decoded image ownership and size accounting.

use hitchcock::stb_image::{Error, Image};

#[test]
fn decode_byte_count_matches_dimensions() {
    let pixels = vec![7u8; 4 * 2 * 3];
    let img = Image::from_decoded(pixels.clone(), 4, 2, 3).unwrap();
    assert_eq!(img.width(), 4);
    assert_eq!(img.height(), 2);
    assert_eq!(img.channels(), 3);
    assert_eq!(img.pixels().len(), 4 * 2 * 3);
    assert_eq!(img.pixels(), pixels.as_slice());
}

#[test]
fn decode_with_mismatched_buffer_fails() {
    let r = Image::from_decoded(vec![0u8; 23], 4, 2, 3);
    assert_eq!(r, Err(Error::Load));
    let r = Image::from_decoded(vec![0u8; 25], 4, 2, 3);
    assert_eq!(r, Err(Error::Load));
}

#[test]
fn decode_empty_image() {
    let img = Image::from_decoded(Vec::new(), 0, 2, 3).unwrap();
    assert_eq!(img.width(), 0);
    assert_eq!(img.pixels().len(), 0);
    let r = Image::from_decoded(vec![1u8], 0, 2, 3);
    assert_eq!(r, Err(Error::Load));
}

#[test]
fn decode_single_pixel() {
    let img = Image::from_decoded(vec![1, 2, 3, 4], 1, 1, 4).unwrap();
    assert_eq!(img.channels(), 4);
    assert_eq!(img.pixels(), &[1, 2, 3, 4]);
}

#[test]
fn decode_large_dimensions_do_not_wrap() {
    let r = Image::from_decoded(vec![0u8; 8], usize::MAX, 2, 2);
    assert_eq!(r, Err(Error::Load));
}
