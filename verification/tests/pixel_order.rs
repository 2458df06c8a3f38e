use screencast::render_helpers::pixel_order::PixelOrder;
use std::borrow::Cow;

#[test]
fn only_rgba_allocates_and_preserves_green_and_alpha() {
    let bytes = [1, 2, 3, 4, 5, 6, 7, 8];
    assert!(matches!(PixelOrder::Bgra.bgra(&bytes), Cow::Borrowed(_)));
    assert_eq!(&*PixelOrder::Rgba.bgra(&bytes), &[3, 2, 1, 4, 7, 6, 5, 8]);
    assert_eq!(bytes, [1, 2, 3, 4, 5, 6, 7, 8]);
}

#[test]
fn swapping_twice_restores_all_bytes() {
    let bytes: Vec<u8> = (0..14).collect();
    let once = PixelOrder::Rgba.bgra(&bytes).into_owned();
    assert_ne!(once, bytes);
    // Bytes past the last whole pixel stay where they are.
    assert_eq!(&once[8..], &[10, 9, 8, 11, 12, 13]);
    assert_eq!(PixelOrder::Rgba.bgra(&once).into_owned(), bytes);
}
