use mandelzoom::palette::{colorize, gen_colormap};
use mandelzoom::writer::rgb_bytes;

#[test]
fn bytes_follow_pixels_in_rgb_order() {
    let pixels = vec![vec![1, 2, 3], vec![4, 5, 6], vec![250, 0, 7]];
    assert_eq!(rgb_bytes(&pixels), vec![1, 2, 3, 4, 5, 6, 250, 0, 7]);
}

#[test]
fn empty_frame_gives_no_bytes() {
    assert!(rgb_bytes(&Vec::new()).is_empty());
}

#[test]
fn coloured_frame_fills_an_rgb_image() {
    let map = gen_colormap();
    let pixels = colorize(&vec![Some(0), None, Some(1), Some(255)], &map);
    let bytes = rgb_bytes(&pixels);
    assert_eq!(bytes.len(), 12);
    let image = image::RgbImage::from_raw(2, 2, bytes).unwrap();
    assert_eq!(image.get_pixel(0, 0).0, [48, 18, 59]);
    assert_eq!(image.get_pixel(1, 0).0, [0, 0, 0]);
    assert_eq!(image.get_pixel(0, 1).0, [50, 21, 67]);
    assert_eq!(image.get_pixel(1, 1).0, [48, 18, 59]);
}
