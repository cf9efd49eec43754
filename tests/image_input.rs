use std::io::Cursor;

use remini::error::{Error, LoadIssue};
use remini::image::{check_input_shape, decode, normalize_image, resize, rgb_tensor, RasterImage, IMAGE_HEIGHT, IMAGE_WIDTH};
use remini::tensor::Layout;

fn png(width: u32, height: u32) -> (Vec<u8>, image::RgbaImage) {
    let img = image::RgbaImage::from_fn(width, height, |x, y| {
        image::Rgba([(x % 256) as u8, (y % 256) as u8, ((x + y) % 256) as u8, 255])
    });
    let mut out = Cursor::new(Vec::new());
    img.write_to(&mut out, image::ImageFormat::Png).unwrap();
    (out.into_inner(), img)
}

#[test]
fn image_at_model_resolution_keeps_its_pixels() {
    let (bytes, img) = png(224, 224);
    let t = normalize_image(&bytes).unwrap();
    assert_eq!(t.shape(), &vec![1, 224, 224, 3]);
    assert_eq!(t.layout(), Layout::ChannelLast);
    for (x, y) in [(0u32, 0u32), (5, 17), (223, 223), (100, 3)] {
        let p = img.get_pixel(x, y);
        for c in 0..3 {
            assert_eq!(t.data()[((y * 224 + x) * 3) as usize + c], p[c]);
        }
    }
}

#[test]
fn resize_is_skipped_at_model_resolution() {
    let pixels: Vec<u8> = (0..224 * 224 * 4).map(|i| (i % 251) as u8).collect();
    let img = RasterImage { width: 224, height: 224, pixels: pixels.clone() };
    let r = resize(img);
    assert_eq!(r.pixels, pixels);
}

#[test]
fn other_sizes_are_resampled_to_model_resolution() {
    for (w, h) in [(1u32, 1u32), (300, 200), (224, 100), (1000, 1)] {
        let (bytes, _) = png(w, h);
        let t = normalize_image(&bytes).unwrap();
        assert_eq!(t.shape(), &vec![1, 224, 224, 3]);
        assert_eq!(t.data().len(), 224 * 224 * 3);
    }
}

#[test]
fn one_pixel_image_fills_the_frame() {
    let img = RasterImage { width: 1, height: 1, pixels: vec![9, 8, 7, 6] };
    let r = resize(img);
    assert_eq!((r.width, r.height), (IMAGE_WIDTH, IMAGE_HEIGHT));
    assert!(r.pixels.chunks(4).all(|p| p == [9, 8, 7, 6]));
}

#[test]
fn corrupted_bytes_are_a_decode_error() {
    assert!(matches!(normalize_image(b"definitely not an image"), Err(Error::Decode(_))));
    assert!(matches!(normalize_image(&[]), Err(Error::Decode(_))));
    let (mut bytes, _) = png(10, 10);
    bytes.truncate(bytes.len() / 2);
    assert!(matches!(decode(&bytes), Err(Error::Decode(_))));
}

#[test]
fn decode_gives_rgba_buffer() {
    let (bytes, img) = png(3, 2);
    let d = decode(&bytes).unwrap();
    assert_eq!((d.width, d.height), (3, 2));
    assert_eq!(d.pixels, img.into_raw());
}

#[test]
fn rgb_planes_drop_alpha() {
    let img = RasterImage { width: 2, height: 1, pixels: vec![1, 2, 3, 4, 5, 6, 7, 8] };
    let t = rgb_tensor(&img);
    assert_eq!(t.shape(), &vec![1, 3, 1, 2]);
    assert_eq!(t.layout(), Layout::ChannelFirst);
    assert_eq!(t.data(), &vec![1, 5, 2, 6, 3, 7]);
}

#[test]
fn input_shape_is_checked_at_load() {
    assert!(check_input_shape(&vec![1, 224, 224, 3]).is_ok());
    assert!(matches!(check_input_shape(&vec![1, 3, 224, 224]), Err(Error::Load(LoadIssue::InputShape))));
}
