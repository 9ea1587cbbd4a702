use coffee_image::codec::{encode_image, get_dynamic_image};
use coffee_image::error::Error;
use coffee_image::raster::{RasterImage, Rgba};
use coffee_image::rotation::{rotate, rotated_dimensions, Rotation, ROTATION_SCALE};
use coffee_image::save_format::SaveFormat;
use coffee_image::text_art::{get_byte_ascii, get_str_ascii, intensity_of, text_art, text_art_line};
use coffee_image::transform::{
    add, bitwise_and, create_mask, gray_of, grayscale, hue_rotate, invert, resize_from, threshold,
    transparent_overlay, DEFAULT_THRESHOLD,
};

fn px(r: u8, g: u8, b: u8, a: u8) -> Rgba {
    Rgba { r, g, b, a }
}

fn image_of(width: u32, height: u32, pixels: &[Rgba]) -> RasterImage {
    let mut bytes = Vec::new();
    for p in pixels {
        bytes.extend_from_slice(&[p.r, p.g, p.b, p.a]);
    }
    RasterImage::from_rgba_bytes(width, height, &bytes).unwrap()
}

fn filled(width: u32, height: u32, p: Rgba) -> RasterImage {
    let n = (width * height) as usize;
    image_of(width, height, &vec![p; n])
}

fn fixture() -> RasterImage {
    image_of(2, 2, &[px(255, 0, 0, 255), px(0, 255, 0, 255), px(0, 0, 255, 255), px(255, 255, 255, 128)])
}

/// Quantises an angle in degrees the way a caller of `rotate` does.
fn rotation_of(degrees: f64) -> Rotation {
    let rad = degrees.to_radians();
    let scale = ROTATION_SCALE as f64;
    Rotation { cos: (rad.cos() * scale).round() as i32, sin: (rad.sin() * scale).round() as i32 }
}

#[test]
fn raster_bytes_round_trip() {
    let img = fixture();
    assert_eq!(img.dimensions(), (2, 2));
    assert_eq!(img.get_pixel(1, 1), px(255, 255, 255, 128));
    let bytes = img.to_rgba_bytes();
    assert_eq!(bytes[4..8], [0, 255, 0, 255]);
    let back = RasterImage::from_rgba_bytes(2, 2, &bytes).unwrap();
    assert_eq!(back.pixels(), img.pixels());
}

#[test]
fn raster_rejects_wrong_buffer_length() {
    assert!(RasterImage::from_rgba_bytes(2, 2, &vec![0u8; 15]).is_none());
    assert!(RasterImage::from_rgba_bytes(2, 2, &vec![0u8; 17]).is_none());
    assert!(RasterImage::from_rgba_bytes(0, 5, &Vec::new()).is_some());
}

#[test]
fn new_canvas_is_transparent() {
    let img = RasterImage::new(3, 2);
    assert_eq!(img.pixels().len(), 6);
    assert!(img.pixels().iter().all(|p| *p == px(0, 0, 0, 0)));
}

#[test]
fn put_pixel_changes_one_cell() {
    let mut img = RasterImage::new(3, 2);
    img.put_pixel(2, 1, px(1, 2, 3, 4));
    assert_eq!(img.get_pixel(2, 1), px(1, 2, 3, 4));
    assert_eq!(img.pixels()[5], px(1, 2, 3, 4));
    assert_eq!(img.get_pixel(1, 1), px(0, 0, 0, 0));
}

#[test]
fn grayscale_uses_srgb_luminance() {
    assert_eq!(gray_of(px(10, 200, 30, 77)), px(147, 147, 147, 77));
    assert_eq!(gray_of(px(255, 0, 0, 255)), px(54, 54, 54, 255));
    assert_eq!(gray_of(px(255, 255, 255, 9)), px(255, 255, 255, 9));
}

#[test]
fn grayscale_channels_equal_and_alpha_kept() {
    let img = image_of(3, 1, &[px(10, 200, 30, 77), px(1, 2, 3, 0), px(99, 12, 250, 255)]);
    let gray = grayscale(&img);
    assert_eq!(gray.dimensions(), (3, 1));
    for (g, p) in gray.pixels().iter().zip(img.pixels().iter()) {
        assert_eq!(g.r, g.g);
        assert_eq!(g.g, g.b);
        assert_eq!(g.a, p.a);
    }
    assert_eq!(gray.get_pixel(0, 0), px(147, 147, 147, 77));
}

#[test]
fn invert_keeps_alpha() {
    let inv = invert(&fixture());
    assert_eq!(inv.get_pixel(0, 0), px(0, 255, 255, 255));
    assert_eq!(inv.get_pixel(1, 1), px(0, 0, 0, 128));
}

#[test]
fn invert_twice_is_identity() {
    let img = image_of(2, 1, &[px(3, 140, 255, 17), px(0, 1, 2, 0)]);
    let twice = invert(&invert(&img));
    assert_eq!(twice.pixels(), img.pixels());
}

#[test]
fn rotate_by_zero_is_identity() {
    let img = image_of(3, 2, &[px(1, 0, 0, 255), px(2, 0, 0, 255), px(3, 0, 0, 255), px(4, 0, 0, 255), px(5, 0, 0, 255), px(6, 0, 0, 255)]);
    let out = rotate(&img, Rotation::identity());
    assert_eq!(out.dimensions(), (3, 2));
    assert_eq!(out.pixels(), img.pixels());
    let zero = rotation_of(0.0);
    assert_eq!(zero, Rotation::identity());
}

#[test]
fn rotate_by_full_turn_is_identity() {
    let img = image_of(3, 2, &[px(1, 0, 0, 255), px(2, 0, 0, 255), px(3, 0, 0, 255), px(4, 0, 0, 255), px(5, 0, 0, 255), px(6, 0, 0, 255)]);
    let turn = rotation_of(360.0);
    let out = rotate(&img, turn);
    assert_eq!(out.dimensions(), (3, 2));
    assert_eq!(out.pixels(), img.pixels());
}

#[test]
fn rotate_quarter_turn_maps_back() {
    let img = image_of(3, 2, &[px(1, 0, 0, 255), px(2, 0, 0, 255), px(3, 0, 0, 255), px(4, 0, 0, 255), px(5, 0, 0, 255), px(6, 0, 0, 255)]);
    let quarter = Rotation { cos: 0, sin: ROTATION_SCALE };
    assert_eq!(rotated_dimensions(3, 2, quarter), (2, 3));
    let out = rotate(&img, quarter);
    assert_eq!(out.dimensions(), (2, 3));
    // the offset is turned by minus the angle: cell (x, y) takes source (y, 2 - x),
    // so column 0 maps below the source and stays transparent
    assert_eq!(out.get_pixel(0, 0), px(0, 0, 0, 0));
    assert_eq!(out.get_pixel(0, 1), px(0, 0, 0, 0));
    assert_eq!(out.get_pixel(0, 2), px(0, 0, 0, 0));
    assert_eq!(out.get_pixel(1, 0), px(4, 0, 0, 255));
    assert_eq!(out.get_pixel(1, 1), px(5, 0, 0, 255));
    assert_eq!(out.get_pixel(1, 2), px(6, 0, 0, 255));
}

#[test]
fn rotate_quarter_turn_small_image() {
    // 90 degrees on a 2x1 image: the canvas is 1x2, cell (0, 0) takes source
    // (0, 1 - 0) which lies outside, and cell (0, 1) takes source (1, 1), outside too
    let img = image_of(2, 1, &[px(1, 0, 0, 255), px(2, 0, 0, 255)]);
    let out = rotate(&img, Rotation { cos: 0, sin: ROTATION_SCALE });
    assert_eq!(out.dimensions(), (1, 2));
    assert_eq!(out.get_pixel(0, 1), px(0, 0, 0, 0));
}

#[test]
fn rotate_half_turn_flips() {
    let cells: Vec<Rgba> = (1..=9).map(|v| px(v, 0, 0, 255)).collect();
    let img = image_of(3, 3, &cells);
    let half = Rotation { cos: -ROTATION_SCALE, sin: 0 };
    let out = rotate(&img, half);
    assert_eq!(out.dimensions(), (3, 3));
    // cell (x, y) takes source (3 - x, 3 - y): the first row and column map outside
    assert_eq!(out.get_pixel(0, 0), px(0, 0, 0, 0));
    assert_eq!(out.get_pixel(0, 2), px(0, 0, 0, 0));
    assert_eq!(out.get_pixel(1, 1), img.get_pixel(2, 2));
    assert_eq!(out.get_pixel(2, 2), img.get_pixel(1, 1));
    assert_eq!(out.get_pixel(2, 1), img.get_pixel(1, 2));
}

#[test]
fn rotate_45_degrees_grows_canvas() {
    let turn = rotation_of(45.0);
    // |cos| * 10 + |sin| * 10 = 14.14..., rounded down
    assert_eq!(rotated_dimensions(10, 10, turn), (14, 14));
    let out = rotate(&filled(10, 10, px(9, 9, 9, 255)), turn);
    assert_eq!(out.dimensions(), (14, 14));
    assert_eq!(out.get_pixel(0, 0), px(0, 0, 0, 0));
    assert_eq!(out.get_pixel(7, 7), px(9, 9, 9, 255));
}

#[test]
fn add_saturates() {
    let a = image_of(1, 2, &[px(250, 100, 0, 200), px(1, 2, 3, 4)]);
    let b = image_of(1, 2, &[px(10, 100, 255, 100), px(4, 3, 2, 1)]);
    let sum = add(&a, &b).unwrap();
    assert_eq!(sum.get_pixel(0, 0), px(255, 200, 255, 255));
    assert_eq!(sum.get_pixel(0, 1), px(5, 5, 5, 5));
}

#[test]
fn add_rejects_size_mismatch() {
    let a = filled(2, 3, px(1, 1, 1, 1));
    let b = filled(3, 2, px(1, 1, 1, 1));
    assert!(matches!(add(&a, &b), Err(Error::WidthHeightNotEqualError)));
    let c = filled(2, 2, px(1, 1, 1, 1));
    assert!(matches!(add(&a, &c), Err(Error::WidthHeightNotEqualError)));
}

#[test]
fn bitwise_and_rejects_size_mismatch() {
    let a = filled(2, 3, px(1, 1, 1, 1));
    let b = filled(2, 4, px(1, 1, 1, 1));
    assert!(matches!(bitwise_and(&a, &b), Err(Error::WidthHeightNotEqualError)));
    let c = filled(1, 3, px(1, 1, 1, 1));
    assert!(matches!(bitwise_and(&a, &c), Err(Error::WidthHeightNotEqualError)));
}

#[test]
fn bitwise_and_per_channel() {
    let a = image_of(1, 1, &[px(0b1100, 0xff, 0x0f, 0xf0)]);
    let b = image_of(1, 1, &[px(0b1010, 0x0f, 0xff, 0xff)]);
    let out = bitwise_and(&a, &b).unwrap();
    assert_eq!(out.get_pixel(0, 0), px(0b1000, 0x0f, 0x0f, 0xf0));
}

#[test]
fn threshold_is_two_colour() {
    let img = image_of(
        4,
        1,
        &[px(0, 0, 0, 0), px(255, 255, 255, 255), px(128, 128, 128, 3), px(127, 127, 127, 255)],
    );
    let mask = threshold(&img, DEFAULT_THRESHOLD);
    for p in mask.pixels() {
        assert!(*p == px(0, 0, 0, 255) || *p == px(255, 255, 255, 255));
    }
    assert_eq!(mask.get_pixel(0, 0), px(255, 255, 255, 255));
    assert_eq!(mask.get_pixel(1, 0), px(0, 0, 0, 255));
    assert_eq!(mask.get_pixel(2, 0), px(0, 0, 0, 255));
    assert_eq!(mask.get_pixel(3, 0), px(255, 255, 255, 255));
}

#[test]
fn threshold_cut_is_configurable() {
    let img = image_of(1, 1, &[px(10, 10, 10, 255)]);
    assert_eq!(threshold(&img, 5).get_pixel(0, 0), px(0, 0, 0, 255));
    assert_eq!(threshold(&img, 10).get_pixel(0, 0), px(255, 255, 255, 255));
}

#[test]
fn create_mask_gives_inverse_pair() {
    let img = image_of(2, 1, &[px(250, 250, 250, 255), px(5, 5, 5, 255)]);
    let (mask, inv) = create_mask(&img, DEFAULT_THRESHOLD);
    assert_eq!(mask.get_pixel(0, 0), px(0, 0, 0, 255));
    assert_eq!(inv.get_pixel(0, 0), px(255, 255, 255, 255));
    assert_eq!(mask.get_pixel(1, 0), px(255, 255, 255, 255));
    assert_eq!(inv.get_pixel(1, 0), px(0, 0, 0, 255));
}

#[test]
fn resize_from_larger_and_smaller_canvas() {
    let canvas = image_of(2, 1, &[px(1, 1, 1, 1), px(2, 2, 2, 2)]);
    let logo = RasterImage::new(3, 2);
    let out = resize_from(&canvas, &logo);
    assert_eq!(out.dimensions(), (3, 2));
    assert_eq!(out.get_pixel(1, 0), px(2, 2, 2, 2));
    assert_eq!(out.get_pixel(2, 0), px(0, 0, 0, 0));
    assert_eq!(out.get_pixel(0, 1), px(0, 0, 0, 0));
}

#[test]
fn overlay_copies_top_left() {
    let base = filled(3, 2, px(7, 7, 7, 255));
    let overlay = image_of(2, 3, &[px(1, 0, 0, 0), px(2, 0, 0, 9), px(3, 0, 0, 9), px(4, 0, 0, 9), px(5, 0, 0, 9), px(6, 0, 0, 9)]);
    let out = transparent_overlay(&base, &overlay);
    assert_eq!(out.dimensions(), (3, 2));
    assert_eq!(out.get_pixel(0, 0), px(1, 0, 0, 0));
    assert_eq!(out.get_pixel(1, 1), px(4, 0, 0, 9));
    assert_eq!(out.get_pixel(2, 1), px(7, 7, 7, 255));
}

#[test]
fn hue_rotate_changes_colour_keeps_alpha() {
    let img = image_of(1, 1, &[px(255, 0, 0, 77)]);
    let same = hue_rotate(&img, 0);
    assert_eq!(same.get_pixel(0, 0), px(255, 0, 0, 77));
    let turned = hue_rotate(&img, 180);
    let p = turned.get_pixel(0, 0);
    assert_ne!((p.r, p.g, p.b), (255, 0, 0));
    assert_eq!(p.a, 77);
    assert_eq!(turned.dimensions(), (1, 1));
}

#[test]
fn ascii_ramp() {
    assert_eq!(get_str_ascii(0), "");
    assert_eq!(get_str_ascii(31), "");
    assert_eq!(get_str_ascii(32), ".");
    assert_eq!(get_str_ascii(100), "-");
    assert_eq!(get_str_ascii(255), "@");
    assert_eq!(get_byte_ascii(200), b"=");
    assert_eq!(get_byte_ascii(0), b"");
    assert_eq!(intensity_of(px(255, 255, 255, 255)), 255);
    assert_eq!(intensity_of(px(255, 255, 255, 0)), 0);
    assert_eq!(intensity_of(px(10, 20, 31, 1)), 3 + 6 + 10);
}

#[test]
fn text_art_black_white_and_transparent() {
    let black = filled(4, 4, px(0, 0, 0, 255));
    assert_eq!(text_art(&black, 1), "\n\n");
    let white = filled(4, 4, px(255, 255, 255, 255));
    assert_eq!(text_art(&white, 1), "@@@@\n@@@@\n");
    let clear = filled(4, 4, px(255, 255, 255, 0));
    assert_eq!(text_art(&clear, 1), "\n\n");
}

#[test]
fn text_art_strides() {
    let white = filled(5, 5, px(255, 255, 255, 255));
    assert_eq!(text_art(&white, 2), "@@@\n@@@\n");
    assert_eq!(text_art_line(&white, 1, 2), "");
    assert_eq!(text_art_line(&white, 4, 2), "@@@\n");
}

#[test]
fn codec_png_round_trip() {
    let img = fixture();
    let png = encode_image(&img, SaveFormat::Png).unwrap();
    assert_eq!(&png[..8], &[0x89, b'P', b'N', b'G', 0x0d, 0x0a, 0x1a, 0x0a]);
    let back = get_dynamic_image(&png).unwrap();
    assert_eq!(back.dimensions(), (2, 2));
    assert_eq!(back.pixels(), img.pixels());
}

#[test]
fn codec_jpeg_encodes() {
    let img = filled(8, 8, px(200, 100, 50, 255));
    let jpg = encode_image(&img, SaveFormat::Jpeg).unwrap();
    assert_eq!(&jpg[..2], &[0xff, 0xd8]);
    let back = get_dynamic_image(&jpg).unwrap();
    assert_eq!(back.dimensions(), (8, 8));
}

#[test]
fn codec_png_refuses_empty_image() {
    let empty = RasterImage::new(0, 3);
    assert!(matches!(encode_image(&empty, SaveFormat::Png), Err(Error::ImageError(_))));
}

#[test]
fn codec_jpeg_refuses_wide_image() {
    let wide = RasterImage::new(70000, 1);
    assert!(matches!(encode_image(&wide, SaveFormat::Jpeg), Err(Error::ImageError(_))));
    assert!(encode_image(&wide, SaveFormat::Png).is_ok());
}

#[test]
fn codec_rejects_garbage() {
    match get_dynamic_image(&[1, 2, 3, 4, 5]) {
        Err(Error::ImageError(message)) => assert!(!message.is_empty()),
        _ => panic!("garbage decoded"),
    }
}

#[test]
fn grayscale_then_invert_end_to_end() {
    let fixture_png = encode_image(&fixture(), SaveFormat::Png).unwrap();
    let decoded = get_dynamic_image(&fixture_png).unwrap();
    let result = invert(&grayscale(&decoded));
    let persisted = encode_image(&result, SaveFormat::Png).unwrap();
    let reread = get_dynamic_image(&persisted).unwrap();
    let expected = [px(201, 201, 201, 255), px(73, 73, 73, 255), px(237, 237, 237, 255), px(0, 0, 0, 128)];
    assert_eq!(reread.pixels().as_slice(), &expected);
}

#[test]
fn hue_rotate_maps_equal_pixels_alike() {
    let img = image_of(3, 1, &[px(10, 200, 30, 5), px(90, 40, 220, 255), px(10, 200, 30, 5)]);
    let out = hue_rotate(&img, 77);
    assert_eq!(out.get_pixel(0, 0), out.get_pixel(2, 0));
    assert_eq!(out.get_pixel(1, 0).a, 255);
    assert_eq!(out.get_pixel(0, 0).a, 5);
}
