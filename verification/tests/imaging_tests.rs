use image::ImageEncoder;

use wfetch::color::Color;
use wfetch::imaging::resize_wallpaper_image;
use wfetch::imaging::waifu1_image;
use wfetch::imaging::waifu2_image;

fn png_of(pixels: &[u8], w: u32, h: u32) -> Vec<u8> {
    let mut out = Vec::new();
    image::codecs::png::PngEncoder::new(&mut out)
        .write_image(pixels, w, h, image::ExtendedColorType::Rgba8)
        .unwrap();
    out
}

fn decode(png: &[u8]) -> (u32, u32, Vec<u8>) {
    let img = image::load_from_memory(png).unwrap().to_rgba8();
    let (w, h) = img.dimensions();
    (w, h, img.into_raw())
}

fn solid(pixel: [u8; 4], count: usize) -> Vec<u8> {
    let mut v = Vec::new();
    for _ in 0..count {
        v.extend_from_slice(&pixel);
    }
    v
}

#[test]
fn waifu1_pipeline_recolors_placeholder_regions() {
    // An 8x8 template painted entirely in placeholder colour 1 comes out
    // entirely in the selected colour, alpha preserved.
    let template = png_of(&solid([0x7e, 0xba, 0xe4, 255], 64), 8, 8);
    let c1 = Color::new(200, 10, 10, 255);
    let c2 = Color::new(10, 200, 10, 255);
    let out = waifu1_image(&template, c1, c2, Some(8), false, 1000).unwrap();
    let (w, h, pixels) = decode(&out);
    assert_eq!((w, h), (8, 8));
    assert_eq!(pixels, solid([200, 10, 10, 255], 64));
}

#[test]
fn waifu1_pipeline_is_deterministic() {
    let template = png_of(&solid([0x7e, 0xba, 0xe4, 255], 64), 8, 8);
    let c1 = Color::new(1, 2, 3, 255);
    let c2 = Color::new(4, 5, 6, 255);
    let first = waifu1_image(&template, c1, c2, Some(8), false, 1000).unwrap();
    let second = waifu1_image(&template, c1, c2, Some(8), false, 1000).unwrap();
    assert_eq!(first, second);
}

#[test]
fn waifu1_rejects_undecodable_template() {
    let r = waifu1_image(b"not a png", Color::new(0, 0, 0, 255), Color::new(1, 1, 1, 255), None, false, 1000);
    assert!(matches!(r, Err(wfetch::Error::AssetIo)));
}

#[test]
fn waifu2_pipeline_classifies_by_masks() {
    // A 2x1 template: a near-black pixel marked by mask 1, and a bright
    // pixel marked by mask 2.
    let mut template = Vec::new();
    template.extend_from_slice(&[2, 2, 2, 200]);
    template.extend_from_slice(&[200, 200, 200, 255]);
    let template = png_of(&template, 2, 1);

    let mut mask1 = Vec::new();
    mask1.extend_from_slice(&[0, 0, 0, 255]);
    mask1.extend_from_slice(&[255, 255, 255, 255]);
    let mask1 = png_of(&mask1, 2, 1);

    let mut mask2 = Vec::new();
    mask2.extend_from_slice(&[255, 255, 255, 255]);
    mask2.extend_from_slice(&[0, 0, 0, 255]);
    let mask2 = png_of(&mask2, 2, 1);

    let c1 = Color::new(240, 240, 240, 255);
    let c2 = Color::new(10, 20, 30, 255);
    let out = waifu2_image(&template, &mask1, &mask2, c1, c2, Some(2), false, 1000).unwrap();
    let (w, h, pixels) = decode(&out);
    assert_eq!((w, h), (2, 1));
    let mut expected = Vec::new();
    expected.extend_from_slice(&[240, 240, 240, 200]);
    expected.extend_from_slice(&[10, 20, 30, 255]);
    assert_eq!(pixels, expected);
}

#[test]
fn waifu2_rejects_mismatched_mask_dimensions() {
    let template = png_of(&solid([0, 0, 0, 255], 4), 2, 2);
    let small_mask = png_of(&solid([0, 0, 0, 255], 1), 1, 1);
    let good_mask = png_of(&solid([0, 0, 0, 255], 4), 2, 2);
    let r = waifu2_image(
        &template,
        &small_mask,
        &good_mask,
        Color::new(1, 1, 1, 255),
        Color::new(2, 2, 2, 255),
        None,
        false,
        1000,
    );
    assert!(matches!(r, Err(wfetch::Error::AssetIo)));
}

#[test]
fn wallpaper_pipeline_crops_centred_square() {
    // A 4x2 source with distinct columns A B C D: the centred square crop
    // keeps columns B and C.
    let cols = [
        [10u8, 0, 0, 255],
        [0, 20, 0, 255],
        [0, 0, 30, 255],
        [40, 40, 40, 255],
    ];
    let mut pixels = Vec::new();
    for _row in 0..2 {
        for col in &cols {
            pixels.extend_from_slice(col);
        }
    }
    let source = png_of(&pixels, 4, 2);
    let out = resize_wallpaper_image(&source, None, Some(2), false, 1000).unwrap();
    let (w, h, result) = decode(&out);
    assert_eq!((w, h), (2, 2));
    let mut expected = Vec::new();
    for _row in 0..2 {
        expected.extend_from_slice(&cols[1]);
        expected.extend_from_slice(&cols[2]);
    }
    assert_eq!(result, expected);
}

#[test]
fn wallpaper_pipeline_honours_explicit_crop() {
    let cols = [
        [10u8, 0, 0, 255],
        [0, 20, 0, 255],
        [0, 0, 30, 255],
        [40, 40, 40, 255],
    ];
    let mut pixels = Vec::new();
    for _row in 0..2 {
        for col in &cols {
            pixels.extend_from_slice(col);
        }
    }
    let source = png_of(&pixels, 4, 2);
    let out = resize_wallpaper_image(&source, Some("1x1+3+1"), Some(1), false, 1000).unwrap();
    let (w, h, result) = decode(&out);
    assert_eq!((w, h), (1, 1));
    assert_eq!(result, vec![40, 40, 40, 255]);
}

#[test]
fn wallpaper_pipeline_ignores_out_of_bounds_crop() {
    let source = png_of(&solid([7, 8, 9, 255], 8), 4, 2);
    let out = resize_wallpaper_image(&source, Some("9x9+9+9"), Some(2), false, 1000).unwrap();
    let (w, h, result) = decode(&out);
    assert_eq!((w, h), (2, 2));
    assert_eq!(result, solid([7, 8, 9, 255], 4));
}

#[test]
fn wallpaper_pipeline_applies_display_scale() {
    let source = png_of(&solid([1, 2, 3, 255], 16), 4, 4);
    let out = resize_wallpaper_image(&source, None, Some(1), false, 2000).unwrap();
    let (w, h, _) = decode(&out);
    assert_eq!((w, h), (2, 2));
}

#[test]
fn zero_target_size_fails_with_encode_error() {
    // A zero pixel target cannot be PNG-encoded; the pipeline surfaces the
    // encoder's refusal.
    let template = png_of(&solid([0x7e, 0xba, 0xe4, 255], 64), 8, 8);
    let r = waifu1_image(
        &template,
        Color::new(1, 1, 1, 255),
        Color::new(2, 2, 2, 255),
        Some(0),
        false,
        1000,
    );
    assert!(matches!(r, Err(wfetch::Error::Encode)));
}
