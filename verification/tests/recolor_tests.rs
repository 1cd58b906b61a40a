use wfetch::color::Color;
use wfetch::recolor::recolor_direct;
use wfetch::recolor::recolor_masked;
use wfetch::recolor::within_fuzz;

fn buf(pixels: &[[u8; 4]]) -> Vec<u8> {
    let mut v = Vec::new();
    for p in pixels {
        v.extend_from_slice(p);
    }
    v
}

fn p1() -> Color {
    Color { r: 0x7e, g: 0xba, b: 0xe4, a: 255 }
}

fn p2() -> Color {
    Color { r: 0x52, g: 0x77, b: 0xc3, a: 255 }
}

#[test]
fn exact_placeholder_pixel_is_replaced_regardless_of_alpha() {
    // One pixel equal to placeholder 1 with alpha 9, one equal to
    // placeholder 2 with alpha 0.
    let mut pixels = buf(&[[0x7e, 0xba, 0xe4, 9], [0x52, 0x77, 0xc3, 0]]);
    let c1 = Color::new(255, 0, 0, 255);
    let c2 = Color::new(0, 255, 0, 255);
    recolor_direct(&mut pixels, p1(), p2(), c1, c2);
    assert_eq!(pixels, buf(&[[255, 0, 0, 9], [0, 255, 0, 0]]));
}

#[test]
fn pure_white_pixel_is_never_replaced() {
    let mut pixels = buf(&[[255, 255, 255, 255]]);
    recolor_direct(&mut pixels, p1(), p2(), Color::new(1, 2, 3, 4), Color::new(5, 6, 7, 8));
    assert_eq!(pixels, buf(&[[255, 255, 255, 255]]));
}

#[test]
fn near_placeholder_pixel_within_fuzz_is_replaced() {
    // A pixel a few channel steps away from placeholder 1 is still within
    // the 10% fuzz radius.
    let near = Color::new(0x7e + 3, 0xba - 2, 0xe4, 200);
    assert!(within_fuzz(near, p1()));
    let mut pixels = buf(&[[0x7e + 3, 0xba - 2, 0xe4, 200]]);
    recolor_direct(&mut pixels, p1(), p2(), Color::new(10, 20, 30, 40), Color::new(0, 0, 0, 0));
    assert_eq!(pixels, buf(&[[10, 20, 30, 200]]));
}

#[test]
fn first_placeholder_wins_on_overlap() {
    // A pixel within fuzz of both placeholders takes colour 1.
    let mid = Color::new(0x68, 0x98, 0xd3, 255);
    assert!(within_fuzz(mid, p1()));
    assert!(within_fuzz(mid, p2()));
    let mut pixels = buf(&[[0x68, 0x98, 0xd3, 255]]);
    recolor_direct(&mut pixels, p1(), p2(), Color::new(1, 1, 1, 1), Color::new(2, 2, 2, 2));
    assert_eq!(pixels, buf(&[[1, 1, 1, 255]]));
}

#[test]
fn black_mask_one_classifies_region_one_even_if_mask_two_nonblack() {
    // The template pixel is near pure black; mask 1 is pure black there, so
    // the product test marks region 1.  Mask 2 is non-black, and the bright
    // replacement colour is not re-marked by it, so region 1 sticks.
    let mut pixels = buf(&[[2, 2, 2, 180]]);
    let mask1 = buf(&[[0, 0, 0, 255]]);
    let mask2 = buf(&[[255, 255, 255, 255]]);
    let c1 = Color::new(240, 240, 240, 255);
    let c2 = Color::new(0, 255, 0, 255);
    recolor_masked(&mut pixels, &mask1, &mask2, c1, c2);
    assert_eq!(pixels, buf(&[[240, 240, 240, 180]]));
}

#[test]
fn pixel_marked_only_by_mask_two_is_region_two() {
    // Mask 1 is white (its product with the bright pixel stays bright);
    // mask 2 is pure black, so only region 2 marks the pixel.
    let mut pixels = buf(&[[200, 200, 200, 64]]);
    let mask1 = buf(&[[255, 255, 255, 255]]);
    let mask2 = buf(&[[0, 0, 0, 255]]);
    let c1 = Color::new(9, 9, 9, 9);
    let c2 = Color::new(10, 20, 30, 255);
    recolor_masked(&mut pixels, &mask1, &mask2, c1, c2);
    assert_eq!(pixels, buf(&[[10, 20, 30, 64]]));
}

#[test]
fn unmasked_bright_pixel_is_untouched() {
    let mut pixels = buf(&[[200, 100, 50, 255]]);
    let mask1 = buf(&[[255, 255, 255, 255]]);
    let mask2 = buf(&[[255, 255, 255, 255]]);
    recolor_masked(
        &mut pixels,
        &mask1,
        &mask2,
        Color::new(1, 1, 1, 1),
        Color::new(2, 2, 2, 2),
    );
    assert_eq!(pixels, buf(&[[200, 100, 50, 255]]));
}
