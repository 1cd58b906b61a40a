use wfetch::color::Color;
use wfetch::luma::LUMINANCE_SCALE;

#[test]
fn parse_six_digit_round_trip_lowercases() {
    let c = Color::from_str("7EBAE4").unwrap();
    assert_eq!(c, Color { r: 0x7e, g: 0xba, b: 0xe4, a: 255 });
    assert_eq!(c.to_hex(), "#7ebae4");
}

#[test]
fn parse_with_hash_round_trips() {
    let c = Color::from_str("#5277C3").unwrap();
    assert_eq!(c, Color { r: 0x52, g: 0x77, b: 0xc3, a: 255 });
    assert_eq!(c.to_hex(), "#5277c3");
}

#[test]
fn parse_eight_digits_reads_alpha() {
    let c = Color::from_str("#11223380").unwrap();
    assert_eq!(c, Color { r: 0x11, g: 0x22, b: 0x33, a: 0x80 });
    assert_eq!(c.to_hex(), "#11223380");
}

#[test]
fn parse_seven_digits_defaults_alpha() {
    let c = Color::from_str("112233f").unwrap();
    assert_eq!(c.a, 255);
}

#[test]
fn parse_rejects_non_hex() {
    assert!(Color::from_str("11223g").is_err());
    assert!(Color::from_str("#xyzxyz").is_err());
}

#[test]
fn parse_rejects_short_input() {
    assert!(Color::from_str("").is_err());
    assert!(Color::from_str("#123").is_err());
}

#[test]
fn distance_of_color_to_itself_is_zero() {
    let c = Color::new(12, 200, 7, 31);
    assert_eq!(c.distance_sq(c), 0);
}

#[test]
fn distance_is_symmetric() {
    let a = Color::new(1, 2, 3, 255);
    let b = Color::new(200, 100, 50, 0);
    assert_eq!(a.distance_sq(b), b.distance_sq(a));
    let expected = (200u64 - 1) * (200 - 1) + (100 - 2) * (100 - 2) + (50 - 3) * (50 - 3);
    assert_eq!(a.distance_sq(b), expected);
}

#[test]
fn distance_ignores_alpha() {
    let a = Color::new(10, 20, 30, 0);
    let b = Color::new(10, 20, 30, 255);
    assert_eq!(a.distance_sq(b), 0);
}

#[test]
fn contrast_ratio_is_symmetric() {
    let a = Color::from_str("#7ebae4").unwrap();
    let b = Color::from_str("#101010").unwrap();
    assert_eq!(a.contrast_ratio_milli(&b), b.contrast_ratio_milli(&a));
}

#[test]
fn contrast_ratio_with_itself_is_one() {
    let a = Color::from_str("#5277c3").unwrap();
    assert_eq!(a.contrast_ratio_milli(&a), 1000);
    let b = Color::new(0, 0, 0, 255);
    assert_eq!(b.contrast_ratio_milli(&b), 1000);
}

#[test]
fn luminance_of_black_is_zero_and_white_is_one() {
    let black = Color::new(0, 0, 0, 255);
    let white = Color::new(255, 255, 255, 255);
    assert_eq!(black.relative_luminance(), 0);
    assert_eq!(white.relative_luminance(), LUMINANCE_SCALE);
}

#[test]
fn contrast_of_black_and_white_is_twenty_one() {
    // (1.0 + 0.05) / (0.0 + 0.05) == 21, exactly, in thousandths.
    let black = Color::new(0, 0, 0, 255);
    let white = Color::new(255, 255, 255, 255);
    assert_eq!(black.contrast_ratio_milli(&white), 21000);
}

#[test]
fn multiply_scales_channels_and_keeps_alpha() {
    let a = Color::new(255, 128, 0, 77);
    let b = Color::new(255, 255, 128, 200);
    let m = a.multiply(b);
    assert_eq!(m, Color::new(255, 128, 0, 77));
    let dark = a.multiply(Color::new(0, 0, 0, 255));
    assert_eq!(dark, Color::new(0, 0, 0, 77));
}

#[test]
fn with_alpha_replaces_only_alpha() {
    let c = Color::new(1, 2, 3, 4).with_alpha(99);
    assert_eq!(c, Color::new(1, 2, 3, 99));
}

#[test]
fn sgr_parameter_strings() {
    let c = Color::from_str("#7ebae4").unwrap();
    assert_eq!(c.term_fg(), "38;2;126;186;228");
    assert_eq!(c.term_bg(), "48;2;126;186;228");
}

#[test]
fn luminance_of_template_blue_is_exact() {
    // 0.2126 * lin(0x7e) + 0.7152 * lin(0xba) + 0.0722 * lin(0xe4), in
    // fixed point at scale 10^9.
    let c = Color::from_str("#7ebae4").unwrap();
    assert_eq!(c.relative_luminance(), 451_548_572);
}
