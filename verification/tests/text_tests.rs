use wfetch::text::dec_u64;
use wfetch::text::str_contains;
use wfetch::text::str_eq;
use wfetch::text::term_color;
use wfetch::wallpaper::detect;

#[test]
fn decimal_rendering() {
    assert_eq!(dec_u64(0), "0");
    assert_eq!(dec_u64(7), "7");
    assert_eq!(dec_u64(40), "40");
    assert_eq!(dec_u64(12345678901234567890), "12345678901234567890");
}

#[test]
fn string_equality_and_containment() {
    assert!(str_eq("wezterm", "wezterm"));
    assert!(!str_eq("wezterm", "wezter"));
    assert!(str_contains("org.wezfurlong.wezterm", "wezterm"));
    assert!(!str_contains("ghostty", "wezterm"));
    assert!(str_contains("anything", ""));
    assert!(!str_contains("", "a"));
}

#[test]
fn term_color_wraps_text_in_sgr_codes() {
    let body = String::from("TITLE");
    assert_eq!(term_color(3, &body, true), "\u{1b}[1;33mTITLE\u{1b}[0m");
    assert_eq!(term_color(3, &body, false), "\u{1b}[33mTITLE\u{1b}[0m");
    let empty = String::new();
    assert_eq!(term_color(0, &empty, false), "\u{1b}[30m\u{1b}[0m");
}

#[test]
fn detect_returns_first_present_candidate() {
    let candidates = vec![
        None,
        Some(String::from("/missing.png")),
        Some(String::from("/wall.png")),
        Some(String::from("/other.png")),
    ];
    let present = vec![false, false, true, true];
    assert_eq!(detect(&candidates, &present), Some(String::from("/wall.png")));
}

#[test]
fn detect_with_no_eligible_candidate_returns_nothing() {
    let candidates = vec![Some(String::from("/a")), None];
    let present = vec![false, true];
    assert_eq!(detect(&candidates, &present), None);
}
