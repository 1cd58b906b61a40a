use wfetch::color::Color;
use wfetch::contrast::most_contrasting_pair;

fn c(s: &str) -> Color {
    Color::from_str(s).unwrap()
}

#[test]
fn near_black_and_near_white_win() {
    // Slots 1..16 of a synthetic palette: slot 1 is near-black, slot 4 is
    // near-white, every other slot is pure black, so no pair scores higher
    // than (slot 1, slot 4).
    let mut slots: Vec<Color> = vec![Color::new(0, 0, 0, 255); 15];
    slots[0] = c("#010101"); // slot 1
    slots[3] = c("#fefefe"); // slot 4
    let (first, second) = most_contrasting_pair(&slots);
    assert_eq!(first, c("#010101"));
    assert_eq!(second, c("#fefefe"));
}

#[test]
fn qualifying_pair_beats_distant_unreadable_pair() {
    // Pure red and pure blue are far apart in RGB but neither is readable
    // on black and their mutual contrast is low; a readable pair must win.
    let colors = vec![
        c("#ff0000"),
        c("#0000ff"),
        c("#f0f0f0"),
        c("#202020"),
    ];
    let (first, second) = most_contrasting_pair(&colors);
    let readable = c("#f0f0f0");
    assert!(first == readable || second == readable);
    // The winning pair meets the WCAG threshold of 3.0.
    assert!(first.contrast_ratio_milli(&second) >= 3000);
}

#[test]
fn falls_back_to_greatest_distance_when_nothing_qualifies() {
    // All colours are dark: no pair reaches a 3.0 contrast ratio and none
    // is readable on black, so the most distant pair is returned.
    let colors = vec![
        c("#000000"),
        c("#100000"),
        c("#000030"),
    ];
    let (first, second) = most_contrasting_pair(&colors);
    // Greatest squared distance: between #100000 and #000030.
    assert_eq!(first, c("#100000"));
    assert_eq!(second, c("#000030"));
}

#[test]
fn no_pair_at_all_yields_black_twice() {
    let colors = vec![c("#123456")];
    let (first, second) = most_contrasting_pair(&colors);
    assert_eq!(first, Color::new(0, 0, 0, 255));
    assert_eq!(second, Color::new(0, 0, 0, 255));
    let empty: Vec<Color> = Vec::new();
    let (f2, s2) = most_contrasting_pair(&empty);
    assert_eq!(f2, Color::new(0, 0, 0, 255));
    assert_eq!(s2, Color::new(0, 0, 0, 255));
}

#[test]
fn selection_is_deterministic() {
    let colors = vec![
        c("#7ebae4"),
        c("#5277c3"),
        c("#f0f0f0"),
        c("#101010"),
        c("#aabbcc"),
    ];
    let first_run = most_contrasting_pair(&colors);
    let second_run = most_contrasting_pair(&colors);
    assert_eq!(first_run, second_run);
}
