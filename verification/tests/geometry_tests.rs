use wfetch::geometry::fallback_crop;
use wfetch::geometry::fit_dims;
use wfetch::geometry::force_square;
use wfetch::geometry::geom_from_str;
use wfetch::geometry::resolve_scale;
use wfetch::geometry::scaled_size;

#[test]
fn fallback_crop_centres_square_on_larger_dimension() {
    assert_eq!(fallback_crop(1000, 500), (500, 500, 250, 0));
    assert_eq!(fallback_crop(500, 1000), (500, 500, 0, 250));
    assert_eq!(fallback_crop(300, 300), (300, 300, 0, 0));
}

#[test]
fn geometry_string_parses() {
    assert_eq!(geom_from_str("500x500+250+0"), Some((500, 500, 250, 0)));
    assert_eq!(geom_from_str("1x2+3+4"), Some((1, 2, 3, 4)));
}

#[test]
fn malformed_geometry_strings_are_rejected() {
    assert_eq!(geom_from_str(""), None);
    assert_eq!(geom_from_str("500x500+250"), None);
    assert_eq!(geom_from_str("500x500+250+0+9"), None);
    assert_eq!(geom_from_str("ax500+250+0"), None);
    assert_eq!(geom_from_str("500+500x250+0"), None);
    assert_eq!(geom_from_str("x500+250+0"), None);
    assert_eq!(geom_from_str("500x500+250+"), None);
}

#[test]
fn force_square_clamps_to_smaller_side() {
    assert_eq!(force_square((800, 600, 10, 20)), (600, 600, 10, 20));
    assert_eq!(force_square((600, 800, 10, 20)), (600, 600, 10, 20));
    assert_eq!(force_square((500, 500, 0, 0)), (500, 500, 0, 0));
}

#[test]
fn scale_resolution_prefers_explicit_then_compositor() {
    assert_eq!(resolve_scale(Some(1500), Some(2000), "kitty"), 1500);
    assert_eq!(resolve_scale(None, Some(2000), "kitty"), 2000);
    assert_eq!(resolve_scale(None, None, "kitty"), 1000);
}

#[test]
fn fractional_scale_is_rounded_up_for_known_terminals() {
    assert_eq!(resolve_scale(Some(1250), None, "ghostty"), 2000);
    assert_eq!(resolve_scale(Some(1250), None, "org.wezfurlong.wezterm"), 2000);
    assert_eq!(resolve_scale(Some(2000), None, "ghostty"), 2000);
    assert_eq!(resolve_scale(Some(1250), None, "kitty"), 1250);
}

#[test]
fn scaled_size_floors() {
    assert_eq!(scaled_size(270, 1000), 270);
    assert_eq!(scaled_size(270, 1500), 405);
    assert_eq!(scaled_size(270, 1333), 359);
    assert_eq!(scaled_size(0, 1500), 0);
}

#[test]
fn fit_dims_preserves_aspect_ratio() {
    // Landscape: width dominates, height is derived.
    assert_eq!(fit_dims(1000, 500, 300, 300), (300, 150));
    // Portrait: height dominates, width is derived.
    assert_eq!(fit_dims(500, 1000, 300, 300), (150, 300));
    // Square source fills the box.
    assert_eq!(fit_dims(400, 400, 300, 300), (300, 300));
}
