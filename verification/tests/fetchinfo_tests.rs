use wfetch::fetchinfo::key_color;
use wfetch::fetchinfo::os_icon;
use wfetch::fetchinfo::select_gpu_indices;
use wfetch::fetchinfo::shell_module;
use wfetch::fetchinfo::wm_icon;

#[test]
fn os_icon_matches_first_table_entry() {
    assert_eq!(os_icon("nixos 25.05 (warbler)"), "\u{f313}");
    assert_eq!(os_icon("ubuntu 24.04"), "\u{f31b}");
    // "arch" is listed late so that archcraft, archlabs and arcolinux match
    // their own entries first.
    assert_eq!(os_icon("arch linux"), "\u{f303}");
    assert_eq!(os_icon("archcraft"), "\u{f345}");
    assert_eq!(os_icon("some unknown system"), "\u{e712}");
}

#[test]
fn wm_icon_prefers_desktop_environment() {
    let (is_de, icon) = wm_icon("gnome", "mutter");
    assert!(is_de);
    assert_eq!(icon, "\u{f361}");

    let (is_de, icon) = wm_icon("", "hyprland");
    assert!(!is_de);
    assert_eq!(icon, "\u{f359}");

    let (is_de, icon) = wm_icon("", "unknown-wm");
    assert!(!is_de);
    assert_eq!(icon, "\u{f056e}");
}

#[test]
fn shell_module_recognises_shells_by_suffix() {
    let (key, text) = shell_module(None, "/run/current-system/sw/bin/fish");
    assert_eq!(key, "\u{f023a} SH");
    assert_eq!(text, "echo fish");

    let (key, text) = shell_module(None, "/bin/zsh");
    assert_eq!(key, "\u{f120} SH");
    assert_eq!(text, "echo zsh");

    let (_, text) = shell_module(None, "/bin/sh");
    assert_eq!(text, "echo bash");

    let (key, text) = shell_module(Some("nu"), "/bin/zsh");
    assert_eq!(key, "\u{f120} SH");
    assert_eq!(text, "echo nu");

    let (_, text) = shell_module(Some("/usr/bin/fish"), "/bin/bash");
    assert_eq!(text, "echo fish");
}

#[test]
fn gpu_selection_prefers_discrete_cards() {
    // Discrete cards present: exactly those, in order.
    assert_eq!(select_gpu_indices(&vec![false, true, false, true]), vec![1, 3]);
    // No discrete card, several found: all but the first.
    assert_eq!(select_gpu_indices(&vec![false, false, false]), vec![1, 2]);
    // No discrete card, a single entry: keep it.
    assert_eq!(select_gpu_indices(&vec![false]), vec![0]);
    // Nothing detected.
    assert_eq!(select_gpu_indices(&Vec::new()), Vec::<usize>::new());
}

#[test]
fn key_colors_cycle_through_five_names() {
    assert_eq!(key_color(0), "green");
    assert_eq!(key_color(1), "yellow");
    assert_eq!(key_color(2), "blue");
    assert_eq!(key_color(3), "magenta");
    assert_eq!(key_color(4), "cyan");
    assert_eq!(key_color(5), "green");
    assert_eq!(key_color(12), "blue");
}
