use wfetch::color::Color;
use wfetch::error::Error;
use wfetch::logo::logo_backend;
use wfetch::logo::select_logo;
use wfetch::logo::LogoPlan;
use wfetch::logo::LogoRequest;

fn base_request() -> LogoRequest {
    LogoRequest {
        waifu: false,
        waifu2: false,
        hollow: false,
        smooth: false,
        wallpaper: false,
        wallpaper_ascii: false,
        nixos: false,
        tmux: false,
    }
}

#[test]
fn wallpaper_ascii_has_highest_priority() {
    let req = LogoRequest {
        wallpaper_ascii: true,
        wallpaper: true,
        waifu: true,
        nixos: true,
        ..base_request()
    };
    let r = select_logo(&req, Err(Error::TerminalTimeout)).unwrap();
    assert_eq!(r, LogoPlan::WallpaperAscii);
}

#[test]
fn wallpaper_request_precedes_palette_paths() {
    let req = LogoRequest { wallpaper: true, waifu: true, ..base_request() };
    let r = select_logo(&req, Err(Error::TerminalTimeout)).unwrap();
    assert_eq!(r, LogoPlan::Wallpaper);
}

#[test]
fn tmux_uses_template_colors_without_querying() {
    // Under tmux the raw escape queries would break rendering: the waifu
    // variants use the templates' own placeholder colours.
    let req = LogoRequest { tmux: true, waifu: true, ..base_request() };
    let r = select_logo(&req, Err(Error::TerminalTimeout)).unwrap();
    assert_eq!(
        r,
        LogoPlan::Waifu1 {
            color1: Color::new(0x7e, 0xba, 0xe4, 255),
            color2: Color::new(0x52, 0x77, 0xc3, 255),
        },
    );

    let req = LogoRequest { tmux: true, nixos: true, ..base_request() };
    let r = select_logo(&req, Err(Error::TerminalTimeout)).unwrap();
    assert_eq!(r, LogoPlan::Filled { colors: None });

    let req = LogoRequest { tmux: true, ..base_request() };
    let r = select_logo(&req, Err(Error::TerminalTimeout)).unwrap();
    assert_eq!(r, LogoPlan::RendererDefault);
}

#[test]
fn backend_is_chosen_by_terminal_kind() {
    assert_eq!(logo_backend("konsole", false), "iterm");
    assert_eq!(logo_backend("foot", false), "sixel");
    assert_eq!(logo_backend("kitty", true), "kitty-icat");
    assert_eq!(logo_backend("alacritty", false), "kitty");
}
