use wfetch::color::Color;
use wfetch::contrast::ColorPair;
use wfetch::error::Error;
use wfetch::logo::select_logo;
use wfetch::logo::LogoPlan;
use wfetch::logo::LogoRequest;
use wfetch::palette::get_term_colors;

fn cache_doc(colors: &[&str; 16]) -> String {
    let mut doc = String::from("{\"colors\":{");
    for (i, c) in colors.iter().enumerate() {
        if i > 0 {
            doc.push(',');
        }
        doc.push_str(&format!("\"color{}\":\"{}\"", i, c));
    }
    doc.push_str("},\"extra\":1}");
    doc
}

fn sixteen() -> [&'static str; 16] {
    [
        "#000000", "#bf616a", "#a3be8c", "#ebcb8b", "#7ebae4", "#b48ead", "#88c0d0", "#e5e9f0",
        "#4c566a", "#bf616a", "#a3be8c", "#ebcb8b", "#5277c3", "#b48ead", "#8fbcbb", "#eceff4",
    ]
}

fn no_logo_request() -> LogoRequest {
    LogoRequest {
        waifu: false,
        waifu2: false,
        hollow: false,
        smooth: false,
        wallpaper: false,
        wallpaper_ascii: false,
        nixos: false,
        tmux: false,
    }
}

#[test]
fn cache_document_yields_all_sixteen_colors_in_order() {
    let doc = cache_doc(&sixteen());
    let palette = get_term_colors(Some(&doc)).unwrap();
    assert_eq!(palette.len(), 16);
    assert_eq!(palette[0], Color::new(0, 0, 0, 255));
    assert_eq!(palette[4], Color::from_str("#7ebae4").unwrap());
    assert_eq!(palette[12], Color::from_str("#5277c3").unwrap());
    for (i, s) in sixteen().iter().enumerate() {
        assert_eq!(palette[i], Color::from_str(s).unwrap());
    }
}

#[test]
fn cache_with_missing_key_is_rejected() {
    // Fifteen keys only: color15 is missing, so the cache strategy fails
    // and acquisition falls through to the live terminal, which fails too
    // in a test environment, composing both causes.
    let mut doc = String::from("{\"colors\":{");
    for i in 0..15 {
        if i > 0 {
            doc.push(',');
        }
        doc.push_str(&format!("\"color{}\":\"#101010\"", i));
    }
    doc.push_str("}}");
    let r = get_term_colors(Some(&doc));
    assert!(matches!(r, Err(Error::Acquisition(_, _))));
}

#[test]
fn cache_with_malformed_color_is_rejected() {
    let mut colors = sixteen();
    colors[7] = "#not-a-color";
    let doc = cache_doc(&colors);
    let r = get_term_colors(Some(&doc));
    match r {
        Err(Error::Acquisition(cache_cause, _)) => {
            assert!(matches!(*cache_cause, Error::ParseFailure));
        },
        _ => panic!("expected a composed acquisition error"),
    }
}

#[test]
fn absent_cache_and_silent_terminal_fail_with_composed_error() {
    // No cache document and no terminal answering within the timeout: the
    // whole acquisition fails and carries both causes.
    let r = get_term_colors(None);
    match r {
        Err(Error::Acquisition(cache_cause, live_cause)) => {
            assert!(matches!(*cache_cause, Error::ConfigAbsent));
            assert!(matches!(*live_cause, Error::TerminalTimeout));
        },
        Ok(_) => panic!("no terminal should answer in the test environment"),
        Err(_) => panic!("expected a composed acquisition error"),
    }
}

#[test]
fn failed_acquisition_is_fatal_for_recolored_logo() {
    let req = LogoRequest { waifu: true, ..no_logo_request() };
    let failed: Result<Vec<Color>, Error> = Err(Error::Acquisition(
        Box::new(Error::ConfigAbsent),
        Box::new(Error::TerminalTimeout),
    ));
    let r = select_logo(&req, failed);
    assert!(matches!(r, Err(Error::Acquisition(_, _))));
}

#[test]
fn failed_acquisition_falls_back_for_static_variants() {
    let req = LogoRequest { hollow: true, ..no_logo_request() };
    let failed: Result<Vec<Color>, Error> = Err(Error::TerminalTimeout);
    let r = select_logo(&req, failed).unwrap();
    assert_eq!(r, LogoPlan::Hollow { colors: None });

    let req = LogoRequest { nixos: true, ..no_logo_request() };
    let r = select_logo(&req, Err(Error::TerminalTimeout)).unwrap();
    assert_eq!(r, LogoPlan::Filled { colors: None });

    let req = no_logo_request();
    let r = select_logo(&req, Err(Error::TerminalTimeout)).unwrap();
    assert_eq!(r, LogoPlan::RendererDefault);
}

#[test]
fn successful_acquisition_feeds_contrast_pair_into_plan() {
    // Slot 1 near-black, slot 4 near-white: the selected pair is exactly
    // (slot 1, slot 4), and slot 0 is excluded from the search.
    let mut colors = vec![Color::new(255, 255, 255, 255)];
    colors.extend(vec![Color::new(0, 0, 0, 255); 15]);
    colors[1] = Color::from_str("#010101").unwrap();
    colors[4] = Color::from_str("#fefefe").unwrap();
    let req = LogoRequest { waifu: true, ..no_logo_request() };
    let r = select_logo(&req, Ok(colors.clone())).unwrap();
    assert_eq!(
        r,
        LogoPlan::Waifu1 {
            color1: Color::from_str("#010101").unwrap(),
            color2: Color::from_str("#fefefe").unwrap(),
        },
    );

    let req = LogoRequest { hollow: true, ..no_logo_request() };
    let r = select_logo(&req, Ok(colors)).unwrap();
    assert_eq!(
        r,
        LogoPlan::Hollow {
            colors: Some(ColorPair {
                primary: Color::from_str("#010101").unwrap(),
                secondary: Color::from_str("#fefefe").unwrap(),
            }),
        },
    );
}
