//! The logo selection decision: which artifact the renderer should display.
//!
//! A single-shot decision tree, in priority order: an ASCII-wallpaper
//! request wins, then a wallpaper request, then the tmux path (which never
//! interrogates the terminal and uses the templates' own colours), and
//! finally the palette-dependent paths.  When palette acquisition has
//! failed, a recolour-based logo request is fatal — the feature cannot work
//! without a palette — while the static variants fall back to their stock
//! colours.

use vstd::prelude::*;
use vstd::string::StringExecFns;

use crate::color::Color;
use crate::contrast::ColorPair;
use crate::contrast::most_contrasting_pair;
use crate::contrast::spec_most_contrasting_pair;
use crate::error::Error;
use crate::imaging::placeholder_one;
use crate::imaging::placeholder_two;
use crate::imaging::spec_placeholder_one;
use crate::imaging::spec_placeholder_two;
use crate::text::str_eq;

verus! {

/// Which logo variants were requested, and in what surroundings the tool
/// runs.
#[derive(Clone, Copy, Debug, PartialEq, Eq, Structural)]
pub struct LogoRequest {
    /// Show the direct-replace recoloured template.
    pub waifu: bool,
    /// Show the mask-based recoloured template.
    pub waifu2: bool,
    /// Show the hollow ASCII logo.
    pub hollow: bool,
    /// Show the smooth ASCII logo.
    pub smooth: bool,
    /// A wallpaper image was requested.
    pub wallpaper: bool,
    /// An ASCII rendering of the wallpaper was requested.
    pub wallpaper_ascii: bool,
    /// The host system uses the filled stock logo when nothing else is
    /// requested.
    pub nixos: bool,
    /// Running under a terminal multiplexer, where raw escape queries would
    /// break rendering.
    pub tmux: bool,
}

/// The artifact the pipeline decides to produce.
#[derive(Clone, Copy, Debug, PartialEq, Eq, Structural)]
pub enum LogoPlan {
    /// Resize the wallpaper and hand it to the external ASCII converter.
    WallpaperAscii,
    /// Resize the wallpaper and display it with the image backend.
    Wallpaper,
    /// Recolour the direct-replace template with the two colours.
    Waifu1 { color1: Color, color2: Color },
    /// Recolour the mask-based template with the two colours.
    Waifu2 { color1: Color, color2: Color },
    /// The hollow ASCII logo, with selected colours or its stock ones.
    Hollow { colors: Option<ColorPair> },
    /// The smooth ASCII logo, with selected colours or its stock ones.
    Smooth { colors: Option<ColorPair> },
    /// The filled stock logo, with selected colours or its stock ones.
    Filled { colors: Option<ColorPair> },
    /// Let the renderer pick its own default.
    RendererDefault,
}

/// The decision tree over a request and the palette-acquisition outcome.
/// Slot 0 (the terminal background) is excluded from the contrast search.
pub open spec fn spec_select_logo(req: LogoRequest, palette: Result<Seq<Color>, Error>) -> Result<
    LogoPlan,
    Error,
> {
    if req.wallpaper_ascii {
        Ok(LogoPlan::WallpaperAscii)
    } else if req.wallpaper {
        Ok(LogoPlan::Wallpaper)
    } else if req.tmux {
        if req.waifu {
            Ok(
                LogoPlan::Waifu1 {
                    color1: spec_placeholder_one(),
                    color2: spec_placeholder_two(),
                },
            )
        } else if req.waifu2 {
            Ok(
                LogoPlan::Waifu2 {
                    color1: spec_placeholder_one(),
                    color2: spec_placeholder_two(),
                },
            )
        } else if req.hollow {
            Ok(LogoPlan::Hollow { colors: None })
        } else if req.smooth {
            Ok(LogoPlan::Smooth { colors: None })
        } else if req.nixos {
            Ok(LogoPlan::Filled { colors: None })
        } else {
            Ok(LogoPlan::RendererDefault)
        }
    } else {
        match palette {
            Err(e) => {
                if req.waifu || req.waifu2 {
                    Err(e)
                } else if req.hollow {
                    Ok(LogoPlan::Hollow { colors: None })
                } else if req.smooth {
                    Ok(LogoPlan::Smooth { colors: None })
                } else if req.nixos {
                    Ok(LogoPlan::Filled { colors: None })
                } else {
                    Ok(LogoPlan::RendererDefault)
                }
            },
            Ok(colors) => {
                let pair = spec_most_contrasting_pair(colors.drop_first());
                if req.waifu {
                    Ok(LogoPlan::Waifu1 { color1: pair.0, color2: pair.1 })
                } else if req.waifu2 {
                    Ok(LogoPlan::Waifu2 { color1: pair.0, color2: pair.1 })
                } else if req.hollow {
                    Ok(LogoPlan::Hollow { colors: Some(ColorPair { primary: pair.0, secondary: pair.1 }) })
                } else if req.smooth {
                    Ok(LogoPlan::Smooth { colors: Some(ColorPair { primary: pair.0, secondary: pair.1 }) })
                } else if req.nixos {
                    Ok(LogoPlan::Filled { colors: Some(ColorPair { primary: pair.0, secondary: pair.1 }) })
                } else {
                    Ok(LogoPlan::RendererDefault)
                }
            },
        }
    }
}

/// Decides which artifact to produce from the request and the
/// palette-acquisition outcome.
pub fn select_logo(req: &LogoRequest, palette: Result<Vec<Color>, Error>) -> (r: Result<
    LogoPlan,
    Error,
>)
    requires
        palette matches Ok(v) ==> v@.len() >= 1,
    ensures
        r == spec_select_logo(
            *req,
            match palette {
                Ok(v) => Ok::<Seq<Color>, Error>(v@),
                Err(e) => Err(e),
            },
        ),
{
    if req.wallpaper_ascii {
        return Ok(LogoPlan::WallpaperAscii);
    }
    if req.wallpaper {
        return Ok(LogoPlan::Wallpaper);
    }
    if req.tmux {
        if req.waifu {
            return Ok(
                LogoPlan::Waifu1 { color1: placeholder_one(), color2: placeholder_two() },
            );
        }
        if req.waifu2 {
            return Ok(
                LogoPlan::Waifu2 { color1: placeholder_one(), color2: placeholder_two() },
            );
        }
        if req.hollow {
            return Ok(LogoPlan::Hollow { colors: None });
        }
        if req.smooth {
            return Ok(LogoPlan::Smooth { colors: None });
        }
        if req.nixos {
            return Ok(LogoPlan::Filled { colors: None });
        }
        return Ok(LogoPlan::RendererDefault);
    }
    match palette {
        Err(e) => {
            if req.waifu || req.waifu2 {
                Err(e)
            } else if req.hollow {
                Ok(LogoPlan::Hollow { colors: None })
            } else if req.smooth {
                Ok(LogoPlan::Smooth { colors: None })
            } else if req.nixos {
                Ok(LogoPlan::Filled { colors: None })
            } else {
                Ok(LogoPlan::RendererDefault)
            }
        },
        Ok(colors) => {
            let n = colors.len();
            let rest = vstd::slice::slice_subrange(colors.as_slice(), 1, n);
            proof {
                assert(rest@ =~= colors@.drop_first());
            }
            let pair = most_contrasting_pair(rest);
            if req.waifu {
                Ok(LogoPlan::Waifu1 { color1: pair.0, color2: pair.1 })
            } else if req.waifu2 {
                Ok(LogoPlan::Waifu2 { color1: pair.0, color2: pair.1 })
            } else if req.hollow {
                Ok(LogoPlan::Hollow { colors: Some(ColorPair { primary: pair.0, secondary: pair.1 }) })
            } else if req.smooth {
                Ok(LogoPlan::Smooth { colors: Some(ColorPair { primary: pair.0, secondary: pair.1 }) })
            } else if req.nixos {
                Ok(LogoPlan::Filled { colors: Some(ColorPair { primary: pair.0, secondary: pair.1 }) })
            } else {
                Ok(LogoPlan::RendererDefault)
            }
        },
    }
}

/// The renderer backend used to display an image logo, by terminal kind.
pub open spec fn spec_logo_backend(term: Seq<char>, tmux: bool) -> Seq<char> {
    if term == "konsole"@ {
        "iterm"@
    } else if term == "foot"@ {
        "sixel"@
    } else if tmux {
        "kitty-icat"@
    } else {
        "kitty"@
    }
}

/// Picks the renderer's image backend for the given terminal.
pub fn logo_backend(term: &str, tmux: bool) -> (r: String)
    ensures
        r@ == spec_logo_backend(term@, tmux),
{
    if str_eq(term, "konsole") {
        String::from_str("iterm")
    } else if str_eq(term, "foot") {
        String::from_str("sixel")
    } else if tmux {
        String::from_str("kitty-icat")
    } else {
        String::from_str("kitty")
    }
}

} // verus!
