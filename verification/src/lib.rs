//! Verified core of a terminal fetch tool's colour and image pipeline.
//!
//! The library acquires a 16-colour terminal palette (from a theming cache or
//! by live terminal interrogation), selects the most contrasting accessible
//! pair of colours, recolours bundled template images with that pair, and
//! computes crop/resize geometry for wallpaper thumbnails.  All colour math is
//! carried out in exact integer arithmetic (squared distances and fixed-point
//! luminance), so every decision the pipeline makes is fully specified.

pub mod color;
pub mod contrast;
pub mod error;
pub mod fetchinfo;
pub mod geometry;
pub mod imaging;
pub mod logo;
pub mod luma;
pub mod palette;
pub mod recolor;
pub mod term;
pub mod text;
pub mod wallpaper;

pub use error::Error;

use vstd::prelude::*;

verus! {

/// The shells for which the surrounding command-line tool can emit
/// completion scripts.
#[derive(Clone, Copy, Debug, PartialEq, Eq, Structural)]
pub enum ShellCompletion {
    Bash,
    Zsh,
    Fish,
}

} // verus!
