//! Crop and resize geometry, in source-image pixel space.
//!
//! A crop rectangle is `(width, height, x offset, y offset)`.  The fallback
//! crop is the centred square on the smaller dimension; richer metadata
//! arrives as a `<w>x<h>+<x>+<y>` geometry string and is preferred when it
//! parses, forced square by clamping both sides to their minimum.  Display
//! scale factors are carried in thousandths (1000 = 1.0), so applying them
//! is exact integer arithmetic.

use vstd::prelude::*;
use vstd::string::StrSliceExecFns;

use crate::text::spec_str_contains;
use crate::text::str_contains;
use crate::text::str_eq;

verus! {

/// The decimal value of one digit character.
pub open spec fn spec_dec_val(c: char) -> Option<u8> {
    if c == '0' {
        Some(0u8)
    } else if c == '1' {
        Some(1u8)
    } else if c == '2' {
        Some(2u8)
    } else if c == '3' {
        Some(3u8)
    } else if c == '4' {
        Some(4u8)
    } else if c == '5' {
        Some(5u8)
    } else if c == '6' {
        Some(6u8)
    } else if c == '7' {
        Some(7u8)
    } else if c == '8' {
        Some(8u8)
    } else if c == '9' {
        Some(9u8)
    } else {
        None
    }
}

/// Exec decision of `spec_dec_val`.
fn dec_val(c: char) -> (r: Option<u8>)
    ensures
        r == spec_dec_val(c),
{
    match c {
        '0' => Some(0),
        '1' => Some(1),
        '2' => Some(2),
        '3' => Some(3),
        '4' => Some(4),
        '5' => Some(5),
        '6' => Some(6),
        '7' => Some(7),
        '8' => Some(8),
        '9' => Some(9),
        _ => None,
    }
}

/// Left fold of decimal digits onto `acc`; `None` on a non-digit or on
/// overflow past `u32::MAX`.
pub open spec fn spec_parse_u32_rec(s: Seq<char>, acc: int) -> Option<int>
    decreases s.len(),
{
    if s.len() == 0 {
        Some(acc)
    } else {
        match spec_dec_val(s[0]) {
            None => None,
            Some(d) => {
                let acc2 = acc * 10 + d;
                if acc2 > u32::MAX {
                    None
                } else {
                    spec_parse_u32_rec(s.drop_first(), acc2)
                }
            },
        }
    }
}

/// The value of a non-empty, all-digit string that fits in `u32`.
pub open spec fn spec_parse_u32(s: Seq<char>) -> Option<u32> {
    if s.len() == 0 {
        None
    } else {
        match spec_parse_u32_rec(s, 0) {
            Some(v) => Some(v as u32),
            None => None,
        }
    }
}

/// Parses the characters `s[from..to]` as a decimal `u32`.
fn parse_u32_range(s: &str, from: usize, to: usize) -> (r: Option<u32>)
    requires
        from <= to <= s@.len(),
        s@.len() <= usize::MAX,
    ensures
        r == spec_parse_u32(s@.subrange(from as int, to as int)),
{
    let ghost whole = s@.subrange(from as int, to as int);
    if from == to {
        return None;
    }
    let mut acc: u32 = 0;
    let mut pos = from;
    while pos < to
        invariant
            from <= pos <= to <= s@.len(),
            s@.len() <= usize::MAX,
            whole == s@.subrange(from as int, to as int),
            whole.len() > 0,
            spec_parse_u32_rec(whole, 0) == spec_parse_u32_rec(
                s@.subrange(pos as int, to as int),
                acc as int,
            ),
        decreases to - pos,
    {
        let ghost rest = s@.subrange(pos as int, to as int);
        let d = match dec_val(s.get_char(pos)) {
            Some(d) => d,
            None => {
                return None;
            },
        };
        let wide: u64 = acc as u64 * 10 + d as u64;
        if wide > u32::MAX as u64 {
            return None;
        }
        acc = wide as u32;
        pos = pos + 1;
        proof {
            assert(rest[0] == s@[pos - 1]);
            assert(rest.drop_first() =~= s@.subrange(pos as int, to as int));
        }
    }
    proof {
        assert(s@.subrange(to as int, to as int) =~= Seq::<char>::empty());
    }
    Some(acc)
}

/// `c` separates geometry components.
pub open spec fn spec_is_delim(c: char) -> bool {
    c == 'x' || c == '+'
}

/// The index of the first separator at or after `from`, or the length of
/// the string when there is none.
pub open spec fn spec_find_delim(s: Seq<char>, from: int) -> int
    decreases s.len() - from,
{
    if from < 0 || from >= s.len() {
        s.len() as int
    } else if spec_is_delim(s[from]) {
        from
    } else {
        spec_find_delim(s, from + 1)
    }
}

/// Exec search for the first separator at or after `from`.
fn find_delim(s: &str, from: usize) -> (r: usize)
    requires
        from <= s@.len(),
        s@.len() <= usize::MAX,
    ensures
        r == spec_find_delim(s@, from as int),
        from <= r <= s@.len(),
{
    let len = s.unicode_len();
    let mut pos = from;
    while pos < len
        invariant
            from <= pos <= len,
            len == s@.len(),
            spec_find_delim(s@, from as int) == spec_find_delim(s@, pos as int),
        decreases len - pos,
    {
        let c = s.get_char(pos);
        if c == 'x' || c == '+' {
            return pos;
        }
        pos = pos + 1;
    }
    len
}

/// What parsing a `<w>x<h>+<x>+<y>` geometry string yields: the separators
/// must come in exactly that shape and each component must be a decimal
/// number fitting in `u32`; anything else yields nothing (and the caller
/// keeps its fallback geometry).
pub open spec fn spec_geom_from_str(s: Seq<char>) -> Option<(u32, u32, u32, u32)> {
    let i1 = spec_find_delim(s, 0);
    let i2 = spec_find_delim(s, i1 + 1);
    let i3 = spec_find_delim(s, i2 + 1);
    let i4 = spec_find_delim(s, i3 + 1);
    if i1 < s.len() && s[i1] == 'x' && i2 < s.len() && s[i2] == '+' && i3 < s.len() && s[i3] == '+'
        && i4 == s.len() {
        match (
            spec_parse_u32(s.subrange(0, i1)),
            spec_parse_u32(s.subrange(i1 + 1, i2)),
            spec_parse_u32(s.subrange(i2 + 1, i3)),
            spec_parse_u32(s.subrange(i3 + 1, s.len() as int)),
        ) {
            (Some(w), Some(h), Some(x), Some(y)) => Some((w, h, x, y)),
            _ => None,
        }
    } else {
        None
    }
}

/// Parses a `<w>x<h>+<x>+<y>` geometry string into a crop rectangle.
pub fn geom_from_str(crop: &str) -> (r: Option<(u32, u32, u32, u32)>)
    ensures
        r == spec_geom_from_str(crop@),
{
    let len = crop.unicode_len();
    let i1 = find_delim(crop, 0);
    if i1 >= len || crop.get_char(i1) != 'x' {
        return None;
    }
    let i2 = find_delim(crop, i1 + 1);
    if i2 >= len || crop.get_char(i2) != '+' {
        return None;
    }
    let i3 = find_delim(crop, i2 + 1);
    if i3 >= len || crop.get_char(i3) != '+' {
        return None;
    }
    let i4 = find_delim(crop, i3 + 1);
    if i4 != len {
        return None;
    }
    let w = match parse_u32_range(crop, 0, i1) {
        Some(v) => v,
        None => {
            return None;
        },
    };
    let h = match parse_u32_range(crop, i1 + 1, i2) {
        Some(v) => v,
        None => {
            return None;
        },
    };
    let x = match parse_u32_range(crop, i2 + 1, i3) {
        Some(v) => v,
        None => {
            return None;
        },
    };
    let y = match parse_u32_range(crop, i3 + 1, len) {
        Some(v) => v,
        None => {
            return None;
        },
    };
    Some((w, h, x, y))
}

/// The centred square crop of a `w x h` image: the side is the smaller
/// dimension and the larger dimension is offset to centre it.
pub open spec fn spec_fallback_crop(w: u32, h: u32) -> (u32, u32, u32, u32) {
    if w > h {
        (h, h, (((w - h) / 2) as u32), 0u32)
    } else {
        (w, w, 0u32, (((h - w) / 2) as u32))
    }
}

/// Computes the centred-square fallback crop of a source image.
pub fn fallback_crop(width: u32, height: u32) -> (r: (u32, u32, u32, u32))
    ensures
        r == spec_fallback_crop(width, height),
{
    if width > height {
        (height, height, (width - height) / 2, 0)
    } else {
        (width, width, 0, (height - width) / 2)
    }
}

/// A rectangle forced square: both sides clamped to their minimum, anchored
/// at the same offset.
pub open spec fn spec_force_square(g: (u32, u32, u32, u32)) -> (u32, u32, u32, u32) {
    let side = if g.0 <= g.1 {
        g.0
    } else {
        g.1
    };
    (side, side, g.2, g.3)
}

/// Clamps a crop rectangle to a square on its smaller side.
pub fn force_square(g: (u32, u32, u32, u32)) -> (r: (u32, u32, u32, u32))
    ensures
        r == spec_force_square(g),
{
    let side = if g.0 <= g.1 {
        g.0
    } else {
        g.1
    };
    (side, side, g.2, g.3)
}

/// Terminals that mis-render fractional scale factors: the scale must be
/// rounded up to the next integer for them.
pub open spec fn spec_needs_integer_scale(term: Seq<char>) -> bool {
    term == "ghostty"@ || spec_str_contains(term, "wezterm"@)
}

/// A scale in thousandths rounded up to the next whole multiple of 1000,
/// saturating at `u32::MAX`.
pub open spec fn spec_ceil_scale(m: u32) -> u32 {
    if ((m + 999) / 1000) * 1000 > u32::MAX {
        u32::MAX
    } else {
        ((((m + 999) / 1000) * 1000) as u32)
    }
}

/// The display scale in thousandths: the explicit value wins, else the
/// compositor-reported value, else 1.0; rounded up to an integer for
/// terminals that need it.
pub open spec fn spec_resolve_scale(
    explicit: Option<u32>,
    compositor: Option<u32>,
    round_up: bool,
) -> u32 {
    let base = match explicit {
        Some(v) => v,
        None => match compositor {
            Some(v) => v,
            None => 1000u32,
        },
    };
    if round_up {
        spec_ceil_scale(base)
    } else {
        base
    }
}

/// Resolves the display scale (in thousandths) from an explicit request, a
/// compositor answer and the terminal's name.
pub fn resolve_scale(explicit: Option<u32>, compositor: Option<u32>, term: &str) -> (r: u32)
    ensures
        r == spec_resolve_scale(explicit, compositor, spec_needs_integer_scale(term@)),
{
    let base = match explicit {
        Some(v) => v,
        None => match compositor {
            Some(v) => v,
            None => 1000,
        },
    };
    if str_eq(term, "ghostty") || str_contains(term, "wezterm") {
        let ceiled: u64 = ((base as u64 + 999) / 1000) * 1000;
        if ceiled > u32::MAX as u64 {
            u32::MAX
        } else {
            ceiled as u32
        }
    } else {
        base
    }
}

/// A dimension scaled by a factor in thousandths, rounded down, saturating
/// at `u32::MAX`.
pub open spec fn spec_scaled_size(size: u32, milli: u32) -> u32 {
    if (size * milli) / 1000 > u32::MAX {
        u32::MAX
    } else {
        (((size * milli) / 1000) as u32)
    }
}

/// Applies a scale factor in thousandths to a pixel dimension.
pub fn scaled_size(size: u32, scale_milli: u32) -> (r: u32)
    ensures
        r == spec_scaled_size(size, scale_milli),
{
    proof {
        assert(size as int * scale_milli as int <= u32::MAX as int * u32::MAX as int)
            by (nonlinear_arith)
            requires
                0 <= size <= u32::MAX && 0 <= scale_milli <= u32::MAX,
        ;
    }
    let wide: u64 = (size as u64 * scale_milli as u64) / 1000;
    if wide > u32::MAX as u64 {
        u32::MAX
    } else {
        wide as u32
    }
}

/// The dimensions that fit a `sw x sh` source into a `dw x dh` box while
/// preserving aspect ratio: the dominant dimension keeps its target size and
/// the other is derived from the source's ratio, rounded down.
pub open spec fn spec_fit_dims(sw: u32, sh: u32, dw: u32, dh: u32) -> (u32, u32) {
    if sw > sh {
        let fitted = (sh * dw) / (sw as int);
        (dw, if fitted > u32::MAX {
            u32::MAX
        } else {
            (fitted as u32)
        })
    } else {
        let fitted = (sw * dh) / (sh as int);
        (if fitted > u32::MAX {
            u32::MAX
        } else {
            (fitted as u32)
        }, dh)
    }
}

/// Fits a source image's dimensions into a target box, preserving aspect
/// ratio.
pub fn fit_dims(sw: u32, sh: u32, dw: u32, dh: u32) -> (r: (u32, u32))
    requires
        sw > 0,
        sh > 0,
    ensures
        r == spec_fit_dims(sw, sh, dw, dh),
{
    proof {
        assert(sh as int * dw as int <= u32::MAX as int * u32::MAX as int) by (nonlinear_arith)
            requires
                0 <= sh <= u32::MAX && 0 <= dw <= u32::MAX,
        ;
        assert(sw as int * dh as int <= u32::MAX as int * u32::MAX as int) by (nonlinear_arith)
            requires
                0 <= sw <= u32::MAX && 0 <= dh <= u32::MAX,
        ;
    }
    if sw > sh {
        let fitted: u64 = (sh as u64 * dw as u64) / (sw as u64);
        (dw, if fitted > u32::MAX as u64 {
            u32::MAX
        } else {
            fitted as u32
        })
    } else {
        let fitted: u64 = (sw as u64 * dh as u64) / (sh as u64);
        (if fitted > u32::MAX as u64 {
            u32::MAX
        } else {
            fitted as u32
        }, dh)
    }
}

} // verus!
