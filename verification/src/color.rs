//! The RGBA colour value type: hex parsing and formatting, squared-distance
//! math, per-channel products, and the SGR parameter renderings used for
//! terminal foreground/background colours.
//!
//! Distances are kept squared so that every comparison the pipeline makes is
//! exact integer arithmetic.

use vstd::prelude::*;
use vstd::string::StrSliceExecFns;
use vstd::string::StringExecFns;

use crate::error::Error;
use crate::text::spec_dec;
use crate::text::append_dec_u64;

verus! {

/// An RGBA colour with 8-bit channels.  Equality is by exact channel value.
#[derive(Clone, Copy, Debug, PartialEq, Eq, Structural, Hash)]
pub struct Color {
    pub r: u8,
    pub g: u8,
    pub b: u8,
    pub a: u8,
}

/// The value of one hex digit, upper or lower case.
pub open spec fn spec_hex_val(c: char) -> Option<u8> {
    if c == '0' {
        Some(0u8)
    } else if c == '1' {
        Some(1u8)
    } else if c == '2' {
        Some(2u8)
    } else if c == '3' {
        Some(3u8)
    } else if c == '4' {
        Some(4u8)
    } else if c == '5' {
        Some(5u8)
    } else if c == '6' {
        Some(6u8)
    } else if c == '7' {
        Some(7u8)
    } else if c == '8' {
        Some(8u8)
    } else if c == '9' {
        Some(9u8)
    } else if c == 'a' || c == 'A' {
        Some(10u8)
    } else if c == 'b' || c == 'B' {
        Some(11u8)
    } else if c == 'c' || c == 'C' {
        Some(12u8)
    } else if c == 'd' || c == 'D' {
        Some(13u8)
    } else if c == 'e' || c == 'E' {
        Some(14u8)
    } else if c == 'f' || c == 'F' {
        Some(15u8)
    } else {
        None
    }
}

/// The lower-case hex digit character for `d` in `0..16`.
pub open spec fn spec_hex_char(d: int) -> char {
    if d == 0 {
        '0'
    } else if d == 1 {
        '1'
    } else if d == 2 {
        '2'
    } else if d == 3 {
        '3'
    } else if d == 4 {
        '4'
    } else if d == 5 {
        '5'
    } else if d == 6 {
        '6'
    } else if d == 7 {
        '7'
    } else if d == 8 {
        '8'
    } else if d == 9 {
        '9'
    } else if d == 10 {
        'a'
    } else if d == 11 {
        'b'
    } else if d == 12 {
        'c'
    } else if d == 13 {
        'd'
    } else if d == 14 {
        'e'
    } else {
        'f'
    }
}

/// The byte value of two hex digits, high digit first.
pub open spec fn spec_hex_pair(hi: char, lo: char) -> Option<u8> {
    match (spec_hex_val(hi), spec_hex_val(lo)) {
        (Some(h), Some(l)) => Some(((16 * h + l) as u8)),
        _ => None,
    }
}

/// What parsing a hex colour string yields: an optional leading `#` is
/// stripped; the first six characters must be hex digits for R, G and B; a
/// string of exactly eight digits carries a trailing alpha pair; any other
/// length leaves alpha at its default of 255, with trailing characters
/// beyond the six ignored.
pub open spec fn spec_parse_hex(s: Seq<char>) -> Option<Color> {
    let t = if s.len() > 0 && s[0] == '#' {
        s.drop_first()
    } else {
        s
    };
    if t.len() < 6 {
        None
    } else {
        match (spec_hex_pair(t[0], t[1]), spec_hex_pair(t[2], t[3]), spec_hex_pair(t[4], t[5])) {
            (Some(r), Some(g), Some(b)) => {
                if t.len() == 8 {
                    match spec_hex_pair(t[6], t[7]) {
                        Some(a) => Some(Color { r, g, b, a }),
                        None => None,
                    }
                } else {
                    Some(Color { r, g, b, a: 255u8 })
                }
            },
            _ => None,
        }
    }
}

/// The two lower-case hex digits of a byte.
pub open spec fn spec_hex_pair_chars(v: int) -> Seq<char> {
    seq![spec_hex_char(v / 16), spec_hex_char(v % 16)]
}

/// The hex rendering of a colour: `#rrggbb`, with a trailing `aa` pair only
/// when alpha is not 255 (so that parsing's default alpha round-trips).
pub open spec fn spec_format_hex(c: Color) -> Seq<char> {
    "#"@ + spec_hex_pair_chars(c.r as int) + spec_hex_pair_chars(c.g as int) + spec_hex_pair_chars(
        c.b as int,
    ) + (if c.a == 255 {
        Seq::<char>::empty()
    } else {
        spec_hex_pair_chars(c.a as int)
    })
}

/// The square of an integer.
pub open spec fn spec_sq(x: int) -> int {
    x * x
}

/// Squared Euclidean distance in the RGB cube; alpha is ignored.
pub open spec fn spec_distance_sq(a: Color, b: Color) -> int {
    spec_sq(a.r - b.r) + spec_sq(a.g - b.g) + spec_sq(a.b - b.b)
}

/// Per-channel product of two colours, each channel scaled by 255, with the
/// alpha of the first.
pub open spec fn spec_multiply(a: Color, b: Color) -> Color {
    Color {
        r: ((a.r * b.r) / 255) as u8,
        g: ((a.g * b.g) / 255) as u8,
        b: ((a.b * b.b) / 255) as u8,
        a: a.a,
    }
}

/// The SGR parameter string `38;2;R;G;B` selecting a true-colour foreground.
pub open spec fn spec_term_fg(c: Color) -> Seq<char> {
    "38;2;"@ + spec_dec(c.r as int) + ";"@ + spec_dec(c.g as int) + ";"@ + spec_dec(c.b as int)
}

/// The SGR parameter string `48;2;R;G;B` selecting a true-colour background.
pub open spec fn spec_term_bg(c: Color) -> Seq<char> {
    "48;2;"@ + spec_dec(c.r as int) + ";"@ + spec_dec(c.g as int) + ";"@ + spec_dec(c.b as int)
}

/// The value of one hex digit, upper or lower case.
fn hex_val(c: char) -> (r: Option<u8>)
    ensures
        r == spec_hex_val(c),
{
    match c {
        '0' => Some(0),
        '1' => Some(1),
        '2' => Some(2),
        '3' => Some(3),
        '4' => Some(4),
        '5' => Some(5),
        '6' => Some(6),
        '7' => Some(7),
        '8' => Some(8),
        '9' => Some(9),
        'a' | 'A' => Some(10),
        'b' | 'B' => Some(11),
        'c' | 'C' => Some(12),
        'd' | 'D' => Some(13),
        'e' | 'E' => Some(14),
        'f' | 'F' => Some(15),
        _ => None,
    }
}

/// The lower-case hex digit string for `d` in `0..16`.
fn hex_digit_str(d: u8) -> (s: &'static str)
    requires
        d < 16,
    ensures
        s@ == seq![spec_hex_char(d as int)],
{
    proof {
        reveal_strlit("0");
        reveal_strlit("1");
        reveal_strlit("2");
        reveal_strlit("3");
        reveal_strlit("4");
        reveal_strlit("5");
        reveal_strlit("6");
        reveal_strlit("7");
        reveal_strlit("8");
        reveal_strlit("9");
        reveal_strlit("a");
        reveal_strlit("b");
        reveal_strlit("c");
        reveal_strlit("d");
        reveal_strlit("e");
        reveal_strlit("f");
    }
    let s: &'static str = match d {
        0 => "0",
        1 => "1",
        2 => "2",
        3 => "3",
        4 => "4",
        5 => "5",
        6 => "6",
        7 => "7",
        8 => "8",
        9 => "9",
        10 => "a",
        11 => "b",
        12 => "c",
        13 => "d",
        14 => "e",
        _ => "f",
    };
    proof {
        assert(s@ =~= seq![spec_hex_char(d as int)]);
    }
    s
}

impl Color {
    /// Builds a colour from its four channels.
    pub fn new(r: u8, g: u8, b: u8, a: u8) -> (c: Color)
        ensures
            c == (Color { r, g, b, a }),
    {
        Color { r, g, b, a }
    }

    /// Pure black with full alpha, the reference colour for legibility
    /// scoring and for mask classification.
    pub fn black() -> (c: Color)
        ensures
            c == (Color { r: 0u8, g: 0u8, b: 0u8, a: 255u8 }),
    {
        Color { r: 0, g: 0, b: 0, a: 255 }
    }

    /// Parses `#RRGGBB[AA]` (leading `#` optional, case-insensitive).
    pub fn from_str(s: &str) -> (r: Result<Color, Error>)
        ensures
            match r {
                Ok(c) => spec_parse_hex(s@) == Some(c),
                Err(e) => spec_parse_hex(s@) is None && e is ParseFailure,
            },
    {
        let len = s.unicode_len();
        let base: usize = if len > 0 && s.get_char(0) == '#' {
            1
        } else {
            0
        };
        let ghost t = if s@.len() > 0 && s@[0] == '#' {
            s@.drop_first()
        } else {
            s@
        };
        proof {
            assert(t.len() == len - base);
            assert(forall|i: int| 0 <= i < t.len() ==> t[i] == s@[base + i]);
        }
        if len - base < 6 {
            return Err(Error::ParseFailure);
        }
        let p_r = match hex_pair(s, base) {
            Some(v) => v,
            None => {
                return Err(Error::ParseFailure);
            },
        };
        let p_g = match hex_pair(s, base + 2) {
            Some(v) => v,
            None => {
                return Err(Error::ParseFailure);
            },
        };
        let p_b = match hex_pair(s, base + 4) {
            Some(v) => v,
            None => {
                return Err(Error::ParseFailure);
            },
        };
        let p_a: u8 = if len - base == 8 {
            match hex_pair(s, base + 6) {
                Some(v) => v,
                None => {
                    return Err(Error::ParseFailure);
                },
            }
        } else {
            255
        };
        Ok(Color { r: p_r, g: p_g, b: p_b, a: p_a })
    }

    /// Renders the colour back to its hex form, lower case.
    pub fn to_hex(&self) -> (r: String)
        ensures
            r@ == spec_format_hex(*self),
    {
        let mut s = String::new();
        s.append("#");
        s.append(hex_digit_str(self.r / 16));
        s.append(hex_digit_str(self.r % 16));
        s.append(hex_digit_str(self.g / 16));
        s.append(hex_digit_str(self.g % 16));
        s.append(hex_digit_str(self.b / 16));
        s.append(hex_digit_str(self.b % 16));
        if self.a != 255 {
            s.append(hex_digit_str(self.a / 16));
            s.append(hex_digit_str(self.a % 16));
        }
        proof {
            assert(s@ =~= spec_format_hex(*self));
        }
        s
    }

    /// The same colour with alpha replaced.
    pub fn with_alpha(self, alpha: u8) -> (c: Color)
        ensures
            c == (Color { r: self.r, g: self.g, b: self.b, a: alpha }),
    {
        Color { r: self.r, g: self.g, b: self.b, a: alpha }
    }

    /// Squared Euclidean RGB distance; exact, so threshold comparisons on it
    /// are equivalent to comparisons on the real-valued distance.
    pub fn distance_sq(&self, other: Color) -> (d: u64)
        ensures
            d == spec_distance_sq(*self, other),
            d <= 195075,
    {
        let dr: i64 = self.r as i64 - other.r as i64;
        let dg: i64 = self.g as i64 - other.g as i64;
        let db: i64 = self.b as i64 - other.b as i64;
        proof {
            assert(dr * dr <= 65025 && dr * dr >= 0) by (nonlinear_arith)
                requires
                    -255 <= dr <= 255,
            ;
            assert(dg * dg <= 65025 && dg * dg >= 0) by (nonlinear_arith)
                requires
                    -255 <= dg <= 255,
            ;
            assert(db * db <= 65025 && db * db >= 0) by (nonlinear_arith)
                requires
                    -255 <= db <= 255,
            ;
        }
        (dr * dr + dg * dg + db * db) as u64
    }

    /// Per-channel product scaled by 255, keeping this colour's alpha; used
    /// to apply a grayscale mask to a template pixel.
    pub fn multiply(&self, other: Color) -> (c: Color)
        ensures
            c == spec_multiply(*self, other),
    {
        proof {
            assert((self.r as int * other.r as int) / 255 <= 255) by (nonlinear_arith)
                requires
                    0 <= self.r <= 255 && 0 <= other.r <= 255,
            ;
            assert((self.g as int * other.g as int) / 255 <= 255) by (nonlinear_arith)
                requires
                    0 <= self.g <= 255 && 0 <= other.g <= 255,
            ;
            assert((self.b as int * other.b as int) / 255 <= 255) by (nonlinear_arith)
                requires
                    0 <= self.b <= 255 && 0 <= other.b <= 255,
            ;
        }
        Color {
            r: ((self.r as u32 * other.r as u32) / 255) as u8,
            g: ((self.g as u32 * other.g as u32) / 255) as u8,
            b: ((self.b as u32 * other.b as u32) / 255) as u8,
            a: self.a,
        }
    }

    /// The SGR parameter string selecting this colour as the foreground.
    pub fn term_fg(&self) -> (r: String)
        ensures
            r@ == spec_term_fg(*self),
    {
        let mut s = String::new();
        s.append("38;2;");
        append_dec_u64(&mut s, self.r as u64);
        s.append(";");
        append_dec_u64(&mut s, self.g as u64);
        s.append(";");
        append_dec_u64(&mut s, self.b as u64);
        proof {
            assert(s@ =~= spec_term_fg(*self));
        }
        s
    }

    /// The SGR parameter string selecting this colour as the background.
    pub fn term_bg(&self) -> (r: String)
        ensures
            r@ == spec_term_bg(*self),
    {
        let mut s = String::new();
        s.append("48;2;");
        append_dec_u64(&mut s, self.r as u64);
        s.append(";");
        append_dec_u64(&mut s, self.g as u64);
        s.append(";");
        append_dec_u64(&mut s, self.b as u64);
        proof {
            assert(s@ =~= spec_term_bg(*self));
        }
        s
    }
}

/// Reads the hex pair at `s[at]`, `s[at + 1]`.
pub(crate) fn hex_pair(s: &str, at: usize) -> (r: Option<u8>)
    requires
        at + 2 <= s@.len(),
        s@.len() <= usize::MAX,
    ensures
        r == spec_hex_pair(s@[at as int], s@[at as int + 1]),
{
    let hi = match hex_val(s.get_char(at)) {
        Some(v) => v,
        None => {
            return None;
        },
    };
    let lo = match hex_val(s.get_char(at + 1)) {
        Some(v) => v,
        None => {
            return None;
        },
    };
    Some(16 * hi + lo)
}

/// Squared distance of a colour to itself is zero.
pub proof fn lemma_distance_self_zero(c: Color)
    ensures
        spec_distance_sq(c, c) == 0,
{
}

/// Squared distance is symmetric in its two colours.
pub proof fn lemma_distance_symmetric(a: Color, b: Color)
    ensures
        spec_distance_sq(a, b) == spec_distance_sq(b, a),
{
    assert(spec_sq(a.r - b.r) == spec_sq(b.r - a.r)) by (nonlinear_arith);
    assert(spec_sq(a.g - b.g) == spec_sq(b.g - a.g)) by (nonlinear_arith);
    assert(spec_sq(a.b - b.b) == spec_sq(b.b - a.b)) by (nonlinear_arith);
}

/// Round trip: parsing six hex digits and formatting the result yields the
/// normalized form of the input, a `#` followed by the digits in lower case.
pub proof fn lemma_parse_format_round_trip(s: Seq<char>)
    requires
        s.len() == 6,
        forall|i: int| 0 <= i < 6 ==> spec_hex_val(#[trigger] s[i]) is Some,
    ensures
        spec_parse_hex(s) matches Some(c) && spec_format_hex(c) == "#"@ + Seq::new(
            6,
            |i: int| spec_hex_char(spec_hex_val(s[i]).unwrap() as int),
        ),
{
    reveal_strlit("#");
    let c = spec_parse_hex(s).unwrap();
    lemma_hex_pair_split(s[0], s[1]);
    lemma_hex_pair_split(s[2], s[3]);
    lemma_hex_pair_split(s[4], s[5]);
    assert(spec_format_hex(c) =~= "#"@ + Seq::new(
        6,
        |i: int| spec_hex_char(spec_hex_val(s[i]).unwrap() as int),
    ));
}

/// A byte assembled from two hex digits splits back into the same digits.
proof fn lemma_hex_pair_split(hi: char, lo: char)
    requires
        spec_hex_val(hi) is Some,
        spec_hex_val(lo) is Some,
    ensures
        spec_hex_pair(hi, lo) matches Some(v) && v / 16 == spec_hex_val(hi).unwrap() && v % 16
            == spec_hex_val(lo).unwrap(),
{
    let h = spec_hex_val(hi).unwrap() as int;
    let l = spec_hex_val(lo).unwrap() as int;
    assert((16 * h + l) / 16 == h && (16 * h + l) % 16 == l) by (nonlinear_arith)
        requires
            0 <= h < 16 && 0 <= l < 16,
    ;
}

} // verus!
