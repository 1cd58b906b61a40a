//! WCAG relative luminance and contrast ratio, in exact fixed-point
//! arithmetic.
//!
//! Each 8-bit channel is linearized through the piecewise sRGB curve
//! (`c/12.92` below the low-light threshold, `((c + 0.055)/1.055)^2.4`
//! above), tabulated at a scale of 100000.  Relative luminance combines the
//! linearized channels with the WCAG weights 0.2126/0.7152/0.0722, carried
//! as 2126/7152/722 over the tabulated values, so luminance lives at a scale
//! of 1_000_000_000: pure black is exactly 0 and pure white exactly
//! 1_000_000_000.  Contrast ratios compare `(L_lighter + 0.05)` against
//! `(L_darker + 0.05)`, i.e. `L + 50_000_000` at this scale, so every WCAG
//! threshold test the pipeline makes is an exact integer comparison.

use vstd::prelude::*;

use crate::color::Color;

verus! {

/// Luminance scale: the relative luminance of pure white.
pub const LUMINANCE_SCALE: u64 = 1_000_000_000;

/// `0.05 * LUMINANCE_SCALE`, the WCAG contrast-ratio offset.
pub const CONTRAST_OFFSET: u64 = 50_000_000;

/// The sRGB linearization of each 8-bit channel value, scaled by 100000.
pub const SRGB_LINEAR: [u32; 256] = [
    0, 30, 61, 91, 121, 152, 182, 212,
    243, 273, 304, 335, 368, 402, 439, 478,
    518, 561, 605, 651, 700, 750, 802, 857,
    913, 972, 1033, 1096, 1161, 1229, 1298, 1370,
    1444, 1521, 1600, 1681, 1764, 1850, 1938, 2029,
    2122, 2217, 2315, 2416, 2519, 2624, 2732, 2843,
    2956, 3071, 3190, 3310, 3434, 3560, 3689, 3820,
    3955, 4092, 4231, 4374, 4519, 4667, 4817, 4971,
    5127, 5286, 5448, 5613, 5781, 5951, 6125, 6301,
    6480, 6663, 6848, 7036, 7227, 7421, 7619, 7819,
    8022, 8228, 8438, 8650, 8866, 9084, 9306, 9531,
    9759, 9990, 10224, 10462, 10702, 10946, 11193, 11444,
    11697, 11954, 12214, 12477, 12744, 13014, 13287, 13563,
    13843, 14126, 14413, 14703, 14996, 15293, 15593, 15896,
    16203, 16513, 16827, 17144, 17465, 17789, 18116, 18447,
    18782, 19120, 19462, 19807, 20156, 20508, 20864, 21223,
    21586, 21953, 22323, 22697, 23074, 23455, 23840, 24228,
    24620, 25016, 25415, 25818, 26225, 26636, 27050, 27468,
    27889, 28315, 28744, 29177, 29614, 30054, 30499, 30947,
    31399, 31855, 32314, 32778, 33245, 33716, 34191, 34670,
    35153, 35640, 36131, 36625, 37124, 37626, 38133, 38643,
    39157, 39676, 40198, 40724, 41254, 41789, 42327, 42869,
    43415, 43966, 44520, 45079, 45641, 46208, 46778, 47353,
    47932, 48515, 49102, 49693, 50289, 50888, 51492, 52100,
    52712, 53328, 53948, 54572, 55201, 55834, 56471, 57112,
    57758, 58408, 59062, 59720, 60383, 61050, 61721, 62396,
    63076, 63760, 64448, 65141, 65837, 66539, 67244, 67954,
    68669, 69387, 70110, 70838, 71569, 72306, 73046, 73791,
    74540, 75294, 76052, 76815, 77582, 78354, 79130, 79910,
    80695, 81485, 82279, 83077, 83880, 84687, 85499, 86316,
    87137, 87962, 88792, 89627, 90466, 91310, 92158, 93011,
    93869, 94731, 95597, 96469, 97345, 98225, 99110, 100000,
];

/// The linearized value of one channel, at scale 100000.
pub open spec fn spec_channel_linear(c: u8) -> int {
    SRGB_LINEAR@[c as int] as int
}

/// WCAG relative luminance at scale `LUMINANCE_SCALE`.
pub open spec fn spec_luminance(c: Color) -> int {
    2126 * spec_channel_linear(c.r) + 7152 * spec_channel_linear(c.g) + 722 * spec_channel_linear(
        c.b,
    )
}

/// The WCAG contrast ratio of two colours, scaled by 1000 and rounded down:
/// `(L_lighter + 0.05) / (L_darker + 0.05)`.
pub open spec fn spec_contrast_milli(a: Color, b: Color) -> int {
    let la = spec_luminance(a);
    let lb = spec_luminance(b);
    let hi = if la >= lb { la } else { lb };
    let lo = if la >= lb { lb } else { la };
    ((hi + CONTRAST_OFFSET) * 1000) / (lo + CONTRAST_OFFSET)
}

/// The pair meets the WCAG AA threshold for graphical elements: contrast
/// ratio at least 3.0.
pub open spec fn spec_pair_meets_wcag(a: Color, b: Color) -> bool {
    let la = spec_luminance(a);
    let lb = spec_luminance(b);
    let hi = if la >= lb { la } else { lb };
    let lo = if la >= lb { lb } else { la };
    hi + CONTRAST_OFFSET >= 3 * (lo + CONTRAST_OFFSET)
}

/// The colour has contrast ratio at least 3.0 against pure black, i.e. it is
/// readable on a dark terminal background.
pub open spec fn spec_readable_on_black(c: Color) -> bool {
    spec_luminance(c) >= 2 * CONTRAST_OFFSET
}

impl Color {
    /// WCAG relative luminance, fixed point at scale `LUMINANCE_SCALE`
    /// (pure black is 0, pure white `LUMINANCE_SCALE`).
    pub fn relative_luminance(&self) -> (l: u64)
        ensures
            l == spec_luminance(*self),
    {
        2126 * (SRGB_LINEAR[self.r as usize] as u64) + 7152 * (SRGB_LINEAR[self.g as usize] as u64)
            + 722 * (SRGB_LINEAR[self.b as usize] as u64)
    }

    /// WCAG contrast ratio against `other`, scaled by 1000 and rounded down
    /// (equal colours give exactly 1000).
    pub fn contrast_ratio_milli(&self, other: &Color) -> (r: u64)
        ensures
            r == spec_contrast_milli(*self, *other),
    {
        let la = self.relative_luminance();
        let lb = other.relative_luminance();
        let hi = if la >= lb { la } else { lb };
        let lo = if la >= lb { lb } else { la };
        ((hi + CONTRAST_OFFSET) * 1000) / (lo + CONTRAST_OFFSET)
    }

    /// Whether this colour is readable on pure black (contrast ratio at
    /// least 3.0 against it).
    pub fn readable_on_black(&self) -> (r: bool)
        ensures
            r == spec_readable_on_black(*self),
    {
        self.relative_luminance() >= 2 * CONTRAST_OFFSET
    }

    /// Whether the pair `(self, other)` meets the WCAG AA threshold of 3.0.
    pub fn pair_meets_wcag(&self, other: &Color) -> (r: bool)
        ensures
            r == spec_pair_meets_wcag(*self, *other),
    {
        let la = self.relative_luminance();
        let lb = other.relative_luminance();
        let hi = if la >= lb { la } else { lb };
        let lo = if la >= lb { lb } else { la };
        hi + CONTRAST_OFFSET >= 3 * (lo + CONTRAST_OFFSET)
    }
}

/// The contrast ratio is symmetric in its two colours.
pub proof fn lemma_contrast_symmetric(a: Color, b: Color)
    ensures
        spec_contrast_milli(a, b) == spec_contrast_milli(b, a),
        spec_pair_meets_wcag(a, b) == spec_pair_meets_wcag(b, a),
{
}

/// The contrast ratio of a colour with itself is exactly 1 (1000 at this
/// scale).
pub proof fn lemma_contrast_self(a: Color)
    ensures
        spec_contrast_milli(a, a) == 1000,
{
    let x = spec_luminance(a) + CONTRAST_OFFSET;
    assert(x > 0);
    vstd::arithmetic::div_mod::lemma_div_by_multiple(1000, x);
    assert((x * 1000) == (1000 * x)) by (nonlinear_arith);
}

/// The exact integer threshold test agrees with the rounded ratio: a pair
/// meets the WCAG 3.0 threshold exactly when its contrast ratio in
/// thousandths is at least 3000.
pub proof fn lemma_wcag_threshold_milli(a: Color, b: Color)
    ensures
        spec_pair_meets_wcag(a, b) <==> spec_contrast_milli(a, b) >= 3000,
{
    let la = spec_luminance(a);
    let lb = spec_luminance(b);
    let hi = if la >= lb {
        la
    } else {
        lb
    };
    let lo = if la >= lb {
        lb
    } else {
        la
    };
    let x = hi + CONTRAST_OFFSET;
    let y = lo + CONTRAST_OFFSET;
    assert(0 < y);
    if x >= 3 * y {
        vstd::arithmetic::div_mod::lemma_div_is_ordered(3000 * y, x * 1000, y);
        vstd::arithmetic::div_mod::lemma_div_by_multiple(3000, y);
    }
    if (x * 1000) / y >= 3000 {
        let q = (x * 1000) / y;
        vstd::arithmetic::div_mod::lemma_fundamental_div_mod(x * 1000, y);
        vstd::arithmetic::div_mod::lemma_mod_bound(x * 1000, y);
        vstd::arithmetic::mul::lemma_mul_inequality(3000, q, y);
        assert(x * 1000 >= 3000 * y);
    }
}

/// Readability on black is the pair threshold taken against pure black.
pub proof fn lemma_readable_is_wcag_vs_black(c: Color)
    ensures
        spec_readable_on_black(c) <==> spec_pair_meets_wcag(
            c,
            Color { r: 0u8, g: 0u8, b: 0u8, a: 255u8 },
        ),
{
    lemma_luminance_extremes();
}

/// Pure black has relative luminance exactly 0; pure white exactly
/// `LUMINANCE_SCALE`.
pub proof fn lemma_luminance_extremes()
    ensures
        spec_luminance(Color { r: 0u8, g: 0u8, b: 0u8, a: 255u8 }) == 0,
        spec_luminance(Color { r: 255u8, g: 255u8, b: 255u8, a: 255u8 }) == LUMINANCE_SCALE,
{
    assert(SRGB_LINEAR@[0] == 0);
    assert(SRGB_LINEAR@[255] == 100000);
}

} // verus!
