//! Recolouring template pixel buffers.
//!
//! Both variants walk an owned RGBA byte buffer pixel by pixel.  The
//! direct-replace variant swaps in a selected colour wherever a pixel sits
//! within a fuzz radius of one of two known placeholder colours; the
//! mask-based variant classifies a pixel by multiplying it with the matching
//! grayscale mask pixel and testing the product against pure black.  Alpha
//! is preserved throughout.
//!
//! The fuzz radius is 10% of the maximal RGB-space distance: `distance <
//! 0.1 * sqrt(255^2 * 3)` is equivalent to `100 * distance^2 < 195075`,
//! which is how it is tested here, exactly, in integers.

use vstd::prelude::*;
use vstd::pervasive::VecAdditionalExecFns;

use crate::color::Color;
use crate::color::spec_distance_sq;
use crate::color::spec_sq;
use crate::color::spec_multiply;

verus! {

/// `a` lies within the fuzz radius of `b`: the RGB distance is below 10% of
/// the maximal possible distance `sqrt(255^2 * 3)`.
pub open spec fn spec_within_fuzz(a: Color, b: Color) -> bool {
    100 * spec_distance_sq(a, b) < 195075
}

/// Exec decision of the fuzz test.
pub fn within_fuzz(a: Color, b: Color) -> (r: bool)
    ensures
        r == spec_within_fuzz(a, b),
{
    100 * a.distance_sq(b) < 195075
}

/// The pixel whose four channels start at byte `4 * k` of `s`.
pub open spec fn spec_pixel_at(s: Seq<u8>, k: int) -> Color {
    Color { r: s[4 * k], g: s[4 * k + 1], b: s[4 * k + 2], a: s[4 * k + 3] }
}

/// Channel `m` (0 = red, 1 = green, 2 = blue, 3 = alpha) of a colour.
pub open spec fn spec_channel(c: Color, m: int) -> u8 {
    if m == 0 {
        c.r
    } else if m == 1 {
        c.g
    } else if m == 2 {
        c.b
    } else {
        c.a
    }
}

/// Direct replacement of one pixel: the first placeholder within fuzz wins,
/// the pixel's own alpha is kept; a pixel near neither placeholder is
/// untouched.
pub open spec fn spec_direct_pixel(px: Color, p1: Color, p2: Color, c1: Color, c2: Color) -> Color {
    if spec_within_fuzz(px, p1) {
        Color { r: c1.r, g: c1.g, b: c1.b, a: px.a }
    } else if spec_within_fuzz(px, p2) {
        Color { r: c2.r, g: c2.g, b: c2.b, a: px.a }
    } else {
        px
    }
}

/// The whole buffer after direct replacement.
pub open spec fn spec_recolor_direct(
    s: Seq<u8>,
    p1: Color,
    p2: Color,
    c1: Color,
    c2: Color,
) -> Seq<u8> {
    Seq::new(s.len(), |i: int| spec_channel(spec_direct_pixel(spec_pixel_at(s, i / 4), p1, p2, c1, c2), i % 4))
}

/// The mask marks this template pixel: the per-channel product of pixel and
/// mask pixel lies within the fuzz radius of pure black.
pub open spec fn spec_mask_marks(px: Color, m: Color) -> bool {
    spec_within_fuzz(Color { r: 0u8, g: 0u8, b: 0u8, a: 255u8 }, spec_multiply(px, m))
}

/// Mask classification of one pixel: mask-1 logic is applied first, then
/// mask-2 logic on the (possibly already recoloured) pixel, so mask 2 wins
/// on overlap.  Alpha is kept.
pub open spec fn spec_masked_pixel(
    px: Color,
    m1: Color,
    m2: Color,
    c1: Color,
    c2: Color,
) -> Color {
    let q = if spec_mask_marks(px, m1) {
        Color { r: c1.r, g: c1.g, b: c1.b, a: px.a }
    } else {
        px
    };
    if spec_mask_marks(q, m2) {
        Color { r: c2.r, g: c2.g, b: c2.b, a: q.a }
    } else {
        q
    }
}

/// The whole buffer after mask-based recolouring.
pub open spec fn spec_recolor_masked(
    s: Seq<u8>,
    mask1: Seq<u8>,
    mask2: Seq<u8>,
    c1: Color,
    c2: Color,
) -> Seq<u8> {
    Seq::new(
        s.len(),
        |i: int|
            spec_channel(
                spec_masked_pixel(
                    spec_pixel_at(s, i / 4),
                    spec_pixel_at(mask1, i / 4),
                    spec_pixel_at(mask2, i / 4),
                    c1,
                    c2,
                ),
                i % 4,
            ),
    )
}

/// Reads the pixel starting at byte `4 * k`.
fn pixel_at(buf: &Vec<u8>, k: usize) -> (c: Color)
    requires
        4 * k + 4 <= buf@.len(),
        buf@.len() <= usize::MAX,
    ensures
        c == spec_pixel_at(buf@, k as int),
{
    Color {
        r: buf[4 * k],
        g: buf[4 * k + 1],
        b: buf[4 * k + 2],
        a: buf[4 * k + 3],
    }
}

/// Writes colour `c` to the pixel starting at byte `4 * k`.
fn set_pixel(buf: &mut Vec<u8>, k: usize, c: Color)
    requires
        4 * k + 4 <= old(buf)@.len(),
        old(buf)@.len() <= usize::MAX,
    ensures
        final(buf)@.len() == old(buf)@.len(),
        spec_pixel_at(final(buf)@, k as int) == c,
        forall|i: int|
            0 <= i < old(buf)@.len() && !(4 * k <= i < 4 * k + 4) ==> final(buf)@[i] == old(
                buf,
            )@[i],
{
    buf.set(4 * k, c.r);
    buf.set(4 * k + 1, c.g);
    buf.set(4 * k + 2, c.b);
    buf.set(4 * k + 3, c.a);
}

/// Replaces every pixel within fuzz distance of a placeholder colour by the
/// corresponding selected colour, first placeholder first, keeping each
/// pixel's alpha.
pub fn recolor_direct(buf: &mut Vec<u8>, p1: Color, p2: Color, c1: Color, c2: Color)
    requires
        old(buf)@.len() % 4 == 0,
    ensures
        final(buf)@ == spec_recolor_direct(old(buf)@, p1, p2, c1, c2),
{
    let ghost orig = buf@;
    let blen = buf.len();
    let n = blen / 4;
    let mut k: usize = 0;
    while k < n
        invariant
            orig.len() % 4 == 0,
            orig.len() <= usize::MAX,
            n == orig.len() / 4,
            buf@.len() == orig.len(),
            k <= n,
            forall|i: int|
                0 <= i < 4 * k ==> buf@[i] == spec_recolor_direct(orig, p1, p2, c1, c2)[i],
            forall|i: int| 4 * k <= i < orig.len() ==> buf@[i] == orig[i],
        decreases n - k,
    {
        let px = pixel_at(buf, k);
        proof {
            assert(forall|i: int| 4 * k <= i < 4 * k + 4 ==> buf@[i] == orig[i]);
            assert(px == spec_pixel_at(orig, k as int));
        }
        let replaced = if within_fuzz(px, p1) {
            Color { r: c1.r, g: c1.g, b: c1.b, a: px.a }
        } else if within_fuzz(px, p2) {
            Color { r: c2.r, g: c2.g, b: c2.b, a: px.a }
        } else {
            px
        };
        set_pixel(buf, k, replaced);
        proof {
            assert(forall|i: int|
                4 * k <= i < 4 * k + 4 ==> buf@[i] == spec_recolor_direct(orig, p1, p2, c1, c2)[i])
                by {
                assert forall|i: int| 4 * k <= i < 4 * k + 4 implies buf@[i] == spec_recolor_direct(
                    orig,
                    p1,
                    p2,
                    c1,
                    c2,
                )[i] by {
                    assert(i / 4 == k as int);
                    assert(spec_pixel_at(buf@, k as int) == replaced);
                }
            }
        }
        k += 1;
    }
    proof {
        assert(final(buf)@ =~= spec_recolor_direct(orig, p1, p2, c1, c2));
    }
}

/// Recolours the buffer through two grayscale masks of the same dimensions:
/// a pixel whose product with its mask-1 pixel is near black takes colour 1,
/// then the mask-2 test runs on the result, so mask 2 wins on overlap.
pub fn recolor_masked(buf: &mut Vec<u8>, mask1: &Vec<u8>, mask2: &Vec<u8>, c1: Color, c2: Color)
    requires
        old(buf)@.len() % 4 == 0,
        mask1@.len() == old(buf)@.len(),
        mask2@.len() == old(buf)@.len(),
    ensures
        final(buf)@ == spec_recolor_masked(old(buf)@, mask1@, mask2@, c1, c2),
{
    let ghost orig = buf@;
    let blen = buf.len();
    let n = blen / 4;
    let mut k: usize = 0;
    while k < n
        invariant
            orig.len() % 4 == 0,
            orig.len() <= usize::MAX,
            n == orig.len() / 4,
            buf@.len() == orig.len(),
            mask1@.len() == orig.len(),
            mask2@.len() == orig.len(),
            k <= n,
            forall|i: int|
                0 <= i < 4 * k ==> buf@[i] == spec_recolor_masked(orig, mask1@, mask2@, c1, c2)[i],
            forall|i: int| 4 * k <= i < orig.len() ==> buf@[i] == orig[i],
        decreases n - k,
    {
        let px = pixel_at(buf, k);
        proof {
            assert(forall|i: int| 4 * k <= i < 4 * k + 4 ==> buf@[i] == orig[i]);
            assert(px == spec_pixel_at(orig, k as int));
        }
        let m1 = pixel_at(mask1, k);
        let m2 = pixel_at(mask2, k);
        let black = Color::black();
        let step1 = if within_fuzz(black, px.multiply(m1)) {
            Color { r: c1.r, g: c1.g, b: c1.b, a: px.a }
        } else {
            px
        };
        let replaced = if within_fuzz(black, step1.multiply(m2)) {
            Color { r: c2.r, g: c2.g, b: c2.b, a: step1.a }
        } else {
            step1
        };
        set_pixel(buf, k, replaced);
        proof {
            assert(forall|i: int|
                4 * k <= i < 4 * k + 4 ==> buf@[i] == spec_recolor_masked(
                    orig,
                    mask1@,
                    mask2@,
                    c1,
                    c2,
                )[i]) by {
                assert forall|i: int| 4 * k <= i < 4 * k + 4 implies buf@[i] == spec_recolor_masked(
                    orig,
                    mask1@,
                    mask2@,
                    c1,
                    c2,
                )[i] by {
                    assert(i / 4 == k as int);
                    assert(spec_pixel_at(buf@, k as int) == replaced);
                }
            }
        }
        k += 1;
    }
    proof {
        assert(final(buf)@ =~= spec_recolor_masked(orig, mask1@, mask2@, c1, c2));
    }
}

/// A template pixel exactly equal to a placeholder (in R, G and B) is always
/// replaced by the selected colour, whatever its alpha, and keeps that
/// alpha.
pub proof fn lemma_exact_placeholder_replaced(px: Color, p1: Color, p2: Color, c1: Color, c2: Color)
    requires
        px.r == p1.r,
        px.g == p1.g,
        px.b == p1.b,
    ensures
        spec_direct_pixel(px, p1, p2, c1, c2) == (Color { r: c1.r, g: c1.g, b: c1.b, a: px.a }),
{
}

/// A pixel within fuzz distance of neither placeholder is never touched.
pub proof fn lemma_far_pixel_untouched(px: Color, p1: Color, p2: Color, c1: Color, c2: Color)
    requires
        !spec_within_fuzz(px, p1),
        !spec_within_fuzz(px, p2),
    ensures
        spec_direct_pixel(px, p1, p2, c1, c2) == px,
{
}

/// A pure-black mask pixel marks any template pixel: the product of the two
/// is pure black in R, G and B.
pub proof fn lemma_black_mask_marks(px: Color, m: Color)
    requires
        m.r == 0,
        m.g == 0,
        m.b == 0,
    ensures
        spec_mask_marks(px, m),
{
    let prod = spec_multiply(px, m);
    assert(px.r * m.r == 0);
    assert(px.g * m.g == 0);
    assert(px.b * m.b == 0);
    assert(prod.r == 0 && prod.g == 0 && prod.b == 0);
    assert(spec_sq(0) == 0) by (nonlinear_arith);
    assert(spec_distance_sq(Color { r: 0u8, g: 0u8, b: 0u8, a: 255u8 }, prod) == 0);
}

/// A pixel whose mask-1 value is pure black is classified region 1 even when
/// mask 2 is non-black there, provided colour 1 itself is not re-marked by
/// mask 2; a pixel that only mask 2 marks is classified region 2.
pub proof fn lemma_mask_classification(px: Color, m1: Color, m2: Color, c1: Color, c2: Color)
    ensures
        m1.r == 0 && m1.g == 0 && m1.b == 0 && !spec_mask_marks(
            Color { r: c1.r, g: c1.g, b: c1.b, a: px.a },
            m2,
        ) ==> spec_masked_pixel(px, m1, m2, c1, c2) == (Color {
            r: c1.r,
            g: c1.g,
            b: c1.b,
            a: px.a,
        }),
        !spec_mask_marks(px, m1) && spec_mask_marks(px, m2) ==> spec_masked_pixel(
            px,
            m1,
            m2,
            c1,
            c2,
        ) == (Color { r: c2.r, g: c2.g, b: c2.b, a: px.a }),
{
    if m1.r == 0 && m1.g == 0 && m1.b == 0 {
        lemma_black_mask_marks(px, m1);
    }
}

} // verus!
