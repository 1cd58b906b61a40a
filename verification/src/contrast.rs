//! Selecting the most contrasting, accessible pair of colours from a
//! palette.
//!
//! Every ordered pair of distinct colours is scored: a pair qualifies when
//! its mutual contrast ratio reaches the WCAG AA threshold of 3.0 and at
//! least one of the two colours is readable on pure black; among qualifying
//! pairs the one maximizing the sum of the two luminances wins (that sum
//! orders pairs exactly as the sum of their contrast ratios against black
//! does).  When no pair qualifies, the pair with the greatest raw RGB
//! distance is used as a last resort.  Ties are broken by iteration order:
//! the first maximum wins, so the selection is deterministic.

use vstd::prelude::*;

use crate::color::Color;
use crate::color::spec_distance_sq;
use crate::luma::spec_luminance;
use crate::luma::spec_pair_meets_wcag;
use crate::luma::spec_readable_on_black;

verus! {

/// Two selected colours: the primary and secondary fill/accent colours a
/// palette yields.
#[derive(Clone, Copy, Debug, PartialEq, Eq, Structural)]
pub struct ColorPair {
    pub primary: Color,
    pub secondary: Color,
}

/// A pair qualifies when it meets the WCAG AA pair threshold and at least
/// one member is readable on a dark background.
pub open spec fn spec_pair_qualifies(a: Color, b: Color) -> bool {
    spec_pair_meets_wcag(a, b) && (spec_readable_on_black(a) || spec_readable_on_black(b))
}

/// The score of a qualifying pair: the sum of the two luminances.  The sum
/// of the pair's contrast ratios against pure black is `1 + L_a / 0.05 + 1 +
/// L_b / 0.05`, which orders pairs exactly as `L_a + L_b` does.
pub open spec fn spec_pair_sum(a: Color, b: Color) -> int {
    spec_luminance(a) + spec_luminance(b)
}

/// Running state of the pair scan: the best qualifying pair seen so far with
/// its luminance sum, and the most distant pair seen so far with its squared
/// distance (the no-qualifying-pair fallback).
#[derive(Clone, Copy)]
pub struct PairScan {
    pub qual: Option<(Color, Color)>,
    pub qual_sum: u64,
    pub dist: Option<(Color, Color)>,
    pub dist_sq: u64,
}

/// The scan state before any pair has been examined.
pub open spec fn spec_scan_init() -> PairScan {
    PairScan { qual: None, qual_sum: 0u64, dist: None, dist_sq: 0u64 }
}

/// Folds one ordered pair into the scan state.  Pairs of equal colours are
/// skipped; a strictly better qualifying score or strictly greater distance
/// replaces the current best, so the first maximum wins.
pub open spec fn spec_scan_step(st: PairScan, a: Color, b: Color) -> PairScan {
    if a == b {
        st
    } else {
        let q_better = spec_pair_qualifies(a, b) && (st.qual is None || spec_pair_sum(a, b)
            > st.qual_sum);
        let d_better = st.dist is None || spec_distance_sq(a, b) > st.dist_sq;
        PairScan {
            qual: if q_better {
                Some((a, b))
            } else {
                st.qual
            },
            qual_sum: if q_better {
                spec_pair_sum(a, b) as u64
            } else {
                st.qual_sum
            },
            dist: if d_better {
                Some((a, b))
            } else {
                st.dist
            },
            dist_sq: if d_better {
                spec_distance_sq(a, b) as u64
            } else {
                st.dist_sq
            },
        }
    }
}

/// Folds all ordered pairs `(s[i'], s[j'])` with `(i', j')` at or after
/// `(i, j)` in row-major order into the scan state.
pub open spec fn spec_scan(s: Seq<Color>, i: int, j: int, st: PairScan) -> PairScan
    decreases s.len() - i, s.len() - j + 1,
{
    if i < 0 || j < 0 || i >= s.len() {
        st
    } else if j >= s.len() {
        spec_scan(s, i + 1, 0, st)
    } else {
        spec_scan(s, i, j + 1, spec_scan_step(st, s[i], s[j]))
    }
}

/// The pair the finished scan selects: the best qualifying pair if one was
/// seen, else the most distant pair, else pure black twice.
pub open spec fn spec_scan_choice(st: PairScan) -> (Color, Color) {
    match st.qual {
        Some(p) => p,
        None => match st.dist {
            Some(p) => p,
            None => (
                Color { r: 0u8, g: 0u8, b: 0u8, a: 255u8 },
                Color { r: 0u8, g: 0u8, b: 0u8, a: 255u8 },
            ),
        },
    }
}

/// What `most_contrasting_pair` returns on a palette slice.
pub open spec fn spec_most_contrasting_pair(s: Seq<Color>) -> (Color, Color) {
    spec_scan_choice(spec_scan(s, 0, 0, spec_scan_init()))
}

/// Some two distinct colours in the palette form a qualifying pair.
pub open spec fn spec_has_qualifying_pair(s: Seq<Color>) -> bool {
    exists|k: int, l: int|
        0 <= k < s.len() && 0 <= l < s.len() && s[k] != s[l] && spec_pair_qualifies(s[k], s[l])
}

/// Finds the most contrasting accessible pair of colours in a list, scanning
/// all ordered pairs of distinct colours in order.  With an empty or
/// single-colour list (no pair at all) the result is pure black twice.
pub fn most_contrasting_pair(colors: &[Color]) -> (r: (Color, Color))
    ensures
        r == spec_most_contrasting_pair(colors@),
{
    let n = colors.len();
    let mut st = PairScan { qual: None, qual_sum: 0, dist: None, dist_sq: 0 };
    let mut i: usize = 0;
    while i < n
        invariant
            n == colors@.len(),
            i <= n,
            spec_scan(colors@, 0, 0, spec_scan_init()) == spec_scan(colors@, i as int, 0, st),
        decreases n - i,
    {
        let mut j: usize = 0;
        while j < n
            invariant
                n == colors@.len(),
                i < n,
                j <= n,
                spec_scan(colors@, 0, 0, spec_scan_init()) == spec_scan(
                    colors@,
                    i as int,
                    j as int,
                    st,
                ),
            decreases n - j,
        {
            let a = colors[i];
            let b = colors[j];
            let ghost st0 = st;
            if a != b {
                let qualifies = a.pair_meets_wcag(&b) && (a.readable_on_black()
                    || b.readable_on_black());
                if qualifies {
                    let sum = a.relative_luminance() + b.relative_luminance();
                    if st.qual.is_none() || sum > st.qual_sum {
                        st.qual = Some((a, b));
                        st.qual_sum = sum;
                    }
                }
                let d2 = a.distance_sq(b);
                if st.dist.is_none() || d2 > st.dist_sq {
                    st.dist = Some((a, b));
                    st.dist_sq = d2;
                }
            }
            proof {
                assert(st == spec_scan_step(st0, a, b));
            }
            j += 1;
        }
        i += 1;
    }
    match st.qual {
        Some(p) => p,
        None => match st.dist {
            Some(p) => p,
            None => (Color::black(), Color::black()),
        },
    }
}

/// The scan never invents a qualifying pair: if the best-qualifying slot
/// holds only genuinely qualifying pairs going in, it still does coming out.
proof fn lemma_scan_qual_sound(s: Seq<Color>, i: int, j: int, st: PairScan)
    requires
        st.qual matches Some(p) ==> spec_pair_qualifies(p.0, p.1),
    ensures
        spec_scan(s, i, j, st).qual matches Some(p) ==> spec_pair_qualifies(p.0, p.1),
    decreases s.len() - i, s.len() - j + 1,
{
    if i < 0 || j < 0 || i >= s.len() {
    } else if j >= s.len() {
        lemma_scan_qual_sound(s, i + 1, 0, st);
    } else {
        lemma_scan_qual_sound(s, i, j + 1, spec_scan_step(st, s[i], s[j]));
    }
}

/// Once the scan has a qualifying pair in hand it never drops it.
proof fn lemma_scan_qual_some(s: Seq<Color>, i: int, j: int, st: PairScan)
    requires
        st.qual is Some,
    ensures
        spec_scan(s, i, j, st).qual is Some,
    decreases s.len() - i, s.len() - j + 1,
{
    if i < 0 || j < 0 || i >= s.len() {
    } else if j >= s.len() {
        lemma_scan_qual_some(s, i + 1, 0, st);
    } else {
        lemma_scan_qual_some(s, i, j + 1, spec_scan_step(st, s[i], s[j]));
    }
}

/// If a qualifying pair `(s[k], s[l])` is still ahead of position `(i, j)`,
/// the finished scan holds some qualifying pair.
proof fn lemma_scan_qual_complete(s: Seq<Color>, i: int, j: int, st: PairScan, k: int, l: int)
    requires
        0 <= i,
        0 <= j,
        0 <= k < s.len(),
        0 <= l < s.len(),
        k > i || (k == i && l >= j),
        s[k] != s[l],
        spec_pair_qualifies(s[k], s[l]),
    ensures
        spec_scan(s, i, j, st).qual is Some,
    decreases s.len() - i, s.len() - j + 1,
{
    if i >= s.len() {
        // impossible: k < s.len() and k >= i
        assert(false);
    } else if j >= s.len() {
        lemma_scan_qual_complete(s, i + 1, 0, st, k, l);
    } else {
        let st1 = spec_scan_step(st, s[i], s[j]);
        if k == i && l == j {
            assert(st1.qual is Some);
            lemma_scan_qual_some(s, i, j + 1, st1);
        } else {
            lemma_scan_qual_complete(s, i, j + 1, st1, k, l);
        }
    }
}

/// The best-qualifying slot always records exactly the luminance sum of the
/// pair it holds.
proof fn lemma_scan_sum_sound(s: Seq<Color>, i: int, j: int, st: PairScan)
    requires
        st.qual matches Some(p) ==> st.qual_sum == spec_pair_sum(p.0, p.1),
    ensures
        spec_scan(s, i, j, st).qual matches Some(p) ==> spec_scan(s, i, j, st).qual_sum
            == spec_pair_sum(p.0, p.1),
    decreases s.len() - i, s.len() - j + 1,
{
    if i < 0 || j < 0 || i >= s.len() {
    } else if j >= s.len() {
        lemma_scan_sum_sound(s, i + 1, 0, st);
    } else {
        lemma_scan_sum_sound(s, i, j + 1, spec_scan_step(st, s[i], s[j]));
    }
}

/// Once a qualifying pair is recorded, the best score never decreases as
/// the scan advances.
proof fn lemma_scan_sum_monotone(s: Seq<Color>, i: int, j: int, st: PairScan)
    requires
        st.qual is Some,
    ensures
        spec_scan(s, i, j, st).qual_sum >= st.qual_sum,
    decreases s.len() - i, s.len() - j + 1,
{
    if i < 0 || j < 0 || i >= s.len() {
    } else if j >= s.len() {
        lemma_scan_sum_monotone(s, i + 1, 0, st);
    } else {
        lemma_scan_sum_monotone(s, i, j + 1, spec_scan_step(st, s[i], s[j]));
    }
}

/// Once the qualifying pair `(s[k], s[l])` still lies ahead of position
/// `(i, j)`, the finished scan's best score is at least that pair's score.
proof fn lemma_scan_sum_complete(s: Seq<Color>, i: int, j: int, st: PairScan, k: int, l: int)
    requires
        0 <= i,
        0 <= j,
        0 <= k < s.len(),
        0 <= l < s.len(),
        k > i || (k == i && l >= j),
        s[k] != s[l],
        spec_pair_qualifies(s[k], s[l]),
    ensures
        spec_scan(s, i, j, st).qual_sum >= spec_pair_sum(s[k], s[l]),
    decreases s.len() - i, s.len() - j + 1,
{
    if i >= s.len() {
        assert(false);
    } else if j >= s.len() {
        lemma_scan_sum_complete(s, i + 1, 0, st, k, l);
    } else {
        let st1 = spec_scan_step(st, s[i], s[j]);
        if k == i && l == j {
            assert(st1.qual_sum >= spec_pair_sum(s[k], s[l]));
            lemma_scan_sum_monotone(s, i, j + 1, st1);
        } else {
            lemma_scan_sum_complete(s, i, j + 1, st1, k, l);
        }
    }
}

/// The selector is optimal: whatever qualifying pair of distinct colours
/// the palette holds, the selected pair's luminance sum — and with it the
/// summed contrast against black that scores a pair — is at least as large.
pub proof fn lemma_most_contrasting_pair_optimal(s: Seq<Color>, k: int, l: int)
    requires
        0 <= k < s.len(),
        0 <= l < s.len(),
        s[k] != s[l],
        spec_pair_qualifies(s[k], s[l]),
    ensures
        spec_pair_sum(spec_most_contrasting_pair(s).0, spec_most_contrasting_pair(s).1)
            >= spec_pair_sum(s[k], s[l]),
{
    let st = spec_scan(s, 0, 0, spec_scan_init());
    lemma_scan_qual_complete(s, 0, 0, spec_scan_init(), k, l);
    lemma_scan_sum_complete(s, 0, 0, spec_scan_init(), k, l);
    lemma_scan_sum_sound(s, 0, 0, spec_scan_init());
}

/// The selector never returns a pair below the WCAG threshold when the
/// palette contains any qualifying pair of distinct colours.
pub proof fn lemma_most_contrasting_pair_qualifies(s: Seq<Color>)
    requires
        spec_has_qualifying_pair(s),
    ensures
        spec_pair_qualifies(
            spec_most_contrasting_pair(s).0,
            spec_most_contrasting_pair(s).1,
        ),
{
    let (k, l) = choose|k: int, l: int|
        0 <= k < s.len() && 0 <= l < s.len() && s[k] != s[l] && spec_pair_qualifies(s[k], s[l]);
    lemma_scan_qual_complete(s, 0, 0, spec_scan_init(), k, l);
    lemma_scan_qual_sound(s, 0, 0, spec_scan_init());
}

} // verus!
