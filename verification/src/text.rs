//! Verified plain-text helpers: decimal rendering, string comparison and
//! substring search, and the ANSI SGR colour wrapper used by the renderer
//! configuration.

use vstd::prelude::*;
use vstd::string::StrSliceExecFns;
use vstd::string::StringExecFns;

verus! {

/// The decimal digit character for `d` in `0..10`.
pub open spec fn spec_digit_char(d: int) -> char {
    if d == 0 {
        '0'
    } else if d == 1 {
        '1'
    } else if d == 2 {
        '2'
    } else if d == 3 {
        '3'
    } else if d == 4 {
        '4'
    } else if d == 5 {
        '5'
    } else if d == 6 {
        '6'
    } else if d == 7 {
        '7'
    } else if d == 8 {
        '8'
    } else {
        '9'
    }
}

/// Decimal rendering of a non-negative integer, most significant digit first.
pub open spec fn spec_dec(n: int) -> Seq<char>
    decreases n,
{
    if n <= 9 {
        seq![spec_digit_char(n)]
    } else {
        spec_dec(n / 10) + seq![spec_digit_char(n % 10)]
    }
}

/// Decimal rendering with a leading `-` for negative integers.
pub open spec fn spec_dec_signed(n: int) -> Seq<char> {
    if n < 0 {
        seq!['-'] + spec_dec(-n)
    } else {
        spec_dec(n)
    }
}

/// The one-character string for a decimal digit.
fn digit_str(d: u8) -> (s: &'static str)
    requires
        d < 10,
    ensures
        s@ == seq![spec_digit_char(d as int)],
{
    proof {
        reveal_strlit("0");
        reveal_strlit("1");
        reveal_strlit("2");
        reveal_strlit("3");
        reveal_strlit("4");
        reveal_strlit("5");
        reveal_strlit("6");
        reveal_strlit("7");
        reveal_strlit("8");
        reveal_strlit("9");
    }
    let s: &'static str = match d {
        0 => "0",
        1 => "1",
        2 => "2",
        3 => "3",
        4 => "4",
        5 => "5",
        6 => "6",
        7 => "7",
        8 => "8",
        _ => "9",
    };
    proof {
        assert(s@ =~= seq![spec_digit_char(d as int)]);
    }
    s
}

/// Appends the decimal rendering of `n` to `s`.
pub fn append_dec_u64(s: &mut String, n: u64)
    ensures
        final(s)@ == old(s)@ + spec_dec(n as int),
    decreases n,
{
    let ghost prefix = s@;
    if n >= 10 {
        append_dec_u64(s, n / 10);
    }
    s.append(digit_str((n % 10) as u8));
    proof {
        if n >= 10 {
            assert(s@ =~= prefix + spec_dec(n as int));
        } else {
            assert(s@ =~= prefix + spec_dec(n as int));
        }
    }
}

/// The decimal rendering of `n` as a fresh string.
pub fn dec_u64(n: u64) -> (r: String)
    ensures
        r@ == spec_dec(n as int),
{
    let mut s = String::new();
    append_dec_u64(&mut s, n);
    proof {
        assert(s@ =~= spec_dec(n as int));
    }
    s
}

/// Appends the signed decimal rendering of `n` to `s`.
pub fn append_dec_i64(s: &mut String, n: i64)
    requires
        n > i64::MIN,
    ensures
        final(s)@ == old(s)@ + spec_dec_signed(n as int),
{
    let ghost prefix = s@;
    if n < 0 {
        proof {
            reveal_strlit("-");
        }
        s.append("-");
        append_dec_u64(s, (-n) as u64);
        proof {
            assert(s@ =~= prefix + spec_dec_signed(n as int));
        }
    } else {
        append_dec_u64(s, n as u64);
    }
}

/// Character-wise string equality, decided in executable code.
pub fn str_eq(a: &str, b: &str) -> (r: bool)
    ensures
        r == (a@ == b@),
{
    let alen = a.unicode_len();
    let blen = b.unicode_len();
    if alen != blen {
        return false;
    }
    let mut i: usize = 0;
    while i < alen
        invariant
            alen == a@.len(),
            blen == b@.len(),
            alen == blen,
            i <= alen,
            forall|j: int| 0 <= j < i ==> a@[j] == b@[j],
        decreases alen - i,
    {
        if a.get_char(i) != b.get_char(i) {
            return false;
        }
        i += 1;
    }
    proof {
        assert(a@ =~= b@);
    }
    true
}

/// `needle` occurs in `hay` starting at position `k`.
pub open spec fn spec_matches_at(hay: Seq<char>, needle: Seq<char>, k: int) -> bool {
    &&& 0 <= k
    &&& k + needle.len() <= hay.len()
    &&& forall|j: int| 0 <= j < needle.len() ==> hay[k + j] == needle[j]
}

/// `needle` occurs somewhere in `hay`.
pub open spec fn spec_str_contains(hay: Seq<char>, needle: Seq<char>) -> bool {
    exists|k: int| spec_matches_at(hay, needle, k)
}

/// Whether `needle` occurs in `hay` starting exactly at `k`.
fn matches_at(hay: &str, needle: &str, k: usize) -> (r: bool)
    requires
        k + needle@.len() <= hay@.len(),
    ensures
        r == spec_matches_at(hay@, needle@, k as int),
{
    let nlen = needle.unicode_len();
    let hlen = hay.unicode_len();
    let mut j: usize = 0;
    while j < nlen
        invariant
            nlen == needle@.len(),
            hlen == hay@.len(),
            k + nlen <= hlen,
            j <= nlen,
            forall|j2: int| 0 <= j2 < j ==> hay@[k + j2] == needle@[j2],
        decreases nlen - j,
    {
        if hay.get_char(k + j) != needle.get_char(j) {
            return false;
        }
        j += 1;
    }
    true
}

/// Substring search, decided in executable code.
pub fn str_contains(hay: &str, needle: &str) -> (r: bool)
    ensures
        r == spec_str_contains(hay@, needle@),
{
    let hlen = hay.unicode_len();
    let nlen = needle.unicode_len();
    if nlen > hlen {
        proof {
            assert(forall|k: int| !spec_matches_at(hay@, needle@, k));
        }
        return false;
    }
    let mut k: usize = 0;
    while k <= hlen - nlen
        invariant
            hlen == hay@.len(),
            nlen == needle@.len(),
            nlen <= hlen,
            k <= hlen - nlen + 1,
            forall|k2: int| 0 <= k2 < k ==> !spec_matches_at(hay@, needle@, k2),
        decreases hlen - nlen + 1 - k,
    {
        if matches_at(hay, needle, k) {
            return true;
        }
        k += 1;
    }
    proof {
        assert(forall|k2: int| !spec_matches_at(hay@, needle@, k2));
    }
    false
}

/// `hay` ends with `suffix`.
pub open spec fn spec_str_ends_with(hay: Seq<char>, suffix: Seq<char>) -> bool {
    hay.len() >= suffix.len() && hay.subrange(
        hay.len() - suffix.len(),
        hay.len() as int,
    ) == suffix
}

/// Suffix test, decided in executable code.
pub fn str_ends_with(hay: &str, suffix: &str) -> (r: bool)
    ensures
        r == spec_str_ends_with(hay@, suffix@),
{
    let hlen = hay.unicode_len();
    let slen = suffix.unicode_len();
    if slen > hlen {
        return false;
    }
    let k = hlen - slen;
    let matched = matches_at(hay, suffix, k);
    proof {
        let sub = hay@.subrange(k as int, hay@.len() as int);
        if matched {
            assert(sub =~= suffix@);
        } else {
            if sub == suffix@ {
                assert forall|j: int| 0 <= j < suffix@.len() implies hay@[k + j] == suffix@[j] by {
                    assert(sub[j] == hay@[k + j]);
                }
                assert(spec_matches_at(hay@, suffix@, k as int));
            }
        }
    }
    matched
}

/// The SGR-wrapped rendering of `text`: an escape introducer, an optional
/// bold attribute, the colour code `30 + color`, the text, and a reset.
pub open spec fn spec_term_color(color: int, text: Seq<char>, bold: bool) -> Seq<char> {
    "\u{1b}["@ + (if bold {
        "1;"@
    } else {
        Seq::<char>::empty()
    }) + spec_dec_signed(30 + color) + "m"@ + text + "\u{1b}[0m"@
}

/// Wraps `text` in an ANSI SGR colour sequence for foreground colour
/// `30 + color`, optionally bold, in the shape the renderer configuration
/// expects.
pub fn term_color(color: i32, text: &String, bold: bool) -> (r: String)
    requires
        color <= i32::MAX - 30,
    ensures
        r@ == spec_term_color(color as int, text@, bold),
{
    let mut s = String::new();
    s.append("\u{1b}[");
    if bold {
        s.append("1;");
    }
    append_dec_i64(&mut s, 30 + (color as i64));
    s.append("m");
    s.append(text.as_str());
    s.append("\u{1b}[0m");
    proof {
        assert(s@ =~= spec_term_color(color as int, text@, bold));
    }
    s
}

} // verus!
