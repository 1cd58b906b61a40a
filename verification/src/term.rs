//! Live terminal palette interrogation over OSC escape sequences.
//!
//! Each of the 16 palette slots is queried with `ESC ] 4 ; slot ; ? BEL`
//! and the terminal answers `ESC ] 4 ; slot ; rgb:RRRR/GGGG/BBBB` followed
//! by a terminator.  Only the two most significant hex digits of each
//! four-digit channel are read (terminals with 8-bit channels repeat their
//! two digits).  Building the query and parsing the reply are verified; the
//! raw-mode switches and the bounded-timeout round trip are trusted calls
//! into the terminal crates.  Raw mode is acquired scoped: it is enabled
//! only when it was off, and restored on every exit path, whether or not
//! the query succeeded.

use vstd::prelude::*;
use vstd::string::StrSliceExecFns;
use vstd::string::StringExecFns;

use crate::color::Color;
use crate::color::hex_pair;
use crate::color::spec_hex_pair;
use crate::error::Error;
use crate::text::append_dec_u64;
use crate::text::spec_dec;

verus! {

/// The query for palette slot `slot`: `ESC ] 4 ; slot ; ? BEL`.
pub open spec fn spec_osc_query(slot: int) -> Seq<char> {
    "\u{1b}]4;"@ + spec_dec(slot) + ";?\u{7}"@
}

/// Builds the OSC query string for one palette slot.
pub fn osc_query(slot: u8) -> (r: String)
    ensures
        r@ == spec_osc_query(slot as int),
{
    let mut s = String::new();
    s.append("\u{1b}]4;");
    append_dec_u64(&mut s, slot as u64);
    s.append(";?\u{7}");
    proof {
        assert(s@ =~= spec_osc_query(slot as int));
    }
    s
}

/// The prefix a well-formed reply must carry: `ESC ] 4 ; slot ; rgb:`.
pub open spec fn spec_osc_prefix(slot: int) -> Seq<char> {
    "\u{1b}]4;"@ + spec_dec(slot) + ";rgb:"@
}

/// What parsing a reply for `slot` yields: after the expected prefix there
/// must be at least 14 characters, `RRRR/GGGG/BBBB`; the two most
/// significant digits of each channel are taken and alpha is 255.  A reply
/// of any other shape yields nothing.
pub open spec fn spec_parse_osc_response(slot: int, s: Seq<char>) -> Option<Color> {
    let pre = spec_osc_prefix(slot);
    if s.len() >= pre.len() + 14 && s.subrange(0, pre.len() as int) == pre {
        let rest = s.subrange(pre.len() as int, s.len() as int);
        match (
            spec_hex_pair(rest[0], rest[1]),
            spec_hex_pair(rest[5], rest[6]),
            spec_hex_pair(rest[10], rest[11]),
        ) {
            (Some(r), Some(g), Some(b)) => Some(Color { r, g, b, a: 255u8 }),
            _ => None,
        }
    } else {
        None
    }
}

/// Builds the reply prefix for one palette slot.
fn osc_prefix(slot: u8) -> (r: String)
    ensures
        r@ == spec_osc_prefix(slot as int),
{
    let mut s = String::new();
    s.append("\u{1b}]4;");
    append_dec_u64(&mut s, slot as u64);
    s.append(";rgb:");
    proof {
        assert(s@ =~= spec_osc_prefix(slot as int));
    }
    s
}

/// Parses a terminal's reply to the colour query for `slot`.
pub fn parse_osc_response(slot: u8, s: &str) -> (r: Option<Color>)
    ensures
        r == spec_parse_osc_response(slot as int, s@),
{
    let prefix = osc_prefix(slot);
    let pre = prefix.as_str();
    let plen = pre.unicode_len();
    let slen = s.unicode_len();
    if slen < plen || slen - plen < 14 {
        return None;
    }
    let mut i: usize = 0;
    while i < plen
        invariant
            plen == pre@.len(),
            slen == s@.len(),
            plen + 14 <= slen,
            pre@ == spec_osc_prefix(slot as int),
            i <= plen,
            forall|j: int| 0 <= j < i ==> s@[j] == pre@[j],
        decreases plen - i,
    {
        if s.get_char(i) != pre.get_char(i) {
            proof {
                assert(s@.subrange(0, plen as int)[i as int] != pre@[i as int]);
            }
            return None;
        }
        i += 1;
    }
    proof {
        assert(s@.subrange(0, plen as int) =~= pre@);
        assert(forall|j: int|
            0 <= j < 14 ==> s@.subrange(plen as int, s@.len() as int)[j] == s@[plen + j]);
    }
    let p_r = hex_pair(s, plen);
    let p_g = hex_pair(s, plen + 5);
    let p_b = hex_pair(s, plen + 10);
    match (p_r, p_g, p_b) {
        (Some(r), Some(g), Some(b)) => Some(Color { r, g, b, a: 255 }),
        _ => None,
    }
}

/// Relies on `crossterm::terminal::is_raw_mode_enabled`: asks the terminal
/// driver whether raw mode is already on.
#[verifier::external_body]
fn term_raw_mode_enabled() -> (r: Result<bool, Error>) {
    crossterm::terminal::is_raw_mode_enabled().map_err(|_| Error::TerminalTimeout)
}

/// Relies on `crossterm::terminal::enable_raw_mode`.
#[verifier::external_body]
fn term_enable_raw() -> (r: Result<(), Error>) {
    crossterm::terminal::enable_raw_mode().map_err(|_| Error::TerminalTimeout)
}

/// Relies on `crossterm::terminal::disable_raw_mode`.
#[verifier::external_body]
fn term_disable_raw() -> (r: Result<(), Error>) {
    crossterm::terminal::disable_raw_mode().map_err(|_| Error::TerminalTimeout)
}

/// Relies on `xterm_query::query`: writes the escape sequence to the
/// controlling terminal and reads the reply, failing once the timeout (in
/// milliseconds) elapses.  The reply depends on the terminal at the other
/// end, so nothing is promised of it.
#[verifier::external_body]
fn xterm_query_raw(q: &str, timeout_ms: u64) -> (r: Result<String, Error>) {
    xterm_query::query(q, timeout_ms).map_err(|_| Error::TerminalTimeout)
}

/// Queries the terminal for the colour of palette slot `slot`, switching
/// into raw mode for the duration of the query if it was not already raw
/// and restoring it afterwards on every path.  The reply depends on the
/// terminal at the other end, so nothing can be promised of a returned
/// colour beyond `parse_osc_response`'s own exact contract; every failure
/// surfaces as `TerminalTimeout`.
pub fn query_term_color(slot: u8) -> (r: Result<Color, Error>)
    ensures
        r matches Err(e) ==> e is TerminalTimeout,
{
    let was_raw = match term_raw_mode_enabled() {
        Ok(b) => b,
        Err(_) => {
            return Err(Error::TerminalTimeout);
        },
    };
    if !was_raw {
        match term_enable_raw() {
            Ok(u) => u,
            Err(_) => {
                return Err(Error::TerminalTimeout);
            },
        };
    }
    let q = osc_query(slot);
    let qres = xterm_query_raw(q.as_str(), 100);
    let dres: Result<(), Error> = if !was_raw {
        term_disable_raw()
    } else {
        Ok(())
    };
    let resp = match qres {
        Ok(s) => s,
        Err(_) => {
            return Err(Error::TerminalTimeout);
        },
    };
    match dres {
        Ok(u) => u,
        Err(_) => {
            return Err(Error::TerminalTimeout);
        },
    };
    match parse_osc_response(slot, resp.as_str()) {
        Some(c) => Ok(c),
        None => Err(Error::TerminalTimeout),
    }
}

} // verus!
