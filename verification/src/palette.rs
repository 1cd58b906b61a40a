//! Palette acquisition: 16 terminal colours from the theming cache or from
//! the live terminal.
//!
//! Two strategies are tried in order.  The cache strategy reads a JSON
//! document (handed in by the caller, who owns the file I/O) whose `colors`
//! object maps `"color0"` to `"color15"` to hex colour strings; it fails if
//! any of the 16 keys is missing or unparseable.  The live strategy queries
//! the terminal slot by slot.  When both fail the two causes are composed
//! into one acquisition error.

use vstd::prelude::*;
use vstd::string::StringExecFns;

use crate::color::Color;
use crate::color::spec_parse_hex;
use crate::error::Error;
use crate::term::query_term_color;
use crate::text::append_dec_u64;
use crate::text::spec_dec;

verus! {

/// What the JSON cache lookup yields for one key.  Relies on `serde_json`:
/// parsing the document and reading `colors.<key>` as a string is a
/// function of the document text and the key alone.
pub uninterp spec fn spec_cache_entry(doc: Seq<char>, key: Seq<char>) -> Option<Seq<char>>;

/// Relies on `serde_json::from_str`, `Value::get` and `Value::as_str`:
/// parses the cache document and reads the string under `colors.<key>`,
/// or nothing when the document is not JSON or the entry is absent or not
/// a string.
#[verifier::external_body]
fn cache_entry_raw(doc: &str, key: &str) -> (r: Option<String>)
    ensures
        match r {
            Some(v) => spec_cache_entry(doc@, key@) == Some(v@),
            None => spec_cache_entry(doc@, key@) is None,
        },
{
    let value: serde_json::Value = serde_json::from_str(doc).ok()?;
    let entry = value.get("colors")?.get(key)?;
    Some(entry.as_str()?.to_string())
}

/// The cache key for palette slot `i`: `color` followed by the slot number.
pub open spec fn spec_color_key(i: int) -> Seq<char> {
    "color"@ + spec_dec(i)
}

/// Builds the cache key for one palette slot.
fn color_key(i: u8) -> (r: String)
    ensures
        r@ == spec_color_key(i as int),
{
    let mut s = String::new();
    s.append("color");
    append_dec_u64(&mut s, i as u64);
    proof {
        assert(s@ =~= spec_color_key(i as int));
    }
    s
}

/// The colour of slot `i` according to the cache document: the entry under
/// its key, parsed as a hex colour.
pub open spec fn spec_cache_color(doc: Seq<char>, i: int) -> Option<Color> {
    match spec_cache_entry(doc, spec_color_key(i)) {
        None => None,
        Some(s) => spec_parse_hex(s),
    }
}

/// The cache document yields all 16 colours.
pub open spec fn spec_cache_palette_ok(doc: Seq<char>) -> bool {
    forall|i: int| 0 <= i < 16 ==> (#[trigger] spec_cache_color(doc, i)) is Some
}

/// The cache strategy: all 16 slots must be present and parse.
fn palette_from_cache(doc: &str) -> (r: Result<Vec<Color>, Error>)
    ensures
        match r {
            Ok(v) => spec_cache_palette_ok(doc@) && v@.len() == 16 && forall|i: int|
                0 <= i < 16 ==> v@[i] == (#[trigger] spec_cache_color(doc@, i)).unwrap(),
            Err(e) => !spec_cache_palette_ok(doc@) && e is ParseFailure,
        },
{
    let mut v: Vec<Color> = Vec::new();
    let mut i: u8 = 0;
    while i < 16
        invariant
            i <= 16,
            v@.len() == i as int,
            forall|j: int|
                0 <= j < i as int ==> (#[trigger] spec_cache_color(doc@, j)) is Some && v@[j]
                    == spec_cache_color(doc@, j).unwrap(),
        decreases 16 - i,
    {
        let key = color_key(i);
        let entry = match cache_entry_raw(doc, key.as_str()) {
            Some(s) => s,
            None => {
                proof {
                    assert(spec_cache_color(doc@, i as int) is None);
                }
                return Err(Error::ParseFailure);
            },
        };
        let c = match Color::from_str(entry.as_str()) {
            Ok(c) => c,
            Err(_) => {
                proof {
                    assert(spec_cache_color(doc@, i as int) is None);
                }
                return Err(Error::ParseFailure);
            },
        };
        v.push(c);
        i += 1;
    }
    Ok(v)
}

/// The live strategy: query all 16 slots in order, failing as a whole on
/// the first slot that fails.
fn palette_from_terminal() -> (r: Result<Vec<Color>, Error>)
    ensures
        match r {
            Ok(v) => v@.len() == 16,
            Err(e) => e is TerminalTimeout,
        },
{
    let mut v: Vec<Color> = Vec::new();
    let mut i: u8 = 0;
    while i < 16
        invariant
            i <= 16,
            v@.len() == i as int,
        decreases 16 - i,
    {
        let c = match query_term_color(i) {
            Ok(c) => c,
            Err(_) => {
                return Err(Error::TerminalTimeout);
            },
        };
        v.push(c);
        i += 1;
    }
    Ok(v)
}

/// Acquires the 16-colour palette.  The cache document (if the caller found
/// one) is tried first and, when it parses completely, its colours are
/// returned in slot order; otherwise the live terminal is interrogated.
/// When both strategies fail, the error composes the two causes: what went
/// wrong with the cache, and what went wrong at the terminal.
pub fn get_term_colors(cache_doc: Option<&str>) -> (r: Result<Vec<Color>, Error>)
    ensures
        match r {
            Ok(v) => v@.len() == 16,
            Err(e) => e matches Error::Acquisition(cache_cause, live_cause) && (*live_cause)
                is TerminalTimeout && match cache_doc {
                Some(doc) => (*cache_cause) is ParseFailure && !spec_cache_palette_ok(doc@),
                None => (*cache_cause) is ConfigAbsent,
            },
        },
        match cache_doc {
            Some(doc) => spec_cache_palette_ok(doc@) ==> match r {
                Ok(v) => forall|i: int|
                    0 <= i < 16 ==> v@[i] == (#[trigger] spec_cache_color(doc@, i)).unwrap(),
                Err(_) => false,
            },
            None => true,
        },
{
    let cache_err: Error = match cache_doc {
        Some(doc) => match palette_from_cache(doc) {
            Ok(v) => {
                return Ok(v);
            },
            Err(e) => e,
        },
        None => Error::ConfigAbsent,
    };
    match palette_from_terminal() {
        Ok(v) => Ok(v),
        Err(live_err) => Err(Error::Acquisition(Box::new(cache_err), Box::new(live_err))),
    }
}

} // verus!
