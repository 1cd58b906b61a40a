//! The pipeline's error taxonomy.
//!
//! Acquisition-layer failures (a missing cache, a malformed colour, a silent
//! terminal) are recovered by falling back to the next strategy; asset and
//! encode failures abort the current render attempt.

use vstd::prelude::*;

verus! {

/// What went wrong in the colour/image pipeline.
#[derive(Debug)]
pub enum Error {
    /// The cache file (or other expected configuration) was not there.
    ConfigAbsent,
    /// A hex colour, JSON document or geometry string could not be parsed.
    ParseFailure,
    /// A live terminal query timed out or answered in an unexpected shape.
    TerminalTimeout,
    /// A bundled template or mask image was missing or undecodable.
    AssetIo,
    /// Producing the output PNG failed.
    Encode,
    /// Palette acquisition failed as a whole: both the cache strategy and the
    /// live-query strategy failed, with the two causes kept side by side.
    Acquisition(Box<Error>, Box<Error>),
}

} // verus!
