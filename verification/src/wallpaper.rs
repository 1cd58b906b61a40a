//! Picking the wallpaper to display from an ordered list of candidates.
//!
//! The callers gather candidate paths (the command-line argument first,
//! then the answers of the various wallpaper daemons) together with whether
//! each candidate actually exists on disk; the selection itself — the first
//! candidate that is both given and present — is decided here.

use vstd::prelude::*;

verus! {

/// A candidate is eligible when it was given and its path is present.
pub open spec fn spec_detect_eligible(cand: Option<String>, present: bool) -> bool {
    cand is Some && present
}

/// Returns the first wallpaper candidate that is both given and present on
/// disk, in the order the candidates were gathered.
pub fn detect(candidates: &Vec<Option<String>>, present: &Vec<bool>) -> (r: Option<String>)
    requires
        candidates@.len() == present@.len(),
    ensures
        match r {
            Some(s) => exists|k: int|
                0 <= k < candidates@.len() && ((#[trigger] candidates@[k]) matches Some(c) && c@
                    == s@) && present@[k] && (forall|j: int|
                    0 <= j < k ==> !spec_detect_eligible(candidates@[j], present@[j])),
            None => forall|k: int|
                0 <= k < candidates@.len() ==> !spec_detect_eligible(
                    #[trigger] candidates@[k],
                    present@[k],
                ),
        },
{
    let n = candidates.len();
    let mut k: usize = 0;
    while k < n
        invariant
            n == candidates@.len(),
            candidates@.len() == present@.len(),
            k <= n,
            forall|j: int| 0 <= j < k ==> !spec_detect_eligible(candidates@[j], present@[j]),
        decreases n - k,
    {
        if present[k] {
            match &candidates[k] {
                Some(s) => {
                    return Some(s.clone());
                },
                None => {},
            }
        }
        k += 1;
    }
    None
}

} // verus!
