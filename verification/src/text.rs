//! Comparing text.

use vstd::prelude::*;

verus! {

/// Whether two pieces of text hold the same characters.
pub fn same_text(a: &str, b: &str) -> (same: bool)
    ensures
        same == (a@ == b@),
{
    let left = a.to_owned();
    let right = b.to_owned();
    left == right
}

} // verus!
