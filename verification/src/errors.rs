//! Optional lookup: an out-of-range index yields an explicit absent
//! marker rather than a panic.

use vstd::prelude::*;

verus! {

/// Returns the element of `v` at position `i`, or `None` when `i` is
/// out of bounds.
pub fn get_at(v: &Vec<i32>, i: usize) -> (r: Option<i32>)
    ensures
        i < v@.len() ==> r == Some(v@[i as int]),
        i >= v@.len() ==> r is None,
{
    if i < v.len() {
        Some(v[i])
    } else {
        None
    }
}

} // verus!
