//! Borrowing demonstration: a pure helper that reads a string through a
//! shared reference and reports its length, without taking ownership.

use vstd::prelude::*;

verus! {

/// Returns the length of `s` as a count of encoded units: the number
/// of bytes of its UTF-8 encoding. It reads `s` only through a shared
/// borrow.
pub fn calculate_len(s: &String) -> (n: usize)
    ensures
        n == vstd::utf8::encode_utf8(s@).len() as usize,
{
    s.as_str().len()
}

} // verus!
