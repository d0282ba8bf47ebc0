//! Small helpers on text.

use vstd::prelude::*;
use vstd::string::*;

verus! {

/// Whether two texts are the same.
pub fn same_text(a: &str, b: &str) -> (r: bool)
    ensures
        r == (a@ == b@),
{
    let left = a.to_string();
    let right = b.to_string();
    left == right
}

/// An owned copy of a text.
pub fn owned(a: &str) -> (r: String)
    ensures
        r@ == a@,
{
    a.to_string()
}

} // verus!
