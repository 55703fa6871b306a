//! Comparing texts.

use vstd::prelude::*;
use vstd::string::*;
use vstd::utf8::*;

verus! {

/// Whether two texts hold the same characters.
pub fn same_text(one: &str, other: &str) -> (same: bool)
    ensures
        same == (one@ == other@),
{
    let left = one.as_bytes();
    let right = other.as_bytes();
    proof {
        encode_utf8_decode_utf8(one@);
        encode_utf8_decode_utf8(other@);
    }
    if left.len() != right.len() {
        return false;
    }
    let mut at: usize = 0;
    while at < left.len()
        invariant
            at <= left.len(),
            left.len() == right.len(),
            left@ == encode_utf8(one@),
            right@ == encode_utf8(other@),
            decode_utf8(left@) == one@,
            decode_utf8(right@) == other@,
            forall|k: int| 0 <= k < at ==> left@[k] == right@[k],
        decreases left.len() - at,
    {
        if left[at] != right[at] {
            return false;
        }
        at = at + 1;
    }
    assert(left@ =~= right@);
    true
}

} // verus!
