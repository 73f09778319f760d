//! Comparison of the 32-byte opaque identities the bridge handles.
//!
//! Emitter addresses, recipient identities, caller keys, and message
//! fingerprints are all 32-byte values; equality on them is exact
//! byte-for-byte equality.

use vstd::prelude::*;

verus! {

broadcast use vstd::array::group_array_axioms;

/// Byte-for-byte equality of two 32-byte identities.
pub fn bytes32_eq(a: &[u8; 32], b: &[u8; 32]) -> (r: bool)
    ensures
        r == (*a == *b),
{
    let mut i: usize = 0;
    while i < 32
        invariant
            0 <= i <= 32,
            forall|j: int| 0 <= j < i ==> a@[j] == b@[j],
        decreases 32 - i,
    {
        if a[i] != b[i] {
            assert(a@[i as int] != b@[i as int]);
            return false;
        }
        i += 1;
    }
    proof {
        assert(*a =~= *b);
    }
    true
}

} // verus!
