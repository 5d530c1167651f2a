//! Byte-order adapter.
//!
//! The key-pair source stores curve integers in little-endian limb order,
//! while DER wants big-endian unsigned representations; this module holds
//! the one total transformation between the two.

use vstd::prelude::*;

verus! {

/// Returns the bytes of `b` in reverse order.
pub fn reversed(b: &[u8]) -> (r: Vec<u8>)
    ensures
        r@ == b@.reverse(),
        r@.len() == b@.len(),
{
    let n = b.len();
    let mut out: Vec<u8> = Vec::new();
    let mut i: usize = 0;
    while i < n
        invariant
            i <= n,
            n == b@.len(),
            out@.len() == i,
            forall|j: int| 0 <= j < i ==> out@[j] == b@[n - 1 - j],
        decreases n - i,
    {
        out.push(b[n - 1 - i]);
        i = i + 1;
    }
    proof {
        assert(out@ =~= b@.reverse());
    }
    out
}

} // verus!
