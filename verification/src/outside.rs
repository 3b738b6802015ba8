use vstd::prelude::*;
use orx_pinned_vec::PinnedVec;

verus! {

/// Calls `PinnedVec::len` on a pinned vector of any kind. The trait is
/// implemented outside this crate for each kind of vector, and a name for
/// its result could only be given for one concrete kind, so nothing is
/// claimed of the number returned.
#[verifier::external_body]
pub fn pinned_vec_len<T, P: PinnedVec<T>>(pinned_vec: &P) -> usize {
    pinned_vec.len()
}

} // verus!
