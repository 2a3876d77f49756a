//! The classification rule that every operation of the adapter starts from.

use vstd::prelude::*;

verus! {

/// A request is plain-eligible when its alignment is at most `threshold`, the
/// largest alignment that plain allocation honours, and strictly less than
/// its size.
pub open spec fn spec_plain_eligible(size: usize, align: usize, threshold: usize) -> bool {
    align <= threshold && align < size
}

/// Decides whether plain allocation can serve a request of `size` bytes
/// aligned to `align`.
#[verifier::when_used_as_spec(spec_plain_eligible)]
pub fn plain_eligible(size: usize, align: usize, threshold: usize) -> (eligible: bool)
    ensures
        eligible == spec_plain_eligible(size, align, threshold),
{
    align <= threshold && align < size
}

} // verus!
