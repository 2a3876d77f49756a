//! Size and alignment of a request.

use crate::alignment::is_power_of_two;
use vstd::arithmetic::power2::is_pow2;
use vstd::prelude::*;

verus! {

/// Size and alignment of a region of memory, in bytes. The alignment of every
/// `Layout` is a power of two. The size may be zero, but the adapter takes no
/// request for zero bytes.
#[derive(Clone, Copy, Debug, PartialEq, Eq)]
pub struct Layout {
    size: usize,
    align: usize,
}

impl Layout {
    /// The number of bytes asked for.
    pub closed spec fn spec_size(&self) -> usize {
        self.size
    }

    /// The alignment asked for.
    pub closed spec fn spec_align(&self) -> usize {
        self.align
    }

    /// What every `Layout` satisfies: its alignment is a power of two.
    #[verifier::type_invariant]
    pub open spec fn wf(self) -> bool {
        is_pow2(self.align() as int)
    }

    /// Builds the layout of `size` bytes aligned to `align`, or nothing where
    /// `align` is not a power of two.
    pub fn from_size_align(size: usize, align: usize) -> (layout: Option<Layout>)
        ensures
            layout.is_some() == is_pow2(align as int),
            layout matches Some(l) ==> l.wf() && l.size() == size && l.align() == align,
    {
        if is_power_of_two(align) {
            Some(Layout { size, align })
        } else {
            None
        }
    }

    /// The number of bytes asked for.
    #[verifier::when_used_as_spec(spec_size)]
    pub fn size(&self) -> (size: usize)
        ensures
            size == self.spec_size(),
    {
        self.size
    }

    /// The alignment asked for, a power of two.
    #[verifier::when_used_as_spec(spec_align)]
    pub fn align(&self) -> (align: usize)
        ensures
            align == self.spec_align(),
            is_pow2(align as int),
    {
        proof {
            use_type_invariant(self);
        }
        self.align
    }
}

} // verus!
