//! The adapter: for each request, the primitive that serves it and what is
//! left to do once the primitive has answered.

use crate::classify::plain_eligible;
use crate::layout::Layout;
use crate::operation::Operation;
use crate::primitive::Primitive;
use vstd::prelude::*;

verus! {

/// The lesser of two sizes.
pub open spec fn lesser(a: usize, b: usize) -> usize {
    if a < b {
        a
    } else {
        b
    }
}

/// The primitive that allocates `size` bytes aligned to `align`: plain
/// allocation where the request is plain-eligible, aligned allocation
/// otherwise.
pub open spec fn spec_allocation(size: usize, align: usize, threshold: usize) -> Primitive {
    if plain_eligible(size, align, threshold) {
        Primitive::Malloc { size }
    } else {
        Primitive::Memalign { alignment: align, size }
    }
}

/// Picks the primitive that allocates `size` bytes aligned to `align`.
#[verifier::when_used_as_spec(spec_allocation)]
pub fn allocation(size: usize, align: usize, threshold: usize) -> (call: Primitive)
    ensures
        call == spec_allocation(size, align, threshold),
{
    if plain_eligible(size, align, threshold) {
        Primitive::Malloc { size }
    } else {
        Primitive::Memalign { alignment: align, size }
    }
}

/// An allocation of `size` bytes aligned to `align`.
pub open spec fn spec_allocate(size: usize, align: usize, threshold: usize) -> Operation {
    Operation::Forward { call: allocation(size, align, threshold) }
}

/// An allocation of `size` zero bytes aligned to `align`. Where the request is
/// plain-eligible the engine zeroes them; aligned allocation does not, so the
/// host does.
pub open spec fn spec_alloc_zeroed(size: usize, align: usize, threshold: usize) -> Operation {
    if plain_eligible(size, align, threshold) {
        Operation::Forward { call: Primitive::Calloc { count: 1, size } }
    } else {
        Operation::ZeroAfter { call: Primitive::Memalign { alignment: align, size }, len: size }
    }
}

/// A resize to `new_size` bytes of the allocation at `ptr`, which was made
/// with `size` bytes aligned to `align`. Where that request was plain-eligible
/// the engine resizes it. Otherwise a new allocation of `new_size` bytes with
/// the same alignment takes over as many bytes as both can hold, and the old
/// one is freed.
pub open spec fn spec_realloc(
    ptr: usize,
    size: usize,
    align: usize,
    new_size: usize,
    threshold: usize,
) -> Operation {
    if plain_eligible(size, align, threshold) {
        Operation::Forward { call: Primitive::Realloc { ptr, size: new_size } }
    } else {
        Operation::MoveAfter {
            call: allocation(new_size, align, threshold),
            old: ptr,
            old_size: size,
            len: lesser(size, new_size),
        }
    }
}

/// The call that frees the allocation of `size` bytes at `ptr`: the
/// size-aware one, always, since the size is known.
pub open spec fn spec_dealloc(ptr: usize, size: usize) -> Primitive {
    Primitive::SizedFree { ptr, size }
}

/// The call that tells how many bytes the allocation at `ptr` can hold.
pub open spec fn spec_usable_size(ptr: usize) -> Primitive {
    Primitive::UsableSize { ptr }
}

/// The adapter. It holds nothing; `MAX_ALIGN` is the largest alignment that
/// the engine's plain allocation honours on the platform it is built for.
#[derive(Clone, Copy, Debug)]
pub struct Mesh<const MAX_ALIGN: usize>;

impl<const MAX_ALIGN: usize> Mesh<MAX_ALIGN> {
    /// Begins an allocation of `layout`.
    pub fn allocate(&self, layout: Layout) -> (op: Operation)
        requires
            layout.size() != 0,
        ensures
            op == spec_allocate(layout.size(), layout.align(), MAX_ALIGN),
    {
        Operation::Forward { call: allocation(layout.size(), layout.align(), MAX_ALIGN) }
    }

    /// Begins an allocation of `layout` whose bytes are all zero.
    pub fn alloc_zeroed(&self, layout: Layout) -> (op: Operation)
        requires
            layout.size() != 0,
        ensures
            op == spec_alloc_zeroed(layout.size(), layout.align(), MAX_ALIGN),
    {
        if plain_eligible(layout.size(), layout.align(), MAX_ALIGN) {
            Operation::Forward { call: Primitive::Calloc { count: 1, size: layout.size() } }
        } else {
            Operation::ZeroAfter {
                call: Primitive::Memalign { alignment: layout.align(), size: layout.size() },
                len: layout.size(),
            }
        }
    }

    /// The call that frees the allocation of `layout` at `ptr`.
    pub fn dealloc(&self, ptr: usize, layout: Layout) -> (call: Primitive)
        requires
            ptr != 0,
            layout.size() != 0,
        ensures
            call == spec_dealloc(ptr, layout.size()),
    {
        Primitive::SizedFree { ptr, size: layout.size() }
    }

    /// Begins a resize to `new_size` bytes of the allocation of `layout` at
    /// `ptr`.
    pub fn realloc(&self, ptr: usize, layout: Layout, new_size: usize) -> (op: Operation)
        requires
            ptr != 0,
            layout.size() != 0,
            new_size != 0,
        ensures
            op == spec_realloc(ptr, layout.size(), layout.align(), new_size, MAX_ALIGN),
    {
        if plain_eligible(layout.size(), layout.align(), MAX_ALIGN) {
            Operation::Forward { call: Primitive::Realloc { ptr, size: new_size } }
        } else {
            let len = if layout.size() < new_size {
                layout.size()
            } else {
                new_size
            };
            Operation::MoveAfter {
                call: allocation(new_size, layout.align(), MAX_ALIGN),
                old: ptr,
                old_size: layout.size(),
                len,
            }
        }
    }
}

/// The call that tells how many bytes the allocation at `ptr` can hold.
#[verifier::when_used_as_spec(spec_usable_size)]
pub fn usable_size(ptr: usize) -> (call: Primitive)
    ensures
        call == spec_usable_size(ptr),
{
    Primitive::UsableSize { ptr }
}

} // verus!
