//! The allocation engine, as far as the adapter knows it: seven primitives.
//! The adapter names the call to make, with its arguments; the host makes it.

use vstd::prelude::*;

verus! {

/// A call of one of the engine's seven primitives, with its arguments.
/// Pointers are addresses; the null pointer is `0`.
#[derive(Clone, Copy, Debug, PartialEq, Eq)]
pub enum Primitive {
    /// Plain allocation of `size` bytes. The alignment of what it returns
    /// follows from `size` alone: the largest power of two that divides it,
    /// as far as the platform's threshold. Returns null on failure.
    Malloc { size: usize },
    /// Allocation of `count` items of `size` bytes each, all bytes zero, aligned
    /// as plain allocation of as many bytes would be. Returns null on failure.
    Calloc { count: usize, size: usize },
    /// Allocation of `size` bytes at a multiple of `alignment`. The bytes hold
    /// anything. Returns null on failure.
    Memalign { alignment: usize, size: usize },
    /// Resizes the allocation at `ptr` to `size` bytes, in place or by moving
    /// it, and returns where it now lies. The adapter passes no alignment: it
    /// relies on the engine to keep the alignment that `ptr` was allocated
    /// with. Returns null on failure, and then the allocation at `ptr` stands
    /// as it was.
    Realloc { ptr: usize, size: usize },
    /// Frees the allocation at `ptr`. The adapter does not ask for it: it
    /// knows the size of what it frees.
    Free { ptr: usize },
    /// Frees the allocation at `ptr`, which was asked for with `size` bytes.
    SizedFree { ptr: usize, size: usize },
    /// Returns the number of bytes that the allocation at `ptr` can hold, which
    /// is at least the number it was asked for with.
    UsableSize { ptr: usize },
}

} // verus!
