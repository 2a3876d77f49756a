//! What the adapter relies on: a model of the engine's heap, of what each
//! primitive promises, and of what the host's own steps do to memory.
//!
//! Nothing here runs, and no function of this library takes any of it for
//! granted. The laws of the adapter are stated over it: they hold of every
//! engine that keeps these promises.

use crate::alignment::natural_alignment;
use crate::operation::{Operation, Step};
use crate::primitive::Primitive;
use vstd::arithmetic::power2::is_pow2;
use vstd::prelude::*;

verus! {

/// A live allocation.
pub struct Block {
    /// The number of bytes it was asked for with.
    pub size: nat,
    /// The alignment that the engine guaranteed when it made the allocation.
    pub align: nat,
    /// What it holds, over all the bytes it can hold.
    pub bytes: Seq<u8>,
}

impl Block {
    /// The block lies at `ptr`: a non-null multiple of its alignment, with
    /// room for the bytes that were asked for.
    pub open spec fn lies_at(self, ptr: usize) -> bool {
        &&& ptr != 0
        &&& self.align > 0
        &&& ptr as nat % self.align == 0
        &&& self.bytes.len() >= self.size
    }
}

/// The engine's heap: the live allocations, each by its address.
#[verifier::ext_equal]
pub struct Heap {
    pub blocks: Map<usize, Block>,
}

impl Heap {
    /// `ptr` is the address of a live allocation.
    pub open spec fn live(self, ptr: usize) -> bool {
        self.blocks.contains_key(ptr)
    }

    /// The allocation at `ptr` is live and was asked for with `size` bytes.
    pub open spec fn holds(self, ptr: usize, size: usize) -> bool {
        &&& self.live(ptr)
        &&& self.blocks[ptr].lies_at(ptr)
        &&& self.blocks[ptr].size == size
    }

    /// The allocation at `ptr` serves a request of `size` bytes aligned to
    /// `align`: it holds `size` bytes, and the alignment it was guaranteed is
    /// a multiple of `align`.
    pub open spec fn serves(self, ptr: usize, size: usize, align: usize) -> bool {
        &&& self.holds(ptr, size)
        &&& align > 0
        &&& self.blocks[ptr].align % (align as nat) == 0
    }
}

/// The first `len` bytes are zero.
pub open spec fn all_zero(bytes: Seq<u8>, len: nat) -> bool {
    &&& len <= bytes.len()
    &&& forall|i: int| 0 <= i < len ==> bytes[i] == 0
}

/// `bytes` with its first `len` bytes set to zero.
pub open spec fn zero_filled(bytes: Seq<u8>, len: nat) -> Seq<u8> {
    Seq::new(bytes.len(), |i: int| if i < len { 0u8 } else { bytes[i] })
}

/// `bytes` with its first `len` bytes taken from `from`.
pub open spec fn overwritten(bytes: Seq<u8>, from: Seq<u8>, len: nat) -> Seq<u8> {
    Seq::new(bytes.len(), |i: int| if i < len { from[i] } else { bytes[i] })
}

/// `post` is `pre` and one new allocation at `ptr`, asked for with `size`
/// bytes and guaranteed to lie at a multiple of `align`.
pub open spec fn allocated(pre: Heap, post: Heap, ptr: usize, size: nat, align: nat) -> bool {
    &&& !pre.live(ptr)
    &&& post.blocks == pre.blocks.insert(ptr, post.blocks[ptr])
    &&& post.blocks[ptr].lies_at(ptr)
    &&& post.blocks[ptr].size == size
    &&& post.blocks[ptr].align == align
}

/// `post` is `pre` with the allocation at `ptr` resized to `size` bytes and
/// now at `new`: the alignment it was guaranteed is kept, and so are its
/// bytes, as far as the lesser of the two sizes.
pub open spec fn resized(pre: Heap, post: Heap, ptr: usize, new: usize, size: nat) -> bool {
    let kept = if pre.blocks[ptr].size < size {
        pre.blocks[ptr].size
    } else {
        size
    };
    &&& new == ptr || !pre.live(new)
    &&& post.blocks == pre.blocks.remove(ptr).insert(new, post.blocks[new])
    &&& post.blocks[new].lies_at(new)
    &&& post.blocks[new].size == size
    &&& post.blocks[new].align == pre.blocks[ptr].align
    &&& post.blocks[new].bytes.take(kept as int) == pre.blocks[ptr].bytes.take(kept as int)
}

/// What the engine promises of `call`, invoked on the heap `pre`: it may
/// return `answer` and leave the heap `post`. Plain allocation honours no
/// alignment above `max_align`. A primitive that fails returns null and
/// leaves the heap as it was.
pub open spec fn engine_answers(
    call: Primitive,
    pre: Heap,
    answer: usize,
    post: Heap,
    max_align: usize,
) -> bool {
    match call {
        Primitive::Malloc { size } => if answer == 0 {
            post == pre
        } else {
            allocated(
                pre,
                post,
                answer,
                size as nat,
                natural_alignment(size as nat, max_align as nat),
            )
        },
        Primitive::Calloc { count, size } => if answer == 0 {
            post == pre
        } else {
            &&& allocated(
                pre,
                post,
                answer,
                (count * size) as nat,
                natural_alignment((count * size) as nat, max_align as nat),
            )
            &&& all_zero(post.blocks[answer].bytes, (count * size) as nat)
        },
        Primitive::Memalign { alignment, size } => if answer == 0 {
            post == pre
        } else {
            allocated(pre, post, answer, size as nat, alignment as nat)
        },
        Primitive::Realloc { ptr, size } => if answer == 0 {
            post == pre
        } else {
            resized(pre, post, ptr, answer, size as nat)
        },
        Primitive::Free { ptr } => post.blocks == pre.blocks.remove(ptr),
        Primitive::SizedFree { ptr, size } => post.blocks == pre.blocks.remove(ptr),
        Primitive::UsableSize { ptr } => post == pre && answer == pre.blocks[ptr].bytes.len(),
    }
}

/// The engine accepts `call` on `heap`: no size is zero, an alignment that is
/// passed is a power of two, what is resized, freed or measured is a live
/// allocation, and the size that is passed with what is freed is the one it
/// was asked for with.
pub open spec fn engine_accepts(call: Primitive, heap: Heap) -> bool {
    match call {
        Primitive::Malloc { size } => size != 0,
        Primitive::Calloc { count, size } => count != 0 && size != 0,
        Primitive::Memalign { alignment, size } => size != 0 && is_pow2(alignment as int),
        Primitive::Realloc { ptr, size } => size != 0 && heap.live(ptr),
        Primitive::Free { ptr } => heap.live(ptr),
        Primitive::SizedFree { ptr, size } => heap.live(ptr) && heap.blocks[ptr].size == size,
        Primitive::UsableSize { ptr } => heap.live(ptr),
    }
}

/// `step` may be carried out on `heap`: the engine accepts the call, and
/// zeroing and copying stay inside live allocations.
pub open spec fn admits(heap: Heap, step: Step) -> bool {
    match step {
        Step::Invoke(call) => engine_accepts(call, heap),
        Step::Zero { ptr, len } => heap.live(ptr) && len <= heap.blocks[ptr].bytes.len(),
        Step::Copy { src, dst, len } => {
            &&& heap.live(src)
            &&& heap.live(dst)
            &&& src != dst
            &&& len <= heap.blocks[src].bytes.len()
            &&& len <= heap.blocks[dst].bytes.len()
        },
        Step::Done { ptr } => true,
    }
}

/// Carrying out `step` on the heap `pre` may give back `answer` and leave the
/// heap `post`.
pub open spec fn effect(
    step: Step,
    pre: Heap,
    answer: usize,
    post: Heap,
    max_align: usize,
) -> bool {
    match step {
        Step::Invoke(call) => engine_answers(call, pre, answer, post, max_align),
        Step::Zero { ptr, len } => post.blocks == pre.blocks.insert(
            ptr,
            Block { bytes: zero_filled(pre.blocks[ptr].bytes, len as nat), ..pre.blocks[ptr] },
        ),
        Step::Copy { src, dst, len } => post.blocks == pre.blocks.insert(
            dst,
            Block {
                bytes: overwritten(pre.blocks[dst].bytes, pre.blocks[src].bytes, len as nat),
                ..pre.blocks[dst]
            },
        ),
        Step::Done { ptr } => post == pre,
    }
}

/// What one step gave back, and the heap it left.
pub struct Event {
    pub answer: usize,
    pub heap: Heap,
}

/// `events` is a run of `op` to its end, begun on `heap`: one event for each
/// step, and each step that could be carried out on the heap it met did what
/// the engine and the memory promise of it.
pub open spec fn runs(op: Operation, heap: Heap, events: Seq<Event>, max_align: usize) -> bool
    decreases events.len(),
{
    if op is Finished {
        events.len() == 0
    } else if events.len() == 0 {
        false
    } else {
        &&& admits(heap, op.step()) ==> effect(
            op.step(),
            heap,
            events[0].answer,
            events[0].heap,
            max_align,
        )
        &&& runs(op.resume(events[0].answer), events[0].heap, events.drop_first(), max_align)
    }
}

/// Every step of the run could be carried out on the heap it met.
pub open spec fn safe(op: Operation, heap: Heap, events: Seq<Event>) -> bool
    decreases events.len(),
{
    if events.len() == 0 {
        true
    } else {
        &&& admits(heap, op.step())
        &&& safe(op.resume(events[0].answer), events[0].heap, events.drop_first())
    }
}

/// The pointer that the run returns.
pub open spec fn returned(op: Operation, events: Seq<Event>) -> usize
    decreases events.len(),
{
    if events.len() == 0 {
        match op {
            Operation::Finished { ptr } => ptr,
            _ => 0,
        }
    } else {
        returned(op.resume(events[0].answer), events.drop_first())
    }
}

/// The heap that the run leaves.
pub open spec fn left(heap: Heap, events: Seq<Event>) -> Heap {
    if events.len() == 0 {
        heap
    } else {
        events.last().heap
    }
}

} // verus!
