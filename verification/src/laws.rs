//! What holds of every run of the adapter's operations, on every heap and
//! whatever the engine answers within its promises.

use crate::adapter::{
    lesser, spec_alloc_zeroed, spec_allocate, spec_allocation, spec_dealloc, spec_realloc,
    spec_usable_size,
};
use crate::alignment::{lemma_aligned_to_divisor, lemma_natural_alignment};
use crate::classify::spec_plain_eligible;
use crate::engine::{admits, all_zero, effect, left, returned, runs, safe, Event, Heap};
use crate::operation::{Operation, Step};
use crate::primitive::Primitive;
use vstd::arithmetic::div_mod::lemma_mod_self_0;
use vstd::arithmetic::power2::is_pow2;
use vstd::prelude::*;

verus! {

/// The requests whose alignment the engine's promises cover: every request
/// that is not plain-eligible, which goes to aligned allocation, and the
/// plain-eligible ones whose size is a multiple of their alignment, as the
/// size of every type is. Of the others, plain allocation promises less than
/// they ask for: 24 bytes aligned to 16 are plain-eligible under a threshold
/// of 16, and plain allocation of 24 bytes promises a multiple of 8.
pub open spec fn well_served(size: usize, align: usize, threshold: usize) -> bool {
    spec_plain_eligible(size, align, threshold) ==> size % align == 0
}

/// The classification of a request decides the path of every operation, and
/// nothing else does: the engine's own primitive for what is plain-eligible,
/// aligned allocation and the host's own work for what is not.
pub proof fn law_classification_decides_the_path(
    ptr: usize,
    size: usize,
    align: usize,
    new_size: usize,
    threshold: usize,
)
    ensures
        spec_plain_eligible(size, align, threshold) <==> spec_allocation(size, align, threshold)
            == (Primitive::Malloc { size }),
        !spec_plain_eligible(size, align, threshold) <==> spec_allocation(size, align, threshold)
            == (Primitive::Memalign { alignment: align, size }),
        spec_plain_eligible(size, align, threshold) <==> spec_alloc_zeroed(size, align, threshold)
            == (Operation::Forward { call: Primitive::Calloc { count: 1, size } }),
        spec_plain_eligible(size, align, threshold) <==> spec_realloc(
            ptr,
            size,
            align,
            new_size,
            threshold,
        ) == (Operation::Forward { call: Primitive::Realloc { ptr, size: new_size } }),
{
}

/// A request whose size equals its alignment is never plain-eligible: it goes
/// to aligned allocation.
pub proof fn law_size_equal_to_alignment_is_not_plain_eligible(size: usize, threshold: usize)
    ensures
        !spec_plain_eligible(size, size, threshold),
        spec_allocation(size, size, threshold) == (Primitive::Memalign { alignment: size, size }),
{
}

/// Every operation ends within three steps, whatever they give back, and
/// stays ended.
pub proof fn law_ends_within_three_steps(op: Operation, first: usize, second: usize, third: usize)
    ensures
        op.resume(first).resume(second).resume(third) is Finished,
        op is Finished ==> op.resume(first) == op,
{
}

/// An allocation lies at a multiple of every alignment that it serves.
pub proof fn law_serves_aligned(heap: Heap, ptr: usize, size: usize, align: usize)
    requires
        heap.serves(ptr, size, align),
    ensures
        ptr % align == 0,
{
    lemma_aligned_to_divisor(ptr as nat, heap.blocks[ptr].align, align as nat);
}

/// What the primitive that `allocation` picks returns when it succeeds serves
/// the request, where the engine's promises cover the alignment.
proof fn lemma_allocation_serves(
    size: usize,
    align: usize,
    threshold: usize,
    pre: Heap,
    answer: usize,
    post: Heap,
)
    requires
        size != 0,
        is_pow2(align as int),
        well_served(size, align, threshold),
        effect(Step::Invoke(spec_allocation(size, align, threshold)), pre, answer, post, threshold),
        answer != 0,
    ensures
        post.serves(answer, size, align),
{
    reveal(is_pow2);
    if spec_plain_eligible(size, align, threshold) {
        lemma_natural_alignment(size as nat, threshold as nat, align as nat);
    } else {
        lemma_mod_self_0(align as int);
    }
}

/// An allocation issues one call, which the engine accepts, and returns what
/// the call returned: null, with the heap left as it was, or a new allocation
/// with room for `size` bytes.
pub proof fn law_allocate(
    size: usize,
    align: usize,
    threshold: usize,
    heap: Heap,
    events: Seq<Event>,
)
    requires
        size != 0,
        is_pow2(align as int),
        runs(spec_allocate(size, align, threshold), heap, events, threshold),
    ensures
        safe(spec_allocate(size, align, threshold), heap, events),
        events.len() == 1,
        returned(spec_allocate(size, align, threshold), events) == events[0].answer,
        ({
            let ptr = returned(spec_allocate(size, align, threshold), events);
            let after = left(heap, events);
            if ptr == 0 {
                after == heap
            } else {
                &&& after.holds(ptr, size)
                &&& after.blocks[ptr].bytes.len() >= size
                &&& !heap.live(ptr)
                &&& after.blocks == heap.blocks.insert(ptr, after.blocks[ptr])
            }
        }),
{
    let op = spec_allocate(size, align, threshold);
    reveal_with_fuel(runs, 2);
    reveal_with_fuel(safe, 2);
    reveal_with_fuel(returned, 2);
    assert(op.resume(events[0].answer) is Finished);
    assert(events.drop_first().len() == 0);
}

/// What an allocation returns is null or lies at a multiple of `align`, for
/// every request whose alignment the engine's promises cover.
pub proof fn law_allocate_aligned(
    size: usize,
    align: usize,
    threshold: usize,
    heap: Heap,
    events: Seq<Event>,
)
    requires
        size != 0,
        is_pow2(align as int),
        well_served(size, align, threshold),
        runs(spec_allocate(size, align, threshold), heap, events, threshold),
    ensures
        ({
            let ptr = returned(spec_allocate(size, align, threshold), events);
            ptr != 0 ==> ptr % align == 0 && left(heap, events).serves(ptr, size, align)
        }),
{
    law_allocate(size, align, threshold, heap, events);
    let ptr = events[0].answer;
    if ptr != 0 {
        lemma_allocation_serves(size, align, threshold, heap, ptr, events[0].heap);
        law_serves_aligned(events[0].heap, ptr, size, align);
    }
}

/// A zeroed allocation issues steps that the engine and the memory accept,
/// and returns what its first call returned: null, with the heap left as it
/// was and nothing zeroed, or a new allocation whose first `size` bytes are
/// zero.
pub proof fn law_alloc_zeroed(
    size: usize,
    align: usize,
    threshold: usize,
    heap: Heap,
    events: Seq<Event>,
)
    requires
        size != 0,
        is_pow2(align as int),
        runs(spec_alloc_zeroed(size, align, threshold), heap, events, threshold),
    ensures
        safe(spec_alloc_zeroed(size, align, threshold), heap, events),
        returned(spec_alloc_zeroed(size, align, threshold), events) == events[0].answer,
        ({
            let ptr = returned(spec_alloc_zeroed(size, align, threshold), events);
            let after = left(heap, events);
            if ptr == 0 {
                after == heap && events.len() == 1
            } else {
                &&& after.holds(ptr, size)
                &&& all_zero(after.blocks[ptr].bytes, size as nat)
                &&& !heap.live(ptr)
                &&& after.blocks == heap.blocks.insert(ptr, after.blocks[ptr])
            }
        }),
{
    let op = spec_alloc_zeroed(size, align, threshold);
    reveal_with_fuel(runs, 3);
    reveal_with_fuel(safe, 3);
    reveal_with_fuel(returned, 3);
    let ptr = events[0].answer;
    let rest = events.drop_first();
    if spec_plain_eligible(size, align, threshold) || ptr == 0 {
        // one call, and its answer is the result
        assert(op.resume(ptr) is Finished);
        assert(rest.len() == 0);
    } else {
        // the aligned allocation, then the zeroing of what it returned
        assert(op.resume(ptr).resume(rest[0].answer) is Finished);
        assert(rest.drop_first().len() == 0);
        assert(events.last() == rest[0]);
    }
}

/// What a zeroed allocation returns is null or lies at a multiple of `align`,
/// for every request whose alignment the engine's promises cover.
pub proof fn law_alloc_zeroed_aligned(
    size: usize,
    align: usize,
    threshold: usize,
    heap: Heap,
    events: Seq<Event>,
)
    requires
        size != 0,
        is_pow2(align as int),
        well_served(size, align, threshold),
        runs(spec_alloc_zeroed(size, align, threshold), heap, events, threshold),
    ensures
        ({
            let ptr = returned(spec_alloc_zeroed(size, align, threshold), events);
            ptr != 0 ==> ptr % align == 0 && left(heap, events).serves(ptr, size, align)
        }),
{
    law_alloc_zeroed(size, align, threshold, heap, events);
    reveal_with_fuel(runs, 3);
    reveal(is_pow2);
    let ptr = events[0].answer;
    if ptr != 0 {
        if spec_plain_eligible(size, align, threshold) {
            lemma_natural_alignment(size as nat, threshold as nat, align as nat);
        } else {
            lemma_mod_self_0(align as int);
        }
        law_serves_aligned(left(heap, events), ptr, size, align);
    }
}

/// The engine accepts the call that `dealloc` makes for every allocation that
/// holds the size that is passed, and the call frees that allocation and no
/// other.
pub proof fn law_dealloc(ptr: usize, size: usize, threshold: usize, heap: Heap, freed: Event)
    requires
        heap.holds(ptr, size),
        ({
            let free = Step::Invoke(spec_dealloc(ptr, size));
            admits(heap, free) ==> effect(free, heap, freed.answer, freed.heap, threshold)
        }),
    ensures
        admits(heap, Step::Invoke(spec_dealloc(ptr, size))),
        freed.heap.blocks == heap.blocks.remove(ptr),
{
}

/// The engine accepts the call that `dealloc` makes for what an allocation
/// returned, with the size that was asked for, and freeing it leaves the heap
/// as it was before the allocation.
pub proof fn law_allocate_then_dealloc(
    size: usize,
    align: usize,
    threshold: usize,
    heap: Heap,
    events: Seq<Event>,
    freed: Event,
)
    requires
        size != 0,
        is_pow2(align as int),
        runs(spec_allocate(size, align, threshold), heap, events, threshold),
        returned(spec_allocate(size, align, threshold), events) != 0,
        ({
            let ptr = returned(spec_allocate(size, align, threshold), events);
            let free = Step::Invoke(spec_dealloc(ptr, size));
            admits(left(heap, events), free) ==> effect(
                free,
                left(heap, events),
                freed.answer,
                freed.heap,
                threshold,
            )
        }),
    ensures
        ({
            let ptr = returned(spec_allocate(size, align, threshold), events);
            admits(left(heap, events), Step::Invoke(spec_dealloc(ptr, size)))
        }),
        freed.heap == heap,
{
    law_allocate(size, align, threshold, heap, events);
    assert(freed.heap.blocks =~= heap.blocks);
}

/// The steps of a resize that cannot be left to the engine. The new
/// allocation is made first. Where that fails, the resize ends at once
/// and returns null: nothing is copied and nothing is freed. Otherwise as
/// many bytes are copied as the lesser of the two sizes, no more than either
/// allocation was asked for with, then the old allocation is freed with its
/// size, and the new one is returned.
pub proof fn law_realloc_moves(
    ptr: usize,
    size: usize,
    align: usize,
    new_size: usize,
    threshold: usize,
    new: usize,
)
    requires
        !spec_plain_eligible(size, align, threshold),
    ensures
        ({
            let op = spec_realloc(ptr, size, align, new_size, threshold);
            let len = lesser(size, new_size);
            &&& op.step() == Step::Invoke(spec_allocation(new_size, align, threshold))
            &&& len <= size && len <= new_size && (len == size || len == new_size)
            &&& if new == 0 {
                op.resume(new).step() == (Step::Done { ptr: 0 })
            } else {
                &&& op.resume(new).step() == (Step::Copy { src: ptr, dst: new, len })
                &&& op.resume(new).resume(0).step() == Step::Invoke(spec_dealloc(ptr, size))
                &&& op.resume(new).resume(0).resume(0).step() == (Step::Done { ptr: new })
            }
        }),
{
}

/// A resize issues steps that the engine and the memory accept: what is
/// copied lies inside both allocations. It returns what its first call
/// returned. Where that is null, the heap is left as it was: the old
/// allocation stands. Otherwise the old allocation has made way for the one
/// returned, which holds `new_size` bytes, the first of them those of the old
/// one, as far as the lesser of the two sizes.
pub proof fn law_realloc(
    ptr: usize,
    size: usize,
    align: usize,
    new_size: usize,
    threshold: usize,
    heap: Heap,
    events: Seq<Event>,
)
    requires
        size != 0,
        new_size != 0,
        is_pow2(align as int),
        heap.holds(ptr, size),
        runs(spec_realloc(ptr, size, align, new_size, threshold), heap, events, threshold),
    ensures
        safe(spec_realloc(ptr, size, align, new_size, threshold), heap, events),
        returned(spec_realloc(ptr, size, align, new_size, threshold), events) == events[0].answer,
        ({
            let new = returned(spec_realloc(ptr, size, align, new_size, threshold), events);
            let after = left(heap, events);
            let kept = lesser(size, new_size) as int;
            if new == 0 {
                after == heap && events.len() == 1
            } else {
                &&& after.holds(new, new_size)
                &&& after.blocks[new].bytes.take(kept) == heap.blocks[ptr].bytes.take(kept)
                &&& new == ptr || !heap.live(new)
                &&& after.blocks == heap.blocks.remove(ptr).insert(new, after.blocks[new])
            }
        }),
{
    let op = spec_realloc(ptr, size, align, new_size, threshold);
    reveal_with_fuel(runs, 4);
    reveal_with_fuel(safe, 4);
    reveal_with_fuel(returned, 4);
    let new = events[0].answer;
    let rest = events.drop_first();
    if spec_plain_eligible(size, align, threshold) || new == 0 {
        // one call, and its answer is the result
        assert(op.resume(new) is Finished);
        assert(rest.len() == 0);
    } else {
        // the new allocation, the copy into it, and the old allocation freed
        let last = rest.drop_first();
        assert(op.resume(new).resume(rest[0].answer).resume(last[0].answer) is Finished);
        assert(last.drop_first().len() == 0);
        assert(events.last() == last[0]);
        let after = last[0].heap;
        let kept = lesser(size, new_size) as int;
        assert(after.blocks[new].bytes.take(kept) =~= heap.blocks[ptr].bytes.take(kept));
        assert(after.blocks =~= heap.blocks.remove(ptr).insert(new, after.blocks[new]));
    }
}

/// A resize keeps the alignment. Where the old allocation served its
/// request, what is returned serves the request of `new_size` bytes with the
/// same alignment: always where the engine resizes, which keeps the
/// alignment that an allocation was made with, and otherwise where the
/// engine's promises cover the alignment of the new allocation.
pub proof fn law_realloc_keeps_alignment(
    ptr: usize,
    size: usize,
    align: usize,
    new_size: usize,
    threshold: usize,
    heap: Heap,
    events: Seq<Event>,
)
    requires
        size != 0,
        new_size != 0,
        is_pow2(align as int),
        heap.serves(ptr, size, align),
        spec_plain_eligible(size, align, threshold) || well_served(new_size, align, threshold),
        runs(spec_realloc(ptr, size, align, new_size, threshold), heap, events, threshold),
        returned(spec_realloc(ptr, size, align, new_size, threshold), events) != 0,
    ensures
        ({
            let new = returned(spec_realloc(ptr, size, align, new_size, threshold), events);
            &&& new % align == 0
            &&& left(heap, events).serves(new, new_size, align)
        }),
{
    law_realloc(ptr, size, align, new_size, threshold, heap, events);
    reveal_with_fuel(runs, 4);
    let new = events[0].answer;
    if !spec_plain_eligible(size, align, threshold) {
        lemma_allocation_serves(new_size, align, threshold, heap, new, events[0].heap);
    }
    law_serves_aligned(left(heap, events), new, new_size, align);
}

/// The engine accepts the query for the usable size of an allocation, and
/// answers with no less than the size that the allocation was asked for with.
pub proof fn law_usable_size(ptr: usize, size: usize, threshold: usize, heap: Heap, answered: Event)
    requires
        heap.holds(ptr, size),
        ({
            let query = Step::Invoke(spec_usable_size(ptr));
            admits(heap, query) ==> effect(query, heap, answered.answer, answered.heap, threshold)
        }),
    ensures
        admits(heap, Step::Invoke(spec_usable_size(ptr))),
        answered.answer >= size,
        answered.heap == heap,
{
}

} // verus!
