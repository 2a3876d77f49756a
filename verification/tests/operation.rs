use mesh::{Layout, Mesh, Operation, Primitive, Step};

fn layout(size: usize, align: usize) -> Layout {
    Layout::from_size_align(size, align).unwrap()
}

#[test]
fn a_forwarded_call_returns_what_the_primitive_returned() {
    let op = Mesh::<16>.allocate(layout(24, 8));
    assert_eq!(op.step(), Step::Invoke(Primitive::Malloc { size: 24 }));
    let done = op.resume(0x7000);
    assert_eq!(done, Operation::Finished { ptr: 0x7000 });
    assert_eq!(done.step(), Step::Done { ptr: 0x7000 });
}

#[test]
fn a_failed_allocation_returns_null() {
    let op = Mesh::<16>.allocate(layout(24, 8));
    assert_eq!(op.resume(0).step(), Step::Done { ptr: 0 });
    let aligned = Mesh::<16>.allocate(layout(24, 32));
    assert_eq!(aligned.resume(0).step(), Step::Done { ptr: 0 });
}

#[test]
fn a_finished_operation_stays_finished() {
    let done = Operation::Finished { ptr: 0x40 };
    assert_eq!(done.resume(0), done);
    assert_eq!(done.resume(0x80), done);
    assert_eq!(done.step(), Step::Done { ptr: 0x40 });
}

#[test]
fn the_aligned_path_zeroes_what_it_got() {
    let op = Mesh::<16>.alloc_zeroed(layout(128, 64));
    assert_eq!(op.step(), Step::Invoke(Primitive::Memalign { alignment: 64, size: 128 }));
    let zeroing = op.resume(0x4000);
    assert_eq!(zeroing.step(), Step::Zero { ptr: 0x4000, len: 128 });
    let done = zeroing.resume(0);
    assert_eq!(done.step(), Step::Done { ptr: 0x4000 });
}

#[test]
fn nothing_is_zeroed_at_null() {
    let op = Mesh::<16>.alloc_zeroed(layout(128, 64));
    assert_eq!(op.resume(0), Operation::Finished { ptr: 0 });
    assert_eq!(op.resume(0).step(), Step::Done { ptr: 0 });
}

#[test]
fn the_plain_path_leaves_zeroing_to_the_engine() {
    let op = Mesh::<16>.alloc_zeroed(layout(128, 16));
    assert_eq!(op.step(), Step::Invoke(Primitive::Calloc { count: 1, size: 128 }));
    assert_eq!(op.resume(0x4000).step(), Step::Done { ptr: 0x4000 });
}

#[test]
fn a_move_allocates_copies_frees_and_returns() {
    let op = Mesh::<16>.realloc(0x1000, layout(64, 64), 200);
    assert_eq!(op.step(), Step::Invoke(Primitive::Memalign { alignment: 64, size: 200 }));
    let copying = op.resume(0x8000);
    assert_eq!(copying.step(), Step::Copy { src: 0x1000, dst: 0x8000, len: 64 });
    let releasing = copying.resume(0);
    assert_eq!(releasing.step(), Step::Invoke(Primitive::SizedFree { ptr: 0x1000, size: 64 }));
    let done = releasing.resume(0);
    assert_eq!(done.step(), Step::Done { ptr: 0x8000 });
}

#[test]
fn a_shrinking_move_copies_the_new_size() {
    let op = Mesh::<16>.realloc(0x1000, layout(4096, 4096), 100);
    assert_eq!(op.resume(0x8000).step(), Step::Copy { src: 0x1000, dst: 0x8000, len: 100 });
}

#[test]
fn a_move_to_the_same_size_copies_all_of_it() {
    let op = Mesh::<16>.realloc(0x1000, layout(32, 32), 32);
    assert_eq!(op.resume(0x8000).step(), Step::Copy { src: 0x1000, dst: 0x8000, len: 32 });
}

#[test]
fn a_failed_move_frees_nothing() {
    let op = Mesh::<16>.realloc(0x1000, layout(64, 64), 200);
    let failed = op.resume(0);
    assert_eq!(failed, Operation::Finished { ptr: 0 });
    assert_eq!(failed.step(), Step::Done { ptr: 0 });
}

#[test]
fn steps_that_return_nothing_ignore_the_answer() {
    let zeroing = Operation::Zeroing { ptr: 0x4000, len: 8 };
    assert_eq!(zeroing.resume(0), zeroing.resume(0xdead));
    let copying = Operation::Copying { old: 0x1000, old_size: 8, new: 0x2000, len: 8 };
    assert_eq!(copying.resume(0), copying.resume(0xdead));
    let releasing = Operation::Releasing { old: 0x1000, old_size: 8, new: 0x2000 };
    assert_eq!(releasing.resume(0), releasing.resume(0xdead));
    assert_eq!(releasing.resume(0), Operation::Finished { ptr: 0x2000 });
}

#[test]
fn every_operation_ends_within_three_steps() {
    let adapter = Mesh::<16>;
    let begun: [Operation; 6] = [
        adapter.allocate(layout(24, 8)),
        adapter.allocate(layout(64, 64)),
        adapter.alloc_zeroed(layout(24, 8)),
        adapter.alloc_zeroed(layout(64, 64)),
        adapter.realloc(0x1000, layout(24, 8), 48),
        adapter.realloc(0x1000, layout(64, 64), 48),
    ];
    let answers: [usize; 3] = [0, 0x8000, usize::MAX];
    for &op in begun.iter() {
        for &first in answers.iter() {
            for &second in answers.iter() {
                for &third in answers.iter() {
                    let end = op.resume(first).resume(second).resume(third);
                    assert_eq!(end, Operation::Finished { ptr: first });
                    assert_eq!(end.resume(second), end);
                }
            }
        }
    }
}
