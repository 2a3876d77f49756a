use mesh::adapter::allocation;
use mesh::{plain_eligible, usable_size, Layout, Mesh, Operation, Primitive, Step};

fn layout(size: usize, align: usize) -> Layout {
    Layout::from_size_align(size, align).unwrap()
}

#[test]
fn equal_size_and_alignment_take_the_aligned_path() {
    assert!(!plain_eligible(16, 16, 16));
    let op = Mesh::<16>.allocate(layout(16, 16));
    assert_eq!(op.step(), Step::Invoke(Primitive::Memalign { alignment: 16, size: 16 }));
}

#[test]
fn equal_size_and_alignment_are_never_plain_eligible() {
    for shift in 0..usize::BITS {
        let n: usize = 1 << shift;
        assert!(!plain_eligible(n, n, 8));
        assert!(!plain_eligible(n, n, 16));
        assert!(!plain_eligible(n, n, usize::MAX));
        assert_eq!(allocation(n, n, 16), Primitive::Memalign { alignment: n, size: n });
    }
}

#[test]
fn small_alignment_takes_the_plain_path() {
    assert!(plain_eligible(8, 4, 16));
    let op = Mesh::<16>.allocate(layout(8, 4));
    assert_eq!(op, Operation::Forward { call: Primitive::Malloc { size: 8 } });
    assert_eq!(op.step(), Step::Invoke(Primitive::Malloc { size: 8 }));
}

#[test]
fn classification_is_decided_by_its_inputs() {
    let sizes: [usize; 7] = [1, 7, 8, 16, 17, 4096, usize::MAX];
    let aligns: [usize; 6] = [1, 2, 8, 16, 32, 4096];
    let thresholds: [usize; 2] = [8, 16];
    for &size in sizes.iter() {
        for &align in aligns.iter() {
            for &threshold in thresholds.iter() {
                let first = plain_eligible(size, align, threshold);
                let second = plain_eligible(size, align, threshold);
                assert_eq!(first, second);
                assert_eq!(first, align <= threshold && align < size);
                assert_eq!(allocation(size, align, threshold), allocation(size, align, threshold));
            }
        }
    }
}

#[test]
fn alignment_at_the_threshold_is_plain_eligible() {
    assert!(plain_eligible(17, 16, 16));
    assert!(plain_eligible(32, 16, 16));
    assert!(plain_eligible(9, 8, 8));
}

#[test]
fn alignment_above_the_threshold_is_not_plain_eligible() {
    assert!(!plain_eligible(64, 32, 16));
    assert!(!plain_eligible(usize::MAX, 32, 16));
    assert!(!plain_eligible(32, 16, 8));
}

#[test]
fn alignment_not_below_the_size_is_not_plain_eligible() {
    assert!(!plain_eligible(4, 8, 16));
    assert!(!plain_eligible(1, 1, 16));
    assert!(!plain_eligible(0, 1, 16));
    assert!(plain_eligible(2, 1, 16));
}

#[test]
fn the_threshold_decides_between_platforms() {
    let request = layout(32, 16);
    assert_eq!(
        Mesh::<16>.allocate(request),
        Operation::Forward { call: Primitive::Malloc { size: 32 } }
    );
    assert_eq!(
        Mesh::<8>.allocate(request),
        Operation::Forward { call: Primitive::Memalign { alignment: 16, size: 32 } }
    );
}

#[test]
fn allocation_picks_by_eligibility() {
    assert_eq!(allocation(24, 8, 16), Primitive::Malloc { size: 24 });
    assert_eq!(allocation(24, 32, 16), Primitive::Memalign { alignment: 32, size: 24 });
    assert_eq!(allocation(8, 8, 16), Primitive::Memalign { alignment: 8, size: 8 });
}

#[test]
fn zeroed_allocation_on_the_plain_path_asks_for_one_item() {
    let op = Mesh::<16>.alloc_zeroed(layout(40, 8));
    assert_eq!(op, Operation::Forward { call: Primitive::Calloc { count: 1, size: 40 } });
}

#[test]
fn zeroed_allocation_on_the_aligned_path_zeroes_by_hand() {
    let op = Mesh::<16>.alloc_zeroed(layout(64, 64));
    assert_eq!(
        op,
        Operation::ZeroAfter { call: Primitive::Memalign { alignment: 64, size: 64 }, len: 64 }
    );
}

#[test]
fn dealloc_passes_the_size() {
    assert_eq!(
        Mesh::<16>.dealloc(0x1000, layout(48, 16)),
        Primitive::SizedFree { ptr: 0x1000, size: 48 }
    );
    assert_eq!(
        Mesh::<8>.dealloc(0x2000, layout(4096, 4096)),
        Primitive::SizedFree { ptr: 0x2000, size: 4096 }
    );
}

#[test]
fn usable_size_forwards_the_pointer() {
    assert_eq!(usable_size(0x1000), Primitive::UsableSize { ptr: 0x1000 });
    assert_eq!(usable_size(0), Primitive::UsableSize { ptr: 0 });
}

#[test]
fn resize_on_the_plain_path_passes_the_new_size() {
    let op = Mesh::<16>.realloc(0x1000, layout(48, 16), 96);
    assert_eq!(op, Operation::Forward { call: Primitive::Realloc { ptr: 0x1000, size: 96 } });
}

#[test]
fn resize_on_the_aligned_path_allocates_anew() {
    let grow = Mesh::<16>.realloc(0x1000, layout(64, 64), 256);
    assert_eq!(
        grow,
        Operation::MoveAfter {
            call: Primitive::Memalign { alignment: 64, size: 256 },
            old: 0x1000,
            old_size: 64,
            len: 64,
        }
    );
    let shrink = Mesh::<16>.realloc(0x1000, layout(256, 64), 64);
    assert_eq!(
        shrink,
        Operation::MoveAfter {
            call: Primitive::Memalign { alignment: 64, size: 64 },
            old: 0x1000,
            old_size: 256,
            len: 64,
        }
    );
}

#[test]
fn resize_on_the_aligned_path_classifies_the_new_size() {
    // 8 bytes aligned to 8 are not plain-eligible; 64 bytes aligned to 8 are
    let op = Mesh::<16>.realloc(0x1000, layout(8, 8), 64);
    assert_eq!(
        op,
        Operation::MoveAfter {
            call: Primitive::Malloc { size: 64 },
            old: 0x1000,
            old_size: 8,
            len: 8,
        }
    );
}

fn shared<T: Copy + Send + Sync>(_: T) -> usize {
    std::mem::size_of::<T>()
}

#[test]
fn the_adapter_holds_nothing() {
    assert_eq!(shared(Mesh::<16>), 0);
    assert_eq!(shared(Mesh::<8>), 0);
}
