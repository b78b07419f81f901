//! Behavioural tests of the three allocation strategies over a simulated
//! heap range.

use kernel::allocator::bump::BumpAllocator;
use kernel::allocator::fixed_size::{FixedSizeBlockAllocator, NUM_CLASSES};
use kernel::allocator::linked_list::{LinkedListAllocator, ListNode, NODE_SIZE};
use kernel::allocator::{align_up, align_up_checked, AllocError, Dummy, HEAP_SIZE, HEAP_START};

const HEAP_BASE: usize = 0x10000;

#[test]
fn align_up_values() {
    assert_eq!(align_up(0, 1), 0);
    assert_eq!(align_up(0, 8), 0);
    assert_eq!(align_up(1, 8), 8);
    assert_eq!(align_up(8, 8), 8);
    assert_eq!(align_up(9, 8), 16);
    assert_eq!(align_up(1023, 1024), 1024);
    assert_eq!(align_up(1025, 1024), 2048);
    assert_eq!(align_up(7, 1), 7);
}

#[test]
fn align_up_checked_overflow() {
    assert_eq!(align_up_checked(usize::MAX - 2, 8), None);
    assert_eq!(align_up_checked(usize::MAX - 7, 8), Some(usize::MAX - 7));
    assert_eq!(align_up_checked(3, 4), Some(4));
}

#[test]
fn heap_constants() {
    assert_eq!(HEAP_START, 0x4444_4444_0000);
    assert_eq!(HEAP_SIZE, 100 * 1024);
}

#[test]
fn dummy_always_fails() {
    let d = Dummy;
    assert!(d.allocate(8, 8).is_err());
}

#[test]
fn list_node_accessors() {
    let n = ListNode::new(0x1000, 48);
    assert_eq!(n.start_addr(), 0x1000);
    assert_eq!(n.end_addr(), 0x1030);
}

// Every returned address is aligned and the allocation lies inside the
// heap range, on each strategy.
#[test]
fn allocations_are_aligned_and_in_bounds() {
    let mut bump = BumpAllocator::new();
    bump.init(HEAP_BASE, 4096);
    let mut fsb = FixedSizeBlockAllocator::new();
    fsb.init(HEAP_BASE, 4096);
    for &(size, align) in &[(1usize, 1usize), (3, 2), (24, 8), (100, 64), (200, 128)] {
        let a = bump.allocate(size, align).unwrap();
        assert_eq!(a % align, 0);
        assert!(a >= HEAP_BASE && a + size <= HEAP_BASE + 4096);
        let mut lla = LinkedListAllocator::new();
        lla.init(HEAP_BASE, 4096);
        let b = lla.allocate(size, align).unwrap();
        assert_eq!(b % align, 0);
        assert!(b >= HEAP_BASE && b + size <= HEAP_BASE + 4096);
        let c = fsb.do_alloc(size, align).unwrap();
        assert_eq!(c % align, 0);
        assert!(c >= HEAP_BASE && c + size <= HEAP_BASE + 4096);
    }
}

// Live allocations never overlap.
#[test]
fn live_allocations_disjoint() {
    let mut lla = LinkedListAllocator::new();
    lla.init(HEAP_BASE, 2048);
    let mut spans: Vec<(usize, usize)> = Vec::new();
    for i in 0..8 {
        let size = 16 + 8 * i;
        let a = lla.allocate(size, 8).unwrap();
        for &(s, len) in &spans {
            assert!(a + size <= s || s + len <= a, "overlap at {a:#x}");
        }
        spans.push((a, size));
    }
}

#[test]
fn bump_addresses_strictly_increase_and_reset() {
    let mut bump = BumpAllocator::new();
    bump.init(HEAP_BASE, 4096);
    let s = 24;
    let mut addrs = Vec::new();
    for _ in 0..5 {
        addrs.push(bump.allocate(s, 1).unwrap());
    }
    for w in addrs.windows(2) {
        assert!(w[1] >= w[0] + s);
    }
    for &a in addrs.iter().rev() {
        bump.deallocate(a, s);
    }
    // after exactly n matching deallocations the next allocation returns
    // the original heap start
    assert_eq!(bump.allocate(s, 1).unwrap(), HEAP_BASE);
}

#[test]
fn bump_round_trip_from_idle() {
    let mut bump = BumpAllocator::new();
    bump.init(HEAP_BASE, 128);
    let a = bump.allocate(64, 8).unwrap();
    assert_eq!(a, HEAP_BASE);
    bump.deallocate(a, 64);
    assert_eq!(bump.allocate(64, 8).unwrap(), HEAP_BASE);
}

#[test]
fn bump_overflow_is_reported() {
    let mut bump = BumpAllocator::new();
    bump.init(usize::MAX - 15, 15);
    assert_eq!(bump.allocate(16, 1), Err(AllocError::AddressOverflow));
}

#[test]
fn bump_out_of_space_keeps_state() {
    let mut bump = BumpAllocator::new();
    bump.init(HEAP_BASE, 64);
    let a = bump.allocate(48, 8).unwrap();
    assert_eq!(bump.allocate(32, 8), Err(AllocError::OutOfSpace));
    // the failure corrupted nothing: the remaining space still works
    assert_eq!(bump.allocate(16, 1).unwrap(), a + 48);
}

// The free-list allocator reuses a freed span: a heap sized for exactly
// one region plus one header serves the same request twice.
#[test]
fn linked_list_reuses_freed_span() {
    let s = 48;
    let mut lla = LinkedListAllocator::new();
    lla.init(HEAP_BASE, s + NODE_SIZE);
    let a = lla.allocate(s, 8).unwrap();
    assert_eq!(a, HEAP_BASE);
    lla.deallocate(a, s, 8);
    let b = lla.allocate(s, 8).unwrap();
    assert_eq!(b, HEAP_BASE);
}

#[test]
fn linked_list_first_fit_prefers_recently_freed() {
    let mut lla = LinkedListAllocator::new();
    lla.init(HEAP_BASE, 1024);
    let a = lla.allocate(32, 8).unwrap();
    let b = lla.allocate(32, 8).unwrap();
    assert_ne!(a, b);
    lla.deallocate(a, 32, 8);
    // the most recently freed region sits at the head of the list and is
    // found first
    assert_eq!(lla.allocate(32, 8).unwrap(), a);
    let _ = b;
}

#[test]
fn linked_list_rejects_unusable_leftover() {
    // a region whose tail leftover is smaller than a header does not
    // qualify, so the request fails rather than wasting the leftover
    let mut lla = LinkedListAllocator::new();
    lla.init(HEAP_BASE, 40);
    assert_eq!(lla.allocate(32, 8), Err(AllocError::OutOfSpace));
    // an exact fit of the whole region succeeds
    assert_eq!(lla.allocate(40, 8).unwrap(), HEAP_BASE);
}

#[test]
fn linked_list_reinserts_alignment_gap() {
    // an aligned allocation carved from an unaligned region leaves the
    // space before it as a new free region
    let mut lla = LinkedListAllocator::new();
    lla.init(HEAP_BASE + 8, 1024);
    let a = lla.allocate(16, 64).unwrap();
    assert_eq!(a % 64, 0);
    assert!(a > HEAP_BASE + 8);
    // the gap before the aligned block is at the head of the list now
    assert_eq!(lla.allocate(32, 8).unwrap(), HEAP_BASE + 8);
}

#[test]
fn linked_list_exhaustion_then_recovery() {
    let mut lla = LinkedListAllocator::new();
    lla.init(HEAP_BASE, 64);
    let a = lla.allocate(64, 8).unwrap();
    assert_eq!(lla.allocate(16, 8), Err(AllocError::OutOfSpace));
    lla.deallocate(a, 64, 8);
    assert_eq!(lla.allocate(64, 8).unwrap(), a);
}

#[test]
fn linked_list_size_align_padding() {
    // requests are padded to the header's size and alignment
    assert_eq!(LinkedListAllocator::size_align(1, 1), (NODE_SIZE, 8));
    assert_eq!(LinkedListAllocator::size_align(17, 8), (24, 8));
    assert_eq!(LinkedListAllocator::size_align(100, 64), (128, 64));
    assert_eq!(LinkedListAllocator::size_align(0, 1), (NODE_SIZE, 8));
}

#[test]
fn fixed_size_classes() {
    assert_eq!(FixedSizeBlockAllocator::list_index(1, 1), Some(0));
    assert_eq!(FixedSizeBlockAllocator::list_index(8, 1), Some(0));
    assert_eq!(FixedSizeBlockAllocator::list_index(9, 1), Some(1));
    assert_eq!(FixedSizeBlockAllocator::list_index(9, 32), Some(2));
    assert_eq!(FixedSizeBlockAllocator::list_index(4096, 1), Some(9));
    assert_eq!(FixedSizeBlockAllocator::list_index(4097, 1), None);
    assert_eq!(FixedSizeBlockAllocator::list_index(1, 8192), None);
}

// Repeated allocate/deallocate cycles at one size stabilize: after the
// first cycle the freed block is reused and the fallback sees no further
// activity.
#[test]
fn fixed_size_block_reuse_stabilizes() {
    let mut fsb = FixedSizeBlockAllocator::new();
    fsb.init(HEAP_BASE, 8192);
    let a0 = fsb.do_alloc(40, 8).unwrap();
    fsb.do_dealloc(a0, 40, 8);
    let fallback_regions: Vec<(usize, usize)> =
        fsb.fallback_allocator.free.iter().map(|n| (n.addr, n.size)).collect();
    for _ in 0..50 {
        let a = fsb.do_alloc(40, 8).unwrap();
        assert_eq!(a, a0);
        fsb.do_dealloc(a, 40, 8);
        let now: Vec<(usize, usize)> =
            fsb.fallback_allocator.free.iter().map(|n| (n.addr, n.size)).collect();
        assert_eq!(now, fallback_regions);
    }
}

// Oversized requests route through the fallback and never touch a class
// list.
#[test]
fn fixed_size_oversized_uses_fallback() {
    let mut fsb = FixedSizeBlockAllocator::new();
    fsb.init(HEAP_BASE, 3 * 8192);
    let a = fsb.do_alloc(5000, 8).unwrap();
    for i in 0..NUM_CLASSES {
        assert!(fsb.list_heads[i].is_empty());
    }
    fsb.do_dealloc(a, 5000, 8);
    for i in 0..NUM_CLASSES {
        assert!(fsb.list_heads[i].is_empty());
    }
    // the span went back to the fallback's list, so it can be carved again
    assert_eq!(fsb.do_alloc(5000, 8).unwrap(), a);
}

#[test]
fn fixed_size_freed_block_lands_on_class_list() {
    let mut fsb = FixedSizeBlockAllocator::new();
    fsb.init(HEAP_BASE, 8192);
    let a = fsb.do_alloc(100, 8).unwrap();
    // class for 100 bytes is 128
    fsb.do_dealloc(a, 100, 8);
    assert_eq!(fsb.list_heads[4], vec![a]);
}

#[test]
fn fixed_size_exhaustion_then_recovery() {
    let mut fsb = FixedSizeBlockAllocator::new();
    // room for exactly one 4096-class block
    fsb.init(HEAP_BASE, 4096);
    let a = fsb.do_alloc(4000, 4096).unwrap();
    assert!(fsb.do_alloc(4000, 4096).is_err());
    fsb.do_dealloc(a, 4000, 4096);
    assert_eq!(fsb.do_alloc(4000, 4096).unwrap(), a);
}
