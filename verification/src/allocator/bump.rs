//! Bump allocator: a monotonically advancing cursor over the heap, with
//! whole-heap reuse only once every live allocation has been returned.
//!
//! The allocator hands out addresses and keeps no per-allocation metadata;
//! the set of live spans is ghost state, carried only to state and prove
//! that distinct live allocations never overlap.

use vstd::prelude::*;
use crate::allocator::{
    is_power_of_two, lemma_align_up_props, lemma_power_of_two_pos, spans_disjoint, spec_align_up,
    align_up_checked, AllocError,
};

verus! {

/// Monotonic-pointer allocator state: the heap bounds, the next free
/// address, and the number of live allocations.
pub struct BumpAllocator {
    /// First address of the heap range.
    pub heap_start: usize,
    /// One past the last address of the heap range.
    pub heap_end: usize,
    /// Next candidate address; never decreases while allocations are live.
    pub next: usize,
    /// Number of allocations not yet deallocated.
    pub allocations: usize,
    /// The live allocation spans, as (address, size) pairs.
    pub live: Ghost<Set<(int, int)>>,
}

impl BumpAllocator {
    /// The cursor stays inside the heap, the live count matches the ghost
    /// span set, and every live span sits between the heap start and the
    /// cursor, disjoint from every other.
    pub open spec fn wf(self) -> bool {
        &&& self.heap_start <= self.next <= self.heap_end
        &&& self.live@.finite()
        &&& self.live@.len() == self.allocations
        &&& self.allocations <= self.next - self.heap_start
        &&& forall|s: (int, int)|
            #[trigger] self.live@.contains(s) ==> self.heap_start <= s.0 && s.0 + s.1 <= self.next
                && s.1 >= 1
        &&& forall|s: (int, int), t: (int, int)|
            self.live@.contains(s) && self.live@.contains(t) && s != t ==> #[trigger] spans_disjoint(
                s,
                t,
            )
    }

    /// The address the next allocation with this alignment would return.
    pub open spec fn bump_candidate(self, align: usize) -> int {
        spec_align_up(self.next as int, align as int)
    }

    /// Whether a request fits between the candidate address and the heap
    /// end.
    pub open spec fn bump_fits(self, size: usize, align: usize) -> bool {
        self.bump_candidate(align) + size <= self.heap_end
    }

    /// An empty allocator over an empty heap range; usable only after
    /// `init`.
    pub fn new() -> (r: BumpAllocator)
        ensures
            r.heap_start == 0,
            r.heap_end == 0,
            r.next == 0,
            r.allocations == 0,
            r.live@ == Set::<(int, int)>::empty(),
            r.wf(),
    {
        BumpAllocator {
            heap_start: 0,
            heap_end: 0,
            next: 0,
            allocations: 0,
            live: Ghost(Set::empty()),
        }
    }

    /// Adopts the heap range `[heap_start, heap_start + heap_size)`. The
    /// caller guarantees the range is mapped and exclusively owned; it must
    /// be called exactly once, before any allocation.
    pub fn init(&mut self, heap_start: usize, heap_size: usize)
        requires
            old(self).allocations == 0,
            old(self).live@ == Set::<(int, int)>::empty(),
            heap_start + heap_size <= usize::MAX,
        ensures
            final(self).heap_start == heap_start,
            final(self).heap_end == heap_start + heap_size,
            final(self).next == heap_start,
            final(self).allocations == 0,
            final(self).live@ == old(self).live@,
            final(self).wf(),
    {
        self.heap_start = heap_start;
        self.heap_end = heap_start + heap_size;
        self.next = heap_start;
    }

    /// Serves a request by aligning the cursor and advancing it past the
    /// new allocation. Fails with `AddressOverflow` when the end address
    /// would not fit the machine word, and with `OutOfSpace` when it would
    /// pass the heap end; in both cases the state is unchanged.
    pub fn allocate(&mut self, size: usize, align: usize) -> (r: Result<usize, AllocError>)
        requires
            old(self).wf(),
            is_power_of_two(align),
            size >= 1,
        ensures
            final(self).wf(),
            final(self).heap_start == old(self).heap_start,
            final(self).heap_end == old(self).heap_end,
            match r {
                Ok(a) => {
                    &&& old(self).bump_fits(size, align)
                    &&& a == old(self).bump_candidate(align)
                    &&& a as int % align as int == 0
                    &&& old(self).heap_start <= a
                    &&& old(self).next <= a
                    &&& a + size <= old(self).heap_end
                    &&& final(self).next == a + size
                    &&& final(self).allocations == old(self).allocations + 1
                    &&& final(self).live@ == old(self).live@.insert((a as int, size as int))
                    &&& forall|s: (int, int)|
                        #[trigger] old(self).live@.contains(s) ==> spans_disjoint(
                            s,
                            (a as int, size as int),
                        )
                },
                Err(e) => {
                    &&& *final(self) == *old(self)
                    &&& !old(self).bump_fits(size, align)
                    &&& (e == AllocError::AddressOverflow <==> old(self).bump_candidate(align)
                        + size > usize::MAX)
                    &&& (e == AllocError::OutOfSpace <==> old(self).bump_candidate(align) + size
                        <= usize::MAX)
                },
            },
    {
        proof {
            lemma_power_of_two_pos(align);
            lemma_align_up_props(self.next as int, align as int);
        }
        let candidate = match align_up_checked(self.next, align) {
            Some(c) => c,
            None => {
                return Err(AllocError::AddressOverflow);
            },
        };
        if size > usize::MAX - candidate {
            return Err(AllocError::AddressOverflow);
        }
        let alloc_end = candidate + size;
        if alloc_end > self.heap_end {
            return Err(AllocError::OutOfSpace);
        }
        proof {
            let span = (candidate as int, size as int);
            assert forall|s: (int, int)| #[trigger]
                self.live@.contains(s) implies spans_disjoint(s, span) by {
            }
            assert(!self.live@.contains(span));
        }
        self.next = alloc_end;
        self.allocations = self.allocations + 1;
        self.live = Ghost(self.live@.insert((candidate as int, size as int)));
        Ok(candidate)
    }

    /// Returns one allocation. The span must be live; the allocator only
    /// decrements its live count, and resets the cursor to the heap start
    /// once the count reaches zero.
    pub fn deallocate(&mut self, addr: usize, size: usize)
        requires
            old(self).wf(),
            old(self).live@.contains((addr as int, size as int)),
        ensures
            final(self).wf(),
            final(self).heap_start == old(self).heap_start,
            final(self).heap_end == old(self).heap_end,
            final(self).allocations == old(self).allocations - 1,
            final(self).live@ == old(self).live@.remove((addr as int, size as int)),
            old(self).allocations == 1 ==> final(self).next == old(self).heap_start,
            old(self).allocations > 1 ==> final(self).next == old(self).next,
    {
        proof {
            let span = (addr as int, size as int);
            assert(self.live@.remove(span).len() == self.live@.len() - 1);
            if self.live@.len() == 1 {
                self.live@.remove(span).lemma_len0_is_empty();
            }
        }
        self.allocations = self.allocations - 1;
        if self.allocations == 0 {
            self.next = self.heap_start;
        }
        self.live = Ghost(self.live@.remove((addr as int, size as int)));
    }
}

/// With no intervening frees, consecutive bump allocations return strictly
/// increasing addresses, each at least the previous allocation's size past
/// the previous address.
pub proof fn lemma_bump_addresses_increase(
    pre: BumpAllocator,
    mid: BumpAllocator,
    a1: usize,
    size1: usize,
    align1: usize,
    align2: usize,
)
    requires
        is_power_of_two(align2),
        size1 >= 1,
        a1 == pre.bump_candidate(align1),
        mid.next == a1 + size1,
    ensures
        mid.bump_candidate(align2) >= a1 + size1,
        mid.bump_candidate(align2) > a1,
{
    lemma_power_of_two_pos(align2);
    lemma_align_up_props(mid.next as int, align2 as int);
}

/// Once the live count is back to zero the cursor stands at the heap
/// start, so the next allocation at a heap-aligned request returns the
/// original heap start address.
pub proof fn lemma_bump_reset_candidate(b: BumpAllocator, align: usize)
    requires
        is_power_of_two(align),
        b.next == b.heap_start,
        b.heap_start as int % align as int == 0,
    ensures
        b.bump_candidate(align) == b.heap_start,
{
    lemma_power_of_two_pos(align);
    lemma_align_up_props(b.next as int, align as int);
}

/// Round trip from an idle allocator: allocating and then deallocating the
/// same span restores the allocator to its pre-allocation state, so a
/// following request of the same size and alignment is served exactly as
/// the first one was.
pub proof fn lemma_bump_round_trip(
    pre: BumpAllocator,
    mid: BumpAllocator,
    post: BumpAllocator,
    a: usize,
    size: usize,
    align: usize,
)
    requires
        pre.wf(),
        pre.allocations == 0,
        pre.next == pre.heap_start,
        // what `allocate` ensures about the successful call
        a == pre.bump_candidate(align),
        mid.heap_start == pre.heap_start,
        mid.heap_end == pre.heap_end,
        mid.next == a + size,
        mid.allocations == 1,
        mid.live@ == pre.live@.insert((a as int, size as int)),
        // what `deallocate` of the same span ensures
        post.heap_start == mid.heap_start,
        post.heap_end == mid.heap_end,
        post.allocations == 0,
        post.next == mid.heap_start,
        post.live@ == mid.live@.remove((a as int, size as int)),
    ensures
        post.heap_start == pre.heap_start,
        post.heap_end == pre.heap_end,
        post.next == pre.next,
        post.allocations == pre.allocations,
        post.live@ =~= pre.live@,
        post.bump_fits(size, align) == pre.bump_fits(size, align),
{
    pre.live@.lemma_len0_is_empty();
    assert(post.live@ =~= pre.live@);
}

} // verus!
