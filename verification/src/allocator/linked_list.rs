//! Free-list allocator: a list of variable-sized free regions, head-
//! inserted, scanned first-fit on allocation.
//!
//! The embedded design stores each region's header {size, next} inside the
//! free memory itself. Here the list is held as an explicit region table —
//! index 0 is the list head — while every size and alignment rule of the
//! embedded layout is kept: region starts obey the header's alignment, and
//! no region is ever smaller than one header. Live allocation spans are
//! ghost state, used to state that allocations never overlap each other or
//! any free region.

use vstd::prelude::*;
use crate::allocator::{
    align_up, align_up_checked, is_power_of_two, lemma_align_up_props, lemma_mod_mod_zero,
    lemma_pow2_divides, lemma_power_of_two_pos, lemma_small_powers_of_two, spans_disjoint,
    spec_align_up, AllocError,
};

verus! {

/// Size in bytes of the header a free region carries at its start in the
/// embedded layout: a machine word for the size and one for the next link.
pub const NODE_SIZE: usize = 16;

/// Alignment of that header: one machine word.
pub const NODE_ALIGN: usize = 8;

/// One free region: a span of heap addresses available for allocation.
#[derive(Clone, Copy, Debug, PartialEq, Eq, Structural)]
pub struct ListNode {
    /// First address of the region; the embedded header lives here.
    pub addr: usize,
    /// Length of the region in bytes, header included.
    pub size: usize,
}

impl ListNode {
    /// A region of `size` bytes starting at `addr`.
    pub fn new(addr: usize, size: usize) -> (r: ListNode)
        ensures
            r.addr == addr,
            r.size == size,
    {
        ListNode { addr, size }
    }

    /// First address of the region.
    pub fn start_addr(&self) -> (r: usize)
        ensures
            r == self.addr,
    {
        self.addr
    }

    /// One past the last address of the region.
    pub fn end_addr(&self) -> (r: usize)
        requires
            self.addr + self.size <= usize::MAX,
        ensures
            r == self.addr + self.size,
    {
        self.addr + self.size
    }

    /// The region's span as (address, size).
    pub open spec fn span(self) -> (int, int) {
        (self.addr as int, self.size as int)
    }

    /// One past the region's last address, as a mathematical integer.
    pub open spec fn spec_end(self) -> int {
        self.addr + self.size
    }
}

/// A region the allocator may track: inside the heap bounds, aligned for a
/// header, and big enough to hold one.
pub open spec fn wf_region(r: ListNode, heap_start: int, heap_end: int) -> bool {
    &&& heap_start <= r.addr
    &&& r.spec_end() <= heap_end
    &&& r.addr as int % (NODE_ALIGN as int) == 0
    &&& r.size >= NODE_SIZE
}

/// A live allocation span the allocator may have handed out.
pub open spec fn wf_live_span(s: (int, int), heap_start: int, heap_end: int) -> bool {
    &&& heap_start <= s.0
    &&& s.0 + s.1 <= heap_end
    &&& s.0 % (NODE_ALIGN as int) == 0
    &&& s.1 >= NODE_SIZE
}

/// The size and alignment actually tracked for a request: the alignment is
/// raised to the header's, the size is padded to a multiple of that
/// alignment and to at least one header, so that every region — free or
/// allocated — can later host a header again.
pub open spec fn spec_size_align(size: int, align: int) -> (int, int) {
    let aalign = if align < NODE_ALIGN { NODE_ALIGN as int } else { align };
    let padded = spec_align_up(size, aalign);
    let asize = if padded < NODE_SIZE { NODE_SIZE as int } else { padded };
    (asize, aalign)
}

/// Whether a region can serve a request of the adjusted size and
/// alignment: after aligning the region's start, the request ends within
/// the region, and any leftover space before or after it is either zero or
/// large enough to host another header. Leftover too small for a header
/// disqualifies the region rather than being silently wasted.
pub open spec fn region_fits(r: ListNode, asize: int, aalign: int) -> bool {
    let start = spec_align_up(r.addr as int, aalign);
    let gap = start - r.addr;
    let tail = r.spec_end() - (start + asize);
    &&& start + asize <= r.spec_end()
    &&& (gap == 0 || gap >= NODE_SIZE)
    &&& (tail == 0 || tail >= NODE_SIZE)
}

/// Index `i` is where a first-fit scan of `free` stops: the region there
/// fits, and no earlier region does.
pub open spec fn first_fit_at(free: Seq<ListNode>, i: int, asize: int, aalign: int) -> bool {
    &&& 0 <= i < free.len()
    &&& region_fits(free[i], asize, aalign)
    &&& forall|j: int| 0 <= j < i ==> !region_fits(#[trigger] free[j], asize, aalign)
}

/// The free list after carving an allocation of the adjusted size and
/// alignment out of the region at index `i`: the region is unlinked whole,
/// and the leftover space after and before the carved span — both zero or
/// at least a header, since the region fits — is reinserted at the head.
pub open spec fn carve(free: Seq<ListNode>, i: int, asize: int, aalign: int) -> Seq<ListNode>
    recommends
        0 <= i < free.len(),
{
    let r = free[i];
    let start = spec_align_up(r.addr as int, aalign);
    let gap = start - r.addr;
    let tail = r.spec_end() - (start + asize);
    let rest = free.remove(i);
    let with_tail = if tail > 0 {
        prepended(rest, (start + asize) as usize, tail as usize)
    } else {
        rest
    };
    if gap > 0 {
        prepended(with_tail, r.addr, gap as usize)
    } else {
        with_tail
    }
}

/// What a successful or failed allocation did to the allocator: on
/// success, the first region the scan finds to fit is carved and the
/// allocated span becomes live; on failure — exactly when no region fits —
/// nothing changes.
pub open spec fn allocate_post(
    pre: LinkedListAllocator,
    post: LinkedListAllocator,
    r: Result<usize, AllocError>,
    size: int,
    align: int,
) -> bool {
    let asize = spec_size_align(size, align).0;
    let aalign = spec_size_align(size, align).1;
    &&& post.heap_start == pre.heap_start
    &&& post.heap_end == pre.heap_end
    &&& match r {
        Ok(a) => exists|i: int|
            (first_fit_at(pre.free@, i, asize, aalign) && a == spec_align_up(
                pre.free@[i].addr as int,
                aalign,
            ) && post.free@ == carve(pre.free@, i, asize, aalign) && post.live@
                == pre.live@.insert((a as int, asize))),
        Err(e) => {
            &&& post == pre
            &&& e == AllocError::OutOfSpace
            &&& forall|i: int|
                0 <= i < pre.free@.len() ==> !region_fits(#[trigger] pre.free@[i], asize, aalign)
        },
    }
}

/// What a deallocation did to the allocator: the span — of the same
/// adjusted size the allocation was given — stops being live and is
/// reinserted at the head of the free list.
pub open spec fn deallocate_post(
    pre: LinkedListAllocator,
    post: LinkedListAllocator,
    addr: usize,
    size: int,
    align: int,
) -> bool {
    let asize = spec_size_align(size, align).0;
    &&& post.heap_start == pre.heap_start
    &&& post.heap_end == pre.heap_end
    &&& post.free@ == prepended(pre.free@, addr, asize as usize)
    &&& post.live@ == pre.live@.remove((addr as int, asize))
}

/// The free list with a region prepended at its head.
pub open spec fn prepended(free: Seq<ListNode>, addr: usize, size: usize) -> Seq<ListNode> {
    seq![ListNode { addr, size }].add(free)
}

/// Free-list allocator state: the heap bounds, the table of free regions
/// (index 0 is the head of the list), and the ghost set of live spans.
pub struct LinkedListAllocator {
    /// First address of the heap range.
    pub heap_start: usize,
    /// One past the last address of the heap range.
    pub heap_end: usize,
    /// The free regions, most recently freed first.
    pub free: Vec<ListNode>,
    /// The live allocation spans, as (address, size) pairs.
    pub live: Ghost<Set<(int, int)>>,
}

impl LinkedListAllocator {
    /// Every tracked region and live span lies inside the heap, obeys the
    /// header size and alignment rules, and no two of them overlap.
    pub open spec fn wf(self) -> bool {
        &&& self.heap_start <= self.heap_end
        &&& forall|i: int|
            0 <= i < self.free@.len() ==> wf_region(
                #[trigger] self.free@[i],
                self.heap_start as int,
                self.heap_end as int,
            )
        &&& forall|i: int, j: int|
            #![trigger self.free@[i], self.free@[j]]
            0 <= i < self.free@.len() && 0 <= j < self.free@.len() && i != j ==> spans_disjoint(
                self.free@[i].span(),
                self.free@[j].span(),
            )
        &&& forall|s: (int, int)|
            #[trigger] self.live@.contains(s) ==> wf_live_span(
                s,
                self.heap_start as int,
                self.heap_end as int,
            )
        &&& forall|s: (int, int), t: (int, int)|
            #![trigger self.live@.contains(s), self.live@.contains(t)]
            self.live@.contains(s) && self.live@.contains(t) && s != t ==> spans_disjoint(s, t)
        &&& forall|i: int, s: (int, int)|
            #![trigger self.free@[i], self.live@.contains(s)]
            0 <= i < self.free@.len() && self.live@.contains(s) ==> spans_disjoint(
                self.free@[i].span(),
                s,
            )
    }

    /// An allocator with an empty list and an empty heap range; usable
    /// only after `init`.
    pub fn new() -> (r: LinkedListAllocator)
        ensures
            r.heap_start == 0,
            r.heap_end == 0,
            r.free@.len() == 0,
            r.live@ == Set::<(int, int)>::empty(),
            r.wf(),
    {
        LinkedListAllocator {
            heap_start: 0,
            heap_end: 0,
            free: Vec::new(),
            live: Ghost(Set::empty()),
        }
    }

    /// Adopts the heap range `[heap_start, heap_start + heap_size)`: the
    /// whole range becomes the one free region. The caller guarantees the
    /// range is mapped, exclusively owned, aligned for a header and large
    /// enough to hold one; it must be called exactly once.
    pub fn init(&mut self, heap_start: usize, heap_size: usize)
        requires
            old(self).free@.len() == 0,
            old(self).live@ == Set::<(int, int)>::empty(),
            heap_start as int % (NODE_ALIGN as int) == 0,
            heap_size >= NODE_SIZE,
            heap_start + heap_size <= usize::MAX,
        ensures
            final(self).heap_start == heap_start,
            final(self).heap_end == heap_start + heap_size,
            final(self).free@ == prepended(old(self).free@, heap_start, heap_size),
            final(self).live@ == old(self).live@,
            final(self).wf(),
    {
        self.heap_start = heap_start;
        self.heap_end = heap_start + heap_size;
        self.add_free_region(heap_start, heap_size);
    }

    /// Adjusts a request so that the span carved for it can always be
    /// handed back to the list: the alignment is raised to the header's,
    /// and the size is padded to a multiple of that alignment and to at
    /// least one header.
    pub fn size_align(size: usize, align: usize) -> (r: (usize, usize))
        requires
            is_power_of_two(align),
            size <= usize::MAX / 2,
            align <= usize::MAX / 2,
        ensures
            (r.0 as int, r.1 as int) == spec_size_align(size as int, align as int),
            r.0 >= NODE_SIZE,
            r.0 >= size,
            r.1 >= NODE_ALIGN,
            is_power_of_two(r.1),
            r.1 as int % (NODE_ALIGN as int) == 0,
    {
        proof {
            lemma_small_powers_of_two();
            lemma_power_of_two_pos(align);
        }
        let aalign = if align < NODE_ALIGN {
            NODE_ALIGN
        } else {
            align
        };
        proof {
            lemma_pow2_divides(NODE_ALIGN, aalign);
            lemma_align_up_props(size as int, aalign as int);
        }
        let padded = align_up(size, aalign);
        let asize = if padded < NODE_SIZE {
            NODE_SIZE
        } else {
            padded
        };
        (asize, aalign)
    }

    /// Decides whether `region` can serve a request of the adjusted size
    /// and alignment, and at which address; rejects the region otherwise.
    pub fn alloc_from_region(region: &ListNode, size: usize, align: usize) -> (r: Result<
        usize,
        (),
    >)
        requires
            is_power_of_two(align),
            region.addr + region.size <= usize::MAX,
        ensures
            match r {
                Ok(start) => region_fits(*region, size as int, align as int) && start
                    == spec_align_up(region.addr as int, align as int),
                Err(_) => !region_fits(*region, size as int, align as int),
            },
    {
        proof {
            lemma_power_of_two_pos(align);
            lemma_align_up_props(region.addr as int, align as int);
        }
        let start = match align_up_checked(region.addr, align) {
            Some(s) => s,
            None => {
                return Err(());
            },
        };
        let gap = start - region.addr;
        if gap > 0 && gap < NODE_SIZE {
            return Err(());
        }
        if size > usize::MAX - start {
            return Err(());
        }
        let alloc_end = start + size;
        let region_end = region.addr + region.size;
        if alloc_end > region_end {
            return Err(());
        }
        let excess = region_end - alloc_end;
        if excess > 0 && excess < NODE_SIZE {
            return Err(());
        }
        Ok(start)
    }

    /// First-fit scan from the head of the list: removes and returns the
    /// first region that can serve the request, with the address the
    /// allocation would start at.
    pub fn find_region(&mut self, size: usize, align: usize) -> (r: Option<(ListNode, usize)>)
        requires
            old(self).wf(),
            is_power_of_two(align),
        ensures
            final(self).heap_start == old(self).heap_start,
            final(self).heap_end == old(self).heap_end,
            final(self).live@ == old(self).live@,
            final(self).wf(),
            match r {
                None => *final(self) == *old(self) && forall|i: int|
                    0 <= i < old(self).free@.len() ==> !region_fits(
                        #[trigger] old(self).free@[i],
                        size as int,
                        align as int,
                    ),
                Some((node, start)) => exists|i: int|
                    (first_fit_at(old(self).free@, i, size as int, align as int)
                        && node == old(self).free@[i] && start == spec_align_up(
                        node.addr as int,
                        align as int,
                    ) && final(self).free@ == old(self).free@.remove(i)),
            },
    {
        let mut idx: usize = 0;
        while idx < self.free.len()
            invariant
                old(self).wf(),
                is_power_of_two(align),
                *self == *old(self),
                idx <= self.free@.len(),
                forall|j: int|
                    0 <= j < idx ==> !region_fits(
                        #[trigger] self.free@[j],
                        size as int,
                        align as int,
                    ),
            decreases self.free@.len() - idx,
        {
            let node = self.free[idx];
            match Self::alloc_from_region(&node, size, align) {
                Ok(start) => {
                    let node = self.free.remove(idx);
                    proof {
                        let ghost i = idx as int;
                        assert(first_fit_at(old(self).free@, i, size as int, align as int));
                        assert forall|a: int, b: int|
                            #![trigger self.free@[a], self.free@[b]]
                            0 <= a < self.free@.len() && 0 <= b < self.free@.len() && a
                                != b implies spans_disjoint(
                            self.free@[a].span(),
                            self.free@[b].span(),
                        ) by {
                            let a0 = if a < i {
                                a
                            } else {
                                a + 1
                            };
                            let b0 = if b < i {
                                b
                            } else {
                                b + 1
                            };
                            assert(self.free@[a] == old(self).free@[a0]);
                            assert(self.free@[b] == old(self).free@[b0]);
                        }
                    }
                    return Some((node, start));
                },
                Err(_) => {},
            }
            idx = idx + 1;
        }
        None
    }

    /// Serves a request: adjusts it with `size_align`, scans the list
    /// first-fit, unlinks the first region that fits, reinserts the
    /// leftover space around the carved span, and records the span as
    /// live. Fails with `OutOfSpace` — leaving the allocator unchanged —
    /// exactly when no region fits the adjusted request.
    #[verifier::rlimit(100)]
    pub fn allocate(&mut self, size: usize, align: usize) -> (r: Result<usize, AllocError>)
        requires
            old(self).wf(),
            is_power_of_two(align),
            size <= usize::MAX / 2,
            align <= usize::MAX / 2,
        ensures
            final(self).wf(),
            allocate_post(*old(self), *final(self), r, size as int, align as int),
            match r {
                Ok(a) => {
                    let asize = spec_size_align(size as int, align as int).0;
                    let aalign = spec_size_align(size as int, align as int).1;
                    &&& a as int % align as int == 0
                    &&& a as int % aalign == 0
                    &&& old(self).heap_start <= a
                    &&& a + asize <= old(self).heap_end
                    &&& size <= asize
                    &&& forall|s: (int, int)|
                        #[trigger] old(self).live@.contains(s) ==> spans_disjoint(
                            s,
                            (a as int, asize),
                        )
                },
                Err(_) => true,
            },
    {
        let (asize, aalign) = Self::size_align(size, align);
        match self.find_region(asize, aalign) {
            Some((region, alloc_start)) => {
                proof {
                    lemma_power_of_two_pos(aalign);
                    let i = choose|i: int|
                        (first_fit_at(old(self).free@, i, asize as int, aalign as int) && region
                            == old(self).free@[i] && alloc_start == spec_align_up(
                            region.addr as int,
                            aalign as int,
                        ) && self.free@ == old(self).free@.remove(i));
                    lemma_align_up_props(region.addr as int, aalign as int);
                    lemma_align_up_props(size as int, aalign as int);
                    lemma_mod_mod_zero(alloc_start as int, aalign as int, NODE_ALIGN as int);
                    if spec_align_up(size as int, aalign as int) >= NODE_SIZE {
                        lemma_mod_mod_zero(asize as int, aalign as int, NODE_ALIGN as int);
                    }
                    vstd::arithmetic::div_mod::lemma_add_mod_noop(
                        alloc_start as int,
                        asize as int,
                        NODE_ALIGN as int,
                    );
                }
                let alloc_end = alloc_start + asize;
                let region_end = region.addr + region.size;
                let excess = region_end - alloc_end;
                let ghost mid = *self;
                if excess > 0 {
                    proof {
                        let i = choose|i: int|
                            (first_fit_at(old(self).free@, i, asize as int, aalign as int)
                                && region == old(self).free@[i] && alloc_start == spec_align_up(
                                region.addr as int,
                                aalign as int,
                            ) && self.free@ == old(self).free@.remove(i));
                        assert forall|j: int|
                            0 <= j < self.free@.len() implies spans_disjoint(
                            (#[trigger] self.free@[j]).span(),
                            (alloc_end as int, excess as int),
                        ) by {
                            let j0 = if j < i {
                                j
                            } else {
                                j + 1
                            };
                            assert(self.free@[j] == old(self).free@[j0]);
                            assert(spans_disjoint(old(self).free@[j0].span(), region.span()));
                        }
                    }
                    self.add_free_region(alloc_end, excess);
                }
                let gap = alloc_start - region.addr;
                let ghost with_tail = *self;
                if gap > 0 {
                    proof {
                        let i = choose|i: int|
                            (first_fit_at(old(self).free@, i, asize as int, aalign as int)
                                && region == old(self).free@[i] && alloc_start == spec_align_up(
                                region.addr as int,
                                aalign as int,
                            ) && mid.free@ == old(self).free@.remove(i));
                        assert forall|j: int|
                            0 <= j < self.free@.len() implies spans_disjoint(
                            (#[trigger] self.free@[j]).span(),
                            (region.addr as int, gap as int),
                        ) by {
                            if excess > 0 && j == 0 {
                                assert(self.free@[0].addr == alloc_end);
                            } else {
                                let jr = if excess > 0 {
                                    j - 1
                                } else {
                                    j
                                };
                                let j0 = if jr < i {
                                    jr
                                } else {
                                    jr + 1
                                };
                                assert(self.free@[j] == mid.free@[jr]);
                                assert(mid.free@[jr] == old(self).free@[j0]);
                                assert(spans_disjoint(old(self).free@[j0].span(), region.span()));
                            }
                        }
                    }
                    self.add_free_region(region.addr, gap);
                }
                proof {
                    let i = choose|i: int|
                        (first_fit_at(old(self).free@, i, asize as int, aalign as int) && region
                            == old(self).free@[i] && alloc_start == spec_align_up(
                            region.addr as int,
                            aalign as int,
                        ) && mid.free@ == old(self).free@.remove(i));
                    let span = (alloc_start as int, asize as int);
                    assert(self.free@ =~= carve(
                        old(self).free@,
                        i,
                        asize as int,
                        aalign as int,
                    ));
                    assert forall|s: (int, int)| #[trigger]
                        self.live@.contains(s) implies spans_disjoint(s, span) by {
                        assert(spans_disjoint(region.span(), s));
                    }
                    assert forall|j: int|
                        0 <= j < self.free@.len() implies spans_disjoint(
                        (#[trigger] self.free@[j]).span(),
                        span,
                    ) by {
                        let ghost shift: int = (if gap > 0 {
                            1int
                        } else {
                            0int
                        }) + (if excess > 0 {
                            1int
                        } else {
                            0int
                        });
                        if gap > 0 && j == 0 {
                            assert(self.free@[0].size == gap);
                        } else if j < shift {
                            assert(self.free@[j].addr == alloc_end);
                        } else {
                            let j0 = if j - shift < i {
                                j - shift
                            } else {
                                j - shift + 1
                            };
                            assert(self.free@[j] == old(self).free@[j0]);
                            assert(spans_disjoint(old(self).free@[j0].span(), region.span()));
                        }
                    }
                    if align < NODE_ALIGN {
                        lemma_small_powers_of_two();
                        lemma_pow2_divides(align, aalign);
                    }
                    lemma_power_of_two_pos(align);
                    lemma_mod_mod_zero(alloc_start as int, aalign as int, align as int);
                }
                self.live = Ghost(self.live@.insert((alloc_start as int, asize as int)));
                Ok(alloc_start)
            },
            None => Err(AllocError::OutOfSpace),
        }
    }

    /// Returns an allocation. Size and alignment must be exactly what the
    /// matching `allocate` call was given; the span is recomputed with
    /// `size_align` and reinserted at the head of the free list. No
    /// coalescing with adjacent free regions is performed.
    pub fn deallocate(&mut self, addr: usize, size: usize, align: usize)
        requires
            old(self).wf(),
            is_power_of_two(align),
            size <= usize::MAX / 2,
            align <= usize::MAX / 2,
            old(self).live@.contains(
                (addr as int, spec_size_align(size as int, align as int).0),
            ),
        ensures
            final(self).wf(),
            deallocate_post(*old(self), *final(self), addr, size as int, align as int),
    {
        let (asize, _aalign) = Self::size_align(size, align);
        proof {
            let span = (addr as int, asize as int);
            assert forall|s: (int, int)| #[trigger]
                self.live@.remove(span).contains(s) implies spans_disjoint(
                s,
                span,
            ) by {
                assert(self.live@.contains(s) && s != span);
            }
        }
        self.live = Ghost(self.live@.remove((addr as int, asize as int)));
        self.add_free_region(addr, asize);
    }

    /// Inserts a free region at the head of the list. The region must obey
    /// the header rules and overlap nothing the allocator tracks.
    pub fn add_free_region(&mut self, addr: usize, size: usize)
        requires
            old(self).wf(),
            addr as int % (NODE_ALIGN as int) == 0,
            size >= NODE_SIZE,
            old(self).heap_start <= addr,
            addr + size <= old(self).heap_end,
            forall|i: int|
                0 <= i < old(self).free@.len() ==> spans_disjoint(
                    (#[trigger] old(self).free@[i]).span(),
                    (addr as int, size as int),
                ),
            forall|s: (int, int)|
                #[trigger] old(self).live@.contains(s) ==> spans_disjoint(
                    s,
                    (addr as int, size as int),
                ),
        ensures
            final(self).heap_start == old(self).heap_start,
            final(self).heap_end == old(self).heap_end,
            final(self).live@ == old(self).live@,
            final(self).free@ == prepended(old(self).free@, addr, size),
            final(self).wf(),
    {
        self.free.insert(0, ListNode::new(addr, size));
        proof {
            assert(self.free@ =~= prepended(old(self).free@, addr, size));
        }
    }
}

/// In a well-formed allocator, distinct live allocations never overlap,
/// and no live allocation overlaps a free region.
pub proof fn lemma_live_spans_disjoint(a: LinkedListAllocator)
    requires
        a.wf(),
    ensures
        forall|s: (int, int), t: (int, int)|
            #![trigger a.live@.contains(s), a.live@.contains(t)]
            a.live@.contains(s) && a.live@.contains(t) && s != t ==> spans_disjoint(s, t),
        forall|i: int, s: (int, int)|
            #![trigger a.free@[i], a.live@.contains(s)]
            0 <= i < a.free@.len() && a.live@.contains(s) ==> spans_disjoint(a.free@[i].span(), s),
{
}

/// A failed allocation leaves the allocator exactly as it was: exhaustion
/// never corrupts state.
pub proof fn lemma_failed_allocation_preserves_state(
    pre: LinkedListAllocator,
    post: LinkedListAllocator,
    r: Result<usize, AllocError>,
    size: int,
    align: int,
)
    requires
        allocate_post(pre, post, r, size, align),
        r is Err,
    ensures
        post == pre,
{
}

/// After deallocating a span whose address fits the request's adjusted
/// alignment — as every address `allocate` returned does — the freed span
/// stands at the head of the list and is exactly where a first-fit scan
/// for the same size and alignment stops, at the span's own address: the
/// allocator reuses the freed span.
pub proof fn lemma_freed_span_is_reused(
    pre: LinkedListAllocator,
    post: LinkedListAllocator,
    addr: usize,
    size: usize,
    align: usize,
)
    requires
        is_power_of_two(align),
        size <= usize::MAX / 2,
        align <= usize::MAX / 2,
        addr as int % spec_size_align(size as int, align as int).1 == 0,
        deallocate_post(pre, post, addr, size as int, align as int),
    ensures
        first_fit_at(
            post.free@,
            0,
            spec_size_align(size as int, align as int).0,
            spec_size_align(size as int, align as int).1,
        ),
        spec_align_up(addr as int, spec_size_align(size as int, align as int).1) == addr,
{
    let asize = spec_size_align(size as int, align as int).0;
    let aalign = spec_size_align(size as int, align as int).1;
    lemma_small_powers_of_two();
    if align >= NODE_ALIGN {
        lemma_power_of_two_pos(align);
    }
    lemma_align_up_props(addr as int, aalign);
    lemma_align_up_props(size as int, aalign);
    assert(post.free@[0] == (ListNode { addr, size: asize as usize }));
    assert(region_fits(post.free@[0], asize, aalign));
}

} // verus!
