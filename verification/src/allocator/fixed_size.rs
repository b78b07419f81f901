//! Segregated fixed-size-block allocator: one free list per power-of-two
//! size class, with an embedded free-list allocator as the fallback for
//! empty classes and oversized requests.
//!
//! Each class list is a stack of block addresses — its last element is the
//! list head, so pushing and popping the head are O(1). A block carved for
//! a class is allocated from the fallback with the class size as both size
//! and alignment, so every block of class `i` starts at a multiple of the
//! class size; a freed block goes back onto its class list and is never
//! returned to the fallback. Live user spans are ghost state, tied to the
//! fallback's live spans so that distinct allocations never overlap.

use vstd::prelude::*;
use crate::allocator::linked_list::{
    allocate_post, deallocate_post, spec_size_align, LinkedListAllocator, NODE_ALIGN, NODE_SIZE,
};
use crate::allocator::{
    is_power_of_two, lemma_align_up_props, lemma_mod_mod_zero, lemma_pow2_divides,
    lemma_power_of_two_pos, lemma_small_powers_of_two, spans_disjoint, AllocError,
};

verus! {

/// Number of size classes.
pub const NUM_CLASSES: usize = 10;

/// The block size of each class, ascending powers of two. Sizes below the
/// smallest class would not fit the free-block header of the embedded
/// layout; sizes above the largest are served by the fallback.
pub open spec fn spec_block_size(i: int) -> int {
    if i <= 0 {
        8
    } else if i == 1 {
        16
    } else if i == 2 {
        32
    } else if i == 3 {
        64
    } else if i == 4 {
        128
    } else if i == 5 {
        256
    } else if i == 6 {
        512
    } else if i == 7 {
        1024
    } else if i == 8 {
        2048
    } else {
        4096
    }
}

/// The block size of class `i`.
pub fn block_size(i: usize) -> (r: usize)
    requires
        i < NUM_CLASSES,
    ensures
        r == spec_block_size(i as int),
        is_power_of_two(r),
        NODE_ALIGN <= r <= 4096,
{
    proof {
        lemma_small_powers_of_two();
    }
    if i == 0 {
        8
    } else if i == 1 {
        16
    } else if i == 2 {
        32
    } else if i == 3 {
        64
    } else if i == 4 {
        128
    } else if i == 5 {
        256
    } else if i == 6 {
        512
    } else if i == 7 {
        1024
    } else if i == 8 {
        2048
    } else {
        4096
    }
}

/// The class a request maps to: the smallest class whose block size is at
/// least max(size, align), or none when that exceeds the largest class.
/// Folding the alignment into the size is valid because every class size
/// is a power of two at least as large as any alignment the class serves.
pub open spec fn spec_list_index(size: int, align: int) -> Option<int> {
    let target = if size > align {
        size
    } else {
        align
    };
    if target <= 8 {
        Some(0)
    } else if target <= 16 {
        Some(1)
    } else if target <= 32 {
        Some(2)
    } else if target <= 64 {
        Some(3)
    } else if target <= 128 {
        Some(4)
    } else if target <= 256 {
        Some(5)
    } else if target <= 512 {
        Some(6)
    } else if target <= 1024 {
        Some(7)
    } else if target <= 2048 {
        Some(8)
    } else if target <= 4096 {
        Some(9)
    } else {
        None
    }
}

/// The span the fallback hands out when it carves a block of class `i`:
/// the class size, padded as the fallback pads every request.
pub open spec fn spec_block_span_size(i: int) -> int {
    spec_size_align(spec_block_size(i), spec_block_size(i)).0
}

/// The padded span of a class block is the class size, except that the
/// smallest class is padded up to one free-list header.
pub proof fn lemma_block_span_size(i: int)
    ensures
        spec_block_span_size(i) == if spec_block_size(i) < NODE_SIZE {
            NODE_SIZE as int
        } else {
            spec_block_size(i)
        },
        spec_block_size(i) <= spec_block_span_size(i),
{
    let bs = spec_block_size(i);
    lemma_align_up_props(bs, bs);
    vstd::arithmetic::div_mod::lemma_mod_self_0(bs);
}

/// A block sitting on class list `i`: it starts at a multiple of the class
/// size, and the fallback still accounts its padded span as live — blocks
/// are never handed back to the fallback.
pub open spec fn block_ok(b: usize, i: int, fallback: LinkedListAllocator) -> bool {
    &&& b as int % spec_block_size(i) == 0
    &&& fallback.live@.contains((b as int, spec_block_span_size(i)))
}

/// A live user allocation (addr, size, align): its backing span — the
/// class block or the directly carved fallback span — is live in the
/// fallback.
pub open spec fn user_span_ok(s: (int, int, int), fallback: LinkedListAllocator) -> bool {
    &&& 0 <= s.1
    &&& 0 <= s.2
    &&& match spec_list_index(s.1, s.2) {
        Some(i) => s.0 % spec_block_size(i) == 0 && fallback.live@.contains(
            (s.0, spec_block_span_size(i)),
        ),
        None => fallback.live@.contains((s.0, spec_size_align(s.1, s.2).0)),
    }
}

/// Every live user span is covered by a backing span the fallback
/// accounts as live: the user size never exceeds the backing size.
pub proof fn lemma_user_span_extent(s: (int, int, int), fallback: LinkedListAllocator)
    requires
        user_span_ok(s, fallback),
    ensures
        exists|b: int|
            (#[trigger] fallback.live@.contains((s.0, b)) && s.1 <= b && b >= NODE_SIZE),
{
    match spec_list_index(s.1, s.2) {
        Some(cls) => {
            lemma_block_span_size(cls);
            assert(fallback.live@.contains((s.0, spec_block_span_size(cls))));
        },
        None => {
            let aalign = spec_size_align(s.1, s.2).1;
            lemma_align_up_props(s.1, aalign);
            assert(fallback.live@.contains((s.0, spec_size_align(s.1, s.2).0)));
        },
    }
}

/// A span the fallback just carved — disjoint from every span the
/// fallback accounted live before — is disjoint from every live user
/// span, since each of those sits inside one of the older backing spans.
pub proof fn lemma_fresh_span_disjoint_from_live(
    live: Set<(int, int, int)>,
    fallback: LinkedListAllocator,
    a: usize,
    asize: int,
    size: usize,
)
    requires
        size <= asize,
        asize >= 1,
        forall|s: (int, int, int)| #[trigger] live.contains(s) ==> user_span_ok(s, fallback),
        forall|sp: (int, int)|
            #[trigger] fallback.live@.contains(sp) ==> spans_disjoint(sp, (a as int, asize)),
    ensures
        forall|s: (int, int, int)|
            #[trigger] live.contains(s) ==> spans_disjoint((s.0, s.1), (a as int, size as int)),
        forall|s: (int, int, int)| #[trigger] live.contains(s) ==> s.0 != a,
{
    assert forall|s: (int, int, int)| #[trigger] live.contains(s) implies spans_disjoint(
        (s.0, s.1),
        (a as int, size as int),
    ) && s.0 != a by {
        lemma_user_span_extent(s, fallback);
        let b = choose|b: int|
            (#[trigger] fallback.live@.contains((s.0, b)) && s.1 <= b && b >= NODE_SIZE);
        assert(spans_disjoint((s.0, b), (a as int, asize)));
    }
}

/// A popped class block — whose backing span is accounted live by the
/// fallback, distinct from every user span's backing — is disjoint from
/// every live user span.
pub proof fn lemma_block_disjoint_from_live(
    live: Set<(int, int, int)>,
    fallback: LinkedListAllocator,
    a: usize,
    bspan: int,
    size: usize,
)
    requires
        fallback.wf(),
        fallback.live@.contains((a as int, bspan)),
        size <= bspan,
        forall|s: (int, int, int)| #[trigger] live.contains(s) ==> user_span_ok(s, fallback),
        forall|s: (int, int, int)| #[trigger] live.contains(s) ==> s.0 != a,
    ensures
        forall|s: (int, int, int)|
            #[trigger] live.contains(s) ==> spans_disjoint((s.0, s.1), (a as int, size as int)),
{
    assert forall|s: (int, int, int)| #[trigger] live.contains(s) implies spans_disjoint(
        (s.0, s.1),
        (a as int, size as int),
    ) by {
        lemma_user_span_extent(s, fallback);
        let b = choose|b: int|
            (#[trigger] fallback.live@.contains((s.0, b)) && s.1 <= b && b >= NODE_SIZE);
        assert((s.0, b) != (a as int, bspan));
        assert(spans_disjoint((s.0, b), (a as int, bspan)));
    }
}

/// Class lists `i` excepted, `post` has the same class lists as `pre`.
pub open spec fn heads_eq_except(
    pre: FixedSizeBlockAllocator,
    post: FixedSizeBlockAllocator,
    i: int,
) -> bool {
    &&& post.list_heads@.len() == pre.list_heads@.len()
    &&& forall|j: int|
        0 <= j < pre.list_heads@.len() && j != i ==> (#[trigger] post.list_heads@[j])@
            == pre.list_heads@[j]@
}

/// `post` has the same class lists as `pre`.
pub open spec fn heads_eq(pre: FixedSizeBlockAllocator, post: FixedSizeBlockAllocator) -> bool {
    heads_eq_except(pre, post, -1)
}

/// What an allocation did to the segregated allocator. When the request
/// has a class and its list is non-empty, the head block is popped in O(1)
/// and the fallback is untouched. When the class list is empty, a block of
/// the class size is carved from the fallback; when the request has no
/// class, the request itself goes to the fallback. In both fallback cases
/// no class list is touched. A successful request becomes live.
pub open spec fn fsb_allocate_post(
    pre: FixedSizeBlockAllocator,
    post: FixedSizeBlockAllocator,
    r: Result<usize, AllocError>,
    size: int,
    align: int,
) -> bool {
    &&& match spec_list_index(size, align) {
        Some(i) => if pre.list_heads@[i]@.len() > 0 {
            &&& r == Ok::<usize, AllocError>(pre.list_heads@[i]@.last())
            &&& heads_eq_except(pre, post, i)
            &&& post.list_heads@[i]@ == pre.list_heads@[i]@.drop_last()
            &&& post.fallback_allocator == pre.fallback_allocator
        } else {
            &&& heads_eq(pre, post)
            &&& allocate_post(
                pre.fallback_allocator,
                post.fallback_allocator,
                r,
                spec_block_size(i),
                spec_block_size(i),
            )
        },
        None => {
            &&& heads_eq(pre, post)
            &&& allocate_post(pre.fallback_allocator, post.fallback_allocator, r, size, align)
        },
    }
    &&& match r {
        Ok(a) => post.live@ == pre.live@.insert((a as int, size, align)),
        Err(_) => post.live@ == pre.live@,
    }
}

/// What a deallocation did to the segregated allocator: a span with a
/// class is pushed onto that class's list head in O(1) — the fallback is
/// untouched and the block is never returned to it — while a classless
/// span goes back to the fallback. The span stops being live.
pub open spec fn fsb_deallocate_post(
    pre: FixedSizeBlockAllocator,
    post: FixedSizeBlockAllocator,
    addr: usize,
    size: int,
    align: int,
) -> bool {
    &&& match spec_list_index(size, align) {
        Some(i) => {
            &&& heads_eq_except(pre, post, i)
            &&& post.list_heads@[i]@ == pre.list_heads@[i]@.push(addr)
            &&& post.fallback_allocator == pre.fallback_allocator
        },
        None => {
            &&& heads_eq(pre, post)
            &&& deallocate_post(pre.fallback_allocator, post.fallback_allocator, addr, size, align)
        },
    }
    &&& post.live@ == pre.live@.remove((addr as int, size, align))
}

/// Pops the head block of class list `i`, if any.
fn class_pop(lists: &mut Vec<Vec<usize>>, i: usize) -> (r: Option<usize>)
    requires
        i < old(lists)@.len(),
    ensures
        final(lists)@.len() == old(lists)@.len(),
        forall|j: int|
            0 <= j < old(lists)@.len() && j != i ==> (#[trigger] final(lists)@[j])@
                == old(lists)@[j]@,
        old(lists)@[i as int]@.len() > 0 ==> r == Some(old(lists)@[i as int]@.last())
            && final(lists)@[i as int]@ == old(lists)@[i as int]@.drop_last(),
        old(lists)@[i as int]@.len() == 0 ==> r == None::<usize> && final(lists)@[i as int]@
            == old(lists)@[i as int]@,
{
    let inner = &mut lists[i];
    inner.pop()
}

/// Pushes a block onto the head of class list `i`.
fn class_push(lists: &mut Vec<Vec<usize>>, i: usize, addr: usize)
    requires
        i < old(lists)@.len(),
    ensures
        final(lists)@.len() == old(lists)@.len(),
        forall|j: int|
            0 <= j < old(lists)@.len() && j != i ==> (#[trigger] final(lists)@[j])@
                == old(lists)@[j]@,
        final(lists)@[i as int]@ == old(lists)@[i as int]@.push(addr),
{
    let inner = &mut lists[i];
    inner.push(addr);
}

/// Segregated allocator state: one stack of free block addresses per size
/// class — the last element is the list head — the embedded fallback
/// allocator, and the ghost set of live user allocations.
pub struct FixedSizeBlockAllocator {
    /// Free blocks of each class; `list_heads[i]` holds addresses of
    /// blocks of size `spec_block_size(i)`.
    pub list_heads: Vec<Vec<usize>>,
    /// The embedded free-list allocator serving empty classes and
    /// oversized requests.
    pub fallback_allocator: LinkedListAllocator,
    /// The live user allocations, as (address, size, alignment) triples.
    pub live: Ghost<Set<(int, int, int)>>,
}

impl FixedSizeBlockAllocator {
    /// The fallback is well-formed, there is one list per class, every
    /// listed block and live span is backed by a live fallback span, and
    /// all those backing spans are distinct.
    pub open spec fn wf(self) -> bool {
        &&& self.fallback_allocator.wf()
        &&& self.list_heads@.len() == NUM_CLASSES
        &&& forall|i: int, k: int|
            #![trigger self.list_heads@[i]@[k]]
            0 <= i < NUM_CLASSES && 0 <= k < self.list_heads@[i]@.len() ==> block_ok(
                self.list_heads@[i]@[k],
                i,
                self.fallback_allocator,
            )
        &&& forall|s: (int, int, int)|
            #[trigger] self.live@.contains(s) ==> user_span_ok(s, self.fallback_allocator)
        &&& forall|i1: int, k1: int, i2: int, k2: int|
            #![trigger self.list_heads@[i1]@[k1], self.list_heads@[i2]@[k2]]
            0 <= i1 < NUM_CLASSES && 0 <= k1 < self.list_heads@[i1]@.len() && 0 <= i2 < NUM_CLASSES
                && 0 <= k2 < self.list_heads@[i2]@.len() && (i1 != i2 || k1 != k2)
                ==> self.list_heads@[i1]@[k1] != self.list_heads@[i2]@[k2]
        &&& forall|i: int, k: int, s: (int, int, int)|
            #![trigger self.list_heads@[i]@[k], self.live@.contains(s)]
            0 <= i < NUM_CLASSES && 0 <= k < self.list_heads@[i]@.len() && self.live@.contains(s)
                ==> self.list_heads@[i]@[k] != s.0
        &&& forall|s: (int, int, int), t: (int, int, int)|
            #![trigger self.live@.contains(s), self.live@.contains(t)]
            self.live@.contains(s) && self.live@.contains(t) && s != t ==> s.0 != t.0
    }

    /// All class lists are empty and the two allocators agree on one heap.
    pub fn new() -> (r: FixedSizeBlockAllocator)
        ensures
            r.wf(),
            r.list_heads@.len() == NUM_CLASSES,
            forall|i: int| 0 <= i < NUM_CLASSES ==> (#[trigger] r.list_heads@[i])@.len() == 0,
            r.fallback_allocator.free@.len() == 0,
            r.fallback_allocator.live@ == Set::<(int, int)>::empty(),
            r.live@ == Set::<(int, int, int)>::empty(),
    {
        let mut heads: Vec<Vec<usize>> = Vec::new();
        let mut i: usize = 0;
        while i < NUM_CLASSES
            invariant
                i <= NUM_CLASSES,
                heads@.len() == i,
                forall|j: int| 0 <= j < i ==> (#[trigger] heads@[j])@.len() == 0,
            decreases NUM_CLASSES - i,
        {
            heads.push(Vec::new());
            i = i + 1;
        }
        FixedSizeBlockAllocator {
            list_heads: heads,
            fallback_allocator: LinkedListAllocator::new(),
            live: Ghost(Set::empty()),
        }
    }

    /// The class serving a request, or `None` for an oversized request.
    pub fn list_index(size: usize, align: usize) -> (r: Option<usize>)
        ensures
            match r {
                Some(i) => {
                    &&& spec_list_index(size as int, align as int) == Some(i as int)
                    &&& i < NUM_CLASSES
                    &&& size <= spec_block_size(i as int)
                    &&& align <= spec_block_size(i as int)
                },
                None => {
                    &&& spec_list_index(size as int, align as int) is None
                    &&& (size > 4096 || align > 4096)
                },
            },
    {
        let target = if size > align {
            size
        } else {
            align
        };
        if target <= 8 {
            Some(0)
        } else if target <= 16 {
            Some(1)
        } else if target <= 32 {
            Some(2)
        } else if target <= 64 {
            Some(3)
        } else if target <= 128 {
            Some(4)
        } else if target <= 256 {
            Some(5)
        } else if target <= 512 {
            Some(6)
        } else if target <= 1024 {
            Some(7)
        } else if target <= 2048 {
            Some(8)
        } else if target <= 4096 {
            Some(9)
        } else {
            None
        }
    }

    /// Adopts the heap range by initializing the embedded fallback
    /// allocator over all of it; classes are populated lazily from the
    /// fallback, never in bulk.
    pub fn init(&mut self, heap_start: usize, heap_size: usize)
        requires
            old(self).wf(),
            forall|i: int|
                0 <= i < NUM_CLASSES ==> (#[trigger] old(self).list_heads@[i])@.len() == 0,
            old(self).fallback_allocator.free@.len() == 0,
            old(self).fallback_allocator.live@ == Set::<(int, int)>::empty(),
            old(self).live@ == Set::<(int, int, int)>::empty(),
            heap_start as int % (NODE_ALIGN as int) == 0,
            heap_size >= NODE_SIZE,
            heap_start + heap_size <= usize::MAX,
        ensures
            final(self).wf(),
            final(self).list_heads@ == old(self).list_heads@,
            final(self).live@ == old(self).live@,
            final(self).fallback_allocator.heap_start == heap_start,
            final(self).fallback_allocator.heap_end == heap_start + heap_size,
            final(self).fallback_allocator.free@.len() == 1,
            final(self).fallback_allocator.live@ == Set::<(int, int)>::empty(),
    {
        self.fallback_allocator.init(heap_start, heap_size);
    }

    /// Serves a request: pops the head of the request's class list when
    /// one is there, and otherwise delegates to the fallback — for the
    /// class size when a class applies, for the raw request when none
    /// does. Failure leaves the allocator unchanged.
    pub fn do_alloc(&mut self, size: usize, align: usize) -> (r: Result<usize, AllocError>)
        requires
            old(self).wf(),
            is_power_of_two(align),
            size <= usize::MAX / 2,
            align <= usize::MAX / 2,
        ensures
            final(self).wf(),
            fsb_allocate_post(*old(self), *final(self), r, size as int, align as int),
            match r {
                Ok(a) => {
                    &&& a as int % align as int == 0
                    &&& old(self).fallback_allocator.heap_start <= a
                    &&& a + size <= old(self).fallback_allocator.heap_end
                    &&& forall|s: (int, int, int)|
                        #[trigger] old(self).live@.contains(s) ==> spans_disjoint(
                            (s.0, s.1),
                            (a as int, size as int),
                        )
                },
                Err(_) => true,
            },
    {
        proof {
            lemma_small_powers_of_two();
            lemma_power_of_two_pos(align);
        }
        match Self::list_index(size, align) {
            Some(index) => {
                let ghost i = index as int;
                let ghost bs = spec_block_size(i);
                proof {
                    lemma_block_span_size(i);
                }
                match class_pop(&mut self.list_heads, index) {
                    Some(addr) => {
                        proof {
                            let heads0 = old(self).list_heads@;
                            let k = heads0[i]@.len() - 1;
                            assert(addr == heads0[i]@[k]);
                            assert(block_ok(addr, i, self.fallback_allocator));
                            lemma_block_span_size(i);
                            lemma_pow2_divides(align, bs as usize);
                            lemma_mod_mod_zero(addr as int, bs, align as int);
                            lemma_block_disjoint_from_live(
                                old(self).live@,
                                self.fallback_allocator,
                                addr,
                                spec_block_span_size(i),
                                size,
                            );
                        }
                        self.live = Ghost(
                            self.live@.insert((addr as int, size as int, align as int)),
                        );
                        Ok(addr)
                    },
                    None => {
                        let block = block_size(index);
                        let r = self.fallback_allocator.allocate(block, block);
                        match r {
                            Ok(addr) => {
                                proof {
                                    lemma_block_span_size(i);
                                    lemma_pow2_divides(align, bs as usize);
                                    lemma_mod_mod_zero(addr as int, bs, align as int);
                                    lemma_fresh_span_disjoint_from_live(
                                        old(self).live@,
                                        old(self).fallback_allocator,
                                        addr,
                                        spec_block_span_size(i),
                                        size,
                                    );
                                }
                                self.live = Ghost(
                                    self.live@.insert((addr as int, size as int, align as int)),
                                );
                                Ok(addr)
                            },
                            Err(e) => Err(e),
                        }
                    },
                }
            },
            None => {
                let r = self.fallback_allocator.allocate(size, align);
                match r {
                    Ok(addr) => {
                        proof {
                            lemma_fresh_span_disjoint_from_live(
                                old(self).live@,
                                old(self).fallback_allocator,
                                addr,
                                spec_size_align(size as int, align as int).0,
                                size,
                            );
                        }
                        self.live = Ghost(
                            self.live@.insert((addr as int, size as int, align as int)),
                        );
                        Ok(addr)
                    },
                    Err(e) => Err(e),
                }
            },
        }
    }

    /// Returns an allocation. Size and alignment must be exactly what the
    /// matching `do_alloc` call was given. A span with a class goes onto
    /// that class's list head — the mechanics depend only on the class,
    /// not the request's exact size — and is never returned to the
    /// fallback; a classless span goes back to the fallback.
    pub fn do_dealloc(&mut self, addr: usize, size: usize, align: usize)
        requires
            old(self).wf(),
            is_power_of_two(align),
            size <= usize::MAX / 2,
            align <= usize::MAX / 2,
            old(self).live@.contains((addr as int, size as int, align as int)),
        ensures
            final(self).wf(),
            fsb_deallocate_post(*old(self), *final(self), addr, size as int, align as int),
    {
        let ghost span = (addr as int, size as int, align as int);
        match Self::list_index(size, align) {
            Some(index) => {
                proof {
                    assert(user_span_ok(span, self.fallback_allocator));
                }
                class_push(&mut self.list_heads, index, addr);
                self.live = Ghost(self.live@.remove(span));
            },
            None => {
                proof {
                    assert(user_span_ok(span, self.fallback_allocator));
                }
                self.live = Ghost(self.live@.remove(span));
                self.fallback_allocator.deallocate(addr, size, align);
            },
        }
    }
}

/// Steady state of a size class: freeing a span with a class puts its
/// block at the head of the class list, and the next request of the same
/// size and alignment pops exactly that block back — the fallback sees no
/// activity at all, and the class lists end as they began.
pub proof fn lemma_fixed_block_reuse(
    st0: FixedSizeBlockAllocator,
    st1: FixedSizeBlockAllocator,
    st2: FixedSizeBlockAllocator,
    addr: usize,
    size: usize,
    align: usize,
    r2: Result<usize, AllocError>,
)
    requires
        st0.list_heads@.len() == NUM_CLASSES,
        spec_list_index(size as int, align as int) is Some,
        fsb_deallocate_post(st0, st1, addr, size as int, align as int),
        fsb_allocate_post(st1, st2, r2, size as int, align as int),
    ensures
        r2 == Ok::<usize, AllocError>(addr),
        st2.fallback_allocator == st0.fallback_allocator,
        heads_eq(st0, st2),
{
    let i = spec_list_index(size as int, align as int)->Some_0;
    assert(st1.list_heads@[i]@.len() > 0);
    assert(st1.list_heads@[i]@.last() == addr);
    assert(st2.list_heads@[i]@ =~= st0.list_heads@[i]@);
}

/// Round trip through the fallback: freeing an oversized span — at an
/// address as aligned as the one `do_alloc` returned — puts it at the
/// head of the fallback's list, and the next request of the same size and
/// alignment is served from exactly that span, with every class list
/// still as it was.
pub proof fn lemma_oversized_round_trip(
    st0: FixedSizeBlockAllocator,
    st1: FixedSizeBlockAllocator,
    st2: FixedSizeBlockAllocator,
    addr: usize,
    size: usize,
    align: usize,
    r2: Result<usize, AllocError>,
)
    requires
        is_power_of_two(align),
        size <= usize::MAX / 2,
        align <= usize::MAX / 2,
        spec_list_index(size as int, align as int) is None,
        addr as int % spec_size_align(size as int, align as int).1 == 0,
        fsb_deallocate_post(st0, st1, addr, size as int, align as int),
        fsb_allocate_post(st1, st2, r2, size as int, align as int),
    ensures
        r2 == Ok::<usize, AllocError>(addr),
        heads_eq(st0, st2),
{
    let asize = spec_size_align(size as int, align as int).0;
    let aalign = spec_size_align(size as int, align as int).1;
    crate::allocator::linked_list::lemma_freed_span_is_reused(
        st0.fallback_allocator,
        st1.fallback_allocator,
        addr,
        size,
        align,
    );
    assert(crate::allocator::linked_list::region_fits(
        st1.fallback_allocator.free@[0],
        asize,
        aalign,
    ));
    match r2 {
        Ok(a) => {
            let i = choose|i: int|
                (crate::allocator::linked_list::first_fit_at(
                    st1.fallback_allocator.free@,
                    i,
                    asize,
                    aalign,
                ) && a == crate::allocator::spec_align_up(
                    st1.fallback_allocator.free@[i].addr as int,
                    aalign,
                ) && st2.fallback_allocator.free@ == crate::allocator::linked_list::carve(
                    st1.fallback_allocator.free@,
                    i,
                    asize,
                    aalign,
                ) && st2.fallback_allocator.live@ == st1.fallback_allocator.live@.insert(
                    (a as int, asize),
                ));
            assert(i == 0);
        },
        Err(_) => {
            assert(false);
        },
    }
}

/// Oversized requests — larger than the largest class — route through the
/// fallback allocator and never touch any size-class list.
pub proof fn lemma_oversized_goes_to_fallback(
    pre: FixedSizeBlockAllocator,
    post: FixedSizeBlockAllocator,
    r: Result<usize, AllocError>,
    size: int,
    align: int,
)
    requires
        spec_list_index(size, align) is None,
        fsb_allocate_post(pre, post, r, size, align),
    ensures
        heads_eq(pre, post),
        allocate_post(pre.fallback_allocator, post.fallback_allocator, r, size, align),
{
}

} // verus!
