//! Physical-frame allocation over the boot-time memory map, and
//! page-table entry decoding for the four-level x86-64 walk. Platform
//! code supplies the memory map as plain region values and reads table
//! entries from mapped memory; which frame comes next, what an entry
//! means — present, huge, and which frame it points to — and how a
//! virtual address slices into table indexes is decided here.

use vstd::prelude::*;
use vstd::arithmetic::div_mod::{lemma_fundamental_div_mod, lemma_fundamental_div_mod_converse};

verus! {

/// Mask of the frame address bits of a page-table entry: bits 12..52.
pub const FRAME_ADDR_MASK: u64 = 0x000f_ffff_ffff_f000;

/// Why one step of a page-table walk cannot continue.
#[derive(Clone, Copy, Debug, PartialEq, Eq, Structural)]
pub enum WalkError {
    /// The entry's present bit is clear: the address is not mapped.
    NotPresent,
    /// The entry maps a huge page, which this walk does not support.
    HugeFrame,
}

/// A frame allocator that never has a frame to give out.
pub struct EmptyFrameAllocator;

impl EmptyFrameAllocator {
    /// Never allocates.
    pub fn allocate_frame(&mut self) -> (r: Option<u64>)
        ensures
            r is None,
    {
        None
    }
}

/// Size of a physical frame in bytes.
pub const FRAME_SIZE: u64 = 4096;

/// One region of the boot-time memory map, as plain values: its byte
/// range and whether the bootloader marked it usable.
#[derive(Clone, Copy, Debug, PartialEq, Eq, Structural)]
pub struct MemoryRegion {
    /// First byte of the region.
    pub start: u64,
    /// One past the last byte of the region.
    pub end: u64,
    /// Whether the region is free for the kernel to use.
    pub usable: bool,
}

/// How many frame addresses a region contributes: one per started frame
/// size of its extent, none when it is unusable or empty.
pub open spec fn region_frame_count(r: MemoryRegion) -> int {
    if r.usable && r.start < r.end {
        (r.end - r.start + FRAME_SIZE - 1) / (FRAME_SIZE as int)
    } else {
        0
    }
}

/// The `k`-th frame of a region: the frame containing the `k`-th
/// frame-size step from the region's start.
pub open spec fn region_frame(r: MemoryRegion, k: int) -> int {
    ((r.start + FRAME_SIZE * k) / (FRAME_SIZE as int)) * (FRAME_SIZE as int)
}

/// The `n`-th usable frame of the whole memory map, counting region by
/// region, or none when the map holds fewer.
pub open spec fn spec_nth_frame(regions: Seq<MemoryRegion>, n: int) -> Option<u64>
    decreases regions.len(),
{
    if regions.len() == 0 {
        None
    } else {
        let c = region_frame_count(regions[0]);
        if n < c {
            Some(region_frame(regions[0], n) as u64)
        } else {
            spec_nth_frame(regions.drop_first(), n - c)
        }
    }
}

/// Allocates physical frames out of the usable regions of the boot-time
/// memory map, in order, never reusing one.
pub struct BootInfoFrameAllocator {
    /// The boot-time memory map.
    pub memory_map: Vec<MemoryRegion>,
    /// Index of the next usable frame to hand out.
    pub next: usize,
}

impl BootInfoFrameAllocator {
    /// An allocator over the given map. The caller vouches that the
    /// usable regions are really free and unaliased.
    pub fn init(memory_map: Vec<MemoryRegion>) -> (r: BootInfoFrameAllocator)
        ensures
            r.memory_map@ == memory_map@,
            r.next == 0,
    {
        BootInfoFrameAllocator { memory_map, next: 0 }
    }

    /// Hands out the next usable frame of the map, if one is left.
    pub fn allocate_frame(&mut self) -> (r: Option<u64>)
        requires
            old(self).next < usize::MAX,
        ensures
            final(self).memory_map@ == old(self).memory_map@,
            final(self).next == old(self).next + 1,
            r == spec_nth_frame(old(self).memory_map@, old(self).next as int),
    {
        let frame = Self::nth_frame(&self.memory_map, self.next);
        self.next = self.next + 1;
        frame
    }

    /// The `n`-th usable frame of the map.
    fn nth_frame(regions: &Vec<MemoryRegion>, n: usize) -> (r: Option<u64>)
        ensures
            r == spec_nth_frame(regions@, n as int),
    {
        let mut skip: u64 = n as u64;
        let mut i: usize = 0;
        proof {
            assert(regions@.skip(0) =~= regions@);
        }
        while i < regions.len()
            invariant
                i <= regions@.len(),
                spec_nth_frame(regions@, n as int) == spec_nth_frame(
                    regions@.skip(i as int),
                    skip as int,
                ),
            decreases regions@.len() - i,
        {
            let r = regions[i];
            proof {
                assert(regions@.skip(i as int)[0] == regions@[i as int]);
                assert(regions@.skip(i as int).drop_first() =~= regions@.skip(i + 1));
            }
            let count: u64 = if r.usable && r.start < r.end {
                let c = (r.end - 1 - r.start) / FRAME_SIZE + 1;
                proof {
                    let d = r.end - r.start;
                    let q = (d - 1) as int / FRAME_SIZE as int;
                    lemma_fundamental_div_mod(d - 1, FRAME_SIZE as int);
                    lemma_fundamental_div_mod_converse(
                        d + FRAME_SIZE - 1,
                        FRAME_SIZE as int,
                        q + 1,
                        (d - 1) as int % FRAME_SIZE as int,
                    );
                }
                c
            } else {
                0
            };
            if skip < count {
                let addr = r.start + FRAME_SIZE * skip;
                proof {
                    let d = r.end - r.start;
                    assert(FRAME_SIZE * skip < d) by (nonlinear_arith)
                        requires
                            0 <= skip as int <= (d + FRAME_SIZE - 1) / (FRAME_SIZE as int) - 1,
                            d >= 1,
                            ((d + FRAME_SIZE - 1) / (FRAME_SIZE as int)) * (FRAME_SIZE as int)
                                <= d + FRAME_SIZE - 1,
                    ;
                    assert(((d + FRAME_SIZE - 1) / (FRAME_SIZE as int)) * (FRAME_SIZE as int) <= d
                        + FRAME_SIZE - 1) by {
                        lemma_fundamental_div_mod(d + FRAME_SIZE - 1, FRAME_SIZE as int);
                        vstd::arithmetic::div_mod::lemma_mod_bound(
                            d + FRAME_SIZE - 1,
                            FRAME_SIZE as int,
                        );
                        assert(((d + FRAME_SIZE - 1) / (FRAME_SIZE as int)) * (FRAME_SIZE as int)
                            == d + FRAME_SIZE - 1 - (d + FRAME_SIZE - 1) % (FRAME_SIZE as int))
                            by (nonlinear_arith)
                            requires
                                d + FRAME_SIZE - 1 == (FRAME_SIZE as int) * ((d + FRAME_SIZE - 1)
                                    / (FRAME_SIZE as int)) + (d + FRAME_SIZE - 1) % (
                                FRAME_SIZE as int),
                        ;
                    }
                }
                let frame = (addr / FRAME_SIZE) * FRAME_SIZE;
                proof {
                    lemma_fundamental_div_mod(addr as int, FRAME_SIZE as int);
                    vstd::arithmetic::div_mod::lemma_mod_bound(addr as int, FRAME_SIZE as int);
                    assert((addr as int / FRAME_SIZE as int) * (FRAME_SIZE as int) == addr as int
                        - addr as int % FRAME_SIZE as int) by (nonlinear_arith)
                        requires
                            addr as int == (FRAME_SIZE as int) * (addr as int / FRAME_SIZE as int)
                                + addr as int % FRAME_SIZE as int,
                    ;
                }
                return Some(frame);
            }
            skip = skip - count;
            i = i + 1;
        }
        proof {
            assert(regions@.skip(i as int) =~= Seq::<MemoryRegion>::empty());
        }
        None
    }
}

/// The page-table index of `addr` for `level` (4 down to 1): nine bits
/// starting at bit 12 for level 1, shifted nine more for each level above.
pub fn page_table_index(addr: u64, level: u32) -> (r: u64)
    requires
        1 <= level <= 4,
    ensures
        r == (addr >> ((12 + 9 * (level - 1)) as u64)) & 0x1ff,
        r < 512,
{
    proof {
        let sh = ((12 + 9 * (level - 1)) as u64);
        let a = addr;
        assert((a >> sh) & 0x1ff < 512) by (bit_vector);
    }
    (addr >> (12 + 9 * (level - 1)) as u64) & 0x1ff
}

/// The byte offset of `addr` inside its 4 KiB page.
pub fn page_offset(addr: u64) -> (r: u64)
    ensures
        r == addr & 0xfff,
        r < 4096,
{
    proof {
        let a = addr;
        assert(a & 0xfff < 4096) by (bit_vector);
    }
    addr & 0xfff
}

/// One step of the walk: a present, non-huge entry hands back the
/// physical frame address the next level (or the final page) lives at.
pub fn walk_step(entry: u64) -> (r: Result<u64, WalkError>)
    ensures
        entry & 1 == 0 ==> r == Err::<u64, WalkError>(WalkError::NotPresent),
        entry & 1 != 0 && entry & 0x80 != 0 ==> r == Err::<u64, WalkError>(WalkError::HugeFrame),
        entry & 1 != 0 && entry & 0x80 == 0 ==> r == Ok::<u64, WalkError>(
            entry & FRAME_ADDR_MASK,
        ),
{
    if entry & 1 == 0 {
        Err(WalkError::NotPresent)
    } else if entry & 0x80 != 0 {
        Err(WalkError::HugeFrame)
    } else {
        Ok(entry & FRAME_ADDR_MASK)
    }
}

} // verus!
