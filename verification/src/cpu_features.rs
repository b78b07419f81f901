//! CPU feature bookkeeping: a fixed array of 32-bit capability slots,
//! addressed by (slot, offset) locations, mirroring how cpuid leaves are
//! folded into one feature bitmap.

use vstd::prelude::*;

verus! {

/// Number of 32-bit capability slots.
pub const CPU_CAPABILITY_SIZE: usize = 10;

/// A position in the capability bitmap: which 32-bit slot, and which bit
/// of it.
#[derive(Clone, Copy, Debug, PartialEq, Eq, Structural)]
pub struct CapabilityBitLocation {
    /// Index of the 32-bit slot.
    pub slot: u16,
    /// Bit offset inside the slot.
    pub offset: u16,
}

impl CapabilityBitLocation {
    /// A location addresses an existing slot and a bit inside a 32-bit
    /// word.
    pub open spec fn wf(self) -> bool {
        self.slot < CPU_CAPABILITY_SIZE && self.offset < 32
    }

    /// The location as a flat bit position.
    pub fn get_position(&self) -> (r: u16)
        requires
            self.wf(),
        ensures
            r == self.slot * 32 + self.offset,
    {
        self.slot * 32 + self.offset
    }

    /// The location of a flat bit position.
    pub fn from_position(pos: u16) -> (r: CapabilityBitLocation)
        ensures
            r.slot == pos / 32,
            r.offset == pos % 32,
            pos < 32 * CPU_CAPABILITY_SIZE ==> r.wf(),
    {
        CapabilityBitLocation { slot: pos / 32, offset: pos % 32 }
    }
}

/// The CPU's feature bitmap, one 32-bit slot per cpuid register read.
pub struct CpuCapabilityBits {
    /// The capability slots.
    pub slots: Vec<u32>,
}

impl CpuCapabilityBits {
    /// The bitmap always holds exactly `CPU_CAPABILITY_SIZE` slots.
    pub open spec fn wf(self) -> bool {
        self.slots@.len() == CPU_CAPABILITY_SIZE
    }

    /// Whether the bit at `pos` is set.
    pub open spec fn spec_bit(self, pos: CapabilityBitLocation) -> bool {
        self.slots@[pos.slot as int] & (1u32 << pos.offset as u32) != 0
    }

    /// All slots zero: no feature known.
    pub fn new() -> (r: CpuCapabilityBits)
        ensures
            r.wf(),
            forall|i: int| 0 <= i < CPU_CAPABILITY_SIZE ==> r.slots@[i] == 0u32,
    {
        let mut slots: Vec<u32> = Vec::new();
        let mut i: usize = 0;
        while i < CPU_CAPABILITY_SIZE
            invariant
                i <= CPU_CAPABILITY_SIZE,
                slots@.len() == i,
                forall|j: int| 0 <= j < i ==> slots@[j] == 0u32,
            decreases CPU_CAPABILITY_SIZE - i,
        {
            slots.push(0);
            i = i + 1;
        }
        CpuCapabilityBits { slots }
    }

    /// Sets the bit at `pos`, leaving every other slot untouched.
    pub fn set_bit(&mut self, pos: &CapabilityBitLocation)
        requires
            old(self).wf(),
            pos.wf(),
        ensures
            final(self).wf(),
            final(self).slots@ == old(self).slots@.update(
                pos.slot as int,
                old(self).slots@[pos.slot as int] | (1u32 << pos.offset as u32),
            ),
    {
        let p = &mut self.slots[pos.slot as usize];
        *p = *p | (1u32 << (pos.offset as u32));
    }

    /// Whether the bit at `pos` is set.
    pub fn get_bit(&self, pos: &CapabilityBitLocation) -> (r: bool)
        requires
            self.wf(),
            pos.wf(),
        ensures
            r == self.spec_bit(*pos),
    {
        self.slots[pos.slot as usize] & (1u32 << (pos.offset as u32)) != 0
    }

    /// Clears the bit at `pos`, leaving every other slot untouched.
    pub fn clear_bit(&mut self, pos: &CapabilityBitLocation)
        requires
            old(self).wf(),
            pos.wf(),
        ensures
            final(self).wf(),
            final(self).slots@ == old(self).slots@.update(
                pos.slot as int,
                old(self).slots@[pos.slot as int] & !(1u32 << pos.offset as u32),
            ),
    {
        let p = &mut self.slots[pos.slot as usize];
        *p = *p & !(1u32 << (pos.offset as u32));
    }

    /// Overwrites one whole slot.
    pub fn set_slot(&mut self, slot: usize, value: u32)
        requires
            old(self).wf(),
            slot < CPU_CAPABILITY_SIZE,
        ensures
            final(self).wf(),
            final(self).slots@ == old(self).slots@.update(slot as int, value),
    {
        let p = &mut self.slots[slot];
        *p = value;
    }

    /// Reads one whole slot.
    pub fn get_slot_ref(&self, slot: usize) -> (r: &u32)
        requires
            self.wf(),
            slot < CPU_CAPABILITY_SIZE,
        ensures
            *r == self.slots@[slot as int],
    {
        &self.slots[slot]
    }

    /// Exclusive access to one whole slot.
    pub fn get_slot_mut(&mut self, slot: usize) -> (r: &mut u32)
        requires
            old(self).wf(),
            slot < CPU_CAPABILITY_SIZE,
        ensures
            *r == old(self).slots@[slot as int],
            final(self).slots@ == old(self).slots@.update(slot as int, *final(r)),
    {
        &mut self.slots[slot]
    }
}

/// Setting a bit makes exactly that bit true: the named location reads as
/// set afterwards, and every other location keeps its value.
pub proof fn lemma_set_bit_effect(
    pre: CpuCapabilityBits,
    post: CpuCapabilityBits,
    pos: CapabilityBitLocation,
    q: CapabilityBitLocation,
)
    requires
        pre.wf(),
        pos.wf(),
        q.wf(),
        post.slots@ == pre.slots@.update(
            pos.slot as int,
            pre.slots@[pos.slot as int] | (1u32 << pos.offset as u32),
        ),
    ensures
        post.spec_bit(pos),
        q != pos ==> post.spec_bit(q) == pre.spec_bit(q),
{
    let x = pre.slots@[pos.slot as int];
    let o = pos.offset as u32;
    assert((x | (1u32 << o)) & (1u32 << o) != 0) by (bit_vector)
        requires
            o < 32,
    ;
    if q != pos {
        if q.slot == pos.slot {
            let o2 = q.offset as u32;
            assert((x | (1u32 << o)) & (1u32 << o2) == x & (1u32 << o2)) by (bit_vector)
                requires
                    o < 32,
                    o2 < 32,
                    o != o2,
            ;
        }
    }
}

/// Clearing a bit makes exactly that bit false: the named location reads
/// as clear afterwards, and every other location keeps its value.
pub proof fn lemma_clear_bit_effect(
    pre: CpuCapabilityBits,
    post: CpuCapabilityBits,
    pos: CapabilityBitLocation,
    q: CapabilityBitLocation,
)
    requires
        pre.wf(),
        pos.wf(),
        q.wf(),
        post.slots@ == pre.slots@.update(
            pos.slot as int,
            pre.slots@[pos.slot as int] & !(1u32 << pos.offset as u32),
        ),
    ensures
        !post.spec_bit(pos),
        q != pos ==> post.spec_bit(q) == pre.spec_bit(q),
{
    let x = pre.slots@[pos.slot as int];
    let o = pos.offset as u32;
    assert((x & !(1u32 << o)) & (1u32 << o) == 0) by (bit_vector)
        requires
            o < 32,
    ;
    if q != pos {
        if q.slot == pos.slot {
            let o2 = q.offset as u32;
            assert((x & !(1u32 << o)) & (1u32 << o2) == x & (1u32 << o2)) by (bit_vector)
                requires
                    o < 32,
                    o2 < 32,
                    o != o2,
            ;
        }
    }
}

} // verus!
