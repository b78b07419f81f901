//! Interrupt numbering. The CPU reserves the first 32 vectors for
//! exceptions, so the two programmable interrupt controllers are remapped
//! directly after them; loading the descriptor table and acknowledging the
//! controllers is hardware work done by platform code.

use vstd::prelude::*;

verus! {

/// Vector base of the primary interrupt controller, directly after the 32
/// CPU exceptions.
pub const PIC_1_OFFSET: u8 = 32;

/// Vector base of the secondary controller, eight lines later.
pub const PIC_2_OFFSET: u8 = PIC_1_OFFSET + 8;

/// The interrupt vectors the kernel handles.
#[derive(Clone, Copy, Debug, PartialEq, Eq, Structural)]
pub enum InterruptIndex {
    /// The timer, on the primary controller's first line.
    Timer,
    /// The keyboard, on the primary controller's second line.
    Keyboard,
    /// The hard disk, on the secondary controller's seventh line.
    HardDisk,
    /// The software-interrupt vector for system calls.
    SystemCall,
}

impl InterruptIndex {
    /// The vector number of each interrupt.
    pub open spec fn spec_u8(self) -> u8 {
        match self {
            InterruptIndex::Timer => PIC_1_OFFSET,
            InterruptIndex::Keyboard => (PIC_1_OFFSET + 1) as u8,
            InterruptIndex::HardDisk => (PIC_2_OFFSET + 6) as u8,
            InterruptIndex::SystemCall => 0x80,
        }
    }

    /// The vector number as a byte.
    pub fn as_u8(self) -> (r: u8)
        ensures
            r == self.spec_u8(),
    {
        match self {
            InterruptIndex::Timer => PIC_1_OFFSET,
            InterruptIndex::Keyboard => PIC_1_OFFSET + 1,
            InterruptIndex::HardDisk => PIC_2_OFFSET + 6,
            InterruptIndex::SystemCall => 0x80,
        }
    }

    /// The vector number as a table index.
    pub fn as_usize(self) -> (r: usize)
        ensures
            r == self.spec_u8(),
    {
        self.as_u8() as usize
    }
}

} // verus!
