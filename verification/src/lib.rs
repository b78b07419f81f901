//! A library of verified kernel components, centred on a heap-allocation
//! subsystem with three interchangeable strategies: a bump allocator, a
//! free-list allocator, and a segregated fixed-size-block allocator.
//!
//! The allocators work over a fixed, pre-mapped heap address range and are
//! modelled on plain addresses: free-space bookkeeping is held in explicit
//! region and block tables rather than in headers embedded in raw memory, so
//! every allocation decision is stated and proved as ordinary arithmetic.

use vstd::prelude::*;

pub mod allocator;
pub mod cpu;
pub mod cpu_features;
pub mod cpuid;
pub mod interrupts;
pub mod keyboard;
pub mod memory;
pub mod sched;
pub mod vga_buffer;

verus! {

/// Something a test harness can run; harnesses report each test around
/// this one call.
pub trait Testable {
    /// Runs the test, panicking on failure.
    fn run(&self);
}

} // verus!
