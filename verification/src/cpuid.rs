//! Decoding of cpuid results. The cpuid instruction itself is executed by
//! platform code and its four registers are handed in as plain values;
//! everything here is pure bit extraction over those values, following the
//! field layout the architecture defines for each leaf.

use vstd::prelude::*;

verus! {

/// The four registers one cpuid invocation returns.
#[derive(Clone, Copy, Debug, PartialEq, Eq, Structural)]
pub struct CpuidRegs {
    pub eax: u32,
    pub ebx: u32,
    pub ecx: u32,
    pub edx: u32,
}

/// Whether the processor supports the cpuid instruction; every x86-64
/// processor does.
pub fn has_cpuid() -> (r: bool)
    ensures
        r,
{
    true
}

/// A byte of a 32-bit value, counted from the least significant.
pub open spec fn spec_u32_byte(x: u32, i: int) -> u8 {
    (((x >> ((8 * i) as u32)) & 0xff) as u8)
}

/// A byte of a 32-bit register, counted from the least significant.
pub fn u32_byte(x: u32, i: u32) -> (r: u8)
    requires
        i < 4,
    ensures
        r == spec_u32_byte(x, i as int),
{
    proof {
        let sh = (8 * i) as u32;
        assert((x >> sh) & 0xff < 256) by (bit_vector);
    }
    ((x >> (8 * i)) & 0xff) as u8
}

/// Basic processor signature: cpuid leaf 1, register eax.
#[derive(Clone, Copy, Debug, PartialEq, Eq, Structural)]
pub struct A0x1ResultEax {
    /// The raw register value.
    pub bits: u32,
}

impl A0x1ResultEax {
    /// Wraps the raw eax value of leaf 1.
    pub fn from_bits(bits: u32) -> (r: A0x1ResultEax)
        ensures
            r.bits == bits,
    {
        A0x1ResultEax { bits }
    }

    /// Stepping, bits 0..4.
    pub fn stepping(&self) -> (r: u32)
        ensures
            r == self.bits & 0xf,
            r < 0x10,
    {
        proof {
            let b = self.bits;
            assert(b & 0xf < 0x10) by (bit_vector);
        }
        self.bits & 0xf
    }

    /// Model, bits 4..8.
    pub fn model(&self) -> (r: u32)
        ensures
            r == (self.bits >> 4u32) & 0xf,
            r < 0x10,
    {
        proof {
            let b = self.bits;
            assert((b >> 4u32) & 0xf < 0x10) by (bit_vector);
        }
        (self.bits >> 4) & 0xf
    }

    /// Family, bits 8..12.
    pub fn family(&self) -> (r: u32)
        ensures
            r == (self.bits >> 8u32) & 0xf,
            r < 0x10,
    {
        proof {
            let b = self.bits;
            assert((b >> 8u32) & 0xf < 0x10) by (bit_vector);
        }
        (self.bits >> 8) & 0xf
    }

    /// Processor type, bits 12..14.
    pub fn processor_type(&self) -> (r: u32)
        ensures
            r == (self.bits >> 12u32) & 0x3,
            r < 4,
    {
        proof {
            let b = self.bits;
            assert((b >> 12u32) & 0x3 < 4) by (bit_vector);
        }
        (self.bits >> 12) & 0x3
    }

    /// Extended model, bits 16..20.
    pub fn extended_model(&self) -> (r: u32)
        ensures
            r == (self.bits >> 16u32) & 0xf,
            r < 0x10,
    {
        proof {
            let b = self.bits;
            assert((b >> 16u32) & 0xf < 0x10) by (bit_vector);
        }
        (self.bits >> 16) & 0xf
    }

    /// Extended family, bits 20..28.
    pub fn extended_family(&self) -> (r: u32)
        ensures
            r == (self.bits >> 20u32) & 0xff,
            r < 0x100,
    {
        proof {
            let b = self.bits;
            assert((b >> 20u32) & 0xff < 0x100) by (bit_vector);
        }
        (self.bits >> 20) & 0xff
    }
}

/// Miscellaneous processor information: cpuid leaf 1, register ebx.
#[derive(Clone, Copy, Debug, PartialEq, Eq, Structural)]
pub struct A0x1ResultEbx {
    /// The raw register value.
    pub bits: u32,
}

impl A0x1ResultEbx {
    /// Wraps the raw ebx value of leaf 1.
    pub fn from_bits(bits: u32) -> (r: A0x1ResultEbx)
        ensures
            r.bits == bits,
    {
        A0x1ResultEbx { bits }
    }

    /// Brand string table index, bits 0..8.
    pub fn brand_index(&self) -> (r: u32)
        ensures
            r == self.bits & 0xff,
            r < 0x100,
    {
        proof {
            let b = self.bits;
            assert(b & 0xff < 0x100) by (bit_vector);
        }
        self.bits & 0xff
    }

    /// Cache line size flushed by clflush, in 8-byte units; bits 8..16.
    pub fn clflush_size(&self) -> (r: u32)
        ensures
            r == (self.bits >> 8u32) & 0xff,
            r < 0x100,
    {
        proof {
            let b = self.bits;
            assert((b >> 8u32) & 0xff < 0x100) by (bit_vector);
        }
        (self.bits >> 8) & 0xff
    }

    /// Number of logical processors, bits 16..24.
    pub fn logical_processor_count(&self) -> (r: u32)
        ensures
            r == (self.bits >> 16u32) & 0xff,
            r < 0x100,
    {
        proof {
            let b = self.bits;
            assert((b >> 16u32) & 0xff < 0x100) by (bit_vector);
        }
        (self.bits >> 16) & 0xff
    }

    /// Initial local APIC id, bits 24..32.
    pub fn apic_id(&self) -> (r: u32)
        ensures
            r == (self.bits >> 24u32) & 0xff,
            r < 0x100,
    {
        proof {
            let b = self.bits;
            assert((b >> 24u32) & 0xff < 0x100) by (bit_vector);
        }
        (self.bits >> 24) & 0xff
    }
}

/// Feature flags: cpuid leaf 1, register edx.
#[derive(Clone, Copy, Debug, PartialEq, Eq, Structural)]
pub struct A0x1ResultEdx {
    /// The raw register value.
    pub bits: u32,
}

impl A0x1ResultEdx {
    /// Wraps the raw edx value of leaf 1.
    pub fn from_bits(bits: u32) -> (r: A0x1ResultEdx)
        ensures
            r.bits == bits,
    {
        A0x1ResultEdx { bits }
    }

    /// Onboard x87 floating point unit, bit 0.
    pub fn fpu(&self) -> (r: u32)
        ensures
            r == self.bits & 1,
            r < 2,
    {
        proof {
            let b = self.bits;
            assert(b & 1 < 2) by (bit_vector);
        }
        self.bits & 1
    }

    /// Time stamp counter, bit 4.
    pub fn tsc(&self) -> (r: u32)
        ensures
            r == (self.bits >> 4u32) & 1,
            r < 2,
    {
        proof {
            let b = self.bits;
            assert((b >> 4u32) & 1 < 2) by (bit_vector);
        }
        (self.bits >> 4) & 1
    }

    /// Model specific registers, bit 5.
    pub fn msr(&self) -> (r: u32)
        ensures
            r == (self.bits >> 5u32) & 1,
            r < 2,
    {
        proof {
            let b = self.bits;
            assert((b >> 5u32) & 1 < 2) by (bit_vector);
        }
        (self.bits >> 5) & 1
    }

    /// The clflush instruction, bit 19.
    pub fn clflush(&self) -> (r: u32)
        ensures
            r == (self.bits >> 19u32) & 1,
            r < 2,
    {
        proof {
            let b = self.bits;
            assert((b >> 19u32) & 1 < 2) by (bit_vector);
        }
        (self.bits >> 19) & 1
    }
}

/// Feature flags: cpuid leaf 1, register ecx.
#[derive(Clone, Copy, Debug, PartialEq, Eq, Structural)]
pub struct A0x1ResultEcx {
    /// The raw register value.
    pub bits: u32,
}

impl A0x1ResultEcx {
    /// Wraps the raw ecx value of leaf 1.
    pub fn from_bits(bits: u32) -> (r: A0x1ResultEcx)
        ensures
            r.bits == bits,
    {
        A0x1ResultEcx { bits }
    }

    /// Streaming SIMD extensions 3, bit 0.
    pub fn sse3(&self) -> (r: u32)
        ensures
            r == self.bits & 1,
            r < 2,
    {
        proof {
            let b = self.bits;
            assert(b & 1 < 2) by (bit_vector);
        }
        self.bits & 1
    }

    /// The monitor and mwait instructions, bit 3.
    pub fn monitor(&self) -> (r: u32)
        ensures
            r == (self.bits >> 3u32) & 1,
            r < 2,
    {
        proof {
            let b = self.bits;
            assert((b >> 3u32) & 1 < 2) by (bit_vector);
        }
        (self.bits >> 3) & 1
    }

    /// Direct cache access, bit 18.
    pub fn dca(&self) -> (r: u32)
        ensures
            r == (self.bits >> 18u32) & 1,
            r < 2,
    {
        proof {
            let b = self.bits;
            assert((b >> 18u32) & 1 < 2) by (bit_vector);
        }
        (self.bits >> 18) & 1
    }

    /// The xsave and xrstor instructions, bit 26.
    pub fn xsave(&self) -> (r: u32)
        ensures
            r == (self.bits >> 26u32) & 1,
            r < 2,
    {
        proof {
            let b = self.bits;
            assert((b >> 26u32) & 1 < 2) by (bit_vector);
        }
        (self.bits >> 26) & 1
    }
}

} // verus!
