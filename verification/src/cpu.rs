//! The processor description and the decision logic that fills it in.
//! Platform code executes the cpuid instruction and hands the raw register
//! values here; everything below is pure decoding and bookkeeping over
//! those values.

use vstd::prelude::*;
use crate::cpu_features::{
    lemma_clear_bit_effect, lemma_set_bit_effect, CapabilityBitLocation, CpuCapabilityBits,
};
use crate::cpuid::{
    spec_u32_byte, u32_byte, A0x1ResultEax, A0x1ResultEbx, A0x1ResultEdx, CpuidRegs,
};

verus! {

/// Length of the vendor identification buffer.
pub const VENDOR_ID_SIZE: usize = 16;

/// The fixed-up CPU family of cpuid leaf 1: the extended family is added
/// in when the base family is 0xf, truncated as byte arithmetic.
pub open spec fn spec_family(eax1: u32) -> u8 {
    let base = (eax1 >> 8u32) & 0xf;
    let ext = (eax1 >> 20u32) & 0xff;
    if base == 0xf {
        spec_u32_byte((base + ext) as u32, 0)
    } else {
        base as u8
    }
}

/// The fixed-up CPU model of cpuid leaf 1: the extended model occupies the
/// high nibble when the base family is 0x6.
pub open spec fn spec_model(eax1: u32) -> u8 {
    let base = (eax1 >> 4u32) & 0xf;
    let ext = (eax1 >> 16u32) & 0xf;
    let fam = (eax1 >> 8u32) & 0xf;
    if fam == 0x6 {
        ((base + ext * 16) as u8)
    } else {
        base as u8
    }
}

/// Writes the four little-endian bytes of `x` into `v` at `at`.
fn write_u32_le(v: &mut Vec<u8>, at: usize, x: u32)
    requires
        at <= usize::MAX - 4,
        at + 4 <= old(v)@.len(),
    ensures
        final(v)@.len() == old(v)@.len(),
        forall|j: int| 0 <= j < 4 ==> final(v)@[at + j] == spec_u32_byte(x, j),
        forall|j: int|
            0 <= j < old(v)@.len() && !(at <= j < at + 4) ==> final(v)@[j] == old(v)@[j],
{
    let b0 = u32_byte(x, 0);
    let b1 = u32_byte(x, 1);
    let b2 = u32_byte(x, 2);
    let b3 = u32_byte(x, 3);
    let p0 = &mut v[at];
    *p0 = b0;
    let p1 = &mut v[at + 1];
    *p1 = b1;
    let p2 = &mut v[at + 2];
    *p2 = b2;
    let p3 = &mut v[at + 3];
    *p3 = b3;
}

/// Description of the processor, filled in from cpuid results.
pub struct Cpu {
    /// CPU family, after the extended-family fixup.
    pub family: u8,
    /// CPU model, after the extended-model fixup.
    pub model: u8,
    /// Stepping.
    pub mask: u8,
    /// Cache line size flushed by clflush, in bytes.
    pub clflush_size: u16,
    /// Physical address width in bits.
    pub phys_bits: u8,
    /// Virtual address width in bits.
    pub virt_bits: u8,
    /// L1 cache line size in bytes; defaults to the clflush size.
    pub cache_alignment: u32,
    /// Vendor identification string bytes.
    pub vendor_id: Vec<u8>,
    /// Highest basic cpuid leaf the processor supports.
    pub cpu_level: u32,
    /// The feature bitmap.
    pub capability: CpuCapabilityBits,
    /// Highest extended cpuid leaf the processor supports.
    pub extended_cpuid_level: u32,
    /// Advanced power management information.
    pub power: u32,
    /// Index of this processor among its siblings.
    pub smp_index: u16,
}

impl Cpu {
    /// The vendor buffer and the capability bitmap have their fixed sizes.
    pub open spec fn wf(self) -> bool {
        &&& self.vendor_id@.len() == VENDOR_ID_SIZE
        &&& self.capability.wf()
    }

    /// Architectural defaults for x86-64, before any cpuid probing: a
    /// 64-byte cache line, 52 physical and 48 virtual address bits.
    pub fn new() -> (r: Cpu)
        ensures
            r.wf(),
            r.family == 4,
            r.model == 0,
            r.mask == 0,
            r.clflush_size == 64,
            r.phys_bits == 52,
            r.virt_bits == 48,
            r.cache_alignment == 64,
            forall|j: int| 0 <= j < VENDOR_ID_SIZE ==> r.vendor_id@[j] == 0u8,
            r.cpu_level == 0,
            forall|j: int|
                0 <= j < crate::cpu_features::CPU_CAPABILITY_SIZE ==> r.capability.slots@[j]
                    == 0u32,
            r.extended_cpuid_level == 0,
            r.power == 0,
            r.smp_index == 0,
    {
        let clflush_size: u16 = 64;
        let phys_bits: u8 = 52;
        let virt_bits: u8 = 48;
        let cache_alignment = clflush_size as u32;
        let mut vendor_id: Vec<u8> = Vec::new();
        let mut i: usize = 0;
        while i < VENDOR_ID_SIZE
            invariant
                i <= VENDOR_ID_SIZE,
                vendor_id@.len() == i,
                forall|j: int| 0 <= j < i ==> vendor_id@[j] == 0u8,
            decreases VENDOR_ID_SIZE - i,
        {
            vendor_id.push(0);
            i = i + 1;
        }
        Cpu {
            family: 4,
            model: 0,
            mask: 0,
            clflush_size,
            phys_bits,
            virt_bits,
            cache_alignment,
            vendor_id,
            cpu_level: 0,
            capability: CpuCapabilityBits::new(),
            extended_cpuid_level: 0,
            power: 0,
            smp_index: 0,
        }
    }

    /// Whether the feature at `pos` has been detected.
    pub fn has_feature(&self, pos: &CapabilityBitLocation) -> (r: bool)
        requires
            self.wf(),
            pos.wf(),
        ensures
            r == self.capability.spec_bit(*pos),
    {
        self.capability.get_bit(pos)
    }

    /// Decodes the basic identification leaves: leaf 0 gives the vendor
    /// string and the highest supported leaf, leaf 1 the family, model and
    /// stepping — with the architectural extended-family and -model
    /// fixups — and the clflush line size.
    pub fn detect(&mut self, leaf0: CpuidRegs, leaf1: CpuidRegs)
        requires
            old(self).wf(),
        ensures
            final(self).wf(),
            final(self).cpu_level == leaf0.eax,
            forall|j: int| 0 <= j < 4 ==> final(self).vendor_id@[j] == spec_u32_byte(leaf0.ebx, j),
            forall|j: int|
                0 <= j < 4 ==> final(self).vendor_id@[4 + j] == spec_u32_byte(leaf0.edx, j),
            forall|j: int|
                0 <= j < 4 ==> final(self).vendor_id@[8 + j] == spec_u32_byte(leaf0.ecx, j),
            forall|j: int|
                12 <= j < VENDOR_ID_SIZE ==> final(self).vendor_id@[j] == old(self).vendor_id@[j],
            leaf0.eax >= 1 ==> final(self).family == spec_family(leaf1.eax) && final(self).model
                == spec_model(leaf1.eax) && final(self).mask == (leaf1.eax & 0xf) as u8,
            leaf0.eax < 1 ==> final(self).family == old(self).family
                && final(self).model == old(self).model && final(self).mask == old(self).mask,
            (leaf0.eax >= 1 && (leaf1.edx >> 19u32) & 1 != 0) ==> final(self).clflush_size == 8 * (
            (leaf1.ebx >> 8u32) & 0xff) && final(self).cache_alignment == final(self).clflush_size,
            !(leaf0.eax >= 1 && (leaf1.edx >> 19u32) & 1 != 0)
                ==> final(self).clflush_size == old(self).clflush_size
                && final(self).cache_alignment == old(self).cache_alignment,
            final(self).phys_bits == old(self).phys_bits,
            final(self).virt_bits == old(self).virt_bits,
            final(self).capability == old(self).capability,
            final(self).extended_cpuid_level == old(self).extended_cpuid_level,
            final(self).power == old(self).power,
            final(self).smp_index == old(self).smp_index,
    {
        self.cpu_level = leaf0.eax;
        write_u32_le(&mut self.vendor_id, 0, leaf0.ebx);
        write_u32_le(&mut self.vendor_id, 4, leaf0.edx);
        write_u32_le(&mut self.vendor_id, 8, leaf0.ecx);
        if self.cpu_level >= 1 {
            let eax_result = A0x1ResultEax::from_bits(leaf1.eax);
            let ebx_result = A0x1ResultEbx::from_bits(leaf1.ebx);
            let edx_result = A0x1ResultEdx::from_bits(leaf1.edx);
            let base_family = eax_result.family();
            let base_model = eax_result.model();
            self.mask = eax_result.stepping() as u8;
            if base_family == 0xf {
                self.family = u32_byte(base_family + eax_result.extended_family(), 0);
            } else {
                self.family = base_family as u8;
            }
            if base_family == 0x6 {
                self.model = (base_model + eax_result.extended_model() * 16) as u8;
            } else {
                self.model = base_model as u8;
            }
            if edx_result.clflush() > 0 {
                self.clflush_size = (8 * ebx_result.clflush_size()) as u16;
                self.cache_alignment = self.clflush_size as u32;
            }
        }
    }

    /// Fills the capability slots from the feature leaves: the
    /// Intel-defined flags of leaf 1, the additional flags of leaf 7, and
    /// the AMD-defined flags of the extended leaves, along with the
    /// address widths and power information the extended leaves report.
    /// Each leaf's registers are used only when the probed cpuid levels
    /// say the leaf exists.
    pub fn get_cpu_cap(
        &mut self,
        leaf1: CpuidRegs,
        leaf7: CpuidRegs,
        ext0: CpuidRegs,
        ext1: CpuidRegs,
        ext7: CpuidRegs,
        ext8: CpuidRegs,
    )
        requires
            old(self).wf(),
        ensures
            final(self).wf(),
            final(self).extended_cpuid_level == ext0.eax,
            forall|j: int|
                0 <= j < crate::cpu_features::CPU_CAPABILITY_SIZE
                    ==> final(self).capability.slots@[j] == spec_cap_slot(
                    j,
                    old(self).capability.slots@[j],
                    old(self).cpu_level,
                    leaf1,
                    leaf7,
                    ext0,
                    ext1,
                ),
            ext0.eax >= 0x8000_0008 ==> final(self).virt_bits == spec_u32_byte(ext8.eax, 1)
                && final(self).phys_bits == spec_u32_byte(ext8.eax, 0),
            ext0.eax < 0x8000_0008 ==> final(self).virt_bits == old(self).virt_bits
                && final(self).phys_bits == old(self).phys_bits,
            ext0.eax >= 0x8000_0007 ==> final(self).power == ext7.edx,
            ext0.eax < 0x8000_0007 ==> final(self).power == old(self).power,
            final(self).family == old(self).family,
            final(self).model == old(self).model,
            final(self).mask == old(self).mask,
            final(self).clflush_size == old(self).clflush_size,
            final(self).cache_alignment == old(self).cache_alignment,
            final(self).vendor_id@ == old(self).vendor_id@,
            final(self).cpu_level == old(self).cpu_level,
            final(self).smp_index == old(self).smp_index,
    {
        // Intel-defined flags: level 0x0000_0001.
        if self.cpu_level >= 0x1 {
            self.capability.set_slot(0, leaf1.edx);
            self.capability.set_slot(4, leaf1.ecx);
        }
        // Additional Intel-defined flags: level 0x0000_0007.
        if self.cpu_level >= 0x7 {
            if leaf7.eax > 0 {
                self.capability.set_slot(9, leaf7.ebx);
            }
        }
        // AMD-defined flags: level 0x8000_0001.
        let xlvl = ext0.eax;
        self.extended_cpuid_level = xlvl;
        if xlvl & 0xffff_0000 == 0x8000_0000 {
            if xlvl >= 0x8000_0001 {
                self.capability.set_slot(1, ext1.edx);
                self.capability.set_slot(6, ext1.ecx);
            }
        }
        if xlvl >= 0x8000_0008 {
            self.virt_bits = u32_byte(ext8.eax, 1);
            self.phys_bits = u32_byte(ext8.eax, 0);
        }
        if xlvl >= 0x8000_0007 {
            self.power = ext7.edx;
        }
    }
}

/// Whether the cpuid level a feature depends on is available: extended
/// levels — those at or above 0x8000_0000, negative as signed words — are
/// measured against the extended level, basic ones against the basic
/// level.
pub open spec fn spec_level_available(level: u32, cpu_level: u32, extended_cpuid_level: u32) -> bool {
    if level >= 0x8000_0000 {
        level <= extended_cpuid_level
    } else {
        level <= cpu_level
    }
}

/// Drops features whose cpuid leaves the processor does not actually
/// provide: monitor/mwait needs leaf 0x5, direct cache access leaf 0x9,
/// and xsave leaf 0xd. Every other bit and field is untouched.
pub fn filter_cpu_features(cpu: &mut Cpu)
    requires
        old(cpu).wf(),
    ensures
        final(cpu).wf(),
        forall|p: CapabilityBitLocation|
            #[trigger] p.wf() ==> final(cpu).capability.spec_bit(p) == (old(
                cpu,
            ).capability.spec_bit(p) && (!spec_filtered_feature(p) || spec_level_available(
                spec_filtered_level(p),
                old(cpu).cpu_level,
                old(cpu).extended_cpuid_level,
            ))),
        final(cpu).capability.slots@.len() == old(cpu).capability.slots@.len(),
        final(cpu).family == old(cpu).family,
        final(cpu).model == old(cpu).model,
        final(cpu).mask == old(cpu).mask,
        final(cpu).clflush_size == old(cpu).clflush_size,
        final(cpu).phys_bits == old(cpu).phys_bits,
        final(cpu).virt_bits == old(cpu).virt_bits,
        final(cpu).cache_alignment == old(cpu).cache_alignment,
        final(cpu).vendor_id@ == old(cpu).vendor_id@,
        final(cpu).cpu_level == old(cpu).cpu_level,
        final(cpu).extended_cpuid_level == old(cpu).extended_cpuid_level,
        final(cpu).power == old(cpu).power,
        final(cpu).smp_index == old(cpu).smp_index,
{
    // "monitor" Monitor/Mwait support, dependent on leaf 0x5.
    let mwait = CapabilityBitLocation { slot: 4, offset: 3 };
    // Direct Cache Access, dependent on leaf 0x9.
    let dca = CapabilityBitLocation { slot: 4, offset: 18 };
    // XSAVE/XRSTOR/XSETBV/XGETBV, dependent on leaf 0xd.
    let xsave = CapabilityBitLocation { slot: 4, offset: 26 };
    let ghost pre = *cpu;
    filter_one(cpu, &mwait, 0x5);
    let ghost after_mwait = *cpu;
    filter_one(cpu, &dca, 0x9);
    let ghost after_dca = *cpu;
    filter_one(cpu, &xsave, 0xd);
    proof {
        assert forall|p: CapabilityBitLocation| #[trigger] p.wf() implies cpu.capability.spec_bit(
            p,
        ) == (pre.capability.spec_bit(p) && (!spec_filtered_feature(p) || spec_level_available(
            spec_filtered_level(p),
            pre.cpu_level,
            pre.extended_cpuid_level,
        ))) by {
        }
    }
}

/// Whether `p` is one of the locations `filter_cpu_features` checks.
pub open spec fn spec_filtered_feature(p: CapabilityBitLocation) -> bool {
    p == (CapabilityBitLocation { slot: 4, offset: 3 }) || p == (CapabilityBitLocation {
        slot: 4,
        offset: 18,
    }) || p == (CapabilityBitLocation { slot: 4, offset: 26 })
}

/// The cpuid level each filtered location depends on.
pub open spec fn spec_filtered_level(p: CapabilityBitLocation) -> u32 {
    if p == (CapabilityBitLocation { slot: 4, offset: 3 }) {
        0x5
    } else if p == (CapabilityBitLocation { slot: 4, offset: 18 }) {
        0x9
    } else {
        0xd
    }
}

/// Clears `pos` when its dependent cpuid level is unavailable; every other
/// bit keeps its value.
fn filter_one(cpu: &mut Cpu, pos: &CapabilityBitLocation, level: u32)
    requires
        old(cpu).wf(),
        pos.wf(),
    ensures
        final(cpu).wf(),
        forall|p: CapabilityBitLocation|
            #[trigger] p.wf() ==> final(cpu).capability.spec_bit(p) == (old(
                cpu,
            ).capability.spec_bit(p) && (p != *pos || spec_level_available(
                level,
                old(cpu).cpu_level,
                old(cpu).extended_cpuid_level,
            ))),
        final(cpu).capability.slots@.len() == old(cpu).capability.slots@.len(),
        final(cpu).family == old(cpu).family,
        final(cpu).model == old(cpu).model,
        final(cpu).mask == old(cpu).mask,
        final(cpu).clflush_size == old(cpu).clflush_size,
        final(cpu).phys_bits == old(cpu).phys_bits,
        final(cpu).virt_bits == old(cpu).virt_bits,
        final(cpu).cache_alignment == old(cpu).cache_alignment,
        final(cpu).vendor_id@ == old(cpu).vendor_id@,
        final(cpu).cpu_level == old(cpu).cpu_level,
        final(cpu).extended_cpuid_level == old(cpu).extended_cpuid_level,
        final(cpu).power == old(cpu).power,
        final(cpu).smp_index == old(cpu).smp_index,
{
    if !cpu.has_feature(pos) {
        return ;
    }
    let available = if level >= 0x8000_0000 {
        level <= cpu.extended_cpuid_level
    } else {
        level <= cpu.cpu_level
    };
    if !available {
        let ghost pre = cpu.capability;
        cpu.capability.clear_bit(pos);
        proof {
            assert forall|p: CapabilityBitLocation| #[trigger]
                p.wf() implies cpu.capability.spec_bit(p) == (pre.spec_bit(p) && p
                != *pos) by {
                lemma_clear_bit_effect(pre, cpu.capability, *pos, p);
            }
        }
    }
}

/// One scattered feature bit: where cpuid reports it — leaf, sub-leaf,
/// register and bit offset — and the capability location it is folded
/// into.
#[derive(Clone, Copy, Debug, PartialEq, Eq, Structural)]
pub struct CpuidBit {
    /// Capability location the feature is recorded at.
    pub feature: CapabilityBitLocation,
    /// Register the bit is read from: 0 eax, 1 ebx, 2 ecx, 3 edx.
    pub reg: u8,
    /// Bit offset inside that register.
    pub offset: u8,
    /// The cpuid leaf reporting the bit.
    pub level: u32,
    /// The cpuid sub-leaf reporting the bit.
    pub sub_leaf: u32,
}

impl CpuidBit {
    /// The entry addresses a real register bit and a real capability
    /// location.
    pub open spec fn wf(self) -> bool {
        self.feature.wf() && self.reg < 4 && self.offset < 32
    }
}

/// The cpuid probe made for one scattered entry: the highest leaf of the
/// entry's leaf group, and the registers of the entry's (leaf, sub-leaf).
#[derive(Clone, Copy, Debug, PartialEq, Eq, Structural)]
pub struct ScatteredLeaf {
    /// What cpuid of the entry's leaf group base reports in eax.
    pub max_level: u32,
    /// The registers of the entry's (leaf, sub-leaf).
    pub regs: CpuidRegs,
}

/// Whether one scattered entry's feature bit is reported present: its
/// leaf lies within the range the processor implements, and the bit is
/// set in the selected register.
pub open spec fn spec_scattered_applies(cb: CpuidBit, lr: ScatteredLeaf) -> bool {
    let in_range = !(lr.max_level < cb.level || lr.max_level > cb.level | 0xffff);
    let regval = if cb.reg == 0 {
        lr.regs.eax
    } else if cb.reg == 1 {
        lr.regs.ebx
    } else if cb.reg == 2 {
        lr.regs.ecx
    } else {
        lr.regs.edx
    };
    in_range && regval & (1u32 << cb.offset as u32) != 0
}

/// The table of features whose cpuid bits sit scattered across leaves
/// outside the main feature words.
pub fn scattered_cpuid_bits() -> (r: Vec<CpuidBit>)
    ensures
        r@.len() == 19,
        forall|k: int| 0 <= k < r@.len() ==> (#[trigger] r@[k]).wf(),
{
    let mut t: Vec<CpuidBit> = Vec::new();
    // Onboard FPU reported by the thermal/power leaf.
    t.push(CpuidBit {
        feature: CapabilityBitLocation { slot: 7, offset: 0 },
        reg: 0,
        offset: 1,
        level: 0x6,
        sub_leaf: 0,
    });
    // Intel Dynamic Acceleration.
    t.push(CpuidBit {
        feature: CapabilityBitLocation { slot: 7, offset: 1 },
        reg: 0,
        offset: 2,
        level: 0x6,
        sub_leaf: 0,
    });
    // Always Running APIC Timer.
    t.push(CpuidBit {
        feature: CapabilityBitLocation { slot: 7, offset: 5 },
        reg: 0,
        offset: 4,
        level: 0x6,
        sub_leaf: 0,
    });
    // Intel Power Limit Notification.
    t.push(CpuidBit {
        feature: CapabilityBitLocation { slot: 7, offset: 6 },
        reg: 0,
        offset: 6,
        level: 0x6,
        sub_leaf: 0,
    });
    // Intel Package Thermal Status.
    t.push(CpuidBit {
        feature: CapabilityBitLocation { slot: 3, offset: 28 },
        reg: 2,
        offset: 0,
        level: 0x6,
        sub_leaf: 0,
    });
    // APERF/MPERF ratio reporting.
    t.push(CpuidBit {
        feature: CapabilityBitLocation { slot: 7, offset: 3 },
        reg: 2,
        offset: 3,
        level: 0x6,
        sub_leaf: 0,
    });
    // IA32_ENERGY_PERF_BIAS support.
    t.push(CpuidBit {
        feature: CapabilityBitLocation { slot: 7, offset: 4 },
        reg: 0,
        offset: 0,
        level: 0xd,
        sub_leaf: 1,
    });
    // Optimized XSAVE.
    t.push(CpuidBit {
        feature: CapabilityBitLocation { slot: 7, offset: 2 },
        reg: 3,
        offset: 9,
        level: 0x8000_0007,
        sub_leaf: 0,
    });
    // AMD Core Performance Boost.
    t.push(CpuidBit {
        feature: CapabilityBitLocation { slot: 8, offset: 5 },
        reg: 3,
        offset: 0,
        level: 0x8000_000a,
        sub_leaf: 0,
    });
    // AMD Nested Page Table support.
    t.push(CpuidBit {
        feature: CapabilityBitLocation { slot: 8, offset: 6 },
        reg: 3,
        offset: 1,
        level: 0x8000_000a,
        sub_leaf: 0,
    });
    // AMD LBR Virtualization support.
    t.push(CpuidBit {
        feature: CapabilityBitLocation { slot: 8, offset: 7 },
        reg: 3,
        offset: 2,
        level: 0x8000_000a,
        sub_leaf: 0,
    });
    // AMD SVM locking MSR.
    t.push(CpuidBit {
        feature: CapabilityBitLocation { slot: 8, offset: 8 },
        reg: 3,
        offset: 3,
        level: 0x8000_000a,
        sub_leaf: 0,
    });
    // AMD SVM next-rip save.
    t.push(CpuidBit {
        feature: CapabilityBitLocation { slot: 8, offset: 9 },
        reg: 3,
        offset: 4,
        level: 0x8000_000a,
        sub_leaf: 0,
    });
    // AMD TSC scaling support.
    t.push(CpuidBit {
        feature: CapabilityBitLocation { slot: 8, offset: 10 },
        reg: 3,
        offset: 5,
        level: 0x8000_000a,
        sub_leaf: 0,
    });
    // AMD VMCB clean bits support.
    t.push(CpuidBit {
        feature: CapabilityBitLocation { slot: 8, offset: 11 },
        reg: 3,
        offset: 6,
        level: 0x8000_000a,
        sub_leaf: 0,
    });
    // AMD flush-by-ASID support.
    t.push(CpuidBit {
        feature: CapabilityBitLocation { slot: 8, offset: 12 },
        reg: 3,
        offset: 7,
        level: 0x8000_000a,
        sub_leaf: 0,
    });
    // AMD decode assists support.
    t.push(CpuidBit {
        feature: CapabilityBitLocation { slot: 8, offset: 13 },
        reg: 3,
        offset: 10,
        level: 0x8000_000a,
        sub_leaf: 0,
    });
    // AMD filtered pause intercept.
    t.push(CpuidBit {
        feature: CapabilityBitLocation { slot: 8, offset: 14 },
        reg: 3,
        offset: 12,
        level: 0x8000_000a,
        sub_leaf: 0,
    });
    // AMD pause filter threshold.
    t.push(CpuidBit {
        feature: CapabilityBitLocation { slot: 8, offset: 15 },
        reg: 3,
        offset: 13,
        level: 0x8000_000a,
        sub_leaf: 0,
    });
    t
}

/// Folds the scattered feature bits into the capability bitmap. The
/// caller probes cpuid once per table entry — `results[k]` holds what the
/// processor reported for entry `k` — and afterwards a capability bit is
/// set exactly when it was set before or some matching entry's feature
/// bit is reported present.
pub fn init_scattered_cpuid_features(cpu: &mut Cpu, table: &Vec<CpuidBit>, results: &Vec<
    ScatteredLeaf,
>)
    requires
        old(cpu).wf(),
        forall|k: int| 0 <= k < table@.len() ==> (#[trigger] table@[k]).wf(),
        results@.len() == table@.len(),
    ensures
        final(cpu).wf(),
        forall|p: CapabilityBitLocation|
            #[trigger] p.wf() ==> (final(cpu).capability.spec_bit(p) <==> (old(
                cpu,
            ).capability.spec_bit(p) || exists|k: int|
                0 <= k < table@.len() && (#[trigger] table@[k]).feature == p
                    && spec_scattered_applies(table@[k], results@[k]))),
        final(cpu).capability.slots@.len() == old(cpu).capability.slots@.len(),
        final(cpu).family == old(cpu).family,
        final(cpu).model == old(cpu).model,
        final(cpu).mask == old(cpu).mask,
        final(cpu).clflush_size == old(cpu).clflush_size,
        final(cpu).phys_bits == old(cpu).phys_bits,
        final(cpu).virt_bits == old(cpu).virt_bits,
        final(cpu).cache_alignment == old(cpu).cache_alignment,
        final(cpu).vendor_id@ == old(cpu).vendor_id@,
        final(cpu).cpu_level == old(cpu).cpu_level,
        final(cpu).extended_cpuid_level == old(cpu).extended_cpuid_level,
        final(cpu).power == old(cpu).power,
        final(cpu).smp_index == old(cpu).smp_index,
{
    let mut idx: usize = 0;
    while idx < table.len()
        invariant
            cpu.wf(),
            idx <= table@.len(),
            results@.len() == table@.len(),
            forall|k: int| 0 <= k < table@.len() ==> (#[trigger] table@[k]).wf(),
            forall|p: CapabilityBitLocation|
                #[trigger] p.wf() ==> (cpu.capability.spec_bit(p) <==> (old(
                    cpu,
                ).capability.spec_bit(p) || exists|k: int|
                    0 <= k < idx && (#[trigger] table@[k]).feature == p && spec_scattered_applies(
                        table@[k],
                        results@[k],
                    ))),
            cpu.capability.slots@.len() == old(cpu).capability.slots@.len(),
            cpu.family == old(cpu).family,
            cpu.model == old(cpu).model,
            cpu.mask == old(cpu).mask,
            cpu.clflush_size == old(cpu).clflush_size,
            cpu.phys_bits == old(cpu).phys_bits,
            cpu.virt_bits == old(cpu).virt_bits,
            cpu.cache_alignment == old(cpu).cache_alignment,
            cpu.vendor_id@ == old(cpu).vendor_id@,
            cpu.cpu_level == old(cpu).cpu_level,
            cpu.extended_cpuid_level == old(cpu).extended_cpuid_level,
            cpu.power == old(cpu).power,
            cpu.smp_index == old(cpu).smp_index,
        decreases table@.len() - idx,
    {
        let cb = table[idx];
        let lr = results[idx];
        let ghost pre = *cpu;
        let in_range = !(lr.max_level < cb.level || lr.max_level > (cb.level | 0xffff));
        if in_range {
            let regval = if cb.reg == 0 {
                lr.regs.eax
            } else if cb.reg == 1 {
                lr.regs.ebx
            } else if cb.reg == 2 {
                lr.regs.ecx
            } else {
                lr.regs.edx
            };
            if regval & (1u32 << (cb.offset as u32)) != 0 {
                cpu.capability.set_bit(&cb.feature);
                proof {
                    assert forall|p: CapabilityBitLocation| #[trigger]
                        p.wf() implies cpu.capability.spec_bit(p) == (pre.capability.spec_bit(p)
                        || p == cb.feature) by {
                        lemma_set_bit_effect(pre.capability, cpu.capability, cb.feature, p);
                    }
                }
            }
        }
        proof {
            assert forall|p: CapabilityBitLocation| #[trigger] p.wf() implies (
            cpu.capability.spec_bit(p) <==> (old(cpu).capability.spec_bit(p) || exists|k: int|
                0 <= k < idx + 1 && (#[trigger] table@[k]).feature == p && spec_scattered_applies(
                    table@[k],
                    results@[k],
                ))) by {
                if spec_scattered_applies(table@[idx as int], results@[idx as int]) && table@[idx as int].feature
                    == p {
                    assert(cpu.capability.spec_bit(p));
                }
                if cpu.capability.spec_bit(p) && !pre.capability.spec_bit(p) {
                    assert(table@[idx as int].feature == p && spec_scattered_applies(
                        table@[idx as int],
                        results@[idx as int],
                    ));
                }
            }
        }
        idx = idx + 1;
    }
}

/// The value a capability slot holds after `get_cpu_cap`, as a function of
/// the probed levels and the feature leaves.
pub open spec fn spec_cap_slot(
    j: int,
    oldv: u32,
    cpu_level: u32,
    leaf1: CpuidRegs,
    leaf7: CpuidRegs,
    ext0: CpuidRegs,
    ext1: CpuidRegs,
) -> u32 {
    let xlvl = ext0.eax;
    let ext_ok = xlvl & 0xffff_0000 == 0x8000_0000 && xlvl >= 0x8000_0001;
    if j == 0 && cpu_level >= 1 {
        leaf1.edx
    } else if j == 4 && cpu_level >= 1 {
        leaf1.ecx
    } else if j == 9 && cpu_level >= 7 && leaf7.eax > 0 {
        leaf7.ebx
    } else if j == 1 && ext_ok {
        ext1.edx
    } else if j == 6 && ext_ok {
        ext1.ecx
    } else {
        oldv
    }
}

} // verus!
