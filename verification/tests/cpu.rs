//! Tests of the cpuid decoding and the CPU feature bookkeeping.

use kernel::cpu::{
    filter_cpu_features, init_scattered_cpuid_features, scattered_cpuid_bits, Cpu, ScatteredLeaf,
};
use kernel::cpu_features::{CapabilityBitLocation, CpuCapabilityBits};
use kernel::cpuid::{
    has_cpuid, u32_byte, A0x1ResultEax, A0x1ResultEbx, A0x1ResultEcx, A0x1ResultEdx, CpuidRegs,
};

fn regs(eax: u32, ebx: u32, ecx: u32, edx: u32) -> CpuidRegs {
    CpuidRegs { eax, ebx, ecx, edx }
}

#[test]
fn cpuid_is_available() {
    assert!(has_cpuid());
}

#[test]
fn byte_extraction() {
    assert_eq!(u32_byte(0x1234_5678, 0), 0x78);
    assert_eq!(u32_byte(0x1234_5678, 1), 0x56);
    assert_eq!(u32_byte(0x1234_5678, 2), 0x34);
    assert_eq!(u32_byte(0x1234_5678, 3), 0x12);
}

#[test]
fn leaf1_eax_fields() {
    // family 0x6, model 0xe, stepping 0x3, extended model 0x9
    let eax = A0x1ResultEax::from_bits(0x0009_06e3);
    assert_eq!(eax.stepping(), 0x3);
    assert_eq!(eax.model(), 0xe);
    assert_eq!(eax.family(), 0x6);
    assert_eq!(eax.extended_model(), 0x9);
    assert_eq!(eax.extended_family(), 0x0);
}

#[test]
fn leaf1_other_registers() {
    let ebx = A0x1ResultEbx::from_bits(0x0102_0804);
    assert_eq!(ebx.brand_index(), 0x04);
    assert_eq!(ebx.clflush_size(), 0x08);
    assert_eq!(ebx.logical_processor_count(), 0x02);
    assert_eq!(ebx.apic_id(), 0x01);
    let edx = A0x1ResultEdx::from_bits(1 | (1 << 19));
    assert_eq!(edx.fpu(), 1);
    assert_eq!(edx.clflush(), 1);
    assert_eq!(edx.tsc(), 0);
    let ecx = A0x1ResultEcx::from_bits((1 << 3) | (1 << 26));
    assert_eq!(ecx.monitor(), 1);
    assert_eq!(ecx.xsave(), 1);
    assert_eq!(ecx.sse3(), 0);
    assert_eq!(ecx.dca(), 0);
}

#[test]
fn capability_bits_set_get_clear() {
    let mut caps = CpuCapabilityBits::new();
    let pos = CapabilityBitLocation { slot: 4, offset: 3 };
    let other = CapabilityBitLocation { slot: 4, offset: 4 };
    assert!(!caps.get_bit(&pos));
    caps.set_bit(&pos);
    assert!(caps.get_bit(&pos));
    assert!(!caps.get_bit(&other));
    caps.clear_bit(&pos);
    assert!(!caps.get_bit(&pos));
    caps.set_slot(2, 0xdead_beef);
    assert_eq!(*caps.get_slot_ref(2), 0xdead_beef);
    *caps.get_slot_mut(2) = 5;
    assert_eq!(*caps.get_slot_ref(2), 5);
}

#[test]
fn capability_bit_positions() {
    let pos = CapabilityBitLocation { slot: 4, offset: 26 };
    assert_eq!(pos.get_position(), 154);
    let back = CapabilityBitLocation::from_position(154);
    assert_eq!(back.slot, 4);
    assert_eq!(back.offset, 26);
}

#[test]
fn detect_decodes_vendor_and_signature() {
    let mut cpu = Cpu::new();
    // "GenuineIntel": ebx "Genu", edx "ineI", ecx "ntel"
    let leaf0 = regs(0xd, 0x756e_6547, 0x6c65_746e, 0x4965_6e69);
    // family 0x6, model 0xe, extended model 0x9, stepping 3; clflush
    // reported, 8 units of 8 bytes
    let leaf1 = regs(0x0009_06e3, 0x0000_0800, 0, 1 << 19);
    cpu.detect(leaf0, leaf1);
    assert_eq!(cpu.cpu_level, 0xd);
    assert_eq!(&cpu.vendor_id[0..12], b"GenuineIntel");
    assert_eq!(cpu.family, 0x6);
    // extended model fills the high nibble for family 6
    assert_eq!(cpu.model, 0x9e);
    assert_eq!(cpu.mask, 0x3);
    assert_eq!(cpu.clflush_size, 64);
    assert_eq!(cpu.cache_alignment, 64);
}

#[test]
fn detect_extended_family_addition() {
    let mut cpu = Cpu::new();
    let leaf0 = regs(1, 0, 0, 0);
    // base family 0xf, extended family 0x6
    let leaf1 = regs(0x0060_0f00, 0, 0, 0);
    cpu.detect(leaf0, leaf1);
    assert_eq!(cpu.family, 0x15);
    assert_eq!(cpu.model, 0x0);
}

#[test]
fn get_cpu_cap_fills_slots() {
    let mut cpu = Cpu::new();
    cpu.detect(regs(7, 0, 0, 0), regs(0, 0, 0, 0));
    let leaf1 = regs(0, 0, 0x11, 0x22);
    let leaf7 = regs(1, 0x33, 0, 0);
    let ext0 = regs(0x8000_0008, 0, 0, 0);
    let ext1 = regs(0, 0, 0x44, 0x55);
    let ext7 = regs(0, 0, 0, 0x66);
    let ext8 = regs(0x0000_3034, 0, 0, 0);
    cpu.get_cpu_cap(leaf1, leaf7, ext0, ext1, ext7, ext8);
    assert_eq!(cpu.capability.slots[0], 0x22);
    assert_eq!(cpu.capability.slots[4], 0x11);
    assert_eq!(cpu.capability.slots[9], 0x33);
    assert_eq!(cpu.capability.slots[1], 0x55);
    assert_eq!(cpu.capability.slots[6], 0x44);
    assert_eq!(cpu.extended_cpuid_level, 0x8000_0008);
    assert_eq!(cpu.power, 0x66);
    assert_eq!(cpu.phys_bits, 0x34);
    assert_eq!(cpu.virt_bits, 0x30);
}

#[test]
fn filter_drops_features_without_their_leaf() {
    let mut cpu = Cpu::new();
    // highest basic leaf is 0x5: mwait's leaf exists, dca's and xsave's
    // do not
    cpu.detect(regs(0x5, 0, 0, 0), regs(0, 0, 0, 0));
    let mwait = CapabilityBitLocation { slot: 4, offset: 3 };
    let dca = CapabilityBitLocation { slot: 4, offset: 18 };
    let xsave = CapabilityBitLocation { slot: 4, offset: 26 };
    cpu.capability.set_bit(&mwait);
    cpu.capability.set_bit(&dca);
    cpu.capability.set_bit(&xsave);
    filter_cpu_features(&mut cpu);
    assert!(cpu.has_feature(&mwait));
    assert!(!cpu.has_feature(&dca));
    assert!(!cpu.has_feature(&xsave));
}

#[test]
fn scattered_bits_are_folded_in() {
    let mut cpu = Cpu::new();
    let table = scattered_cpuid_bits();
    // report every probed leaf as out of range except the first entry's,
    // whose register bit (eax bit 1) is set
    let mut results: Vec<ScatteredLeaf> = Vec::new();
    for (k, cb) in table.iter().enumerate() {
        if k == 0 {
            results.push(ScatteredLeaf { max_level: cb.level, regs: regs(0b10, 0, 0, 0) });
        } else {
            results.push(ScatteredLeaf { max_level: 0, regs: regs(0, 0, 0, 0) });
        }
    }
    init_scattered_cpuid_features(&mut cpu, &table, &results);
    // the first entry records its feature
    assert!(cpu.has_feature(&table[0].feature));
    // a feature from a leaf reported unavailable stays clear
    assert!(!cpu.has_feature(&table[8].feature));
}
