use aarch64::regs::El;
use aarch64::regs::CurrentEl;
use aarch64::regs::IntermPhysAddrSize;
use aarch64::regs::MemoryAttributeEl1;
use aarch64::regs::MemoryAttributeIndirectionEl1;
use aarch64::regs::SystemControlEl1;
use aarch64::regs::TranslationBase0El1;
use aarch64::regs::TranslationControlEl1;
use aarch64::regs::TranslationGranule0;
use aarch64::regs::TranslationGranule1;

#[test]
fn test_mair_defaults() {
    let mair = MemoryAttributeIndirectionEl1::default();
    assert_eq!(mair.get_index(MemoryAttributeEl1::Device_nGnRnE), Some(0));
    assert_eq!(
        mair.get_index(MemoryAttributeEl1::Normal_NonCacheable),
        Some(1)
    );
    assert_eq!(mair.get_index(MemoryAttributeEl1::Normal_WriteBack), Some(2));
    assert_eq!(
        mair.get_index(MemoryAttributeEl1::Normal_WriteThrough),
        Some(3)
    );
    // An attribute absent from the table has no index.
    let empty = MemoryAttributeIndirectionEl1::new();
    assert_eq!(empty.get_index(MemoryAttributeEl1::Normal_WriteBack), None);
    assert_eq!(empty.get_index(MemoryAttributeEl1::Device_nGnRnE), Some(0));
}

#[test]
fn test_sctlr_default() {
    let sctlr = SystemControlEl1::default();
    assert_eq!(sctlr.bits(), 0x3050_0980);
    assert_eq!(sctlr.sed(), 1);
    assert_eq!(sctlr.itd(), 1);
    assert_eq!(sctlr.m(), 0);
    let enabled = sctlr.with_m(1).with_a(1).with_c(1).with_i(1);
    assert_eq!(enabled.m(), 1);
    assert_eq!(enabled.bits(), 0x3050_1987);
}

#[test]
fn test_tcr_programming() {
    // The value the boot path programs for a 48-bit, 4 KiB-granule
    // TTBR0 regime with TTBR1 disabled.
    let tcr = TranslationControlEl1::new()
        .with_t0sz(16)
        .with_irgn0(1)
        .with_orgn0(1)
        .with_sh0(3)
        .with_tg0(TranslationGranule0::_4KB)
        .with_epd1(1)
        .with_tg1(TranslationGranule1::_4KB)
        .with_ips(IntermPhysAddrSize::_48_bits_256TB);
    assert_eq!(tcr.bits(), 0x5_8080_3510);
    assert_eq!(tcr.t0sz(), 16);
    assert_eq!(tcr.sh0(), 3);
    assert_eq!(tcr.epd1(), 1);
}

#[test]
fn test_ttbr_fields() {
    let ttbr = TranslationBase0El1::new()
        .with_asid(0)
        .with_baddr(0x40248000);
    assert_eq!(ttbr.bits(), 0x40248000);
    assert_eq!(ttbr.baddr(), 0x40248000);
    assert_eq!(ttbr.asid(), 0);
    let tagged = ttbr.with_asid(0x42);
    assert_eq!(tagged.asid(), 0x42);
    assert_eq!(tagged.baddr(), 0x40248000);
}

#[test]
fn test_current_el() {
    assert_eq!(CurrentEl(0b0100).el(), El::EL1);
    assert_eq!(CurrentEl(0b1000).el(), El::EL2);
    assert_eq!(El::EL3.to_bits(), 3);
    assert_eq!(El::from_bits(0).to_bits(), 0);
}

#[test]
fn test_granule_encodings() {
    assert_eq!(TranslationGranule0::_4KB.to_bits(), 0);
    assert_eq!(TranslationGranule0::_64KB.to_bits(), 1);
    assert_eq!(TranslationGranule1::_4KB.to_bits(), 2);
    assert_eq!(IntermPhysAddrSize::_48_bits_256TB.to_bits(), 5);
    assert_eq!(IntermPhysAddrSize::from_bits(5).to_bits(), 5);
}
