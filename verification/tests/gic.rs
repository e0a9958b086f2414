use aarch64::dev_register::DeviceMemory;
use aarch64::gic::Gic;
use aarch64::gic::GicdCtrl;
use aarch64::gic::GicdTyper;
use aarch64::gic::GicrWaker;
use aarch64::gic::GicVersion;
use aarch64::gic::valid_spi_id;

const GICD_BASE: usize = 0x0800_0000;
const GICR_BASE: usize = 0x080a_0000;

/// A distributor image identifying itself as GICv3 with
/// `it_lines = 2`, so 96 interrupt lines.
fn gicv3_distributor() -> DeviceMemory {
    let mut gicd = DeviceMemory::new(GICD_BASE, 0x4000);
    gicd.write32(GICD_BASE + 0xFFE8, 0x30);
    gicd.write32(GICD_BASE + 4, 2);
    gicd
}

/// One redistributor image for a single CPU, matching GICv3.
fn gicv3_redistributor() -> DeviceMemory {
    let mut gicr = DeviceMemory::new(GICR_BASE, 0x8000);
    gicr.write32(GICR_BASE + 0xFFE8, 0x30);
    gicr
}

#[test]
fn test_gic_discovery() {
    let gicd = gicv3_distributor();
    let gicr = gicv3_redistributor();
    let gic = Gic::new(&gicd, &gicr, 1);
    assert_eq!(gic.version(), GicVersion::GicV3);
    assert_eq!(gic.max_spi_id(), 96);
    assert_eq!(gic.spi_lines(), 96);
    assert_eq!(gic.num_cpus(), 1);
    assert_eq!(gic.lpi_lines(&gicd), 0);
}

#[test]
fn test_gicd_init_writes() {
    let mut gicd = gicv3_distributor();
    let gicr = gicv3_redistributor();
    // Sentinels in bank 0 of the four arrays: the distributor pass
    // must leave them to the redistributors.
    gicd.write32(GICD_BASE + 0x180, 0x11111111);
    gicd.write32(GICD_BASE + 0x280, 0x22222222);
    gicd.write32(GICD_BASE + 0x80, 0x33333333);
    gicd.write32(GICD_BASE + 0xd00, 0x44444444);
    // A sentinel outside every touched span.
    gicd.write32(GICD_BASE + 0xF00, 0x55555555);

    let gic = Gic::new(&gicd, &gicr, 1);
    gic.init_gicd(&mut gicd);

    // Group 0, non-secure Group 1 and non-secure affinity routing
    // are enabled.
    assert_eq!(gicd.read32(GICD_BASE), 0x23);
    // Banks 1 and 2 (96 lines) of the four arrays are all-ones.
    for k in 1..3 {
        assert_eq!(gicd.read32(GICD_BASE + 0x180 + 4 * k), 0xffff_ffff);
        assert_eq!(gicd.read32(GICD_BASE + 0x280 + 4 * k), 0xffff_ffff);
        assert_eq!(gicd.read32(GICD_BASE + 0x80 + 4 * k), 0xffff_ffff);
        assert_eq!(gicd.read32(GICD_BASE + 0xd00 + 4 * k), 0xffff_ffff);
    }
    // Every SPI routes to CPU 0 at affinity 0.0.0.0.
    for i in 32..96 {
        assert_eq!(gicd.read64(GICD_BASE + 0x6100 + 8 * i), 0);
    }
    // Bank 0 and unrelated words kept their values.
    assert_eq!(gicd.read32(GICD_BASE + 0x180), 0x11111111);
    assert_eq!(gicd.read32(GICD_BASE + 0x280), 0x22222222);
    assert_eq!(gicd.read32(GICD_BASE + 0x80), 0x33333333);
    assert_eq!(gicd.read32(GICD_BASE + 0xd00), 0x44444444);
    assert_eq!(gicd.read32(GICD_BASE + 0xF00), 0x55555555);
    // The type register was only read.
    assert_eq!(gicd.read32(GICD_BASE + 4), 2);
}

#[test]
fn test_gicr_wakeup() {
    let gicd = gicv3_distributor();
    let mut gicr = gicv3_redistributor();
    // The redistributor starts with the processor-sleep request set
    // and the CPU interface awake.
    gicr.write32(GICR_BASE + 0x14, 0x2);
    let gic = Gic::new(&gicd, &gicr, 1);
    gic.wakeup_cpu_and_init_gicr(&mut gicr, 0);

    // The sleep request is withdrawn and nothing sleeps below.
    let waker = gicr.read32(GICR_BASE + 0x14);
    assert_eq!((waker >> 1) & 1, 0);
    assert_eq!((waker >> 2) & 1, 0);
    // SGIs take priority 0x90 in every lane, PPIs 0xA0.
    for j in 0..4 {
        assert_eq!(gicr.read32(GICR_BASE + 0x10400 + 4 * j), 0x9090_9090);
    }
    for j in 4..8 {
        assert_eq!(gicr.read32(GICR_BASE + 0x10400 + 4 * j), 0xa0a0_a0a0);
    }
    // The identification words were only read.
    assert_eq!(gicr.read32(GICR_BASE + 0xFFE8), 0x30);
}

#[test]
fn test_lpi_lines() {
    // With more than 14 identifier bits the distributor supports
    // 2^(lpi_lines + 1) LPIs.
    let mut gicd = gicv3_distributor();
    gicd.write32(GICD_BASE + 4, 2 | (16 << 19) | (2 << 11));
    let gicr = gicv3_redistributor();
    let gic = Gic::new(&gicd, &gicr, 1);
    assert_eq!(gic.lpi_lines(&gicd), 8);
}

#[test]
fn test_valid_spi_id() {
    assert!(!valid_spi_id(0));
    assert!(!valid_spi_id(31));
    assert!(valid_spi_id(32));
    assert!(valid_spi_id(1018));
    assert!(!valid_spi_id(1019));
}

#[test]
fn test_register_fields() {
    let c = GicdCtrl::new()
        .with_enable_grp0(1)
        .with_enable_grp1_ns(1)
        .with_are_ns(1);
    assert_eq!(c.0, 0x23);
    assert_eq!(c.enable_grp0(), 1);
    assert_eq!(c.enable_grp1_ns(), 1);
    assert_eq!(c.are_ns(), 1);
    assert_eq!(c.reg_write_pending(), 0);
    assert_eq!(GicdCtrl(0x8000_0000).reg_write_pending(), 1);

    let t = GicdTyper(0x0000_0002);
    assert_eq!(t.it_lines(), 2);

    let w = GicrWaker(0x6);
    assert_eq!(w.processor_sleep(), 1);
    assert_eq!(w.children_asleep(), 1);
    assert_eq!(w.with_processor_sleep(0).0, 0x4);
}
