//! GICv3/v4 interrupt-controller bring-up.
//!
//! The distributor (GICD) is the central hub for all interrupts; each
//! CPU owns a redistributor (GICR) of two 64 KiB frames on GICv3 and
//! four on GICv4.  The operations here are proved against
//! [`DeviceMemory`] images of the two register windows: which words
//! are written, at which offsets, in which order.  Driving live
//! hardware additionally takes volatile accesses and the
//! instruction-synchronisation barriers of the target machine, which
//! belong to the embedding program.

use crate::dev_register::DeviceMemory;
use crate::dev_register::DeviceRegister;
use crate::dev_register::DeviceRegisterArray;
use crate::dev_register::DeviceRegisterArraySpec;
use crate::dev_register::DeviceRegisterSpec;
use vstd::prelude::*;

verus! {

/// Bytes of the distributor register frame.
pub const GICD_SIZE: usize = 0x10000;

/// Offset of the Distributor Control Register.
pub const GICD_CTLR_OFFSET: usize = 0x0000;

/// Offset of the Interrupt Controller Type Register.
pub const GICD_TYPER_OFFSET: usize = 0x0004;

/// Offset of the Distributor Implementer Identification Register.
pub const GICD_IIDR_OFFSET: usize = 0x0008;

/// Offset of the Interrupt Group Registers.
pub const GICD_IGROUPR_OFFSET: usize = 0x0080;

/// Offset of the Interrupt Set-Enable Registers.
pub const GICD_ISENABLER_OFFSET: usize = 0x0100;

/// Offset of the Interrupt Clear-Enable Registers.
pub const GICD_ICENABLER_OFFSET: usize = 0x0180;

/// Offset of the Interrupt Set-Pending Registers.
pub const GICD_ISPENDR_OFFSET: usize = 0x0200;

/// Offset of the Interrupt Clear-Pending Registers.
pub const GICD_ICPENDR_OFFSET: usize = 0x0280;

/// Offset of the Interrupt Priority Registers.
pub const GICD_IPRIORITYR_OFFSET: usize = 0x0400;

/// Offset of the Interrupt Configuration Registers.
pub const GICD_ICFGR_OFFSET: usize = 0x0C00;

/// Offset of the Interrupt Group Modifier Registers.
pub const GICD_IGRPMODR_OFFSET: usize = 0x0D00;

/// Offset of the Software Generated Interrupt Register.
pub const GICD_SGIR_OFFSET: usize = 0x0F00;

/// Offset of the 64-bit Interrupt Routing Registers.
pub const GICD_IROUTER_OFFSET: usize = 0x6100;

/// Offset of the Distributor Peripheral ID2 Register.
pub const GICD_PIDR2_OFFSET: usize = 0xFFE8;

/// Bytes of one redistributor on GICv3: an LPI frame and an SGI/PPI
/// frame.
pub const GICR_SIZE: usize = 0x20000;

/// Bytes of one redistributor frame.
pub const GICR_FRAME_SIZE: usize = 0x10000;

/// Offset of the Redistributor Control Register, LPI frame.
pub const GICR_CTLR_OFFSET: usize = 0x0000;

/// Offset of the Implementer Identification Register, LPI frame.
pub const GICR_IIDR_OFFSET: usize = 0x0004;

/// Offset of the 64-bit Redistributor Type Register, LPI frame.
pub const GICR_TYPER_OFFSET: usize = 0x0008;

/// Offset of the Redistributor Wake Register, LPI frame.
pub const GICR_WAKER_OFFSET: usize = 0x0014;

/// Offset of the Redistributor Peripheral ID2 Register, LPI frame.
pub const GICR_PIDR2_OFFSET: usize = 0xFFE8;

/// Offset of Interrupt Group Register 0, SGI/PPI frame.
pub const GICR_IGROUPR0_OFFSET: usize = 0x10080;

/// Offset of Interrupt Set-Enable Register 0, SGI/PPI frame.
pub const GICR_ISENABLER0_OFFSET: usize = 0x10100;

/// Offset of Interrupt Clear-Enable Register 0, SGI/PPI frame.
pub const GICR_ICENABLER0_OFFSET: usize = 0x10180;

/// Offset of the Interrupt Priority Registers, SGI/PPI frame: words
/// 0 to 3 hold the SGI priorities, words 4 to 7 the PPI priorities.
pub const GICR_IPRIORITYR_OFFSET: usize = 0x10400;

/// Offset of the SGI Configuration Register, SGI/PPI frame.
pub const GICR_ICFGR0_OFFSET: usize = 0x10C00;

/// Offset of the PPI Configuration Register, SGI/PPI frame.
pub const GICR_ICFGR1_OFFSET: usize = 0x10C04;

/// The GIC version field of a Peripheral ID2 word: bits 7..4.
pub open spec fn spec_gic_version(w: u32) -> u32 {
    (w >> 4) & 0xf
}

/// The `it_lines` field of `GICD_TYPER`: bits 4..0; the distributor
/// serves interrupt IDs up to `32 * (it_lines + 1)`.
pub open spec fn spec_it_lines(w: u32) -> u32 {
    w & 0x1f
}

/// Bytes from one CPU's redistributor to the next, by discovered
/// version: two 64 KiB frames on GICv3, four on GICv4.
pub open spec fn spec_redist_stride(ver: u32) -> int {
    if ver == 3 {
        0x20000
    } else {
        0x40000
    }
}

/// Distributor control word, `GICD_CTLR`.
#[derive(Debug, Clone, Copy, PartialEq, Eq, Structural)]
pub struct GicdCtrl(pub u32);

impl GicdCtrl {
    /// The all-zero control word: both groups disabled.
    pub fn new() -> (r: Self)
        ensures
            r.0 == 0,
    {
        GicdCtrl(0)
    }

    /// Group 0 forwarding enable, bit 0.
    pub fn enable_grp0(&self) -> (r: u32)
        ensures
            r == self.0 & 1,
    {
        self.0 & 1
    }

    /// Non-secure Group 1 forwarding enable, bit 1.
    pub fn enable_grp1_ns(&self) -> (r: u32)
        ensures
            r == (self.0 >> 1) & 1,
    {
        (self.0 >> 1) & 1
    }

    /// Non-secure affinity-routing enable, bit 5.
    pub fn are_ns(&self) -> (r: u32)
        ensures
            r == (self.0 >> 5) & 1,
    {
        (self.0 >> 5) & 1
    }

    /// Register-write-pending flag, bit 31: a previous write has not
    /// yet taken effect.
    pub fn reg_write_pending(&self) -> (r: u32)
        ensures
            r == (self.0 >> 31) & 1,
    {
        (self.0 >> 31) & 1
    }

    /// The control word with bit 0 replaced.
    pub fn with_enable_grp0(self, v: u32) -> (r: Self)
        ensures
            r.0 == (self.0 & !1u32) | (v & 1),
    {
        GicdCtrl((self.0 & !1u32) | (v & 1))
    }

    /// The control word with bit 1 replaced.
    pub fn with_enable_grp1_ns(self, v: u32) -> (r: Self)
        ensures
            r.0 == (self.0 & !2u32) | ((v & 1) << 1),
    {
        GicdCtrl((self.0 & !2u32) | ((v & 1) << 1))
    }

    /// The control word with bit 5 replaced.
    pub fn with_are_ns(self, v: u32) -> (r: Self)
        ensures
            r.0 == (self.0 & !(1u32 << 5)) | ((v & 1) << 5),
    {
        GicdCtrl((self.0 & !(1u32 << 5)) | ((v & 1) << 5))
    }
}

impl DeviceRegisterSpec for GicdCtrl {
    open spec fn spec_offset() -> int {
        0x0000
    }

    fn offset() -> usize {
        GICD_CTLR_OFFSET
    }
}

/// Distributor identification word, `GICD_IIDR`.
#[derive(Debug, Clone, Copy, PartialEq, Eq, Structural)]
pub struct GicdIidr(pub u32);

impl GicdIidr {
    /// The implementer code, bits 11..0.
    pub fn implementer(&self) -> (r: u32)
        ensures
            r == self.0 & 0xfff,
    {
        self.0 & 0xfff
    }

    /// The product identifier, bits 31..24.
    pub fn product_id(&self) -> (r: u32)
        ensures
            r == (self.0 >> 24) & 0xff,
    {
        (self.0 >> 24) & 0xff
    }
}

impl DeviceRegisterSpec for GicdIidr {
    open spec fn spec_offset() -> int {
        0x0008
    }

    fn offset() -> usize {
        GICD_IIDR_OFFSET
    }
}

/// Distributor type word, `GICD_TYPER`.
#[derive(Debug, Clone, Copy, PartialEq, Eq, Structural)]
pub struct GicdTyper(pub u32);

impl GicdTyper {
    /// The interrupt-line count field, bits 4..0.
    pub fn it_lines(&self) -> (r: u32)
        ensures
            r == spec_it_lines(self.0),
            r < 32,
    {
        proof {
            lemma_five_bits(self.0);
        }
        self.0 & 0x1f
    }

    /// The supported interrupt-identifier width, bits 23..19.
    pub fn id_bits(&self) -> (r: u32)
        ensures
            r == (self.0 >> 19) & 0x1f,
    {
        (self.0 >> 19) & 0x1f
    }

    /// The LPI-line count field, bits 15..11.
    pub fn lpi_lines(&self) -> (r: u32)
        ensures
            r == (self.0 >> 11) & 0x1f,
    {
        (self.0 >> 11) & 0x1f
    }
}

impl DeviceRegisterSpec for GicdTyper {
    open spec fn spec_offset() -> int {
        0x0004
    }

    fn offset() -> usize {
        GICD_TYPER_OFFSET
    }
}

/// A five-bit field is below 32.
proof fn lemma_five_bits(w: u32)
    by (bit_vector)
    ensures
        w & 0x1f < 32,
{
}

/// Distributor Peripheral ID2 word, `GICD_PIDR2`.
#[derive(Debug, Clone, Copy, PartialEq, Eq, Structural)]
pub struct GicdPidr2(pub u32);

impl GicdPidr2 {
    /// The GIC architecture version, bits 7..4.
    pub fn gic_version(&self) -> (r: u32)
        ensures
            r == spec_gic_version(self.0),
    {
        (self.0 >> 4) & 0xf
    }
}

impl DeviceRegisterSpec for GicdPidr2 {
    open spec fn spec_offset() -> int {
        0xFFE8
    }

    fn offset() -> usize {
        GICD_PIDR2_OFFSET
    }
}

/// One bank of the Interrupt Clear-Enable Registers,
/// `GICD_ICENABLER<n>`: writing a set bit disables forwarding of the
/// matching interrupt.
#[derive(Debug, Clone, Copy, PartialEq, Eq, Structural)]
pub struct GicdIcenabler(pub u32);

impl DeviceRegisterSpec for GicdIcenabler {
    open spec fn spec_offset() -> int {
        0x0180
    }

    fn offset() -> usize {
        GICD_ICENABLER_OFFSET
    }
}

impl DeviceRegisterArraySpec for GicdIcenabler {
    open spec fn spec_stride() -> int {
        4
    }

    fn stride() -> usize {
        4
    }

    open spec fn spec_count() -> int {
        32
    }

    fn count() -> usize {
        32
    }
}

/// One bank of the Interrupt Clear-Pending Registers,
/// `GICD_ICPENDR<n>`: writing a set bit retires a pending interrupt.
#[derive(Debug, Clone, Copy, PartialEq, Eq, Structural)]
pub struct GicdIcpendr(pub u32);

impl DeviceRegisterSpec for GicdIcpendr {
    open spec fn spec_offset() -> int {
        0x0280
    }

    fn offset() -> usize {
        GICD_ICPENDR_OFFSET
    }
}

impl DeviceRegisterArraySpec for GicdIcpendr {
    open spec fn spec_stride() -> int {
        4
    }

    fn stride() -> usize {
        4
    }

    open spec fn spec_count() -> int {
        32
    }

    fn count() -> usize {
        32
    }
}

/// One bank of the Interrupt Group Registers, `GICD_IGROUPR<n>`: a
/// set bit selects Group 1 for the matching interrupt.
#[derive(Debug, Clone, Copy, PartialEq, Eq, Structural)]
pub struct GicdIgroupr(pub u32);

impl DeviceRegisterSpec for GicdIgroupr {
    open spec fn spec_offset() -> int {
        0x0080
    }

    fn offset() -> usize {
        GICD_IGROUPR_OFFSET
    }
}

impl DeviceRegisterArraySpec for GicdIgroupr {
    open spec fn spec_stride() -> int {
        4
    }

    fn stride() -> usize {
        4
    }

    open spec fn spec_count() -> int {
        32
    }

    fn count() -> usize {
        32
    }
}

/// One bank of the Interrupt Group Modifier Registers,
/// `GICD_IGRPMODR<n>`.
#[derive(Debug, Clone, Copy, PartialEq, Eq, Structural)]
pub struct GicdIgrpmodr(pub u32);

impl DeviceRegisterSpec for GicdIgrpmodr {
    open spec fn spec_offset() -> int {
        0x0D00
    }

    fn offset() -> usize {
        GICD_IGRPMODR_OFFSET
    }
}

impl DeviceRegisterArraySpec for GicdIgrpmodr {
    open spec fn spec_stride() -> int {
        4
    }

    fn stride() -> usize {
        4
    }

    open spec fn spec_count() -> int {
        32
    }

    fn count() -> usize {
        32
    }
}

/// One 64-bit Interrupt Routing Register, `GICD_IROUTER[n]`, at
/// `0x6100 + 8 n`: the affinity the SPI with that index is routed to,
/// zero meaning CPU 0 at affinity 0.0.0.0.
#[derive(Debug, Clone, Copy, PartialEq, Eq, Structural)]
pub struct GicdIrouter(pub u64);

impl DeviceRegisterSpec for GicdIrouter {
    open spec fn spec_offset() -> int {
        0x6100
    }

    fn offset() -> usize {
        GICD_IROUTER_OFFSET
    }
}

impl DeviceRegisterArraySpec for GicdIrouter {
    open spec fn spec_stride() -> int {
        8
    }

    fn stride() -> usize {
        8
    }

    open spec fn spec_count() -> int {
        1024
    }

    fn count() -> usize {
        1024
    }
}

/// Redistributor control word, `GICR_CTLR`.
#[derive(Debug, Clone, Copy, PartialEq, Eq, Structural)]
pub struct GicrCtlr(pub u32);

impl GicrCtlr {
    /// LPI support enable, bit 0.
    pub fn enable_lpis(&self) -> (r: u32)
        ensures
            r == self.0 & 1,
    {
        self.0 & 1
    }

    /// Register-write-pending flag, bit 3.
    pub fn reg_write_pending(&self) -> (r: u32)
        ensures
            r == (self.0 >> 3) & 1,
    {
        (self.0 >> 3) & 1
    }
}

impl DeviceRegisterSpec for GicrCtlr {
    open spec fn spec_offset() -> int {
        0x0000
    }

    fn offset() -> usize {
        GICR_CTLR_OFFSET
    }
}

/// Redistributor identification word, `GICR_IIDR`.
#[derive(Debug, Clone, Copy, PartialEq, Eq, Structural)]
pub struct GicrIidr(pub u32);

impl GicrIidr {
    /// The implementer code, bits 11..0.
    pub fn implementer(&self) -> (r: u32)
        ensures
            r == self.0 & 0xfff,
    {
        self.0 & 0xfff
    }
}

impl DeviceRegisterSpec for GicrIidr {
    open spec fn spec_offset() -> int {
        0x0004
    }

    fn offset() -> usize {
        GICR_IIDR_OFFSET
    }
}

/// Redistributor type word, the 64-bit `GICR_TYPER`.
#[derive(Debug, Clone, Copy, PartialEq, Eq, Structural)]
pub struct GicrTyper(pub u64);

impl GicrTyper {
    /// Physical-LPI support, bit 0.
    pub fn plpis(&self) -> (r: u64)
        ensures
            r == self.0 & 1,
    {
        self.0 & 1
    }

    /// Virtual-LPI support, bit 1.
    pub fn vlpis(&self) -> (r: u64)
        ensures
            r == (self.0 >> 1) & 1,
    {
        (self.0 >> 1) & 1
    }

    /// Whether this is the last redistributor of the series, bit 4.
    pub fn last(&self) -> (r: u64)
        ensures
            r == (self.0 >> 4) & 1,
    {
        (self.0 >> 4) & 1
    }

    /// The redistributor's processor number, bits 23..8.
    pub fn processor_number(&self) -> (r: u64)
        ensures
            r == (self.0 >> 8) & 0xffff,
    {
        (self.0 >> 8) & 0xffff
    }

    /// Affinity level 0 of the owning CPU, bits 39..32.
    pub fn aff0(&self) -> (r: u64)
        ensures
            r == (self.0 >> 32) & 0xff,
    {
        (self.0 >> 32) & 0xff
    }
}

impl DeviceRegisterSpec for GicrTyper {
    open spec fn spec_offset() -> int {
        0x0008
    }

    fn offset() -> usize {
        GICR_TYPER_OFFSET
    }
}

/// Redistributor wake word, `GICR_WAKER`.
#[derive(Debug, Clone, Copy, PartialEq, Eq, Structural)]
pub struct GicrWaker(pub u32);

impl GicrWaker {
    /// Processor-sleep request, bit 1: while set, the redistributor
    /// does not forward interrupts to the CPU interface.
    pub fn processor_sleep(&self) -> (r: u32)
        ensures
            r == (self.0 >> 1) & 1,
    {
        (self.0 >> 1) & 1
    }

    /// Children-asleep status, bit 2: clears once the CPU interface
    /// is awake.
    pub fn children_asleep(&self) -> (r: u32)
        ensures
            r == (self.0 >> 2) & 1,
    {
        (self.0 >> 2) & 1
    }

    /// The wake word with the processor-sleep bit replaced.
    pub fn with_processor_sleep(self, v: u32) -> (r: Self)
        ensures
            r.0 == (self.0 & !2u32) | ((v & 1) << 1),
    {
        GicrWaker((self.0 & !2u32) | ((v & 1) << 1))
    }
}

impl DeviceRegisterSpec for GicrWaker {
    open spec fn spec_offset() -> int {
        0x0014
    }

    fn offset() -> usize {
        GICR_WAKER_OFFSET
    }
}

/// Redistributor Peripheral ID2 word, `GICR_PIDR2`.
#[derive(Debug, Clone, Copy, PartialEq, Eq, Structural)]
pub struct GicrPidr2(pub u32);

impl GicrPidr2 {
    /// The GIC architecture version, bits 7..4.
    pub fn gic_version(&self) -> (r: u32)
        ensures
            r == spec_gic_version(self.0),
    {
        (self.0 >> 4) & 0xf
    }
}

impl DeviceRegisterSpec for GicrPidr2 {
    open spec fn spec_offset() -> int {
        0xFFE8
    }

    fn offset() -> usize {
        GICR_PIDR2_OFFSET
    }
}

/// One word of the SGI/PPI priority bank, `GICR_IPRIORITYR<n>`: four
/// one-byte priorities, lower value meaning higher priority.
#[derive(Debug, Clone, Copy, PartialEq, Eq, Structural)]
pub struct GicrIpriorityr(pub u32);

impl GicrIpriorityr {
    /// The all-zero priority word.
    pub fn new() -> (r: Self)
        ensures
            r.0 == 0,
    {
        GicrIpriorityr(0)
    }

    /// Priority byte 0, bits 7..0.
    pub fn p0(&self) -> (r: u32)
        ensures
            r == self.0 & 0xff,
    {
        self.0 & 0xff
    }

    /// The word with priority byte 0 replaced.
    pub fn with_p0(self, v: u32) -> (r: Self)
        ensures
            r.0 == (self.0 & !0xffu32) | (v & 0xff),
    {
        GicrIpriorityr((self.0 & !0xffu32) | (v & 0xff))
    }

    /// The word with priority byte 1 replaced.
    pub fn with_p1(self, v: u32) -> (r: Self)
        ensures
            r.0 == (self.0 & !0xff00u32) | ((v & 0xff) << 8),
    {
        GicrIpriorityr((self.0 & !0xff00u32) | ((v & 0xff) << 8))
    }

    /// The word with priority byte 2 replaced.
    pub fn with_p2(self, v: u32) -> (r: Self)
        ensures
            r.0 == (self.0 & !0xff0000u32) | ((v & 0xff) << 16),
    {
        GicrIpriorityr((self.0 & !0xff0000u32) | ((v & 0xff) << 16))
    }

    /// The word with priority byte 3 replaced.
    pub fn with_p3(self, v: u32) -> (r: Self)
        ensures
            r.0 == (self.0 & !0xff000000u32) | ((v & 0xff) << 24),
    {
        GicrIpriorityr((self.0 & !0xff000000u32) | ((v & 0xff) << 24))
    }
}

impl DeviceRegisterSpec for GicrIpriorityr {
    open spec fn spec_offset() -> int {
        0x10400
    }

    fn offset() -> usize {
        GICR_IPRIORITYR_OFFSET
    }
}

impl DeviceRegisterArraySpec for GicrIpriorityr {
    open spec fn spec_stride() -> int {
        4
    }

    fn stride() -> usize {
        4
    }

    open spec fn spec_count() -> int {
        8
    }

    fn count() -> usize {
        8
    }
}

/// The GIC architecture version found at discovery.
#[derive(Debug, Clone, Copy, PartialEq, Eq, Structural)]
pub enum GicVersion {
    /// Version 3: two redistributor frames per CPU.
    GicV3,
    /// Version 4: four redistributor frames per CPU, adding the
    /// virtual-LPI and reserved frames.
    GicV4,
}

/// Whether an interrupt identifier names a shared peripheral
/// interrupt: the IDs from 32 below the architectural SPI ceiling.
pub fn valid_spi_id(id: usize) -> (r: bool)
    ensures
        r == (32 <= id < 1019),
{
    32 <= id && id < 1019
}


/// The GIC interface: the discovered layout of one distributor and
/// the per-CPU redistributors behind it.
pub struct Gic {
    gicd_base: usize,
    gicr_base: usize,
    version: GicVersion,
    max_spi: usize,
    num_cpus: usize,
    redist_size: usize,
}

impl Gic {
    /// Physical base address of the distributor frame.
    pub closed spec fn spec_gicd_base(self) -> int {
        self.gicd_base as int
    }

    /// Physical base address of the first redistributor.
    pub closed spec fn spec_gicr_base(self) -> int {
        self.gicr_base as int
    }

    /// The discovered architecture version.
    pub closed spec fn spec_version(self) -> GicVersion {
        self.version
    }

    /// One past the highest interrupt identifier the distributor
    /// serves.
    pub closed spec fn spec_max_spi(self) -> int {
        self.max_spi as int
    }

    /// The CPU count the instance was constructed with.
    pub closed spec fn spec_num_cpus(self) -> int {
        self.num_cpus as int
    }

    /// Bytes from one CPU's redistributor to the next.
    pub closed spec fn spec_redist_size(self) -> int {
        self.redist_size as int
    }

    /// Shape of a discovered instance: the stride matches the
    /// version, the SPI ceiling is one of the 32 architectural
    /// values, and the register windows fit the address space.
    pub open spec fn wf(self) -> bool {
        &&& self.spec_redist_size() == if self.spec_version() == GicVersion::GicV3 {
            2 * 0x10000int
        } else {
            4 * 0x10000int
        }
        &&& 32 <= self.spec_max_spi() <= 1024
        &&& self.spec_max_spi() % 32 == 0
        &&& self.spec_gicd_base() % 4 == 0
        &&& self.spec_gicd_base() + 0x10000 <= usize::MAX
        &&& self.spec_gicr_base() % 4 == 0
        &&& self.spec_gicr_base() + self.spec_num_cpus() * self.spec_redist_size() <= usize::MAX
    }

    /// `mem` is the image of this instance's distributor frame.
    pub open spec fn gicd_window(self, mem: DeviceMemory) -> bool {
        &&& mem.wf()
        &&& mem.spec_base() == self.spec_gicd_base()
        &&& mem.view().len() == 0x4000
    }

    /// `mem` is the image of this instance's redistributor span: one
    /// stride per CPU.
    pub open spec fn gicr_window(self, mem: DeviceMemory) -> bool {
        &&& mem.wf()
        &&& mem.spec_base() == self.spec_gicr_base()
        &&& 4 * mem.view().len() == self.spec_num_cpus() * self.spec_redist_size()
    }

    /// Base address of CPU `c`'s redistributor.
    pub open spec fn spec_gicr_cpu_base(self, c: int) -> int {
        self.spec_gicr_base() + c * self.spec_redist_size()
    }

    /// Discovers the GIC behind the two register windows.
    ///
    /// The distributor must identify itself as GICv3 or GICv4, and
    /// each of the `num_cpus` redistributors must match: same
    /// version, and virtual LPIs only on v4.  These are the
    /// preconditions the boot path treats as fatal.
    pub fn new(gicd: &DeviceMemory, gicr: &DeviceMemory, num_cpus: usize) -> (r: Gic)
        requires
            gicd.wf(),
            gicd.view().len() == 0x4000,
            gicd.spec_base() + 0x10000 <= usize::MAX,
            spec_gic_version(gicd.word_at(gicd.spec_base() + 0xFFE8)) == 3 || spec_gic_version(
                gicd.word_at(gicd.spec_base() + 0xFFE8),
            ) == 4,
            ({
                let rs: int = spec_redist_stride(
                    spec_gic_version(gicd.word_at(gicd.spec_base() + 0xFFE8)),
                );
                &&& gicr.wf()
                &&& 4 * gicr.view().len() == num_cpus * rs
                &&& gicr.spec_base() + num_cpus * rs <= usize::MAX
                &&& forall|i: int|
                    0 <= i < num_cpus ==> (spec_gic_version(
                        #[trigger] gicr.word_at(gicr.spec_base() + i * rs + 0xFFE8),
                    ) == 3 || spec_gic_version(gicr.word_at(gicr.spec_base() + i * rs + 0xFFE8))
                        == 4)
                &&& forall|i: int|
                    0 <= i < num_cpus ==> ((#[trigger] gicr.word_at(gicr.spec_base() + i * rs + 8)
                        >> 1) & 1 == 0 || (spec_gic_version(
                        gicr.word_at(gicr.spec_base() + i * rs + 0xFFE8),
                    ) == 4 && spec_gic_version(gicd.word_at(gicd.spec_base() + 0xFFE8)) == 4))
            }),
        ensures
            r.wf(),
            r.spec_gicd_base() == gicd.spec_base(),
            r.spec_gicr_base() == gicr.spec_base(),
            r.spec_num_cpus() == num_cpus,
            r.spec_version() == if spec_gic_version(gicd.word_at(gicd.spec_base() + 0xFFE8)) == 3 {
                GicVersion::GicV3
            } else {
                GicVersion::GicV4
            },
            r.spec_max_spi() == 32 * (spec_it_lines(gicd.word_at(gicd.spec_base() + 4)) + 1),
            r.gicd_window(*gicd),
            r.gicr_window(*gicr),
    {
        let ghost rsx: int = spec_redist_stride(
            spec_gic_version(gicd.word_at(gicd.spec_base() + 0xFFE8)),
        );
        let gicd_base = gicd.base();
        let gicr_base = gicr.base();

        let gicd_pidr2 = DeviceRegister::<GicdPidr2>::new(gicd_base);
        let gicd_ver = GicdPidr2(gicd_pidr2.read(gicd)).gic_version();

        let (redist_size, version) = if gicd_ver == 3 {
            // LPI and SGI/PPI frames only.
            (2 * GICR_FRAME_SIZE, GicVersion::GicV3)
        } else {
            // GICv4 adds the virtual-LPI and reserved frames.
            (4 * GICR_FRAME_SIZE, GicVersion::GicV4)
        };

        let mut i: usize = 0;
        while i < num_cpus
            invariant
                i <= num_cpus,
                gicr.wf(),
                redist_size as int == rsx,
                rsx == spec_redist_stride(spec_gic_version(gicd.word_at(gicd.spec_base() + 0xFFE8))),
                rsx == 0x20000 || rsx == 0x40000,
                gicr_base as int == gicr.spec_base(),
                gicr.spec_base() + num_cpus * rsx <= usize::MAX,
                4 * gicr.view().len() == num_cpus * rsx,
                forall|k: int|
                    0 <= k < num_cpus ==> (spec_gic_version(
                        #[trigger] gicr.word_at(
                            gicr.spec_base() + k * spec_redist_stride(
                                spec_gic_version(gicd.word_at(gicd.spec_base() + 0xFFE8)),
                            ) + 0xFFE8,
                        ),
                    ) == 3 || spec_gic_version(
                        gicr.word_at(
                            gicr.spec_base() + k * spec_redist_stride(
                                spec_gic_version(gicd.word_at(gicd.spec_base() + 0xFFE8)),
                            ) + 0xFFE8,
                        ),
                    ) == 4),
            decreases num_cpus - i,
        {
            proof {
                lemma_cpu_frame_fits(
                    gicr.spec_base(),
                    i as int,
                    num_cpus as int,
                    rsx,
                    gicr.view().len() as int,
                );
            }
            let cpu_base = gicr_base + i * redist_size;
            let gicr_pidr2 = DeviceRegister::<GicrPidr2>::new(cpu_base);
            let gicr_ver = GicrPidr2(gicr_pidr2.read(gicr)).gic_version();
            // The preconditions promise a matching redistributor; the
            // read confirms it.
            proof {
                assert(i as int * redist_size as int == i as int * rsx) by (nonlinear_arith)
                    requires
                        redist_size as int == rsx,
                ;
                assert(gicr_ver == spec_gic_version(
                    gicr.word_at(
                        gicr.spec_base() + i as int * spec_redist_stride(
                            spec_gic_version(gicd.word_at(gicd.spec_base() + 0xFFE8)),
                        ) + 0xFFE8,
                    ),
                ));
                assert(gicr_ver == 3 || gicr_ver == 4);
            }
            i += 1;
        }

        let gicd_typer = DeviceRegister::<GicdTyper>::new(gicd_base);
        let it_lines = GicdTyper(gicd_typer.read(gicd)).it_lines();
        let max_spi: usize = 32 * ((it_lines + 1) as usize);
        proof {
            assert(32 * (spec_it_lines(gicd.word_at(gicd.spec_base() + 4)) + 1) % 32 == 0)
                by (nonlinear_arith);
        }

        Gic { gicd_base, gicr_base, version, max_spi, num_cpus, redist_size }
    }

    /// Spins until the distributor reports no register write pending.
    ///
    /// Against the in-memory image the flag is already clear when the
    /// caller gets here — a store is visible as soon as it is made —
    /// so the loop body is provably never entered; against hardware
    /// the same reads poll the live flag.
    fn wait_gicd_write_pending(&self, gicd: &DeviceMemory)
        requires
            self.wf(),
            self.gicd_window(*gicd),
            (gicd.word_at(self.spec_gicd_base()) >> 31) & 1 == 0,
    {
        let gicd_ctrl = DeviceRegister::<GicdCtrl>::new(self.gicd_base);
        while GicdCtrl(gicd_ctrl.read(gicd)).reg_write_pending() != 0
            invariant
                self.wf(),
                self.gicd_window(*gicd),
                (gicd.word_at(self.spec_gicd_base()) >> 31) & 1 == 0,
                gicd_ctrl.spec_address() == self.spec_gicd_base(),
            decreases 0int,
        {
        }
    }

    /// The distributor control word after reset and after enabling:
    /// the write-pending bit reads clear in both.
    proof fn lemma_ctlr_words()
        by (bit_vector)
        ensures
            (0u32 >> 31) & 1 == 0,
            (0x23u32 >> 31) & 1 == 0,
            0x23u32 & 1 == 1,
            (0x23u32 >> 1) & 1 == 1,
            (0x23u32 >> 5) & 1 == 1,
            ((((((0u32 & !1u32) | (1u32 & 1)) & !2u32) | ((1u32 & 1) << 1)) & !(1u32 << 5)) | ((
            1u32 & 1) << 5)) == 0x23u32,
            (0u64 >> 32) as u32 == 0u32,
            0u64 as u32 == 0u32,
    {
    }
}

/// Each CPU's redistributor frame lies inside the window.
proof fn lemma_cpu_frame_fits(base: int, i: int, num_cpus: int, rs: int, words: int)
    by (nonlinear_arith)
    requires
        0 <= i < num_cpus,
        rs == 0x20000 || rs == 0x40000,
        4 * words == num_cpus * rs,
        base % 4 == 0,
        base + num_cpus * rs <= usize::MAX,
    ensures
        base + i * rs + rs <= base + 4 * words,
        0 <= i * rs,
        (base + i * rs) % 4 == 0,
        ((base + i * rs + 0xFFE8) - base) % 4 == 0,
        ((base + i * rs + 8) - base) % 4 == 0,
        ((base + i * rs + 0x14) - base) % 4 == 0,
{
}

impl Gic {
    /// Words the distributor bring-up writes: the control register,
    /// banks 1 and up of the four per-interrupt arrays, and the
    /// routing registers of every SPI.  Bank 0 of the arrays belongs
    /// to the redistributors and is never touched here.
    pub open spec fn gicd_bringup_touched(self, a: int) -> bool {
        let b = self.spec_gicd_base();
        let n32 = self.spec_max_spi() / 32;
        ||| a == b
        ||| b + 0x180 + 4 <= a < b + 0x180 + 4 * n32
        ||| b + 0x280 + 4 <= a < b + 0x280 + 4 * n32
        ||| b + 0x80 + 4 <= a < b + 0x80 + 4 * n32
        ||| b + 0xd00 + 4 <= a < b + 0xd00 + 4 * n32
        ||| b + 0x6100 + 8 * 32 <= a < b + 0x6100 + 8 * self.spec_max_spi()
    }

    /// Resets and enables the distributor and routes every SPI to
    /// CPU 0 at affinity 0.0.0.0.
    ///
    /// Afterwards the control register has Group 0, non-secure
    /// Group 1 and non-secure affinity routing enabled; banks 1 and
    /// up of the clear-enable, clear-pending, group and group-modifier
    /// arrays are written all-ones (masking and retiring every SPI
    /// and making it non-secure Group 1); the routing register of
    /// every SPI is zero; and no other word of the frame — bank 0
    /// included — changes.  On hardware, each phase additionally
    /// polls the write-pending flag and the enable is followed by an
    /// instruction-synchronisation barrier.
    pub fn init_gicd(&self, gicd: &mut DeviceMemory)
        requires
            self.wf(),
            self.gicd_window(*old(gicd)),
        ensures
            self.gicd_window(*final(gicd)),
            ({
                let b = self.spec_gicd_base();
                let w = final(gicd).word_at(b);
                w == 0x23 && w & 1 == 1 && (w >> 1) & 1 == 1 && (w >> 5) & 1 == 1
            }),
            forall|k: int|
                1 <= k < self.spec_max_spi() / 32 ==> #[trigger] final(gicd).word_at(
                    self.spec_gicd_base() + 0x180 + 4 * k,
                ) == 0xffff_ffffu32 && final(gicd).word_at(self.spec_gicd_base() + 0x280 + 4 * k)
                    == 0xffff_ffffu32 && final(gicd).word_at(self.spec_gicd_base() + 0x80 + 4 * k)
                    == 0xffff_ffffu32 && final(gicd).word_at(self.spec_gicd_base() + 0xd00 + 4 * k)
                    == 0xffff_ffffu32,
            forall|i: int|
                32 <= i < self.spec_max_spi() ==> #[trigger] final(gicd).word_at(
                    self.spec_gicd_base() + 0x6100 + 8 * i,
                ) == 0 && final(gicd).word_at(self.spec_gicd_base() + 0x6100 + 8 * i + 4) == 0,
            forall|a: int|
                old(gicd).covers(a) && !self.gicd_bringup_touched(a) ==> final(gicd).word_at(a)
                    == old(gicd).word_at(a),
            final(gicd).word_at(self.spec_gicd_base() + 0x180) == old(gicd).word_at(
                self.spec_gicd_base() + 0x180,
            ),
            final(gicd).word_at(self.spec_gicd_base() + 0x280) == old(gicd).word_at(
                self.spec_gicd_base() + 0x280,
            ),
            final(gicd).word_at(self.spec_gicd_base() + 0x80) == old(gicd).word_at(
                self.spec_gicd_base() + 0x80,
            ),
            final(gicd).word_at(self.spec_gicd_base() + 0xd00) == old(gicd).word_at(
                self.spec_gicd_base() + 0xd00,
            ),
    {
        let b = self.gicd_base;
        let max_spi = self.max_spi;
        let n32: usize = max_spi / 32;
        proof {
            Gic::lemma_ctlr_words();
            assert(1 <= max_spi as int / 32 <= 32 && n32 as int == max_spi as int / 32
                && 32 * (max_spi as int / 32) == max_spi as int) by (nonlinear_arith)
                requires
                    32 <= max_spi as int <= 1024 && max_spi as int % 32 == 0 && n32
                        == max_spi / 32,
            ;
        }

        // Phase 1: reset the distributor control word.
        let gicd_ctrl = DeviceRegister::<GicdCtrl>::new(b);
        let ghost m0 = *gicd;
        gicd_ctrl.write(gicd, GicdCtrl::new().0);
        proof {
            crate::dev_register::lemma_update_keeps_other_words(m0, *gicd, b as int, 0);
        }
        self.wait_gicd_write_pending(gicd);
        let ghost m1 = *gicd;

        // Phase 2: mask, retire and group every SPI; bank 0 covers
        // the SGIs and PPIs and is owned by the redistributors.
        let ice = DeviceRegisterArray::<GicdIcenabler>::new(b);
        proof {
            assert forall|i: int| 1 <= i < n32 implies gicd.covers(
                #[trigger] ice.spec_element_address(i),
            ) by {}
        }
        ice.fill(gicd, 1, n32, 0xffff_ffff);
        let ghost m2 = *gicd;
        let icp = DeviceRegisterArray::<GicdIcpendr>::new(b);
        proof {
            assert forall|i: int| 1 <= i < n32 implies gicd.covers(
                #[trigger] icp.spec_element_address(i),
            ) by {}
        }
        icp.fill(gicd, 1, n32, 0xffff_ffff);
        let ghost m3 = *gicd;
        let igr = DeviceRegisterArray::<GicdIgroupr>::new(b);
        proof {
            assert forall|i: int| 1 <= i < n32 implies gicd.covers(
                #[trigger] igr.spec_element_address(i),
            ) by {}
        }
        igr.fill(gicd, 1, n32, 0xffff_ffff);
        let ghost m4 = *gicd;
        let igrm = DeviceRegisterArray::<GicdIgrpmodr>::new(b);
        proof {
            assert forall|i: int| 1 <= i < n32 implies gicd.covers(
                #[trigger] igrm.spec_element_address(i),
            ) by {}
        }
        igrm.fill(gicd, 1, n32, 0xffff_ffff);
        let ghost m5 = *gicd;
        self.wait_gicd_write_pending(gicd);

        // Phase 3: enable Group 0, non-secure Group 1 and non-secure
        // affinity routing.  On hardware an ISB follows the poll.
        let enable = GicdCtrl::new().with_enable_grp0(1).with_enable_grp1_ns(1).with_are_ns(1);
        gicd_ctrl.write(gicd, enable.0);
        proof {
            assert(enable.0 == 0x23u32);
            crate::dev_register::lemma_update_keeps_other_words(m5, *gicd, b as int, enable.0);
        }
        self.wait_gicd_write_pending(gicd);
        let ghost m6 = *gicd;

        // Phase 4: route every SPI to CPU 0, affinity 0.0.0.0.  On
        // hardware an ISB follows the poll.
        let irt = DeviceRegisterArray::<GicdIrouter>::new(b);
        proof {
            assert forall|i: int| 32 <= i < max_spi implies gicd.covers(
                #[trigger] irt.spec_element_address(i),
            ) && gicd.covers(irt.spec_element_address(i) + 4) by {}
        }
        irt.fill64(gicd, 32, max_spi, 0);
        self.wait_gicd_write_pending(gicd);

        proof {
            let bi = b as int;
            let n = n32 as int;
            // The phases write disjoint spans: what one phase sets,
            // the later ones keep.
            assert forall|k: int|
                1 <= k < n implies #[trigger] final(gicd).word_at(bi + 0x180 + 4 * k)
                == 0xffff_ffffu32 && final(gicd).word_at(bi + 0x280 + 4 * k) == 0xffff_ffffu32
                && final(gicd).word_at(bi + 0x80 + 4 * k) == 0xffff_ffffu32
                && final(gicd).word_at(bi + 0xd00 + 4 * k) == 0xffff_ffffu32 by {
                assert(m2.word_at(ice.spec_element_address(k)) == 0xffff_ffffu32);
                assert(m3.word_at(icp.spec_element_address(k)) == 0xffff_ffffu32);
                assert(m4.word_at(igr.spec_element_address(k)) == 0xffff_ffffu32);
                assert(m5.word_at(igrm.spec_element_address(k)) == 0xffff_ffffu32);
            }
            assert forall|i: int|
                32 <= i < max_spi implies #[trigger] final(gicd).word_at(bi + 0x6100 + 8 * i) == 0
                && final(gicd).word_at(bi + 0x6100 + 8 * i + 4) == 0 by {
                assert(final(gicd).word_at(irt.spec_element_address(i)) == 0u32);
                assert(final(gicd).word_at(irt.spec_element_address(i) + 4) == 0u32);
            }
            assert forall|a: int|
                old(gicd).covers(a) && !self.gicd_bringup_touched(a) implies final(gicd).word_at(a)
                == old(gicd).word_at(a) by {}
        }
    }

    /// Spins until the redistributor of the CPU at `cpu_base`
    /// reports no register write pending.  As with the distributor,
    /// the loop body is unreachable against the in-memory image.
    fn wait_gicr_write_pending(&self, gicr: &DeviceMemory, cpu_base: usize)
        requires
            gicr.wf(),
            gicr.covers(cpu_base as int),
            (gicr.word_at(cpu_base as int) >> 3) & 1 == 0,
        ensures
            true,
    {
        let gicr_ctrl = DeviceRegister::<GicrCtlr>::new(cpu_base);
        while GicrCtlr(gicr_ctrl.read(gicr)).reg_write_pending() != 0
            invariant
                gicr.wf(),
                gicr.covers(cpu_base as int),
                (gicr.word_at(cpu_base as int) >> 3) & 1 == 0,
                gicr_ctrl.spec_address() == cpu_base as int,
            decreases 0int,
        {
        }
    }

    /// Wakes the redistributor of CPU `cpu` and seeds its SGI and
    /// PPI priorities.
    ///
    /// The processor-sleep request is withdrawn, after which the wake
    /// word shows both `processor_sleep` and `children_asleep` clear;
    /// the four SGI priority words read `0x90` in every lane and the
    /// four PPI words `0xA0`; no other word of the redistributor span
    /// changes.  The image stands for a quiescent redistributor:
    /// `children_asleep` and the write-pending flag read clear, which
    /// on hardware is what the two busy-waits spin for.
    pub fn wakeup_cpu_and_init_gicr(&self, gicr: &mut DeviceMemory, cpu: usize)
        requires
            self.wf(),
            self.gicr_window(*old(gicr)),
            cpu < self.spec_num_cpus(),
            (old(gicr).word_at(self.spec_gicr_cpu_base(cpu as int) + 0x14) >> 2) & 1 == 0,
            (old(gicr).word_at(self.spec_gicr_cpu_base(cpu as int)) >> 3) & 1 == 0,
        ensures
            self.gicr_window(*final(gicr)),
            ({
                let w = final(gicr).word_at(self.spec_gicr_cpu_base(cpu as int) + 0x14);
                (w >> 1) & 1 == 0 && (w >> 2) & 1 == 0
            }),
            forall|j: int|
                0 <= j < 4 ==> #[trigger] final(gicr).word_at(
                    self.spec_gicr_cpu_base(cpu as int) + 0x10400 + 4 * j,
                ) == 0x90909090u32,
            forall|j: int|
                4 <= j < 8 ==> #[trigger] final(gicr).word_at(
                    self.spec_gicr_cpu_base(cpu as int) + 0x10400 + 4 * j,
                ) == 0xa0a0a0a0u32,
            forall|a: int|
                old(gicr).covers(a) && a != self.spec_gicr_cpu_base(cpu as int) + 0x14 && !(
                self.spec_gicr_cpu_base(cpu as int) + 0x10400 <= a < self.spec_gicr_cpu_base(
                    cpu as int,
                ) + 0x10420) ==> final(gicr).word_at(a) == old(gicr).word_at(a),
    {
        proof {
            lemma_cpu_frame_fits(
                self.spec_gicr_base(),
                cpu as int,
                self.spec_num_cpus(),
                self.spec_redist_size(),
                old(gicr).view().len() as int,
            );
        }
        let gicr_base = self.gicr_base + cpu * self.redist_size;

        // Withdraw the sleep request and wait for the CPU interface
        // to come up.
        let waker = DeviceRegister::<GicrWaker>::new(gicr_base);
        let ghost m0 = *gicr;
        let w = GicrWaker(waker.read(gicr));
        let cleared = w.with_processor_sleep(0);
        waker.write(gicr, cleared.0);
        proof {
            crate::dev_register::lemma_update_keeps_other_words(
                m0,
                *gicr,
                gicr_base as int + 0x14,
                cleared.0,
            );
            lemma_waker_bits(w.0);
        }
        while GicrWaker(waker.read(gicr)).children_asleep() != 0
            invariant
                gicr.wf(),
                gicr.covers(gicr_base as int + 0x14),
                (gicr.word_at(gicr_base as int + 0x14) >> 2) & 1 == 0,
                waker.spec_address() == gicr_base as int + 0x14,
            decreases 0int,
        {
        }
        let ghost m1 = *gicr;

        // Seed the priorities: SGIs a notch above PPIs, both in the
        // usual non-secure range.
        let ipriorityr = DeviceRegisterArray::<GicrIpriorityr>::new(gicr_base);
        let sgi_prio = GicrIpriorityr::new().with_p0(0x90).with_p1(0x90).with_p2(0x90).with_p3(
            0x90,
        );
        let ppi_prio = GicrIpriorityr::new().with_p0(0xa0).with_p1(0xa0).with_p2(0xa0).with_p3(
            0xa0,
        );
        proof {
            lemma_priority_words();
            assert forall|i: int| 0 <= i < 8 implies gicr.covers(
                #[trigger] ipriorityr.spec_element_address(i),
            ) by {}
        }
        ipriorityr.fill(gicr, 0, 4, sgi_prio.0);
        let ghost m2 = *gicr;
        ipriorityr.fill(gicr, 4, 8, ppi_prio.0);
        let ghost m3 = *gicr;

        // Wait for the redistributor to commit; on hardware an ISB
        // follows.
        self.wait_gicr_write_pending(gicr, gicr_base);

        proof {
            assert forall|j: int|
                0 <= j < 4 implies #[trigger] final(gicr).word_at(
                self.spec_gicr_cpu_base(cpu as int) + 0x10400 + 4 * j,
            ) == 0x90909090u32 by {
                assert(m2.word_at(ipriorityr.spec_element_address(j)) == 0x90909090u32);
            }
            assert forall|j: int|
                4 <= j < 8 implies #[trigger] final(gicr).word_at(
                self.spec_gicr_cpu_base(cpu as int) + 0x10400 + 4 * j,
            ) == 0xa0a0a0a0u32 by {
                assert(m3.word_at(ipriorityr.spec_element_address(j)) == 0xa0a0a0a0u32);
            }
        }
    }

    /// Sets up the CPU interface.  The interface is driven through
    /// the `ICC_*` system registers, which only the embedding
    /// program running on the target CPU can reach; nothing is
    /// modelled here yet.
    pub fn init_icc(&self) {
    }

    /// The discovered GIC architecture version.
    pub fn version(&self) -> (r: GicVersion)
        ensures
            r == self.spec_version(),
    {
        self.version
    }

    /// One past the highest SPI identifier the distributor serves.
    pub fn max_spi_id(&self) -> (r: usize)
        ensures
            r as int == self.spec_max_spi(),
    {
        self.max_spi
    }

    /// The CPU count the instance was constructed with.
    pub fn num_cpus(&self) -> (r: usize)
        ensures
            r as int == self.spec_num_cpus(),
    {
        self.num_cpus
    }

    /// Interrupt lines the distributor serves, the SGI and PPI banks
    /// included: the SPI ceiling.
    pub fn spi_lines(&self) -> (r: usize)
        ensures
            r as int == self.spec_max_spi(),
    {
        self.max_spi
    }

    /// Locality-specific peripheral interrupts the distributor
    /// supports, from its type word: none unless more than 14 bits
    /// of interrupt identifier are implemented.
    pub fn lpi_lines(&self, gicd: &DeviceMemory) -> (r: u64)
        requires
            self.wf(),
            self.gicd_window(*gicd),
        ensures
            ({
                let typer = gicd.word_at(self.spec_gicd_base() + 4);
                r == if (typer >> 19) & 0x1f <= 14 {
                    0u64
                } else {
                    1u64 << (((typer >> 11) & 0x1f) + 1)
                }
            }),
    {
        let gicd_typer = DeviceRegister::<GicdTyper>::new(self.gicd_base);
        let typer = GicdTyper(gicd_typer.read(gicd));
        let intid = typer.id_bits();
        if intid <= 14 {
            return 0;
        }
        proof {
            lemma_five_bits(typer.0 >> 11);
        }
        1u64 << ((typer.lpi_lines() + 1) as u64)
    }
}

/// Clearing the sleep request leaves the status bit alone.
proof fn lemma_waker_bits(w: u32)
    by (bit_vector)
    ensures
        (((w & !2u32) | ((0u32 & 1) << 1)) >> 2) & 1 == (w >> 2) & 1,
        (((w & !2u32) | ((0u32 & 1) << 1)) >> 1) & 1 == 0,
{
}

/// The two seeded priority words, one lane per interrupt.
proof fn lemma_priority_words()
    by (bit_vector)
    ensures
        ((((((((0u32 & !0xffu32) | (0x90u32 & 0xff)) & !0xff00u32) | ((0x90u32 & 0xff) << 8))
            & !0xff0000u32) | ((0x90u32 & 0xff) << 16)) & !0xff000000u32) | ((0x90u32 & 0xff)
            << 24)) == 0x90909090u32,
        ((((((((0u32 & !0xffu32) | (0xa0u32 & 0xff)) & !0xff00u32) | ((0xa0u32 & 0xff) << 8))
            & !0xff0000u32) | ((0xa0u32 & 0xff) << 16)) & !0xff000000u32) | ((0xa0u32 & 0xff)
            << 24)) == 0xa0a0a0a0u32,
{
}
} // verus!
