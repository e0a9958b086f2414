//! AArch64 system-register words.
//!
//! Typed views over the raw 64-bit words of the EL1 registers the
//! boot path programs or inspects: field getters and setters over a
//! raw integer newtype, with the encodings of the enumerated fields.
//! Reading and writing the live registers takes `mrs`/`msr`
//! instructions and the barriers that translation-affecting stores
//! demand, which belong to the embedding program.

use vstd::prelude::*;

verus! {


/// The exception level a value of `CurrentEL` denotes.
#[derive(Debug, Clone, Copy, PartialEq, Eq, Structural)]
pub enum El {
    /// Application level.
    EL0,
    /// Kernel level.
    EL1,
    /// Hypervisor level.
    EL2,
    /// Monitor level.
    EL3,
}

impl El {
    /// The two-bit encoding of the level.
    pub open spec fn spec_bits(self) -> u64 {
        match self {
            El::EL0 => 0x0,
            El::EL1 => 0x1,
            El::EL2 => 0x2,
            El::EL3 => 0x3,
        }
    }

    /// The field encoding of this value.
    pub fn to_bits(self) -> (r: u64)
        ensures
            r == self.spec_bits(),
    {
        match self {
            El::EL0 => 0x0,
            El::EL1 => 0x1,
            El::EL2 => 0x2,
            El::EL3 => 0x3,
        }
    }

    /// The value a field encoding stands for.  Encodings the
    /// architecture leaves unassigned are ruled out up front.
    pub fn from_bits(v: u64) -> (r: Self)
        requires
            v == 0x0 || v == 0x1 || v == 0x2 || v == 0x3,
        ensures
            r.spec_bits() == v,
    {
        if v == 0x0 {
            El::EL0
        } else if v == 0x1 {
            El::EL1
        } else if v == 0x2 {
            El::EL2
        } else {
            El::EL3
        }
    }
}

/// The `CurrentEL` register: the running exception level.
#[derive(Debug, Clone, Copy, PartialEq, Eq, Structural)]
pub struct CurrentEl(pub u64);

impl CurrentEl {
    /// The all-zero value of the register.
    pub fn new() -> (r: Self)
        ensures
            r.0 == 0,
    {
        CurrentEl(0)
    }

    /// Wraps a raw register word.
    pub fn from_bits(bits: u64) -> (r: Self)
        ensures
            r.0 == bits,
    {
        CurrentEl(bits)
    }

    /// The raw register word.
    pub fn bits(&self) -> (r: u64)
        ensures
            r == self.0,
    {
        self.0
    }
    /// The exception-level field, bits 3..2.
    pub fn el_bits(&self) -> (r: u64)
        ensures
            r == (self.0 >> 2) & 0x3,
    {
        (self.0 >> 2) & 0x3
    }
}

impl CurrentEl {
    /// The running exception level.
    pub fn el(&self) -> (r: El)
        ensures
            r.spec_bits() == (self.0 >> 2) & 3,
    {
        proof {
            lemma_two_bits(self.0);
        }
        El::from_bits((self.0 >> 2) & 3)
    }
}

/// A two-bit field takes one of four values.
proof fn lemma_two_bits(w: u64)
    by (bit_vector)
    ensures
        (w >> 2) & 3 == 0 || (w >> 2) & 3 == 1 || (w >> 2) & 3 == 2 || (w >> 2) & 3 == 3,
{
}

/// The `SCTLR_EL1` register: MMU, alignment checking, caches.
#[derive(Debug, Clone, Copy, PartialEq, Eq, Structural)]
pub struct SystemControlEl1(pub u64);

impl SystemControlEl1 {
    /// The all-zero value of the register.
    pub fn new() -> (r: Self)
        ensures
            r.0 == 0,
    {
        SystemControlEl1(0)
    }

    /// Wraps a raw register word.
    pub fn from_bits(bits: u64) -> (r: Self)
        ensures
            r.0 == bits,
    {
        SystemControlEl1(bits)
    }

    /// The raw register word.
    pub fn bits(&self) -> (r: u64)
        ensures
            r == self.0,
    {
        self.0
    }
    /// Bit 0 of the system control word.
    pub fn m(&self) -> (r: u64)
        ensures
            r == self.0 & 0x1,
    {
        self.0 & 0x1
    }
    /// The word with bit 0 replaced.
    pub fn with_m(self, v: u64) -> (r: Self)
        ensures
            r.0 == (self.0 & !0x1u64) | (v & 0x1),
    {
        Self((self.0 & !0x1u64) | (v & 0x1))
    }
    /// Bit 1 of the system control word.
    pub fn a(&self) -> (r: u64)
        ensures
            r == (self.0 >> 1) & 0x1,
    {
        (self.0 >> 1) & 0x1
    }
    /// The word with bit 1 replaced.
    pub fn with_a(self, v: u64) -> (r: Self)
        ensures
            r.0 == (self.0 & !(0x1u64 << 1)) | ((v & 0x1) << 1),
    {
        Self((self.0 & !(0x1u64 << 1)) | ((v & 0x1) << 1))
    }
    /// Bit 2 of the system control word.
    pub fn c(&self) -> (r: u64)
        ensures
            r == (self.0 >> 2) & 0x1,
    {
        (self.0 >> 2) & 0x1
    }
    /// The word with bit 2 replaced.
    pub fn with_c(self, v: u64) -> (r: Self)
        ensures
            r.0 == (self.0 & !(0x1u64 << 2)) | ((v & 0x1) << 2),
    {
        Self((self.0 & !(0x1u64 << 2)) | ((v & 0x1) << 2))
    }
    /// Bit 3 of the system control word.
    pub fn sa(&self) -> (r: u64)
        ensures
            r == (self.0 >> 3) & 0x1,
    {
        (self.0 >> 3) & 0x1
    }
    /// The word with bit 3 replaced.
    pub fn with_sa(self, v: u64) -> (r: Self)
        ensures
            r.0 == (self.0 & !(0x1u64 << 3)) | ((v & 0x1) << 3),
    {
        Self((self.0 & !(0x1u64 << 3)) | ((v & 0x1) << 3))
    }
    /// Bit 7 of the system control word.
    pub fn itd(&self) -> (r: u64)
        ensures
            r == (self.0 >> 7) & 0x1,
    {
        (self.0 >> 7) & 0x1
    }
    /// The word with bit 7 replaced.
    pub fn with_itd(self, v: u64) -> (r: Self)
        ensures
            r.0 == (self.0 & !(0x1u64 << 7)) | ((v & 0x1) << 7),
    {
        Self((self.0 & !(0x1u64 << 7)) | ((v & 0x1) << 7))
    }
    /// Bit 8 of the system control word.
    pub fn sed(&self) -> (r: u64)
        ensures
            r == (self.0 >> 8) & 0x1,
    {
        (self.0 >> 8) & 0x1
    }
    /// The word with bit 8 replaced.
    pub fn with_sed(self, v: u64) -> (r: Self)
        ensures
            r.0 == (self.0 & !(0x1u64 << 8)) | ((v & 0x1) << 8),
    {
        Self((self.0 & !(0x1u64 << 8)) | ((v & 0x1) << 8))
    }
    /// Bit 11 of the system control word.
    pub fn eos(&self) -> (r: u64)
        ensures
            r == (self.0 >> 11) & 0x1,
    {
        (self.0 >> 11) & 0x1
    }
    /// The word with bit 11 replaced.
    pub fn with_eos(self, v: u64) -> (r: Self)
        ensures
            r.0 == (self.0 & !(0x1u64 << 11)) | ((v & 0x1) << 11),
    {
        Self((self.0 & !(0x1u64 << 11)) | ((v & 0x1) << 11))
    }
    /// Bit 12 of the system control word.
    pub fn i(&self) -> (r: u64)
        ensures
            r == (self.0 >> 12) & 0x1,
    {
        (self.0 >> 12) & 0x1
    }
    /// The word with bit 12 replaced.
    pub fn with_i(self, v: u64) -> (r: Self)
        ensures
            r.0 == (self.0 & !(0x1u64 << 12)) | ((v & 0x1) << 12),
    {
        Self((self.0 & !(0x1u64 << 12)) | ((v & 0x1) << 12))
    }
    /// Bit 20 of the system control word.
    pub fn tscxt(&self) -> (r: u64)
        ensures
            r == (self.0 >> 20) & 0x1,
    {
        (self.0 >> 20) & 0x1
    }
    /// The word with bit 20 replaced.
    pub fn with_tscxt(self, v: u64) -> (r: Self)
        ensures
            r.0 == (self.0 & !(0x1u64 << 20)) | ((v & 0x1) << 20),
    {
        Self((self.0 & !(0x1u64 << 20)) | ((v & 0x1) << 20))
    }
    /// Bit 21 of the system control word.
    pub fn iesb(&self) -> (r: u64)
        ensures
            r == (self.0 >> 21) & 0x1,
    {
        (self.0 >> 21) & 0x1
    }
    /// The word with bit 21 replaced.
    pub fn with_iesb(self, v: u64) -> (r: Self)
        ensures
            r.0 == (self.0 & !(0x1u64 << 21)) | ((v & 0x1) << 21),
    {
        Self((self.0 & !(0x1u64 << 21)) | ((v & 0x1) << 21))
    }
    /// Bit 22 of the system control word.
    pub fn eis(&self) -> (r: u64)
        ensures
            r == (self.0 >> 22) & 0x1,
    {
        (self.0 >> 22) & 0x1
    }
    /// The word with bit 22 replaced.
    pub fn with_eis(self, v: u64) -> (r: Self)
        ensures
            r.0 == (self.0 & !(0x1u64 << 22)) | ((v & 0x1) << 22),
    {
        Self((self.0 & !(0x1u64 << 22)) | ((v & 0x1) << 22))
    }
    /// Bit 19 of the system control word.
    pub fn wxn(&self) -> (r: u64)
        ensures
            r == (self.0 >> 19) & 0x1,
    {
        (self.0 >> 19) & 0x1
    }
    /// The word with bit 19 replaced.
    pub fn with_wxn(self, v: u64) -> (r: Self)
        ensures
            r.0 == (self.0 & !(0x1u64 << 19)) | ((v & 0x1) << 19),
    {
        Self((self.0 & !(0x1u64 << 19)) | ((v & 0x1) << 19))
    }
    /// Bit 23 of the system control word.
    pub fn span(&self) -> (r: u64)
        ensures
            r == (self.0 >> 23) & 0x1,
    {
        (self.0 >> 23) & 0x1
    }
    /// The word with bit 23 replaced.
    pub fn with_span(self, v: u64) -> (r: Self)
        ensures
            r.0 == (self.0 & !(0x1u64 << 23)) | ((v & 0x1) << 23),
    {
        Self((self.0 & !(0x1u64 << 23)) | ((v & 0x1) << 23))
    }
    /// Bit 25 of the system control word.
    pub fn ee(&self) -> (r: u64)
        ensures
            r == (self.0 >> 25) & 0x1,
    {
        (self.0 >> 25) & 0x1
    }
    /// The word with bit 25 replaced.
    pub fn with_ee(self, v: u64) -> (r: Self)
        ensures
            r.0 == (self.0 & !(0x1u64 << 25)) | ((v & 0x1) << 25),
    {
        Self((self.0 & !(0x1u64 << 25)) | ((v & 0x1) << 25))
    }
    /// Bit 28 of the system control word.
    pub fn n_tlsmd(&self) -> (r: u64)
        ensures
            r == (self.0 >> 28) & 0x1,
    {
        (self.0 >> 28) & 0x1
    }
    /// The word with bit 28 replaced.
    pub fn with_n_tlsmd(self, v: u64) -> (r: Self)
        ensures
            r.0 == (self.0 & !(0x1u64 << 28)) | ((v & 0x1) << 28),
    {
        Self((self.0 & !(0x1u64 << 28)) | ((v & 0x1) << 28))
    }
    /// Bit 29 of the system control word.
    pub fn lsmaoe(&self) -> (r: u64)
        ensures
            r == (self.0 >> 29) & 0x1,
    {
        (self.0 >> 29) & 0x1
    }
    /// The word with bit 29 replaced.
    pub fn with_lsmaoe(self, v: u64) -> (r: Self)
        ensures
            r.0 == (self.0 & !(0x1u64 << 29)) | ((v & 0x1) << 29),
    {
        Self((self.0 & !(0x1u64 << 29)) | ((v & 0x1) << 29))
    }
}

impl Default for SystemControlEl1 {
    /// The boot-time value: the reserved one-bits of the register,
    /// with AArch32 `SETEND` and `IT` disabled at EL0.
    fn default() -> (r: Self)
        ensures
            r.0 == 0x3050_0980,
    {
        proof {
            lemma_sctlr_default();
        }
        SystemControlEl1::new().with_eos(1).with_tscxt(1).with_eis(1).with_n_tlsmd(
            1,
        ).with_lsmaoe(1).with_sed(1).with_itd(1)
    }
}

/// The default system-control word assembled bit by bit.
proof fn lemma_sctlr_default()
    by (bit_vector)
    ensures
        ({
            let a = (0u64 & !(0x1u64 << 11)) | ((1u64 & 0x1) << 11);
            let b = (a & !(0x1u64 << 20)) | ((1u64 & 0x1) << 20);
            let c = (b & !(0x1u64 << 22)) | ((1u64 & 0x1) << 22);
            let d = (c & !(0x1u64 << 28)) | ((1u64 & 0x1) << 28);
            let e = (d & !(0x1u64 << 29)) | ((1u64 & 0x1) << 29);
            let f = (e & !(0x1u64 << 8)) | ((1u64 & 0x1) << 8);
            let g = (f & !(0x1u64 << 7)) | ((1u64 & 0x1) << 7);
            g == 0x3050_0980u64
        }),
{
}

/// The `VBAR_EL1` register: base of the exception vector table, 2 KiB aligned.
#[derive(Debug, Clone, Copy, PartialEq, Eq, Structural)]
pub struct VectorBaseEl1(pub u64);

impl VectorBaseEl1 {
    /// The all-zero value of the register.
    pub fn new() -> (r: Self)
        ensures
            r.0 == 0,
    {
        VectorBaseEl1(0)
    }

    /// Wraps a raw register word.
    pub fn from_bits(bits: u64) -> (r: Self)
        ensures
            r.0 == bits,
    {
        VectorBaseEl1(bits)
    }

    /// The raw register word.
    pub fn bits(&self) -> (r: u64)
        ensures
            r == self.0,
    {
        self.0
    }
    /// The table base shifted right by 11, bits 63..11.
    pub fn vbar_shift_11(&self) -> (r: u64)
        ensures
            r == (self.0 >> 11) & 0x1fffffffffffff,
    {
        (self.0 >> 11) & 0x1fffffffffffff
    }
    /// The word with the shifted base replaced.
    pub fn with_vbar_shift_11(self, v: u64) -> (r: Self)
        ensures
            r.0 == (self.0 & !(0x1fffffffffffffu64 << 11)) | ((v & 0x1fffffffffffff) << 11),
    {
        Self((self.0 & !(0x1fffffffffffffu64 << 11)) | ((v & 0x1fffffffffffff) << 11))
    }
}

/// The `ELR_EL1` register: the return address of the current exception.
#[derive(Debug, Clone, Copy, PartialEq, Eq, Structural)]
pub struct ExceptionLinkEl1(pub u64);

impl ExceptionLinkEl1 {
    /// The all-zero value of the register.
    pub fn new() -> (r: Self)
        ensures
            r.0 == 0,
    {
        ExceptionLinkEl1(0)
    }

    /// Wraps a raw register word.
    pub fn from_bits(bits: u64) -> (r: Self)
        ensures
            r.0 == bits,
    {
        ExceptionLinkEl1(bits)
    }

    /// The raw register word.
    pub fn bits(&self) -> (r: u64)
        ensures
            r == self.0,
    {
        self.0
    }
}

/// The `ESR_EL1` register: cause information for the current exception.
#[derive(Debug, Clone, Copy, PartialEq, Eq, Structural)]
pub struct ExceptionSyndromeEl1(pub u64);

impl ExceptionSyndromeEl1 {
    /// The all-zero value of the register.
    pub fn new() -> (r: Self)
        ensures
            r.0 == 0,
    {
        ExceptionSyndromeEl1(0)
    }

    /// Wraps a raw register word.
    pub fn from_bits(bits: u64) -> (r: Self)
        ensures
            r.0 == bits,
    {
        ExceptionSyndromeEl1(bits)
    }

    /// The raw register word.
    pub fn bits(&self) -> (r: u64)
        ensures
            r == self.0,
    {
        self.0
    }
}

/// The `SPSR_EL1` register: saved process state of the current exception.
#[derive(Debug, Clone, Copy, PartialEq, Eq, Structural)]
pub struct SavedProgramStateEl1(pub u64);

impl SavedProgramStateEl1 {
    /// The all-zero value of the register.
    pub fn new() -> (r: Self)
        ensures
            r.0 == 0,
    {
        SavedProgramStateEl1(0)
    }

    /// Wraps a raw register word.
    pub fn from_bits(bits: u64) -> (r: Self)
        ensures
            r.0 == bits,
    {
        SavedProgramStateEl1(bits)
    }

    /// The raw register word.
    pub fn bits(&self) -> (r: u64)
        ensures
            r == self.0,
    {
        self.0
    }
}

/// The memory attributes a MAIR slot can hold.
#[allow(non_camel_case_types)]
#[derive(Debug, Clone, Copy, PartialEq, Eq, Structural)]
pub enum MemoryAttributeEl1 {
    /// Device memory: non-gathering, non-reordering, no early ack.
    Device_nGnRnE,
    /// Normal memory, inner and outer non-cacheable.
    Normal_NonCacheable,
    /// Normal memory, inner and outer write-through.
    Normal_WriteThrough,
    /// Normal memory, inner and outer write-back.
    Normal_WriteBack,
}

impl MemoryAttributeEl1 {
    /// The one-byte MAIR encoding of the attribute.
    pub open spec fn spec_encoding(self) -> u8 {
        match self {
            MemoryAttributeEl1::Device_nGnRnE => 0,
            MemoryAttributeEl1::Normal_NonCacheable => 0x44,
            MemoryAttributeEl1::Normal_WriteThrough => 0xbb,
            MemoryAttributeEl1::Normal_WriteBack => 0xff,
        }
    }

    /// The one-byte MAIR encoding of the attribute.
    pub fn encoding(self) -> (r: u8)
        ensures
            r == self.spec_encoding(),
    {
        match self {
            MemoryAttributeEl1::Device_nGnRnE => 0,
            MemoryAttributeEl1::Normal_NonCacheable => 0x44,
            MemoryAttributeEl1::Normal_WriteThrough => 0xbb,
            MemoryAttributeEl1::Normal_WriteBack => 0xff,
        }
    }
}

/// The `MAIR_EL1` register: eight one-byte memory-attribute slots
/// that leaf descriptors select by index.
#[derive(Debug, Clone, Copy)]
pub struct MemoryAttributeIndirectionEl1(pub [u8; 8]);

impl MemoryAttributeIndirectionEl1 {
    /// All slots empty: device memory everywhere.
    pub fn new() -> (r: Self)
        ensures
            forall|i: int| 0 <= i < 8 ==> r.0[i] == 0,
    {
        MemoryAttributeIndirectionEl1([0;8])
    }

    /// The first slot holding attribute `a`, if any: the index a
    /// mapping with that attribute should carry.
    pub fn get_index(&self, a: MemoryAttributeEl1) -> (r: Option<usize>)
        ensures
            match r {
                Some(i) => 0 <= i < 8 && self.0[i as int] == a.spec_encoding() && forall|j: int|
                    0 <= j < i ==> self.0[j] != a.spec_encoding(),
                None => forall|j: int| 0 <= j < 8 ==> self.0[j] != a.spec_encoding(),
            },
    {
        let enc = a.encoding();
        let mut i: usize = 0;
        while i < 8
            invariant
                i <= 8,
                enc == a.spec_encoding(),
                forall|j: int| 0 <= j < i ==> self.0[j] != a.spec_encoding(),
            decreases 8 - i,
        {
            if self.0[i] == enc {
                return Some(i);
            }
            i += 1;
        }
        None
    }
}

impl Default for MemoryAttributeIndirectionEl1 {
    /// The boot-time attribute table: device memory in slot 0,
    /// normal non-cacheable in slot 1, write-back in slot 2,
    /// write-through in slot 3, device memory in the rest.
    fn default() -> (r: Self)
        ensures
            r.0[0] == 0,
            r.0[1] == 0x44,
            r.0[2] == 0xff,
            r.0[3] == 0xbb,
            r.0[4] == 0,
            r.0[5] == 0,
            r.0[6] == 0,
            r.0[7] == 0,
    {
        MemoryAttributeIndirectionEl1(
            [
                0,  // device, the fallback
                0x44,  // normal, non-cacheable
                0xff,  // normal, write-back
                0xbb,  // normal, write-through
                0,
                0,
                0,
                0,
            ],
        )
    }
}

/// Granule size of the TTBR0 regime, the `TCR_EL1.TG0` field.
#[allow(non_camel_case_types)]
#[derive(Debug, Clone, Copy, PartialEq, Eq, Structural)]
pub enum TranslationGranule0 {
    /// A 4 KiB granule.
    _4KB,
    /// A 64 KiB granule.
    _64KB,
    /// A 16 KiB granule.
    _16KB,
}

impl TranslationGranule0 {
    /// The two-bit encoding of the granule.
    pub open spec fn spec_bits(self) -> u64 {
        match self {
            TranslationGranule0::_4KB => 0x0,
            TranslationGranule0::_64KB => 0x1,
            TranslationGranule0::_16KB => 0x2,
        }
    }

    /// The field encoding of this value.
    pub fn to_bits(self) -> (r: u64)
        ensures
            r == self.spec_bits(),
    {
        match self {
            TranslationGranule0::_4KB => 0x0,
            TranslationGranule0::_64KB => 0x1,
            TranslationGranule0::_16KB => 0x2,
        }
    }

    /// The value a field encoding stands for.  Encodings the
    /// architecture leaves unassigned are ruled out up front.
    pub fn from_bits(v: u64) -> (r: Self)
        requires
            v == 0x0 || v == 0x1 || v == 0x2,
        ensures
            r.spec_bits() == v,
    {
        if v == 0x0 {
            TranslationGranule0::_4KB
        } else if v == 0x1 {
            TranslationGranule0::_64KB
        } else {
            TranslationGranule0::_16KB
        }
    }
}

/// Granule size of the TTBR1 regime, the `TCR_EL1.TG1` field.
#[allow(non_camel_case_types)]
#[derive(Debug, Clone, Copy, PartialEq, Eq, Structural)]
pub enum TranslationGranule1 {
    /// No granule programmed.
    _Invalid,
    /// A 16 KiB granule.
    _16KB,
    /// A 4 KiB granule.
    _4KB,
    /// A 64 KiB granule.
    _64KB,
}

impl TranslationGranule1 {
    /// The two-bit encoding of the granule.
    pub open spec fn spec_bits(self) -> u64 {
        match self {
            TranslationGranule1::_Invalid => 0x0,
            TranslationGranule1::_16KB => 0x1,
            TranslationGranule1::_4KB => 0x2,
            TranslationGranule1::_64KB => 0x3,
        }
    }

    /// The field encoding of this value.
    pub fn to_bits(self) -> (r: u64)
        ensures
            r == self.spec_bits(),
    {
        match self {
            TranslationGranule1::_Invalid => 0x0,
            TranslationGranule1::_16KB => 0x1,
            TranslationGranule1::_4KB => 0x2,
            TranslationGranule1::_64KB => 0x3,
        }
    }

    /// The value a field encoding stands for.  Encodings the
    /// architecture leaves unassigned are ruled out up front.
    pub fn from_bits(v: u64) -> (r: Self)
        requires
            v == 0x0 || v == 0x1 || v == 0x2 || v == 0x3,
        ensures
            r.spec_bits() == v,
    {
        if v == 0x0 {
            TranslationGranule1::_Invalid
        } else if v == 0x1 {
            TranslationGranule1::_16KB
        } else if v == 0x2 {
            TranslationGranule1::_4KB
        } else {
            TranslationGranule1::_64KB
        }
    }
}

/// Intermediate physical address size, the `TCR_EL1.IPS` field.
#[allow(non_camel_case_types)]
#[derive(Debug, Clone, Copy, PartialEq, Eq, Structural)]
pub enum IntermPhysAddrSize {
    /// 32 bits: 4 GiB.
    _32_bits_4GB,
    /// 36 bits: 64 GiB.
    _36_bits_64GB,
    /// 40 bits: 1 TiB.
    _40_bits_1TB,
    /// 42 bits: 4 TiB.
    _42_bits_4TB,
    /// 44 bits: 16 TiB.
    _44_bits_16TB,
    /// 48 bits: 256 TiB.
    _48_bits_256TB,
    /// 52 bits: 4 PiB.
    _52_bits_4PB,
    /// 56 bits: 64 PiB.
    _56_bits_64PB,
}

impl IntermPhysAddrSize {
    /// The three-bit encoding of the size.
    pub open spec fn spec_bits(self) -> u64 {
        match self {
            IntermPhysAddrSize::_32_bits_4GB => 0x0,
            IntermPhysAddrSize::_36_bits_64GB => 0x1,
            IntermPhysAddrSize::_40_bits_1TB => 0x2,
            IntermPhysAddrSize::_42_bits_4TB => 0x3,
            IntermPhysAddrSize::_44_bits_16TB => 0x4,
            IntermPhysAddrSize::_48_bits_256TB => 0x5,
            IntermPhysAddrSize::_52_bits_4PB => 0x6,
            IntermPhysAddrSize::_56_bits_64PB => 0x7,
        }
    }

    /// The field encoding of this value.
    pub fn to_bits(self) -> (r: u64)
        ensures
            r == self.spec_bits(),
    {
        match self {
            IntermPhysAddrSize::_32_bits_4GB => 0x0,
            IntermPhysAddrSize::_36_bits_64GB => 0x1,
            IntermPhysAddrSize::_40_bits_1TB => 0x2,
            IntermPhysAddrSize::_42_bits_4TB => 0x3,
            IntermPhysAddrSize::_44_bits_16TB => 0x4,
            IntermPhysAddrSize::_48_bits_256TB => 0x5,
            IntermPhysAddrSize::_52_bits_4PB => 0x6,
            IntermPhysAddrSize::_56_bits_64PB => 0x7,
        }
    }

    /// The value a field encoding stands for.  Encodings the
    /// architecture leaves unassigned are ruled out up front.
    pub fn from_bits(v: u64) -> (r: Self)
        requires
            v == 0x0 || v == 0x1 || v == 0x2 || v == 0x3 || v == 0x4 || v == 0x5 || v == 0x6 || v == 0x7,
        ensures
            r.spec_bits() == v,
    {
        if v == 0x0 {
            IntermPhysAddrSize::_32_bits_4GB
        } else if v == 0x1 {
            IntermPhysAddrSize::_36_bits_64GB
        } else if v == 0x2 {
            IntermPhysAddrSize::_40_bits_1TB
        } else if v == 0x3 {
            IntermPhysAddrSize::_42_bits_4TB
        } else if v == 0x4 {
            IntermPhysAddrSize::_44_bits_16TB
        } else if v == 0x5 {
            IntermPhysAddrSize::_48_bits_256TB
        } else if v == 0x6 {
            IntermPhysAddrSize::_52_bits_4PB
        } else {
            IntermPhysAddrSize::_56_bits_64PB
        }
    }
}

/// The `TCR_EL1` register: sizes, granules and cacheability of the two translation regimes.
#[derive(Debug, Clone, Copy, PartialEq, Eq, Structural)]
pub struct TranslationControlEl1(pub u64);

impl TranslationControlEl1 {
    /// The all-zero value of the register.
    pub fn new() -> (r: Self)
        ensures
            r.0 == 0,
    {
        TranslationControlEl1(0)
    }

    /// Wraps a raw register word.
    pub fn from_bits(bits: u64) -> (r: Self)
        ensures
            r.0 == bits,
    {
        TranslationControlEl1(bits)
    }

    /// The raw register word.
    pub fn bits(&self) -> (r: u64)
        ensures
            r == self.0,
    {
        self.0
    }
    /// The `t0sz` field, 6 bit(s) at bit 0.
    pub fn t0sz(&self) -> (r: u64)
        ensures
            r == self.0 & 0x3f,
    {
        self.0 & 0x3f
    }
    /// The word with the `t0sz` field replaced.
    pub fn with_t0sz(self, v: u64) -> (r: Self)
        ensures
            r.0 == (self.0 & !0x3fu64) | (v & 0x3f),
    {
        Self((self.0 & !0x3fu64) | (v & 0x3f))
    }
    /// The `epd0` field, 1 bit(s) at bit 7.
    pub fn epd0(&self) -> (r: u64)
        ensures
            r == (self.0 >> 7) & 0x1,
    {
        (self.0 >> 7) & 0x1
    }
    /// The word with the `epd0` field replaced.
    pub fn with_epd0(self, v: u64) -> (r: Self)
        ensures
            r.0 == (self.0 & !(0x1u64 << 7)) | ((v & 0x1) << 7),
    {
        Self((self.0 & !(0x1u64 << 7)) | ((v & 0x1) << 7))
    }
    /// The `irgn0` field, 2 bit(s) at bit 8.
    pub fn irgn0(&self) -> (r: u64)
        ensures
            r == (self.0 >> 8) & 0x3,
    {
        (self.0 >> 8) & 0x3
    }
    /// The word with the `irgn0` field replaced.
    pub fn with_irgn0(self, v: u64) -> (r: Self)
        ensures
            r.0 == (self.0 & !(0x3u64 << 8)) | ((v & 0x3) << 8),
    {
        Self((self.0 & !(0x3u64 << 8)) | ((v & 0x3) << 8))
    }
    /// The `orgn0` field, 2 bit(s) at bit 10.
    pub fn orgn0(&self) -> (r: u64)
        ensures
            r == (self.0 >> 10) & 0x3,
    {
        (self.0 >> 10) & 0x3
    }
    /// The word with the `orgn0` field replaced.
    pub fn with_orgn0(self, v: u64) -> (r: Self)
        ensures
            r.0 == (self.0 & !(0x3u64 << 10)) | ((v & 0x3) << 10),
    {
        Self((self.0 & !(0x3u64 << 10)) | ((v & 0x3) << 10))
    }
    /// The `sh0` field, 2 bit(s) at bit 12.
    pub fn sh0(&self) -> (r: u64)
        ensures
            r == (self.0 >> 12) & 0x3,
    {
        (self.0 >> 12) & 0x3
    }
    /// The word with the `sh0` field replaced.
    pub fn with_sh0(self, v: u64) -> (r: Self)
        ensures
            r.0 == (self.0 & !(0x3u64 << 12)) | ((v & 0x3) << 12),
    {
        Self((self.0 & !(0x3u64 << 12)) | ((v & 0x3) << 12))
    }
    /// The `t1sz` field, 6 bit(s) at bit 16.
    pub fn t1sz(&self) -> (r: u64)
        ensures
            r == (self.0 >> 16) & 0x3f,
    {
        (self.0 >> 16) & 0x3f
    }
    /// The word with the `t1sz` field replaced.
    pub fn with_t1sz(self, v: u64) -> (r: Self)
        ensures
            r.0 == (self.0 & !(0x3fu64 << 16)) | ((v & 0x3f) << 16),
    {
        Self((self.0 & !(0x3fu64 << 16)) | ((v & 0x3f) << 16))
    }
    /// The `a1` field, 1 bit(s) at bit 22.
    pub fn a1(&self) -> (r: u64)
        ensures
            r == (self.0 >> 22) & 0x1,
    {
        (self.0 >> 22) & 0x1
    }
    /// The word with the `a1` field replaced.
    pub fn with_a1(self, v: u64) -> (r: Self)
        ensures
            r.0 == (self.0 & !(0x1u64 << 22)) | ((v & 0x1) << 22),
    {
        Self((self.0 & !(0x1u64 << 22)) | ((v & 0x1) << 22))
    }
    /// The `epd1` field, 1 bit(s) at bit 23.
    pub fn epd1(&self) -> (r: u64)
        ensures
            r == (self.0 >> 23) & 0x1,
    {
        (self.0 >> 23) & 0x1
    }
    /// The word with the `epd1` field replaced.
    pub fn with_epd1(self, v: u64) -> (r: Self)
        ensures
            r.0 == (self.0 & !(0x1u64 << 23)) | ((v & 0x1) << 23),
    {
        Self((self.0 & !(0x1u64 << 23)) | ((v & 0x1) << 23))
    }
    /// The `irgn1` field, 2 bit(s) at bit 24.
    pub fn irgn1(&self) -> (r: u64)
        ensures
            r == (self.0 >> 24) & 0x3,
    {
        (self.0 >> 24) & 0x3
    }
    /// The word with the `irgn1` field replaced.
    pub fn with_irgn1(self, v: u64) -> (r: Self)
        ensures
            r.0 == (self.0 & !(0x3u64 << 24)) | ((v & 0x3) << 24),
    {
        Self((self.0 & !(0x3u64 << 24)) | ((v & 0x3) << 24))
    }
    /// The `orgn1` field, 2 bit(s) at bit 26.
    pub fn orgn1(&self) -> (r: u64)
        ensures
            r == (self.0 >> 26) & 0x3,
    {
        (self.0 >> 26) & 0x3
    }
    /// The word with the `orgn1` field replaced.
    pub fn with_orgn1(self, v: u64) -> (r: Self)
        ensures
            r.0 == (self.0 & !(0x3u64 << 26)) | ((v & 0x3) << 26),
    {
        Self((self.0 & !(0x3u64 << 26)) | ((v & 0x3) << 26))
    }
    /// The `sh1` field, 2 bit(s) at bit 28.
    pub fn sh1(&self) -> (r: u64)
        ensures
            r == (self.0 >> 28) & 0x3,
    {
        (self.0 >> 28) & 0x3
    }
    /// The word with the `sh1` field replaced.
    pub fn with_sh1(self, v: u64) -> (r: Self)
        ensures
            r.0 == (self.0 & !(0x3u64 << 28)) | ((v & 0x3) << 28),
    {
        Self((self.0 & !(0x3u64 << 28)) | ((v & 0x3) << 28))
    }
    /// The `ha` field, 1 bit(s) at bit 39.
    pub fn ha(&self) -> (r: u64)
        ensures
            r == (self.0 >> 39) & 0x1,
    {
        (self.0 >> 39) & 0x1
    }
    /// The word with the `ha` field replaced.
    pub fn with_ha(self, v: u64) -> (r: Self)
        ensures
            r.0 == (self.0 & !(0x1u64 << 39)) | ((v & 0x1) << 39),
    {
        Self((self.0 & !(0x1u64 << 39)) | ((v & 0x1) << 39))
    }
    /// The `hd` field, 1 bit(s) at bit 40.
    pub fn hd(&self) -> (r: u64)
        ensures
            r == (self.0 >> 40) & 0x1,
    {
        (self.0 >> 40) & 0x1
    }
    /// The word with the `hd` field replaced.
    pub fn with_hd(self, v: u64) -> (r: Self)
        ensures
            r.0 == (self.0 & !(0x1u64 << 40)) | ((v & 0x1) << 40),
    {
        Self((self.0 & !(0x1u64 << 40)) | ((v & 0x1) << 40))
    }
}

impl TranslationControlEl1 {
    /// The word with the TTBR0 granule field (bits 15..14) replaced.
    pub fn with_tg0(self, v: TranslationGranule0) -> (r: Self)
        ensures
            r.0 == (self.0 & !(0x3u64 << 14)) | ((v.spec_bits() & 3) << 14),
    {
        Self((self.0 & !(0x3u64 << 14)) | ((v.to_bits() & 3) << 14))
    }

    /// The word with the TTBR1 granule field (bits 31..30) replaced.
    pub fn with_tg1(self, v: TranslationGranule1) -> (r: Self)
        ensures
            r.0 == (self.0 & !(0x3u64 << 30)) | ((v.spec_bits() & 3) << 30),
    {
        Self((self.0 & !(0x3u64 << 30)) | ((v.to_bits() & 3) << 30))
    }

    /// The word with the intermediate-size field (bits 34..32)
    /// replaced.
    pub fn with_ips(self, v: IntermPhysAddrSize) -> (r: Self)
        ensures
            r.0 == (self.0 & !(0x7u64 << 32)) | ((v.spec_bits() & 7) << 32),
    {
        Self((self.0 & !(0x7u64 << 32)) | ((v.to_bits() & 7) << 32))
    }
}

/// The `TTBR0_EL1` register: translation-table base and address-space identifier.
#[derive(Debug, Clone, Copy, PartialEq, Eq, Structural)]
pub struct TranslationBase0El1(pub u64);

impl TranslationBase0El1 {
    /// The all-zero value of the register.
    pub fn new() -> (r: Self)
        ensures
            r.0 == 0,
    {
        TranslationBase0El1(0)
    }

    /// Wraps a raw register word.
    pub fn from_bits(bits: u64) -> (r: Self)
        ensures
            r.0 == bits,
    {
        TranslationBase0El1(bits)
    }

    /// The raw register word.
    pub fn bits(&self) -> (r: u64)
        ensures
            r == self.0,
    {
        self.0
    }
    /// The translation-table base address, bits 47..0.
    pub fn baddr(&self) -> (r: u64)
        ensures
            r == self.0 & 0xffffffffffff,
    {
        self.0 & 0xffffffffffff
    }
    /// The word with the table base replaced.
    pub fn with_baddr(self, v: u64) -> (r: Self)
        ensures
            r.0 == (self.0 & !0xffffffffffffu64) | (v & 0xffffffffffff),
    {
        Self((self.0 & !0xffffffffffffu64) | (v & 0xffffffffffff))
    }
    /// The address-space identifier, bits 63..48.
    pub fn asid(&self) -> (r: u64)
        ensures
            r == (self.0 >> 48) & 0xffff,
    {
        (self.0 >> 48) & 0xffff
    }
    /// The word with the identifier replaced.
    pub fn with_asid(self, v: u64) -> (r: Self)
        ensures
            r.0 == (self.0 & !(0xffffu64 << 48)) | ((v & 0xffff) << 48),
    {
        Self((self.0 & !(0xffffu64 << 48)) | ((v & 0xffff) << 48))
    }
}

/// The `TTBR1_EL1` register: translation-table base and address-space identifier.
#[derive(Debug, Clone, Copy, PartialEq, Eq, Structural)]
pub struct TranslationBase1El1(pub u64);

impl TranslationBase1El1 {
    /// The all-zero value of the register.
    pub fn new() -> (r: Self)
        ensures
            r.0 == 0,
    {
        TranslationBase1El1(0)
    }

    /// Wraps a raw register word.
    pub fn from_bits(bits: u64) -> (r: Self)
        ensures
            r.0 == bits,
    {
        TranslationBase1El1(bits)
    }

    /// The raw register word.
    pub fn bits(&self) -> (r: u64)
        ensures
            r == self.0,
    {
        self.0
    }
    /// The translation-table base address, bits 47..0.
    pub fn baddr(&self) -> (r: u64)
        ensures
            r == self.0 & 0xffffffffffff,
    {
        self.0 & 0xffffffffffff
    }
    /// The word with the table base replaced.
    pub fn with_baddr(self, v: u64) -> (r: Self)
        ensures
            r.0 == (self.0 & !0xffffffffffffu64) | (v & 0xffffffffffff),
    {
        Self((self.0 & !0xffffffffffffu64) | (v & 0xffffffffffff))
    }
    /// The address-space identifier, bits 63..48.
    pub fn asid(&self) -> (r: u64)
        ensures
            r == (self.0 >> 48) & 0xffff,
    {
        (self.0 >> 48) & 0xffff
    }
    /// The word with the identifier replaced.
    pub fn with_asid(self, v: u64) -> (r: Self)
        ensures
            r.0 == (self.0 & !(0xffffu64 << 48)) | ((v & 0xffff) << 48),
    {
        Self((self.0 & !(0xffffu64 << 48)) | ((v & 0xffff) << 48))
    }
}

/// Physical address range support, the `ID_AA64MMFR0_EL1.PARange` field.
#[allow(non_camel_case_types)]
#[derive(Debug, Clone, Copy, PartialEq, Eq, Structural)]
pub enum MmfPaRange {
    /// 32 bits: 4 GiB.
    _32_bits_4GB,
    /// 36 bits: 64 GiB.
    _36_bits_64GB,
    /// 40 bits: 1 TiB.
    _40_bits_1TB,
    /// 42 bits: 4 TiB.
    _42_bits_4TB,
    /// 44 bits: 16 TiB.
    _44_bits_16TB,
    /// 48 bits: 256 TiB.
    _48_bits_256TB,
    /// 52 bits: 4 PiB.
    _52_bits_4PB,
    /// 56 bits: 64 PiB.
    _56_bits_64PB,
}

impl MmfPaRange {
    /// The four-bit encoding of the range.
    pub open spec fn spec_bits(self) -> u64 {
        match self {
            MmfPaRange::_32_bits_4GB => 0x0,
            MmfPaRange::_36_bits_64GB => 0x1,
            MmfPaRange::_40_bits_1TB => 0x2,
            MmfPaRange::_42_bits_4TB => 0x3,
            MmfPaRange::_44_bits_16TB => 0x4,
            MmfPaRange::_48_bits_256TB => 0x5,
            MmfPaRange::_52_bits_4PB => 0x6,
            MmfPaRange::_56_bits_64PB => 0x7,
        }
    }

    /// The field encoding of this value.
    pub fn to_bits(self) -> (r: u64)
        ensures
            r == self.spec_bits(),
    {
        match self {
            MmfPaRange::_32_bits_4GB => 0x0,
            MmfPaRange::_36_bits_64GB => 0x1,
            MmfPaRange::_40_bits_1TB => 0x2,
            MmfPaRange::_42_bits_4TB => 0x3,
            MmfPaRange::_44_bits_16TB => 0x4,
            MmfPaRange::_48_bits_256TB => 0x5,
            MmfPaRange::_52_bits_4PB => 0x6,
            MmfPaRange::_56_bits_64PB => 0x7,
        }
    }

    /// The value a field encoding stands for.  Encodings the
    /// architecture leaves unassigned are ruled out up front.
    pub fn from_bits(v: u64) -> (r: Self)
        requires
            v == 0x0 || v == 0x1 || v == 0x2 || v == 0x3 || v == 0x4 || v == 0x5 || v == 0x6 || v == 0x7,
        ensures
            r.spec_bits() == v,
    {
        if v == 0x0 {
            MmfPaRange::_32_bits_4GB
        } else if v == 0x1 {
            MmfPaRange::_36_bits_64GB
        } else if v == 0x2 {
            MmfPaRange::_40_bits_1TB
        } else if v == 0x3 {
            MmfPaRange::_42_bits_4TB
        } else if v == 0x4 {
            MmfPaRange::_44_bits_16TB
        } else if v == 0x5 {
            MmfPaRange::_48_bits_256TB
        } else if v == 0x6 {
            MmfPaRange::_52_bits_4PB
        } else {
            MmfPaRange::_56_bits_64PB
        }
    }
}

/// Address-space identifier width, the `ID_AA64MMFR0_EL1.ASIDBits` field.
#[allow(non_camel_case_types)]
#[derive(Debug, Clone, Copy, PartialEq, Eq, Structural)]
pub enum MmfAsidBits {
    /// Eight ASID bits.
    _8_bits_ASID,
    /// Sixteen ASID bits.
    _16_bits_ASID,
}

impl MmfAsidBits {
    /// The four-bit encoding of the width.
    pub open spec fn spec_bits(self) -> u64 {
        match self {
            MmfAsidBits::_8_bits_ASID => 0x0,
            MmfAsidBits::_16_bits_ASID => 0x2,
        }
    }

    /// The field encoding of this value.
    pub fn to_bits(self) -> (r: u64)
        ensures
            r == self.spec_bits(),
    {
        match self {
            MmfAsidBits::_8_bits_ASID => 0x0,
            MmfAsidBits::_16_bits_ASID => 0x2,
        }
    }

    /// The value a field encoding stands for.  Encodings the
    /// architecture leaves unassigned are ruled out up front.
    pub fn from_bits(v: u64) -> (r: Self)
        requires
            v == 0x0 || v == 0x2,
        ensures
            r.spec_bits() == v,
    {
        if v == 0x0 {
            MmfAsidBits::_8_bits_ASID
        } else {
            MmfAsidBits::_16_bits_ASID
        }
    }
}

/// Stage-2 4 KiB granule support, from `ID_AA64MMFR0_EL1`.
#[allow(non_camel_case_types)]
#[derive(Debug, Clone, Copy, PartialEq, Eq, Structural)]
pub enum MmfTGran4KBStage2 {
    /// As the stage-1 field.
    AsStage1,
    /// Not supported.
    No,
    /// Supported.
    Yes,
    /// Supported with 52-bit addresses.
    Yes_52bit,
}

impl MmfTGran4KBStage2 {
    /// The four-bit encoding of the support level.
    pub open spec fn spec_bits(self) -> u64 {
        match self {
            MmfTGran4KBStage2::AsStage1 => 0x0,
            MmfTGran4KBStage2::No => 0x1,
            MmfTGran4KBStage2::Yes => 0x2,
            MmfTGran4KBStage2::Yes_52bit => 0x3,
        }
    }

    /// The field encoding of this value.
    pub fn to_bits(self) -> (r: u64)
        ensures
            r == self.spec_bits(),
    {
        match self {
            MmfTGran4KBStage2::AsStage1 => 0x0,
            MmfTGran4KBStage2::No => 0x1,
            MmfTGran4KBStage2::Yes => 0x2,
            MmfTGran4KBStage2::Yes_52bit => 0x3,
        }
    }

    /// The value a field encoding stands for.  Encodings the
    /// architecture leaves unassigned are ruled out up front.
    pub fn from_bits(v: u64) -> (r: Self)
        requires
            v == 0x0 || v == 0x1 || v == 0x2 || v == 0x3,
        ensures
            r.spec_bits() == v,
    {
        if v == 0x0 {
            MmfTGran4KBStage2::AsStage1
        } else if v == 0x1 {
            MmfTGran4KBStage2::No
        } else if v == 0x2 {
            MmfTGran4KBStage2::Yes
        } else {
            MmfTGran4KBStage2::Yes_52bit
        }
    }
}

/// Stage-2 16 KiB granule support, from `ID_AA64MMFR0_EL1`.
#[allow(non_camel_case_types)]
#[derive(Debug, Clone, Copy, PartialEq, Eq, Structural)]
pub enum MmfTGran16KBStage2 {
    /// As the stage-1 field.
    AsStage1,
    /// Not supported.
    No,
    /// Supported.
    Yes,
    /// Supported with 52-bit addresses.
    Yes_52bit,
}

impl MmfTGran16KBStage2 {
    /// The four-bit encoding of the support level.
    pub open spec fn spec_bits(self) -> u64 {
        match self {
            MmfTGran16KBStage2::AsStage1 => 0x0,
            MmfTGran16KBStage2::No => 0x1,
            MmfTGran16KBStage2::Yes => 0x2,
            MmfTGran16KBStage2::Yes_52bit => 0x3,
        }
    }

    /// The field encoding of this value.
    pub fn to_bits(self) -> (r: u64)
        ensures
            r == self.spec_bits(),
    {
        match self {
            MmfTGran16KBStage2::AsStage1 => 0x0,
            MmfTGran16KBStage2::No => 0x1,
            MmfTGran16KBStage2::Yes => 0x2,
            MmfTGran16KBStage2::Yes_52bit => 0x3,
        }
    }

    /// The value a field encoding stands for.  Encodings the
    /// architecture leaves unassigned are ruled out up front.
    pub fn from_bits(v: u64) -> (r: Self)
        requires
            v == 0x0 || v == 0x1 || v == 0x2 || v == 0x3,
        ensures
            r.spec_bits() == v,
    {
        if v == 0x0 {
            MmfTGran16KBStage2::AsStage1
        } else if v == 0x1 {
            MmfTGran16KBStage2::No
        } else if v == 0x2 {
            MmfTGran16KBStage2::Yes
        } else {
            MmfTGran16KBStage2::Yes_52bit
        }
    }
}

/// Stage-2 64 KiB granule support, from `ID_AA64MMFR0_EL1`.
#[allow(non_camel_case_types)]
#[derive(Debug, Clone, Copy, PartialEq, Eq, Structural)]
pub enum MmfTGran64KBStage2 {
    /// As the stage-1 field.
    AsStage1,
    /// Not supported.
    No,
    /// Supported.
    Yes,
}

impl MmfTGran64KBStage2 {
    /// The four-bit encoding of the support level.
    pub open spec fn spec_bits(self) -> u64 {
        match self {
            MmfTGran64KBStage2::AsStage1 => 0x0,
            MmfTGran64KBStage2::No => 0x1,
            MmfTGran64KBStage2::Yes => 0x2,
        }
    }

    /// The field encoding of this value.
    pub fn to_bits(self) -> (r: u64)
        ensures
            r == self.spec_bits(),
    {
        match self {
            MmfTGran64KBStage2::AsStage1 => 0x0,
            MmfTGran64KBStage2::No => 0x1,
            MmfTGran64KBStage2::Yes => 0x2,
        }
    }

    /// The value a field encoding stands for.  Encodings the
    /// architecture leaves unassigned are ruled out up front.
    pub fn from_bits(v: u64) -> (r: Self)
        requires
            v == 0x0 || v == 0x1 || v == 0x2,
        ensures
            r.spec_bits() == v,
    {
        if v == 0x0 {
            MmfTGran64KBStage2::AsStage1
        } else if v == 0x1 {
            MmfTGran64KBStage2::No
        } else {
            MmfTGran64KBStage2::Yes
        }
    }
}

/// Stage-1 4 KiB granule support, from `ID_AA64MMFR0_EL1`.
#[allow(non_camel_case_types)]
#[derive(Debug, Clone, Copy, PartialEq, Eq, Structural)]
pub enum MmfTGran4KB {
    /// Supported.
    Yes,
    /// Supported with 52-bit addresses.
    Yes_52bit,
    /// Not supported.
    No,
}

impl MmfTGran4KB {
    /// The four-bit encoding of the support level.
    pub open spec fn spec_bits(self) -> u64 {
        match self {
            MmfTGran4KB::Yes => 0x0,
            MmfTGran4KB::Yes_52bit => 0x1,
            MmfTGran4KB::No => 0xf,
        }
    }

    /// The field encoding of this value.
    pub fn to_bits(self) -> (r: u64)
        ensures
            r == self.spec_bits(),
    {
        match self {
            MmfTGran4KB::Yes => 0x0,
            MmfTGran4KB::Yes_52bit => 0x1,
            MmfTGran4KB::No => 0xf,
        }
    }

    /// The value a field encoding stands for.  Encodings the
    /// architecture leaves unassigned are ruled out up front.
    pub fn from_bits(v: u64) -> (r: Self)
        requires
            v == 0x0 || v == 0x1 || v == 0xf,
        ensures
            r.spec_bits() == v,
    {
        if v == 0x0 {
            MmfTGran4KB::Yes
        } else if v == 0x1 {
            MmfTGran4KB::Yes_52bit
        } else {
            MmfTGran4KB::No
        }
    }
}

/// Stage-1 16 KiB granule support, from `ID_AA64MMFR0_EL1`.
#[allow(non_camel_case_types)]
#[derive(Debug, Clone, Copy, PartialEq, Eq, Structural)]
pub enum MmfTGran16KB {
    /// Not supported.
    No,
    /// Supported.
    Yes,
    /// Supported with 52-bit addresses.
    Yes_52bit,
}

impl MmfTGran16KB {
    /// The four-bit encoding of the support level.
    pub open spec fn spec_bits(self) -> u64 {
        match self {
            MmfTGran16KB::No => 0x0,
            MmfTGran16KB::Yes => 0x1,
            MmfTGran16KB::Yes_52bit => 0x2,
        }
    }

    /// The field encoding of this value.
    pub fn to_bits(self) -> (r: u64)
        ensures
            r == self.spec_bits(),
    {
        match self {
            MmfTGran16KB::No => 0x0,
            MmfTGran16KB::Yes => 0x1,
            MmfTGran16KB::Yes_52bit => 0x2,
        }
    }

    /// The value a field encoding stands for.  Encodings the
    /// architecture leaves unassigned are ruled out up front.
    pub fn from_bits(v: u64) -> (r: Self)
        requires
            v == 0x0 || v == 0x1 || v == 0x2,
        ensures
            r.spec_bits() == v,
    {
        if v == 0x0 {
            MmfTGran16KB::No
        } else if v == 0x1 {
            MmfTGran16KB::Yes
        } else {
            MmfTGran16KB::Yes_52bit
        }
    }
}

/// Stage-1 64 KiB granule support, from `ID_AA64MMFR0_EL1`.
#[allow(non_camel_case_types)]
#[derive(Debug, Clone, Copy, PartialEq, Eq, Structural)]
pub enum MmfTGran64KB {
    /// Supported.
    Yes,
    /// Not supported.
    No,
}

impl MmfTGran64KB {
    /// The four-bit encoding of the support level.
    pub open spec fn spec_bits(self) -> u64 {
        match self {
            MmfTGran64KB::Yes => 0x0,
            MmfTGran64KB::No => 0xf,
        }
    }

    /// The field encoding of this value.
    pub fn to_bits(self) -> (r: u64)
        ensures
            r == self.spec_bits(),
    {
        match self {
            MmfTGran64KB::Yes => 0x0,
            MmfTGran64KB::No => 0xf,
        }
    }

    /// The value a field encoding stands for.  Encodings the
    /// architecture leaves unassigned are ruled out up front.
    pub fn from_bits(v: u64) -> (r: Self)
        requires
            v == 0x0 || v == 0xf,
        ensures
            r.spec_bits() == v,
    {
        if v == 0x0 {
            MmfTGran64KB::Yes
        } else {
            MmfTGran64KB::No
        }
    }
}

/// The `ID_AA64MMFR0_EL1` register: address sizes and granule support.
#[derive(Debug, Clone, Copy, PartialEq, Eq, Structural)]
pub struct MmFeatures0El1(pub u64);

impl MmFeatures0El1 {
    /// The all-zero value of the register.
    pub fn new() -> (r: Self)
        ensures
            r.0 == 0,
    {
        MmFeatures0El1(0)
    }

    /// Wraps a raw register word.
    pub fn from_bits(bits: u64) -> (r: Self)
        ensures
            r.0 == bits,
    {
        MmFeatures0El1(bits)
    }

    /// The raw register word.
    pub fn bits(&self) -> (r: u64)
        ensures
            r == self.0,
    {
        self.0
    }
    /// The raw `pa_range` field, four bits at bit 0.
    pub fn pa_range(&self) -> (r: u64)
        ensures
            r == self.0 & 0xf,
    {
        self.0 & 0xf
    }
    /// The raw `asid_bits` field, four bits at bit 4.
    pub fn asid_bits(&self) -> (r: u64)
        ensures
            r == (self.0 >> 4) & 0xf,
    {
        (self.0 >> 4) & 0xf
    }
    /// The raw `t_gran16` field, four bits at bit 28.
    pub fn t_gran16(&self) -> (r: u64)
        ensures
            r == (self.0 >> 28) & 0xf,
    {
        (self.0 >> 28) & 0xf
    }
    /// The raw `t_gran64` field, four bits at bit 32.
    pub fn t_gran64(&self) -> (r: u64)
        ensures
            r == (self.0 >> 32) & 0xf,
    {
        (self.0 >> 32) & 0xf
    }
    /// The raw `t_gran4` field, four bits at bit 40.
    pub fn t_gran4(&self) -> (r: u64)
        ensures
            r == (self.0 >> 40) & 0xf,
    {
        (self.0 >> 40) & 0xf
    }
}

/// The `ID_AA64MMFR1_EL1` register: hardware access flags, virtualisation host extensions.
#[derive(Debug, Clone, Copy, PartialEq, Eq, Structural)]
pub struct MmFeatures1El1(pub u64);

impl MmFeatures1El1 {
    /// The all-zero value of the register.
    pub fn new() -> (r: Self)
        ensures
            r.0 == 0,
    {
        MmFeatures1El1(0)
    }

    /// Wraps a raw register word.
    pub fn from_bits(bits: u64) -> (r: Self)
        ensures
            r.0 == bits,
    {
        MmFeatures1El1(bits)
    }

    /// The raw register word.
    pub fn bits(&self) -> (r: u64)
        ensures
            r == self.0,
    {
        self.0
    }
    /// The raw `hafdbs` field, four bits at bit 0.
    pub fn hafdbs(&self) -> (r: u64)
        ensures
            r == self.0 & 0xf,
    {
        self.0 & 0xf
    }
    /// The raw `vh` field, four bits at bit 8.
    pub fn vh(&self) -> (r: u64)
        ensures
            r == (self.0 >> 8) & 0xf,
    {
        (self.0 >> 8) & 0xf
    }
    /// The raw `pan` field, four bits at bit 20.
    pub fn pan(&self) -> (r: u64)
        ensures
            r == (self.0 >> 20) & 0xf,
    {
        (self.0 >> 20) & 0xf
    }
}

/// The `ID_AA64MMFR2_EL1` register: common-not-private translation, address-range support.
#[derive(Debug, Clone, Copy, PartialEq, Eq, Structural)]
pub struct MmFeatures2El1(pub u64);

impl MmFeatures2El1 {
    /// The all-zero value of the register.
    pub fn new() -> (r: Self)
        ensures
            r.0 == 0,
    {
        MmFeatures2El1(0)
    }

    /// Wraps a raw register word.
    pub fn from_bits(bits: u64) -> (r: Self)
        ensures
            r.0 == bits,
    {
        MmFeatures2El1(bits)
    }

    /// The raw register word.
    pub fn bits(&self) -> (r: u64)
        ensures
            r == self.0,
    {
        self.0
    }
    /// The raw `cn_p` field, four bits at bit 0.
    pub fn cn_p(&self) -> (r: u64)
        ensures
            r == self.0 & 0xf,
    {
        self.0 & 0xf
    }
    /// The raw `uao` field, four bits at bit 4.
    pub fn uao(&self) -> (r: u64)
        ensures
            r == (self.0 >> 4) & 0xf,
    {
        (self.0 >> 4) & 0xf
    }
    /// The raw `va_range` field, four bits at bit 16.
    pub fn va_range(&self) -> (r: u64)
        ensures
            r == (self.0 >> 16) & 0xf,
    {
        (self.0 >> 16) & 0xf
    }
}

} // verus!
