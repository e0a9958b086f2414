//! Typed access to memory-mapped device registers.
//!
//! A register is described at the type level by its offset from the
//! device's base address, and an array of registers by a stride and a
//! count as well.  The accessors compute addresses; the words
//! themselves live in a [`DeviceMemory`], an in-memory image of the
//! device's register window.  Reads and writes against a live device
//! additionally need volatile accesses and the ordering barriers of
//! the target machine, which are the embedding program's concern; the
//! logic proved here is about which words are read and written, at
//! which addresses, in which order.

use vstd::prelude::*;

verus! {

/// An in-memory image of a device register window: `words.len()`
/// 32-bit words starting at physical address `base`.
///
/// Reads and writes are word-sized and word-aligned, as the GIC
/// requires; 64-bit registers are accessed as two adjacent words,
/// low word first.
pub struct DeviceMemory {
    base: usize,
    words: Vec<u32>,
}

impl DeviceMemory {
    /// Physical address of the first word of the window.
    pub closed spec fn spec_base(self) -> int {
        self.base as int
    }

    /// The words of the window.
    pub closed spec fn view(self) -> Seq<u32> {
        self.words@
    }

    /// The word of the window holding the byte at `addr`.
    pub open spec fn word_at(self, addr: int) -> u32 {
        self.view()[(addr - self.spec_base()) / 4]
    }

    /// A word-aligned base and a window that fits the address space.
    pub open spec fn wf(self) -> bool {
        &&& self.spec_base() % 4 == 0
        &&& self.spec_base() + 4 * self.view().len() <= usize::MAX
    }

    /// The window serves the word-aligned address `addr`.
    pub open spec fn covers(self, addr: int) -> bool {
        self.spec_base() <= addr && addr + 4 <= self.spec_base() + 4 * self.view().len() && (addr
            - self.spec_base()) % 4 == 0
    }

    /// A window of `word_count` zeroed words based at `base`.
    pub fn new(base: usize, word_count: usize) -> (r: DeviceMemory)
        requires
            base % 4 == 0,
            base + 4 * word_count <= usize::MAX,
        ensures
            r.wf(),
            r.spec_base() == base,
            r.view().len() == word_count,
            forall|i: int| 0 <= i < word_count ==> r.view()[i] == 0,
    {
        let mut words: Vec<u32> = Vec::new();
        let mut i: usize = 0;
        while i < word_count
            invariant
                i <= word_count,
                words@.len() == i,
                forall|j: int| 0 <= j < i ==> words@[j] == 0,
            decreases word_count - i,
        {
            words.push(0);
            i += 1;
        }
        DeviceMemory { base, words }
    }

    /// Number of words in the window.
    pub fn len(&self) -> (r: usize)
        ensures
            r == self.view().len(),
    {
        self.words.len()
    }

    /// Physical address of the first word.
    pub fn base(&self) -> (r: usize)
        ensures
            r as int == self.spec_base(),
    {
        self.base
    }

    /// One aligned 32-bit load at `addr`.
    pub fn read32(&self, addr: usize) -> (r: u32)
        requires
            self.wf(),
            self.covers(addr as int),
        ensures
            r == self.word_at(addr as int),
    {
        proof {
            lemma_word_index(self.spec_base(), addr as int, self.view().len() as int);
        }
        self.words[(addr - self.base) / 4]
    }

    /// One aligned 32-bit store at `addr`; no other word changes.
    pub fn write32(&mut self, addr: usize, value: u32)
        requires
            old(self).wf(),
            old(self).covers(addr as int),
        ensures
            final(self).wf(),
            final(self).spec_base() == old(self).spec_base(),
            final(self).view() == old(self).view().update(
                (addr - old(self).spec_base()) / 4,
                value,
            ),
    {
        proof {
            lemma_word_index(self.spec_base(), addr as int, self.view().len() as int);
        }
        let idx: usize = (addr - self.base) / 4;
        self.words[idx] = value;
    }

    /// One 64-bit read as two adjacent word loads, low word first.
    pub fn read64(&self, addr: usize) -> (r: u64)
        requires
            self.wf(),
            self.covers(addr as int),
            self.covers(addr as int + 4),
        ensures
            r == self.word_at(addr as int) as u64 | ((self.word_at(addr as int + 4) as u64) << 32),
    {
        let lo = self.read32(addr);
        let hi = self.read32(addr + 4);
        (lo as u64) | ((hi as u64) << 32)
    }

    /// One 64-bit write as two adjacent word stores, low word first.
    pub fn write64(&mut self, addr: usize, value: u64)
        requires
            old(self).wf(),
            old(self).covers(addr as int),
            old(self).covers(addr as int + 4),
        ensures
            final(self).wf(),
            final(self).spec_base() == old(self).spec_base(),
            final(self).view() == old(self).view().update(
                (addr - old(self).spec_base()) / 4,
                value as u32,
            ).update((addr - old(self).spec_base()) / 4 + 1, (value >> 32) as u32),
    {
        proof {
            lemma_word_split(value);
            lemma_word_index(self.spec_base(), addr as int + 4, self.view().len() as int);
        }
        self.write32(addr, #[verifier::truncate] (value as u32));
        self.write32(addr + 4, #[verifier::truncate] ((value >> 32) as u32));
    }
}

/// An aligned address inside the window indexes a word of it.
proof fn lemma_word_index(base: int, addr: int, len: int)
    by (nonlinear_arith)
    requires
        base % 4 == 0,
        (addr - base) % 4 == 0,
        base <= addr,
        addr + 4 <= base + 4 * len,
    ensures
        0 <= (addr - base) / 4 < len,
        ((addr + 4) - base) / 4 == (addr - base) / 4 + 1,
{
}

/// The two word lanes of a 64-bit value.
proof fn lemma_word_split(v: u64)
    by (bit_vector)
    ensures
        (v as u32) as u64 == v & 0xffff_ffff,
        ((v >> 32) as u32) as u64 == v >> 32,
{
}

/// Compile-time description of one memory-mapped register: its
/// offset from the device base address.
pub trait DeviceRegisterSpec {
    /// The register's offset from the device base.
    spec fn spec_offset() -> int;

    /// The register's offset from the device base.
    fn offset() -> (r: usize)
        ensures
            r as int == Self::spec_offset(),
            0 <= Self::spec_offset(),
    ;
}

/// Compile-time description of an array of registers: offset of the
/// first element, stride between elements, element count.
pub trait DeviceRegisterArraySpec: DeviceRegisterSpec {
    /// Bytes between consecutive registers of the array.
    spec fn spec_stride() -> int;

    /// Bytes between consecutive registers of the array.
    fn stride() -> (r: usize)
        ensures
            r as int == Self::spec_stride(),
            Self::spec_stride() > 0,
    ;

    /// Number of registers in the array.
    spec fn spec_count() -> int;

    /// Number of registers in the array.
    fn count() -> (r: usize)
        ensures
            r as int == Self::spec_count(),
            0 <= Self::spec_count(),
    ;
}

/// A single memory-mapped device register: the address computed from
/// a device base and the type-level offset.
pub struct DeviceRegister<S: DeviceRegisterSpec> {
    address: usize,
    _spec: core::marker::PhantomData<S>,
}

impl<S: DeviceRegisterSpec> DeviceRegister<S> {
    /// Where the register lives.
    pub closed spec fn spec_address(self) -> int {
        self.address as int
    }

    /// Places the register at `base_address` plus the type's offset.
    pub fn new(base_address: usize) -> (r: Self)
        requires
            base_address + S::spec_offset() <= usize::MAX,
        ensures
            r.spec_address() == base_address + S::spec_offset(),
    {
        Self { address: base_address + S::offset(), _spec: core::marker::PhantomData }
    }

    /// Reads the register's raw word from the window.
    pub fn read(&self, mem: &DeviceMemory) -> (r: u32)
        requires
            mem.wf(),
            mem.covers(self.spec_address()),
        ensures
            r == mem.word_at(self.spec_address()),
    {
        mem.read32(self.address)
    }

    /// Writes the register's raw word into the window.
    pub fn write(&self, mem: &mut DeviceMemory, value: u32)
        requires
            old(mem).wf(),
            old(mem).covers(self.spec_address()),
        ensures
            final(mem).wf(),
            final(mem).spec_base() == old(mem).spec_base(),
            final(mem).view() == old(mem).view().update(
                (self.spec_address() - old(mem).spec_base()) / 4,
                value,
            ),
    {
        mem.write32(self.address, value)
    }
}

/// An array of memory-mapped device registers based at a device
/// address, with the type's offset, stride and count.
pub struct DeviceRegisterArray<S: DeviceRegisterArraySpec> {
    base_address: usize,
    _spec: core::marker::PhantomData<S>,
}

impl<S: DeviceRegisterArraySpec> DeviceRegisterArray<S> {
    /// The device base address the array was placed at.
    pub closed spec fn spec_base_address(self) -> int {
        self.base_address as int
    }

    /// Address of element `i` of the array.
    pub open spec fn spec_element_address(self, i: int) -> int {
        self.spec_base_address() + S::spec_offset() + i * S::spec_stride()
    }

    /// Places the array at `base_address`.
    pub fn new(base_address: usize) -> (r: Self)
        ensures
            r.spec_base_address() == base_address,
    {
        Self { base_address, _spec: core::marker::PhantomData }
    }

    /// Address of element `index`; the index must be in bounds.
    pub fn index(&self, index: usize) -> (r: usize)
        requires
            index < S::spec_count(),
            self.spec_base_address() + S::spec_offset() + S::spec_count() * S::spec_stride()
                <= usize::MAX,
        ensures
            r as int == self.spec_element_address(index as int),
    {
        let off = S::offset();
        let st = S::stride();
        proof {
            lemma_element_fits(
                self.spec_base_address() + S::spec_offset(),
                index as int,
                S::spec_stride(),
                S::spec_count(),
            );
        }
        self.base_address + off + index * st
    }

    /// Writes `value` to each element of `[start, end)`, in ascending
    /// index order.  Every word outside the filled span keeps its
    /// value.
    pub fn fill(&self, mem: &mut DeviceMemory, start: usize, end: usize, value: u32)
        requires
            old(mem).wf(),
            start <= end,
            end <= S::spec_count(),
            self.spec_base_address() + S::spec_offset() + S::spec_count() * S::spec_stride()
                <= usize::MAX,
            forall|i: int|
                start <= i < end ==> old(mem).covers(#[trigger] self.spec_element_address(i)),
        ensures
            final(mem).wf(),
            final(mem).spec_base() == old(mem).spec_base(),
            final(mem).view().len() == old(mem).view().len(),
            forall|i: int|
                start <= i < end ==> final(mem).word_at(#[trigger] self.spec_element_address(i))
                    == value,
            forall|a: int|
                old(mem).covers(a) && !(self.spec_element_address(start as int) <= a
                    < self.spec_element_address(end as int)) ==> final(mem).word_at(a) == old(
                    mem,
                ).word_at(a),
    {
        let _st = S::stride();
        let mut j: usize = start;
        while j < end
            invariant
                S::spec_stride() > 0,
                start <= j <= end,
                end <= S::spec_count(),
                mem.wf(),
                mem.spec_base() == old(mem).spec_base(),
                mem.view().len() == old(mem).view().len(),
                self.spec_base_address() + S::spec_offset() + S::spec_count() * S::spec_stride()
                    <= usize::MAX,
                forall|i: int|
                    start <= i < end ==> old(mem).covers(#[trigger] self.spec_element_address(i)),
                forall|i: int|
                    start <= i < j ==> mem.word_at(#[trigger] self.spec_element_address(i))
                        == value,
                forall|a: int|
                    old(mem).covers(a) && !(self.spec_element_address(start as int) <= a
                        < self.spec_element_address(j as int)) ==> mem.word_at(a) == old(
                        mem,
                    ).word_at(a),
            decreases end - j,
        {
            let addr = self.index(j);
            let ghost prev = *mem;
            mem.write32(addr, value);
            proof {
                lemma_update_keeps_other_words(prev, *mem, addr as int, value);
                lemma_span_monotonic(
                    self.spec_base_address() + S::spec_offset(),
                    start as int,
                    j as int,
                    end as int,
                    S::spec_stride(),
                );
                assert forall|i: int|
                    start <= i < j + 1 implies mem.word_at(#[trigger] self.spec_element_address(i))
                    == value by {
                    if i < j {
                        lemma_span_monotonic(
                            self.spec_base_address() + S::spec_offset(),
                            i,
                            j as int,
                            end as int,
                            S::spec_stride(),
                        );
                    }
                }
            }
            j += 1;
        }
    }

    /// Writes the 64-bit `value` to each element of `[start, end)` of
    /// an array of 64-bit registers, low word first, in ascending
    /// index order.  Every word outside the filled span keeps its
    /// value.
    pub fn fill64(&self, mem: &mut DeviceMemory, start: usize, end: usize, value: u64)
        requires
            old(mem).wf(),
            start <= end,
            end <= S::spec_count(),
            S::spec_stride() == 8,
            self.spec_base_address() + S::spec_offset() + S::spec_count() * S::spec_stride()
                <= usize::MAX,
            forall|i: int|
                start <= i < end ==> old(mem).covers(#[trigger] self.spec_element_address(i))
                    && old(mem).covers(self.spec_element_address(i) + 4),
        ensures
            final(mem).wf(),
            final(mem).spec_base() == old(mem).spec_base(),
            final(mem).view().len() == old(mem).view().len(),
            forall|i: int|
                start <= i < end ==> final(mem).word_at(#[trigger] self.spec_element_address(i))
                    == value as u32 && final(mem).word_at(self.spec_element_address(i) + 4) == (
                value >> 32) as u32,
            forall|a: int|
                old(mem).covers(a) && !(self.spec_element_address(start as int) <= a
                    < self.spec_element_address(end as int)) ==> final(mem).word_at(a) == old(
                    mem,
                ).word_at(a),
    {
        let _st = S::stride();
        let mut j: usize = start;
        while j < end
            invariant
                S::spec_stride() > 0,
                start <= j <= end,
                end <= S::spec_count(),
                S::spec_stride() == 8,
                mem.wf(),
                mem.spec_base() == old(mem).spec_base(),
                mem.view().len() == old(mem).view().len(),
                self.spec_base_address() + S::spec_offset() + S::spec_count() * S::spec_stride()
                    <= usize::MAX,
                forall|i: int|
                    start <= i < end ==> old(mem).covers(#[trigger] self.spec_element_address(i))
                        && old(mem).covers(self.spec_element_address(i) + 4),
                forall|i: int|
                    start <= i < j ==> mem.word_at(#[trigger] self.spec_element_address(i))
                        == value as u32 && mem.word_at(self.spec_element_address(i) + 4) == (value
                        >> 32) as u32,
                forall|a: int|
                    old(mem).covers(a) && !(self.spec_element_address(start as int) <= a
                        < self.spec_element_address(j as int)) ==> mem.word_at(a) == old(
                        mem,
                    ).word_at(a),
            decreases end - j,
        {
            let addr = self.index(j);
            let ghost prev = *mem;
            let lo: u32 = #[verifier::truncate] (value as u32);
            let hi: u32 = #[verifier::truncate] ((value >> 32) as u32);
            mem.write32(addr, lo);
            let ghost mid = *mem;
            proof {
                lemma_update_keeps_other_words(prev, mid, addr as int, lo);
            }
            mem.write32(addr + 4, hi);
            proof {
                lemma_update_keeps_other_words(mid, *mem, addr as int + 4, hi);
                lemma_span_monotonic(
                    self.spec_base_address() + S::spec_offset(),
                    start as int,
                    j as int,
                    end as int,
                    S::spec_stride(),
                );
                assert forall|i: int|
                    start <= i < j + 1 implies mem.word_at(#[trigger] self.spec_element_address(i))
                    == value as u32 && mem.word_at(self.spec_element_address(i) + 4) == (value
                    >> 32) as u32 by {
                    if i < j {
                        lemma_span_monotonic(
                            self.spec_base_address() + S::spec_offset(),
                            i,
                            j as int,
                            end as int,
                            S::spec_stride(),
                        );
                    }
                }
            }
            j += 1;
        }
    }
}

/// Element spans are ordered with their indices.
proof fn lemma_span_monotonic(first: int, i: int, j: int, end: int, stride: int)
    by (nonlinear_arith)
    requires
        stride > 0,
        i <= j <= end,
    ensures
        first + i * stride <= first + j * stride <= first + end * stride,
        first + i * stride + stride <= first + (j + 1) * stride || i == j,
        (j + 1) * stride == j * stride + stride,
{
}

/// Elements below the count stay inside the array's span.
proof fn lemma_element_fits(first: int, i: int, stride: int, count: int)
    by (nonlinear_arith)
    requires
        0 <= i < count,
        stride > 0,
    ensures
        first + i * stride + stride <= first + count * stride,
        i * stride >= 0,
{
}

/// A word store changes the stored word and no other covered word.
pub proof fn lemma_update_keeps_other_words(o: DeviceMemory, n: DeviceMemory, addr: int, value: u32)
    requires
        o.wf(),
        o.covers(addr),
        n.spec_base() == o.spec_base(),
        n.view() == o.view().update((addr - o.spec_base()) / 4, value),
    ensures
        n.word_at(addr) == value,
        forall|a: int| o.covers(a) && a != addr ==> n.word_at(a) == o.word_at(a),
{
    assert forall|a: int| o.covers(a) && a != addr implies n.word_at(a) == o.word_at(a) by {
        assert((a - o.spec_base()) / 4 != (addr - o.spec_base()) / 4) by (nonlinear_arith)
            requires
                (a - o.spec_base()) % 4 == 0,
                (addr - o.spec_base()) % 4 == 0,
                a != addr,
                o.spec_base() <= a,
                o.spec_base() <= addr,
        ;
    }
    assert(0 <= (addr - o.spec_base()) / 4 < o.view().len()) by (nonlinear_arith)
        requires
            o.spec_base() <= addr,
            addr + 4 <= o.spec_base() + 4 * o.view().len(),
            (addr - o.spec_base()) % 4 == 0,
    ;
}

} // verus!
