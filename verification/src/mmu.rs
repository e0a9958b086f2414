//! Stage-1 page-table builder.
//!
//! A [`PageTableSpace`] is a bump allocator over a caller-supplied,
//! 4 KiB-aligned arena of physical memory.  The level-0 root table
//! occupies the first 4 KiB; further tables are handed out as the
//! builder walks and extends the translation tree.  Mappings of
//! 4 KiB, 2 MiB and 1 GiB leaves are installed with the attribute
//! defaults of a kernel read/write, inner-shareable, accessed page.

use vstd::prelude::*;

verus! {

/// Shift of a 4 KiB page: the arena granule and the level-3 leaf size.
pub const PAGE_SHIFT_4K: u64 = 12;

/// Shift of a 2 MiB block: the level-2 leaf size.
pub const PAGE_SHIFT_2M: u64 = 21;

/// Shift of a 1 GiB block: the level-1 leaf size.
pub const PAGE_SHIFT_1G: u64 = 30;

/// Bytes in a 4 KiB page.
pub const PAGE_SIZE_4K: u64 = 0x1000;

/// Bytes in a 2 MiB block.
pub const PAGE_SIZE_2M: u64 = 0x20_0000;

/// Bytes in a 1 GiB block.
pub const PAGE_SIZE_1G: u64 = 0x4000_0000;

/// Errors returned by the page-table builder.  Construction and
/// mapping validate their inputs before any state changes.
#[derive(Debug, Clone, Copy, PartialEq, Eq, Structural)]
pub enum PageMapError {
    /// The arena is exhausted: a table allocation would pass its end.
    OutOfMemory,
    /// Bits 63..48 of the virtual address do not sign-extend bit 47.
    NonCanonicalVirtAddress,
    /// The virtual address is not aligned to the requested page size.
    MisalignedVirtAddress,
    /// The physical address is not aligned as required.
    MisalignedPhysAddress,
    /// A size is not a whole number of 4 KiB pages.
    InvalidMappingSize,
    /// A zero-sized request.
    EmptyMapping,
    /// The range overlaps an installed leaf; nothing was changed.
    AlreadyMapped,
}

/// The three leaf granules of the 4 KiB translation regime.
#[derive(Debug, Clone, Copy, PartialEq, Eq, Structural)]
pub enum PageSize {
    /// 4 KiB, installed at level 3.
    Small,
    /// 2 MiB, installed at level 2.
    Large,
    /// 1 GiB, installed at level 1.
    Huge,
}

impl PageSize {
    /// Size of one leaf of this granule, in bytes.
    pub open spec fn spec_size(self) -> u64 {
        match self {
            PageSize::Small => PAGE_SIZE_4K,
            PageSize::Large => PAGE_SIZE_2M,
            PageSize::Huge => PAGE_SIZE_1G,
        }
    }

    /// The level at which a leaf of this granule sits.
    pub open spec fn spec_leaf_level(self) -> int {
        match self {
            PageSize::Small => 3,
            PageSize::Large => 2,
            PageSize::Huge => 1,
        }
    }

    /// Size of one leaf of this granule, in bytes.
    pub fn size_bytes(self) -> (r: u64)
        ensures
            r == self.spec_size(),
    {
        match self {
            PageSize::Small => PAGE_SIZE_4K,
            PageSize::Large => PAGE_SIZE_2M,
            PageSize::Huge => PAGE_SIZE_1G,
        }
    }

    /// The level at which a leaf of this granule sits.
    pub fn leaf_level(self) -> (r: usize)
        ensures
            r as int == self.spec_leaf_level(),
    {
        match self {
            PageSize::Small => 3,
            PageSize::Large => 2,
            PageSize::Huge => 1,
        }
    }
}

/// Whether `x` is a whole number of `size`-byte units.
pub open spec fn spec_aligned(x: int, size: int) -> bool {
    x % size == 0
}

/// Bit-level alignment test agrees with the arithmetic one, for the
/// three granule masks.
proof fn lemma_mask_aligned(x: u64, m: u64)
    by (bit_vector)
    requires
        m == 0xfff || m == 0x1f_ffff || m == 0x3fff_ffff,
    ensures
        m == 0xfff ==> ((x & m == 0) <==> x % 0x1000u64 == 0),
        m == 0x1f_ffff ==> ((x & m == 0) <==> x % 0x20_0000u64 == 0),
        m == 0x3fff_ffff ==> ((x & m == 0) <==> x % 0x4000_0000u64 == 0),
{
}

/// Rounding down with the granule mask lands on the greatest aligned
/// value not above `x`.
proof fn lemma_mask_align_down(x: u64, m: u64)
    by (bit_vector)
    requires
        m == 0xfff || m == 0x1f_ffff || m == 0x3fff_ffff,
    ensures
        m == 0xfff ==> (x & !m) % 0x1000u64 == 0,
        m == 0x1f_ffff ==> (x & !m) % 0x20_0000u64 == 0,
        m == 0x3fff_ffff ==> (x & !m) % 0x4000_0000u64 == 0,
        x & !m <= x,
        x < (x & !m) + m + 1,
{
}

/// `x` is a whole number of pages of the given granule.
pub fn aligned(x: u64, page_size: PageSize) -> (r: bool)
    ensures
        r == spec_aligned(x as int, page_size.spec_size() as int),
{
    let ones_enough: u64 = page_size.size_bytes() - 1;
    proof {
        lemma_mask_aligned(x, ones_enough);
    }
    (x & ones_enough) == 0
}

/// The least multiple of the granule that is not below `x`.
///
/// The result is pinned down exactly: it is aligned and lies in
/// `[x, x + size)`.
pub fn align_up(x: u64, page_size: PageSize) -> (r: u64)
    requires
        x + page_size.spec_size() - 1 <= u64::MAX,
    ensures
        spec_aligned(r as int, page_size.spec_size() as int),
        x <= r < x + page_size.spec_size(),
{
    let ones_enough: u64 = page_size.size_bytes() - 1;
    let sum: u64 = x + ones_enough;
    proof {
        lemma_mask_align_down(sum, ones_enough);
    }
    sum & !ones_enough
}

/// The greatest multiple of the granule that is not above `x`.
pub fn align_down(x: u64, page_size: PageSize) -> (r: u64)
    ensures
        spec_aligned(r as int, page_size.spec_size() as int),
        r <= x < r + page_size.spec_size(),
{
    let ones_enough: u64 = page_size.size_bytes() - 1;
    proof {
        lemma_mask_align_down(x, ones_enough);
    }
    x & !ones_enough
}

/// A 64-bit virtual address, read as the concatenation (least to most
/// significant) of a 12-bit page offset, four 9-bit table indices for
/// levels 3 down to 0, and the 16 upper bits that canonicality ties to
/// bit 47.
#[derive(Debug, Clone, Copy, PartialEq, Eq, Structural)]
pub struct VirtualAddress(pub u64);

/// Table index taken by the walk at `level`: nine bits starting at
/// bit `39 - 9 * level`.
pub open spec fn spec_lvl_index(bits: u64, level: int) -> u64 {
    if level == 0 {
        (bits >> 39) & 0x1ff
    } else if level == 1 {
        (bits >> 30) & 0x1ff
    } else if level == 2 {
        (bits >> 21) & 0x1ff
    } else {
        (bits >> 12) & 0x1ff
    }
}

/// Bits 63..48 equal bit 47: the address survives sign extension.
pub open spec fn spec_canonical(bits: u64) -> bool {
    bits >> 47 == 0 || bits >> 47 == 0x1ffff
}

impl VirtualAddress {
    /// The byte offset within a 4 KiB page: bits 11..0.
    pub open spec fn spec_offset(self) -> u64 {
        self.0 & 0xfff
    }

    /// The byte offset within a 4 KiB page: bits 11..0.
    pub fn offset(&self) -> (r: u64)
        ensures
            r == self.spec_offset(),
    {
        self.0 & 0xfff
    }

    /// The 16 bits above the translated range, bits 63..48.
    pub fn asid(&self) -> (r: u64)
        ensures
            r == self.0 >> 48,
    {
        self.0 >> 48
    }

    /// Level-0 table index, bits 47..39.
    pub fn lvl0(&self) -> (r: usize)
        ensures
            r as u64 == spec_lvl_index(self.0, 0),
    {
        proof {
            lemma_index_fits(self.0);
        }
        (((self.0 >> 39) & 0x1ff) as usize)
    }

    /// Level-1 table index, bits 38..30.
    pub fn lvl1(&self) -> (r: usize)
        ensures
            r as u64 == spec_lvl_index(self.0, 1),
    {
        proof {
            lemma_index_fits(self.0);
        }
        (((self.0 >> 30) & 0x1ff) as usize)
    }

    /// Level-2 table index, bits 29..21.
    pub fn lvl2(&self) -> (r: usize)
        ensures
            r as u64 == spec_lvl_index(self.0, 2),
    {
        proof {
            lemma_index_fits(self.0);
        }
        (((self.0 >> 21) & 0x1ff) as usize)
    }

    /// Level-3 table index, bits 20..12.
    pub fn lvl3(&self) -> (r: usize)
        ensures
            r as u64 == spec_lvl_index(self.0, 3),
    {
        proof {
            lemma_index_fits(self.0);
        }
        (((self.0 >> 12) & 0x1ff) as usize)
    }

    /// Whether the address is canonical: bits 63..48 are the sign
    /// extension of bit 47.
    pub fn is_canonical(&self) -> (r: bool)
        ensures
            r == spec_canonical(self.0),
    {
        let top: u64 = self.0 >> 47;
        top == 0 || top == 0x1ffff
    }

    /// The table index the walk takes at the given level.
    pub fn lvl_index(&self, index: usize) -> (r: usize)
        requires
            index <= 3,
        ensures
            r as u64 == spec_lvl_index(self.0, index as int),
            r < 512,
    {
        proof {
            lemma_index_fits(self.0);
        }
        match index {
            0 => self.lvl0(),
            1 => self.lvl1(),
            2 => self.lvl2(),
            _ => self.lvl3(),
        }
    }
}

/// A nine-bit field is below 512.
proof fn lemma_index_fits(bits: u64)
    by (bit_vector)
    ensures
        (bits >> 39) & 0x1ff < 512,
        (bits >> 30) & 0x1ff < 512,
        (bits >> 21) & 0x1ff < 512,
        (bits >> 12) & 0x1ff < 512,
{
}

impl From<u64> for VirtualAddress {
    /// Wraps the raw bits of a virtual address.
    fn from(bits: u64) -> (r: Self) {
        VirtualAddress(bits)
    }
}

impl vstd::std_specs::convert::FromSpecImpl<u64> for VirtualAddress {
    open spec fn obeys_from_spec() -> bool {
        true
    }

    open spec fn from_spec(bits: u64) -> Self {
        VirtualAddress(bits)
    }
}

/// A 64-bit descriptor in an intermediate (non-leaf) table position:
/// bit 0 is `valid`, bit 1 is `table`, bits 47..12 hold the physical
/// frame number of the next-level table, bits 62..61 the access
/// permission.
#[derive(Debug, Clone, Copy, PartialEq, Eq, Structural)]
pub struct PageTableEntry(pub u64);

impl PageTableEntry {
    /// The all-zero descriptor: not valid.
    pub fn new() -> (r: Self)
        ensures
            r.0 == 0,
    {
        PageTableEntry(0)
    }

    /// Whether the entry is valid (bit 0).
    pub fn valid(&self) -> (r: bool)
        ensures
            r == spec_entry_valid(self.0),
    {
        self.0 & 1 == 1
    }

    /// Whether the entry points to a next-level table (bit 1).
    pub fn table(&self) -> (r: bool)
        ensures
            r == spec_entry_table(self.0),
    {
        self.0 & 2 == 2
    }

    /// The physical frame number of the next-level table, bits 47..12.
    pub fn next_table_pfn(&self) -> (r: u64)
        ensures
            r == (self.0 >> 12) & 0x7_ffff_ffff,
    {
        (self.0 >> 12) & 0x7_ffff_ffff
    }

    /// The same entry with the `valid` bit set or cleared.
    pub fn with_valid(self, v: bool) -> (r: Self)
        ensures
            r.0 == if v { self.0 | 1 } else { self.0 & !1 },
    {
        PageTableEntry(if v { self.0 | 1 } else { self.0 & !1 })
    }

    /// The same entry with the `table` bit set or cleared.
    pub fn with_table(self, v: bool) -> (r: Self)
        ensures
            r.0 == if v { self.0 | 2 } else { self.0 & !2 },
    {
        PageTableEntry(if v { self.0 | 2 } else { self.0 & !2 })
    }

    /// The same entry with the two access-permission bits replaced.
    pub fn with_access_perm(self, v: u64) -> (r: Self)
        ensures
            r.0 == (self.0 & !(3u64 << 61)) | ((v & 3) << 61),
    {
        PageTableEntry((self.0 & !(3u64 << 61)) | ((v & 3) << 61))
    }

    /// The same entry with the next-table frame number replaced.
    pub fn with_next_table_pfn(self, pfn: u64) -> (r: Self)
        ensures
            r.0 == (self.0 & !(0x7_ffff_ffffu64 << 12)) | ((pfn & 0x7_ffff_ffff) << 12),
    {
        PageTableEntry((self.0 & !(0x7_ffff_ffffu64 << 12)) | ((pfn & 0x7_ffff_ffff) << 12))
    }
}

/// A 64-bit leaf descriptor: a level-3 page (bit 1 set) or a level-1
/// or level-2 block (bit 1 clear).  Bits: `valid`, `page`, a 3-bit
/// memory-attribute index, access and shareability permissions, the
/// `accessed` flag, and the output frame number in bits 47..12.
#[derive(Debug, Clone, Copy, PartialEq, Eq, Structural)]
pub struct PageBlockEntry(pub u64);

impl PageBlockEntry {
    /// The all-zero descriptor: not valid.
    pub fn new() -> (r: Self)
        ensures
            r.0 == 0,
    {
        PageBlockEntry(0)
    }

    /// Whether the entry is valid (bit 0).
    pub fn valid(&self) -> (r: bool)
        ensures
            r == spec_entry_valid(self.0),
    {
        self.0 & 1 == 1
    }

    /// The output frame number, bits 47..12.
    pub fn address_pfn(&self) -> (r: u64)
        ensures
            r == (self.0 >> 12) & 0x7_ffff_ffff,
    {
        (self.0 >> 12) & 0x7_ffff_ffff
    }

    /// The same entry with the `valid` bit set or cleared.
    pub fn with_valid(self, v: bool) -> (r: Self)
        ensures
            r.0 == if v { self.0 | 1 } else { self.0 & !1 },
    {
        PageBlockEntry(if v { self.0 | 1 } else { self.0 & !1 })
    }

    /// The same entry with the `page` bit set or cleared.
    pub fn with_page(self, v: bool) -> (r: Self)
        ensures
            r.0 == if v { self.0 | 2 } else { self.0 & !2 },
    {
        PageBlockEntry(if v { self.0 | 2 } else { self.0 & !2 })
    }

    /// The same entry with the memory-attribute index replaced.
    pub fn with_mair_idx(self, v: usize) -> (r: Self)
        ensures
            r.0 == (self.0 & !(7u64 << 2)) | (((v as u64) & 7) << 2),
    {
        PageBlockEntry((self.0 & !(7u64 << 2)) | (((v as u64) & 7) << 2))
    }

    /// The same entry with the two access-permission bits replaced.
    pub fn with_access_perm(self, v: u64) -> (r: Self)
        ensures
            r.0 == (self.0 & !(3u64 << 6)) | ((v & 3) << 6),
    {
        PageBlockEntry((self.0 & !(3u64 << 6)) | ((v & 3) << 6))
    }

    /// The same entry with the two shareability bits replaced.
    pub fn with_share_perm(self, v: u64) -> (r: Self)
        ensures
            r.0 == (self.0 & !(3u64 << 8)) | ((v & 3) << 8),
    {
        PageBlockEntry((self.0 & !(3u64 << 8)) | ((v & 3) << 8))
    }

    /// The same entry with the `accessed` flag set or cleared.
    pub fn with_accessed(self, v: bool) -> (r: Self)
        ensures
            r.0 == if v { self.0 | (1u64 << 10) } else { self.0 & !(1u64 << 10) },
    {
        PageBlockEntry(if v { self.0 | (1u64 << 10) } else { self.0 & !(1u64 << 10) })
    }

    /// The same entry with the output frame number replaced.
    pub fn with_address_pfn(self, pfn: u64) -> (r: Self)
        ensures
            r.0 == (self.0 & !(0x7_ffff_ffffu64 << 12)) | ((pfn & 0x7_ffff_ffff) << 12),
    {
        PageBlockEntry((self.0 & !(0x7_ffff_ffffu64 << 12)) | ((pfn & 0x7_ffff_ffff) << 12))
    }
}

/// Bit 0 of a descriptor: the entry is valid.
pub open spec fn spec_entry_valid(e: u64) -> bool {
    e & 1 == 1
}

/// Bit 1 of a descriptor: the entry points to a next-level table
/// (meaningful below level 3).
pub open spec fn spec_entry_table(e: u64) -> bool {
    e & 2 == 2
}

/// The physical address held in bits 47..12 of a descriptor: the
/// next-level table of an intermediate entry, or the output address
/// of a leaf.
pub open spec fn spec_entry_address(e: u64) -> u64 {
    e & 0x7fff_ffff_f000
}

/// The intermediate descriptor the builder installs: valid, table,
/// privileged access, pointing at the 4 KiB-aligned table `next`.
pub open spec fn spec_table_descriptor(next: u64) -> u64 {
    3u64 | next | (1u64 << 61)
}

/// A leaf installed with the builder defaults: valid, `page` only at
/// level 3, the caller's memory-attribute index, kernel read/write,
/// inner-shareable, accessed, with output address `phys`.
pub open spec fn spec_leaf_descriptor(phys: u64, mair: u64, level: int) -> u64 {
    (if level == 3 { 3u64 } else { 1u64 }) | (mair << 2) | 0x40 | 0x300 | 0x400 | phys
}

/// An entry that terminates a walk at `level`: a block below level 3,
/// a page at level 3.
pub open spec fn spec_entry_is_leaf(e: u64, level: int) -> bool {
    spec_entry_valid(e) && (level == 3 || !spec_entry_table(e))
}

/// The 64-bit descriptor read little-endian from the eight bytes of
/// `s` starting at `pos`.
pub open spec fn spec_le64(s: Seq<u8>, pos: int) -> u64 {
    (s[pos] as u64) | ((s[pos + 1] as u64) << 8) | ((s[pos + 2] as u64) << 16) | ((s[pos
        + 3] as u64) << 24) | ((s[pos + 4] as u64) << 32) | ((s[pos + 5] as u64) << 40) | ((s[pos
        + 6] as u64) << 48) | ((s[pos + 7] as u64) << 56)
}

/// The low byte of a little-endian word decides the `valid` and
/// `table` bits.
proof fn lemma_le64_low_bits(b0: u64, b1: u64, b2: u64, b3: u64, b4: u64, b5: u64, b6: u64, b7: u64)
    by (bit_vector)
    requires
        b0 < 256,
    ensures
        (b0 | (b1 << 8) | (b2 << 16) | (b3 << 24) | (b4 << 32) | (b5 << 40) | (b6 << 48) | (b7
            << 56)) & 1 == b0 & 1,
        b0 == 0xfe ==> b0 & 1 == 0,
        b0 == 0 ==> b0 & 1 == 0,
{
}

/// Splitting a word into bytes and reassembling them little-endian
/// gives the word back.
proof fn lemma_le64_recompose(e: u64)
    by (bit_vector)
    ensures
        (e & 0xff) | (((e >> 8) & 0xff) << 8) | (((e >> 16) & 0xff) << 16) | (((e >> 24) & 0xff)
            << 24) | (((e >> 32) & 0xff) << 32) | (((e >> 40) & 0xff) << 40) | (((e >> 48) & 0xff)
            << 48) | (((e >> 56) & 0xff) << 56) == e,
{
}


/// The page-table arena: a bump allocator over a 4 KiB-aligned span
/// of physical memory whose first page holds the level-0 root table.
///
/// The ghost `table_levels` map records, for every table the builder
/// has handed out, the translation level it serves; the
/// well-formedness invariant ties every valid table descriptor in the
/// arena to an allocated next-level table.
pub struct PageTableSpace {
    /// Physical address at which the page-table area starts; the root
    /// table occupies the first 4 KiB.
    phys_page_table_root: usize,
    /// The memory occupied by the page tables.
    space: Vec<u8>,
    /// Physical address of the next free 4 KiB-aligned block of
    /// `space`: a bump allocator for table frames.
    brk: usize,
    /// Count of tables allocated for level 0: always 1, the root.
    lvl0_tables: usize,
    /// Count of tables allocated for level 1.
    lvl1_tables: usize,
    /// Count of tables allocated for level 2.
    lvl2_tables: usize,
    /// Count of tables allocated for level 3.
    lvl3_tables: usize,
    /// For each allocated table, the level it serves.
    table_levels: Ghost<Map<u64, int>>,
}

impl PageTableSpace {
    /// Physical address of the root table.
    pub closed spec fn root(self) -> int {
        self.phys_page_table_root as int
    }

    /// Physical address one past the arena.
    pub open spec fn arena_end(self) -> int {
        self.root() + self.mem().len()
    }

    /// Physical address of the next table frame to hand out.
    pub closed spec fn spec_brk(self) -> int {
        self.brk as int
    }

    /// The bytes of the arena.
    pub closed spec fn mem(self) -> Seq<u8> {
        self.space@
    }

    /// Tables allocated so far, per level.
    pub closed spec fn spec_stats(self) -> Seq<int> {
        seq![
            self.lvl0_tables as int,
            self.lvl1_tables as int,
            self.lvl2_tables as int,
            self.lvl3_tables as int,
        ]
    }

    /// Sum of the per-level allocation counts.
    pub open spec fn stats_sum(self) -> int {
        self.spec_stats()[0] + self.spec_stats()[1] + self.spec_stats()[2] + self.spec_stats()[3]
    }

    /// The descriptor at index `i` of the table at physical address
    /// `t`, read little-endian from the arena.
    pub open spec fn entry_at(self, t: u64, i: int) -> u64 {
        spec_le64(self.mem(), t - self.root() + 8 * i)
    }

    /// Whether `t` is a table the builder has allocated.
    pub closed spec fn is_table(self, t: u64) -> bool {
        self.table_levels@.dom().contains(t)
    }

    /// The translation level served by the allocated table `t`.
    pub closed spec fn level_of(self, t: u64) -> int {
        self.table_levels@[t]
    }

    /// How many 4 KiB table frames the arena can still hand out.
    pub open spec fn free_tables(self) -> int {
        (self.arena_end() - self.spec_brk()) / 4096
    }

    /// Arithmetic shape of the arena: aligned root, whole pages, the
    /// bump pointer inside `[root + 4 KiB, end]`, and the per-level
    /// counters accounting exactly for the space handed out.
    pub open spec fn arena_wf(self) -> bool {
        &&& self.root() % 4096 == 0
        &&& self.mem().len() % 4096 == 0
        &&& self.mem().len() >= 4096
        &&& self.arena_end() <= usize::MAX
        &&& self.arena_end() <= 0x8000_0000_0000
        &&& self.spec_brk() % 4096 == 0
        &&& self.root() + 4096 <= self.spec_brk() <= self.arena_end()
        &&& self.spec_stats()[0] == 1
        &&& 4096 * self.stats_sum() == self.spec_brk() - self.root()
    }

    /// Structure of the translation tree: the root is the level-0
    /// table, every allocated table lies inside the handed-out part
    /// of the arena, and every valid table descriptor of a table
    /// below level 3 points at an allocated table of the next level.
    pub open spec fn tables_wf(self) -> bool {
        &&& self.is_table(self.root() as u64)
        &&& self.level_of(self.root() as u64) == 0
        &&& forall|t: u64|
            #[trigger] self.is_table(t) ==> self.root() <= t && t + 4096 <= self.spec_brk() && t
                % 4096 == 0 && 0 <= self.level_of(t) <= 3
        &&& forall|t: u64, i: int|
            self.is_table(t) && 0 <= i < 512 && self.level_of(t) < 3 && spec_entry_valid(
                #[trigger] self.entry_at(t, i),
            ) && spec_entry_table(self.entry_at(t, i)) ==> self.is_table(
                spec_entry_address(self.entry_at(t, i)),
            ) && self.level_of(spec_entry_address(self.entry_at(t, i))) == self.level_of(t) + 1
    }

    /// The full invariant of a constructed builder.
    pub open spec fn wf(self) -> bool {
        self.arena_wf() && self.tables_wf()
    }

    /// Every table known to `s1` is known to `s2` at the same level,
    /// and every valid descriptor of `s1` reads unchanged in `s2`:
    /// what a walk of `s1` finds, a walk of `s2` finds too.
    pub open spec fn preserves_tables(s1: Self, s2: Self) -> bool {
        &&& s2.root() == s1.root()
        &&& s2.mem().len() == s1.mem().len()
        &&& forall|t: u64|
            #[trigger] s1.is_table(t) ==> s2.is_table(t) && s2.level_of(t) == s1.level_of(t)
        &&& forall|t: u64, i: int|
            s1.is_table(t) && 0 <= i < 512 && spec_entry_valid(#[trigger] s1.entry_at(t, i))
                ==> s2.entry_at(t, i) == s1.entry_at(t, i)
    }

    /// First physical address of the arena.
    pub fn start(&self) -> (r: usize)
        ensures
            r as int == self.root(),
    {
        self.phys_page_table_root
    }

    /// One past the last physical address of the arena.
    pub fn end(&self) -> (r: usize)
        requires
            self.wf(),
        ensures
            r as int == self.arena_end(),
    {
        self.phys_page_table_root + self.space.len()
    }

    /// The next free table frame: the bump pointer.
    pub fn brk(&self) -> (r: usize)
        ensures
            r as int == self.spec_brk(),
    {
        self.brk
    }

    /// Bytes of the arena not yet handed out.
    pub fn available(&self) -> (r: usize)
        requires
            self.wf(),
        ensures
            r as int == self.arena_end() - self.spec_brk(),
    {
        self.phys_page_table_root + self.space.len() - self.brk
    }

    /// Bytes of the arena handed out to tables, the root included:
    /// always 4 KiB times the sum of the per-level counters.
    pub fn used_space(&self) -> (r: usize)
        requires
            self.wf(),
        ensures
            r as int == self.spec_brk() - self.root(),
            r as int == 4096 * self.stats_sum(),
    {
        self.brk - self.phys_page_table_root
    }

    /// Tables allocated so far for each of the four levels.
    pub fn lvl_stats(&self) -> (r: [usize; 4])
        ensures
            r@[0] as int == self.spec_stats()[0],
            r@[1] as int == self.spec_stats()[1],
            r@[2] as int == self.spec_stats()[2],
            r@[3] as int == self.spec_stats()[3],
    {
        [self.lvl0_tables, self.lvl1_tables, self.lvl2_tables, self.lvl3_tables]
    }

    /// Reads the descriptor at `index` of the table starting at
    /// physical address `phys_table_start`.
    fn read_entry(&self, phys_table_start: u64, index: usize) -> (r: u64)
        requires
            self.wf(),
            self.root() <= phys_table_start,
            phys_table_start + 4096 <= self.arena_end(),
            phys_table_start % 4096 == 0,
            index < 512,
        ensures
            r == self.entry_at(phys_table_start, index as int),
    {
        let pos: usize = (phys_table_start as usize) - self.phys_page_table_root + index * 8;
        (self.space[pos] as u64) | ((self.space[pos + 1] as u64) << 8) | ((self.space[pos
            + 2] as u64) << 16) | ((self.space[pos + 3] as u64) << 24) | ((self.space[pos
            + 4] as u64) << 32) | ((self.space[pos + 5] as u64) << 40) | ((self.space[pos
            + 6] as u64) << 48) | ((self.space[pos + 7] as u64) << 56)
    }

    /// Writes `entry` little-endian at `index` of the table starting
    /// at `phys_table_start`; no other byte of the arena changes.
    fn write_entry(&mut self, phys_table_start: u64, index: usize, entry: u64)
        requires
            old(self).wf(),
            old(self).root() <= phys_table_start,
            phys_table_start + 4096 <= old(self).arena_end(),
            phys_table_start % 4096 == 0,
            index < 512,
        ensures
            final(self).phys_page_table_root == old(self).phys_page_table_root,
            final(self).brk == old(self).brk,
            final(self).lvl0_tables == old(self).lvl0_tables,
            final(self).lvl1_tables == old(self).lvl1_tables,
            final(self).lvl2_tables == old(self).lvl2_tables,
            final(self).lvl3_tables == old(self).lvl3_tables,
            final(self).table_levels == old(self).table_levels,
            final(self).mem().len() == old(self).mem().len(),
            forall|p: int|
                0 <= p < old(self).mem().len() && !(phys_table_start - old(self).root() + 8 * index
                    <= p < phys_table_start - old(self).root() + 8 * index + 8)
                    ==> final(self).mem()[p] == old(self).mem()[p],
            final(self).entry_at(phys_table_start, index as int) == entry,
    {
        let pos: usize = (phys_table_start as usize) - self.phys_page_table_root + index * 8;
        self.space[pos] = #[verifier::truncate] (entry as u8);
        self.space[pos + 1] = #[verifier::truncate] ((entry >> 8) as u8);
        self.space[pos + 2] = #[verifier::truncate] ((entry >> 16) as u8);
        self.space[pos + 3] = #[verifier::truncate] ((entry >> 24) as u8);
        self.space[pos + 4] = #[verifier::truncate] ((entry >> 32) as u8);
        self.space[pos + 5] = #[verifier::truncate] ((entry >> 40) as u8);
        self.space[pos + 6] = #[verifier::truncate] ((entry >> 48) as u8);
        self.space[pos + 7] = #[verifier::truncate] ((entry >> 56) as u8);
        proof {
            lemma_le64_recompose(entry);
            lemma_truncate_bytes(entry);
        }
    }
}

/// Byte truncation keeps the eight little-endian lanes of a word.
proof fn lemma_truncate_bytes(e: u64)
    by (bit_vector)
    ensures
        e as u8 == (e & 0xff) as u8,
        (e >> 8) as u8 as u64 == (e >> 8) & 0xff,
        (e >> 16) as u8 as u64 == (e >> 16) & 0xff,
        (e >> 24) as u8 as u64 == (e >> 24) & 0xff,
        (e >> 32) as u8 as u64 == (e >> 32) & 0xff,
        (e >> 40) as u8 as u64 == (e >> 40) & 0xff,
        (e >> 48) as u8 as u64 == (e >> 48) & 0xff,
        (e >> 56) as u8 as u64 == (e >> 56) & 0xff,
        e as u8 as u64 == e & 0xff,
{
}

impl PageTableSpace {
    /// Builds a page-table arena over `space`, whose first byte sits
    /// at physical address `phys_start`.  The root table is placed at
    /// the start and filled with a pattern whose `valid` bit is clear
    /// in every descriptor.  Inputs are validated before any state
    /// change: a misaligned base, a length that is not a whole number
    /// of 4 KiB pages, and an empty arena are each rejected.
    pub fn new(phys_start: usize, space: Vec<u8>) -> (r: Result<Self, PageMapError>)
        requires
            phys_start + space@.len() <= usize::MAX,
            phys_start + space@.len() <= 0x8000_0000_0000,
        ensures
            r is Ok <==> phys_start % 4096 == 0 && space@.len() % 4096 == 0 && space@.len() > 0,
            match r {
                Ok(pt) => {
                    &&& phys_start % 4096 == 0
                    &&& space@.len() % 4096 == 0
                    &&& space@.len() > 0
                    &&& pt.wf()
                    &&& pt.root() == phys_start
                    &&& pt.mem().len() == space@.len()
                    &&& pt.spec_brk() == phys_start + 4096
                    &&& pt.spec_stats() == seq![1int, 0int, 0int, 0int]
                    &&& forall|i: int| 0 <= i < 4096 ==> pt.mem()[i] == 0xfe
                    &&& forall|i: int| 4096 <= i < space@.len() ==> pt.mem()[i] == space@[i]
                    &&& forall|i: int|
                        0 <= i < 512 ==> !spec_entry_valid(
                            #[trigger] pt.entry_at(phys_start as u64, i),
                        )
                    &&& forall|t: u64| #[trigger] pt.is_table(t) <==> t == phys_start as u64
                },
                Err(e) => {
                    &&& (e == PageMapError::MisalignedPhysAddress <==> phys_start % 4096 != 0)
                    &&& (e == PageMapError::InvalidMappingSize <==> phys_start % 4096 == 0
                        && space@.len() % 4096 != 0)
                    &&& (e == PageMapError::EmptyMapping <==> phys_start % 4096 == 0 && space@.len()
                        % 4096 == 0 && space@.len() == 0)
                },
            },
    {
        if !aligned(phys_start as u64, PageSize::Small) {
            return Err(PageMapError::MisalignedPhysAddress);
        }
        if !aligned(space.len() as u64, PageSize::Small) {
            return Err(PageMapError::InvalidMappingSize);
        }
        if space.len() == 0 {
            return Err(PageMapError::EmptyMapping);
        }
        // Situate the root table at the beginning and give every
        // descriptor in it a pattern with the `valid` bit clear.
        let mut space = space;
        let ghost orig = space@;
        let mut i: usize = 0;
        while i < 4096
            invariant
                space@.len() == orig.len(),
                4096 <= orig.len(),
                i <= 4096,
                forall|p: int| 0 <= p < i ==> space@[p] == 0xfe,
                forall|p: int| i <= p < orig.len() ==> space@[p] == orig[p],
            decreases 4096 - i,
        {
            space[i] = 0xfe;
            i += 1;
        }
        let pt = PageTableSpace {
            phys_page_table_root: phys_start,
            space,
            brk: phys_start + 4096,
            lvl0_tables: 1,
            lvl1_tables: 0,
            lvl2_tables: 0,
            lvl3_tables: 0,
            table_levels: Ghost(Map::empty().insert(phys_start as u64, 0int)),
        };
        proof {
            assert forall|j: int| 0 <= j < 512 implies !spec_entry_valid(
                #[trigger] pt.entry_at(phys_start as u64, j),
            ) by {
                lemma_le64_low_bits(0xfe, 0xfe, 0xfe, 0xfe, 0xfe, 0xfe, 0xfe, 0xfe);
            }
            assert(pt.spec_stats() =~= seq![1int, 0int, 0int, 0int]);
        }
        Ok(pt)
    }

    /// Hands out the next 4 KiB table frame for a table serving
    /// `level`, bumping the bump pointer and the level's counter.
    /// Fails with `OutOfMemory`, changing nothing, exactly when the
    /// arena is exhausted.  The frame's bytes are not touched here.
    fn allocate_page_table(&mut self, level: usize) -> (r: Result<u64, PageMapError>)
        requires
            old(self).wf(),
            1 <= level <= 3,
        ensures
            match r {
                Ok(addr) => {
                    &&& old(self).spec_brk() < old(self).arena_end()
                    &&& addr == old(self).spec_brk()
                    &&& final(self).phys_page_table_root == old(self).phys_page_table_root
                    &&& final(self).space == old(self).space
                    &&& final(self).table_levels == old(self).table_levels
                    &&& final(self).spec_brk() == old(self).spec_brk() + 4096
                    &&& final(self).spec_stats() == old(self).spec_stats().update(
                        level as int,
                        old(self).spec_stats()[level as int] + 1,
                    )
                    &&& final(self).arena_wf()
                },
                Err(e) => {
                    &&& e == PageMapError::OutOfMemory
                    &&& old(self).spec_brk() == old(self).arena_end()
                    &&& *final(self) == *old(self)
                },
            },
    {
        if self.brk >= self.phys_page_table_root + self.space.len() {
            return Err(PageMapError::OutOfMemory);
        }
        let page_table_phys_addr = self.brk;
        self.brk += 4096;
        if level == 1 {
            self.lvl1_tables += 1;
        } else if level == 2 {
            self.lvl2_tables += 1;
        } else {
            self.lvl3_tables += 1;
        }
        proof {
            assert(final(self).spec_stats() =~= old(self).spec_stats().update(
                level as int,
                old(self).spec_stats()[level as int] + 1,
            ));
        }
        Ok(page_table_phys_addr as u64)
    }
}

impl PageTableSpace {
    /// Clears the 4 KiB at `table` to zero bytes: every descriptor of
    /// the frame becomes invalid.  No other byte changes.
    fn clear_table(&mut self, table: u64)
        requires
            old(self).root() <= table,
            table + 4096 <= old(self).arena_end(),
            old(self).arena_end() <= usize::MAX,
        ensures
            final(self).phys_page_table_root == old(self).phys_page_table_root,
            final(self).brk == old(self).brk,
            final(self).lvl0_tables == old(self).lvl0_tables,
            final(self).lvl1_tables == old(self).lvl1_tables,
            final(self).lvl2_tables == old(self).lvl2_tables,
            final(self).lvl3_tables == old(self).lvl3_tables,
            final(self).table_levels == old(self).table_levels,
            final(self).mem().len() == old(self).mem().len(),
            forall|p: int|
                0 <= p < old(self).mem().len() && !(table - old(self).root() <= p < table - old(
                    self,
                ).root() + 4096) ==> final(self).mem()[p] == old(self).mem()[p],
            forall|p: int|
                table - old(self).root() <= p < table - old(self).root() + 4096
                    ==> final(self).mem()[p] == 0,
    {
        let base: usize = (table as usize) - self.phys_page_table_root;
        let mut i: usize = 0;
        while i < 4096
            invariant
                self.phys_page_table_root == old(self).phys_page_table_root,
                self.brk == old(self).brk,
                self.lvl0_tables == old(self).lvl0_tables,
                self.lvl1_tables == old(self).lvl1_tables,
                self.lvl2_tables == old(self).lvl2_tables,
                self.lvl3_tables == old(self).lvl3_tables,
                self.table_levels == old(self).table_levels,
                self.mem().len() == old(self).mem().len(),
                base == table - old(self).root(),
                base + 4096 <= self.mem().len(),
                self.mem().len() <= usize::MAX,
                i <= 4096,
                forall|p: int|
                    0 <= p < old(self).mem().len() && !(base <= p < base + i) ==> self.mem()[p]
                        == old(self).mem()[p],
                forall|p: int| base <= p < base + i ==> self.mem()[p] == 0,
            decreases 4096 - i,
        {
            self.space[base + i] = 0;
            i += 1;
        }
    }

    /// Allocates a fresh table frame for `level`, clears every
    /// descriptor in it, and records the frame as a table of that
    /// level.  On success the builder stays well formed, every
    /// previously valid descriptor reads unchanged, and the new
    /// frame's descriptors are all invalid.
    fn install_table(&mut self, level: usize) -> (r: Result<u64, PageMapError>)
        requires
            old(self).wf(),
            1 <= level <= 3,
        ensures
            match r {
                Ok(addr) => {
                    &&& old(self).spec_brk() < old(self).arena_end()
                    &&& addr == old(self).spec_brk()
                    &&& final(self).wf()
                    &&& Self::preserves_tables(*old(self), *final(self))
                    &&& final(self).phys_page_table_root == old(self).phys_page_table_root
                    &&& final(self).mem().len() == old(self).mem().len()
                    &&& final(self).arena_end() == old(self).arena_end()
                    &&& final(self).spec_brk() == old(self).spec_brk() + 4096
                    &&& final(self).spec_stats() == old(self).spec_stats().update(
                        level as int,
                        old(self).spec_stats()[level as int] + 1,
                    )
                    &&& final(self).is_table(addr)
                    &&& final(self).level_of(addr) == level
                    &&& !old(self).is_table(addr)
                    &&& forall|t: u64|
                        #[trigger] final(self).is_table(t) && t != addr ==> old(self).is_table(t)
                    &&& forall|i: int|
                        0 <= i < 512 ==> !spec_entry_valid(#[trigger] final(self).entry_at(addr, i))
                    &&& forall|p: int|
                        0 <= p < old(self).spec_brk() - old(self).root() ==> final(self).mem()[p]
                            == old(self).mem()[p]
                },
                Err(e) => {
                    &&& e == PageMapError::OutOfMemory
                    &&& old(self).spec_brk() == old(self).arena_end()
                    &&& *final(self) == *old(self)
                },
            },
    {
        let addr = match self.allocate_page_table(level) {
            Ok(a) => a,
            Err(e) => {
                return Err(e);
            },
        };
        self.clear_table(addr);
        proof {
            self.table_levels@ = self.table_levels@.insert(addr, level as int);
        }
        proof {
            let o = *old(self);
            let n = *final(self);
            // The fresh frame was no table before: it lay at the old
            // bump pointer, past every allocated table.
            assert(!o.is_table(addr));
            // Descriptors of old tables sit below the old bump
            // pointer, outside the cleared span: they read unchanged.
            assert forall|t: u64, i: int|
                o.is_table(t) && 0 <= i < 512 implies #[trigger] n.entry_at(t, i)
                == o.entry_at(t, i) by {
                assert(t + 4096 <= o.spec_brk());
            }
            // The cleared frame holds only invalid descriptors.
            assert forall|i: int| 0 <= i < 512 implies !spec_entry_valid(
                #[trigger] n.entry_at(addr, i),
            ) by {
                assert(n.mem()[addr - n.root() + 8 * i] == 0);
                assert(n.mem()[addr - n.root() + 8 * i + 1] == 0);
                assert(n.mem()[addr - n.root() + 8 * i + 2] == 0);
                assert(n.mem()[addr - n.root() + 8 * i + 3] == 0);
                assert(n.mem()[addr - n.root() + 8 * i + 4] == 0);
                assert(n.mem()[addr - n.root() + 8 * i + 5] == 0);
                assert(n.mem()[addr - n.root() + 8 * i + 6] == 0);
                assert(n.mem()[addr - n.root() + 8 * i + 7] == 0);
                lemma_le64_low_bits(0, 0, 0, 0, 0, 0, 0, 0);
            }
            assert forall|t: u64| #[trigger] n.is_table(t) implies n.root() <= t && t + 4096
                <= n.spec_brk() && t % 4096 == 0 && 0 <= n.level_of(t) <= 3 by {
                if t != addr {
                    assert(o.is_table(t));
                }
            }
            assert forall|t: u64, i: int|
                n.is_table(t) && 0 <= i < 512 && n.level_of(t) < 3 && spec_entry_valid(
                    #[trigger] n.entry_at(t, i),
                ) && spec_entry_table(n.entry_at(t, i)) implies n.is_table(
                spec_entry_address(n.entry_at(t, i)),
            ) && n.level_of(spec_entry_address(n.entry_at(t, i))) == n.level_of(t) + 1 by {
                if t == addr {
                    assert(!spec_entry_valid(n.entry_at(t, i)));
                } else {
                    assert(o.is_table(t));
                    assert(n.entry_at(t, i) == o.entry_at(t, i));
                    assert(o.is_table(spec_entry_address(o.entry_at(t, i))));
                }
            }
            assert(n.tables_wf());
        }
        Ok(addr)
    }
}

impl PageTableSpace {
    /// Physical address of the table the walk of `v` consults at
    /// `level`, following table descriptors down from the root.
    pub open spec fn chain_table(self, v: u64, level: int) -> u64
        decreases 2 * level,
        when level >= 0
    {
        if level <= 0 {
            self.root() as u64
        } else {
            spec_entry_address(self.chain_entry(v, level - 1))
        }
    }

    /// The descriptor the walk of `v` reads at `level`.
    pub open spec fn chain_entry(self, v: u64, level: int) -> u64
        decreases 2 * level + 1,
        when level >= 0
    {
        self.entry_at(self.chain_table(v, level), spec_lvl_index(v, level) as int)
    }

    /// The walk of `v` reaches `level`: every descriptor above it is
    /// a valid table descriptor.
    pub open spec fn path_ok(self, v: u64, level: int) -> bool
        decreases level,
    {
        level <= 0 || (self.path_ok(v, level - 1) && spec_entry_valid(self.chain_entry(v, level - 1))
            && spec_entry_table(self.chain_entry(v, level - 1)))
    }

    /// A leaf for `v` is installed at `level` with descriptor `e`.
    pub open spec fn spec_mapped_leaf(self, v: u64, level: int, e: u64) -> bool {
        self.path_ok(v, level) && self.chain_entry(v, level) == e && spec_entry_is_leaf(e, level)
    }

    /// The walk of `v` towards a leaf at `leaf_level`, started at
    /// `level`, meets an already-installed entry: a valid non-table
    /// descriptor above the leaf level, or any valid descriptor at
    /// it.
    pub open spec fn conflict_from(self, v: u64, leaf_level: int, level: int) -> bool
        decreases leaf_level - level,
        when level <= leaf_level
    {
        if level >= leaf_level {
            spec_entry_valid(self.chain_entry(v, level))
        } else {
            spec_entry_valid(self.chain_entry(v, level)) && (!spec_entry_table(
                self.chain_entry(v, level),
            ) || self.conflict_from(v, leaf_level, level + 1))
        }
    }

    /// The walk of `v` towards a leaf at `leaf_level` meets an
    /// already-installed entry: mapping `v` at that granule returns
    /// `AlreadyMapped` and changes nothing.
    pub open spec fn spec_conflict(self, v: u64, leaf_level: int) -> bool {
        self.conflict_from(v, leaf_level, 0)
    }

    /// First level at or below `level` where the walk of `v` finds an
    /// invalid descriptor, or `leaf_level` if none before it.
    pub open spec fn gap_from(self, v: u64, leaf_level: int, level: int) -> int
        decreases leaf_level - level,
        when level <= leaf_level
    {
        if level >= leaf_level {
            leaf_level
        } else if !spec_entry_valid(self.chain_entry(v, level)) {
            level
        } else {
            self.gap_from(v, leaf_level, level + 1)
        }
    }

    /// Number of intermediate tables a conflict-free walk of `v`
    /// still has to allocate to install a leaf at `leaf_level`.
    pub open spec fn tables_needed(self, v: u64, leaf_level: int) -> int {
        leaf_level - self.gap_from(v, leaf_level, 0)
    }
}

/// Every nine-bit walk index is an index into a 512-entry table.
proof fn lemma_lvl_index_fits(v: u64, level: int)
    ensures
        0 <= spec_lvl_index(v, level) < 512,
{
    lemma_index_fits(v);
}

/// The walk of a well-formed builder stays on allocated tables: the
/// table consulted at `level` is recorded at exactly that level.
proof fn lemma_chain_in_dom(s: PageTableSpace, v: u64, level: int)
    requires
        s.wf(),
        s.path_ok(v, level),
        0 <= level <= 3,
    ensures
        s.is_table(s.chain_table(v, level)),
        s.level_of(s.chain_table(v, level)) == level,
    decreases level,
{
    if level > 0 {
        lemma_chain_in_dom(s, v, level - 1);
        lemma_lvl_index_fits(v, level - 1);
        let t = s.chain_table(v, level - 1);
        let i = spec_lvl_index(v, level - 1) as int;
        assert(spec_entry_valid(s.entry_at(t, i)) && spec_entry_table(s.entry_at(t, i)));
    }
}

/// A state that keeps every allocated table and every valid
/// descriptor also keeps every walk: the chain of tables is the
/// same, and a valid descriptor found by the walk reads the same.
proof fn lemma_walk_preserved(s1: PageTableSpace, s2: PageTableSpace, v: u64, level: int)
    requires
        s1.wf(),
        PageTableSpace::preserves_tables(s1, s2),
        s1.path_ok(v, level),
        0 <= level <= 3,
    ensures
        s2.path_ok(v, level),
        s2.chain_table(v, level) == s1.chain_table(v, level),
        spec_entry_valid(s1.chain_entry(v, level)) ==> s2.chain_entry(v, level) == s1.chain_entry(
            v,
            level,
        ),
    decreases level,
{
    lemma_chain_in_dom(s1, v, level);
    lemma_lvl_index_fits(v, level);
    if level > 0 {
        lemma_walk_preserved(s1, s2, v, level - 1);
    }
}

/// A walk that finds a leaf keeps finding it in any state that
/// preserves tables and valid descriptors.
pub proof fn lemma_leaf_preserved(s1: PageTableSpace, s2: PageTableSpace, v: u64, level: int, e: u64)
    requires
        s1.wf(),
        PageTableSpace::preserves_tables(s1, s2),
        s1.spec_mapped_leaf(v, level, e),
        0 <= level <= 3,
    ensures
        s2.spec_mapped_leaf(v, level, e),
{
    lemma_walk_preserved(s1, s2, v, level);
}

/// Two distinct descriptor slots of 4 KiB-aligned tables occupy
/// disjoint byte ranges.
proof fn lemma_entry_ranges_disjoint(t1: u64, i1: int, t2: u64, i2: int)
    requires
        t1 % 4096 == 0,
        t2 % 4096 == 0,
        0 <= i1 < 512,
        0 <= i2 < 512,
        t1 != t2 || i1 != i2,
    ensures
        t1 + 8 * i1 + 8 <= t2 + 8 * i2 || t2 + 8 * i2 + 8 <= t1 + 8 * i1,
{
    if t1 != t2 {
        assert(t1 + 4096 <= t2 || t2 + 4096 <= t1) by (nonlinear_arith)
            requires
                t1 % 4096 == 0,
                t2 % 4096 == 0,
                t1 != t2,
        ;
    }
}

/// After a write confined to one descriptor slot, every other slot
/// of every allocated table reads unchanged.
proof fn lemma_entries_untouched(
    o: PageTableSpace,
    n: PageTableSpace,
    t_w: u64,
    i_w: int,
    t: u64,
    i: int,
)
    requires
        o.wf(),
        n.root() == o.root(),
        n.mem().len() == o.mem().len(),
        forall|p: int|
            0 <= p < o.mem().len() && !(t_w - o.root() + 8 * i_w <= p < t_w - o.root() + 8 * i_w
                + 8) ==> n.mem()[p] == o.mem()[p],
        o.is_table(t_w),
        0 <= i_w < 512,
        o.is_table(t),
        0 <= i < 512,
        t != t_w || i != i_w,
    ensures
        n.entry_at(t, i) == o.entry_at(t, i),
{
    lemma_entry_ranges_disjoint(t, i, t_w, i_w);
}

/// A write confined to one slot of a table serving level `lw` leaves
/// every walk unchanged down to `lw`: the same tables are consulted
/// and, above `lw`, the same descriptors are read.
proof fn lemma_walk_untouched(
    o: PageTableSpace,
    n: PageTableSpace,
    t_w: u64,
    i_w: int,
    lw: int,
    v: u64,
    j: int,
)
    requires
        o.wf(),
        n.root() == o.root(),
        n.mem().len() == o.mem().len(),
        forall|p: int|
            0 <= p < o.mem().len() && !(t_w - o.root() + 8 * i_w <= p < t_w - o.root() + 8 * i_w
                + 8) ==> n.mem()[p] == o.mem()[p],
        o.is_table(t_w),
        o.level_of(t_w) == lw,
        0 <= i_w < 512,
        o.path_ok(v, j),
        0 <= j <= lw <= 3,
    ensures
        n.path_ok(v, j),
        n.chain_table(v, j) == o.chain_table(v, j),
        j < lw ==> n.chain_entry(v, j) == o.chain_entry(v, j),
    decreases j,
{
    lemma_chain_in_dom(o, v, j);
    lemma_lvl_index_fits(v, j);
    if j > 0 {
        lemma_walk_untouched(o, n, t_w, i_w, lw, v, j - 1);
        lemma_chain_in_dom(o, v, j - 1);
        lemma_lvl_index_fits(v, j - 1);
        lemma_entries_untouched(o, n, t_w, i_w, o.chain_table(v, j - 1), spec_lvl_index(v, j - 1) as int);
    }
    if j < lw {
        lemma_entries_untouched(o, n, t_w, i_w, o.chain_table(v, j), spec_lvl_index(v, j) as int);
    }
}

/// Preserving tables and valid descriptors composes.
proof fn lemma_preserves_trans(s1: PageTableSpace, s2: PageTableSpace, s3: PageTableSpace)
    requires
        PageTableSpace::preserves_tables(s1, s2),
        PageTableSpace::preserves_tables(s2, s3),
    ensures
        PageTableSpace::preserves_tables(s1, s3),
{
    assert forall|t: u64, i: int|
        s1.is_table(t) && 0 <= i < 512 && spec_entry_valid(#[trigger] s1.entry_at(t, i)) implies s3.entry_at(
        t,
        i,
    ) == s1.entry_at(t, i) by {
        assert(s2.is_table(t));
        assert(s2.entry_at(t, i) == s1.entry_at(t, i));
    }
}

/// Fields of the intermediate descriptor the builder writes.
proof fn lemma_table_descriptor_fields(next: u64)
    by (bit_vector)
    requires
        next % 4096 == 0,
        next < 0x8000_0000_0000,
    ensures
        spec_entry_valid(spec_table_descriptor(next)),
        spec_entry_table(spec_table_descriptor(next)),
        spec_entry_address(spec_table_descriptor(next)) == next,
        ((spec_table_descriptor(next) >> 12) & 0x7_ffff_ffff) << 12 == next,
{
}

/// The chained builder calls produce exactly the intermediate
/// descriptor.
proof fn lemma_table_descriptor_build(next: u64)
    by (bit_vector)
    requires
        next % 4096 == 0,
        next < 0x8000_0000_0000,
    ensures
        ((((0u64 | 1) | 2) & !(3u64 << 61)) | ((1u64 & 3) << 61)) & !(0x7_ffff_ffffu64 << 12) | (((
        next >> 12) & 0x7_ffff_ffff) << 12) == spec_table_descriptor(next),
{
}

/// Fields of a leaf descriptor: valid, a table descriptor only at
/// level 3, carrying the caller's output address.
proof fn lemma_leaf_descriptor_fields(phys: u64, mair: u64, page: bool)
    by (bit_vector)
    requires
        phys % 4096 == 0,
        phys < 0x8000_0000_0000,
        mair < 8,
    ensures
        spec_entry_valid((if page { 3u64 } else { 1u64 }) | (mair << 2) | 0x40 | 0x300 | 0x400 | phys),
        spec_entry_table((if page { 3u64 } else { 1u64 }) | (mair << 2) | 0x40 | 0x300 | 0x400 | phys)
            == page,
        spec_entry_address((if page { 3u64 } else { 1u64 }) | (mair << 2) | 0x40 | 0x300 | 0x400
            | phys) == phys,
{
}

/// The chained builder calls produce exactly the leaf descriptor.
proof fn lemma_leaf_descriptor_build(phys: u64, mair: u64, page: bool)
    by (bit_vector)
    requires
        phys % 4096 == 0,
        phys < 0x8000_0000_0000,
        mair < 8,
    ensures
        ({
            let a = if page { (0u64 | 1) | 2 } else { (0u64 | 1) & !2 };
            let b = a | (1u64 << 10);
            let c = (b & !(3u64 << 6)) | ((1u64 & 3) << 6);
            let d = (c & !(3u64 << 8)) | ((3u64 & 3) << 8);
            let e = (d & !(7u64 << 2)) | ((mair & 7) << 2);
            let f = (e & !(0x7_ffff_ffffu64 << 12)) | (((phys >> 12) & 0x7_ffff_ffff) << 12);
            f == ((if page { 3u64 } else { 1u64 }) | (mair << 2) | 0x40 | 0x300 | 0x400 | phys)
        }),
{
}

impl PageTableSpace {
    /// Walks the tree for `virt_addr` and installs a leaf of
    /// `page_size` mapping it to `phys_addr`, allocating intermediate
    /// tables for every level the walk finds unmapped.
    ///
    /// The call succeeds exactly when the walk meets no installed
    /// entry and the arena still holds the tables the walk is short
    /// of.  On `AlreadyMapped` nothing changes at all; on
    /// `OutOfMemory` tables allocated up to the failure remain, but
    /// no leaf is installed.  Whatever the outcome, every previously
    /// valid descriptor reads unchanged.
    #[verifier::rlimit(60)]
    fn map_page(
        &mut self,
        phys_addr: u64,
        virt_addr: VirtualAddress,
        memory_attribute_index: usize,
        page_size: PageSize,
    ) -> (r: Result<(), PageMapError>)
        requires
            old(self).wf(),
            spec_aligned(phys_addr as int, page_size.spec_size() as int),
            spec_aligned(virt_addr.0 as int, page_size.spec_size() as int),
            phys_addr + page_size.spec_size() <= 0x8000_0000_0000,
            memory_attribute_index < 8,
        ensures
            final(self).wf(),
            PageTableSpace::preserves_tables(*old(self), *final(self)),
            final(self).spec_brk() >= old(self).spec_brk(),
            forall|lv: int|
                0 <= lv < 4 ==> final(self).spec_stats()[lv] >= old(self).spec_stats()[lv],
            ({
                let v = virt_addr.0;
                let leaf = page_size.spec_leaf_level();
                &&& (r is Ok <==> !old(self).spec_conflict(v, leaf) && old(self).free_tables()
                    >= old(self).tables_needed(v, leaf))
                &&& (r == Err::<(), PageMapError>(PageMapError::AlreadyMapped) <==> old(
                    self,
                ).spec_conflict(v, leaf))
                &&& (r == Err::<(), PageMapError>(PageMapError::OutOfMemory) <==> !old(
                    self,
                ).spec_conflict(v, leaf) && old(self).free_tables() < old(self).tables_needed(
                    v,
                    leaf,
                ))
                &&& (r == Err::<(), PageMapError>(PageMapError::AlreadyMapped) ==> *final(self)
                    == *old(self))
                &&& (r == Err::<(), PageMapError>(PageMapError::OutOfMemory)
                    ==> !final(self).path_ok(v, leaf) && !final(self).spec_conflict(v, leaf)
                    && final(self).free_tables() == 0 && final(self).tables_needed(v, leaf) >= 1)
                &&& (r is Ok ==> {
                    &&& final(self).spec_mapped_leaf(
                        v,
                        leaf,
                        spec_leaf_descriptor(phys_addr, memory_attribute_index as u64, leaf),
                    )
                    &&& final(self).spec_brk() == old(self).spec_brk() + 4096 * old(
                        self,
                    ).tables_needed(v, leaf)
                    &&& ({
                        let g = old(self).gap_from(v, leaf, 0);
                        forall|lv: int|
                            0 <= lv < 4 ==> final(self).spec_stats()[lv] == old(
                                self,
                            ).spec_stats()[lv] + if g < lv && lv <= leaf {
                                1int
                            } else {
                                0int
                            }
                    })
                })
            }),
    {
        let ghost olds = *old(self);
        let ghost v = virt_addr.0;
        let ghost lleaf = page_size.spec_leaf_level();
        let mut table_phys_addr: u64 = self.phys_page_table_root as u64;
        let leaf_level: usize = page_size.leaf_level();
        let mut level: usize = 0;
        let ghost mut fresh: bool = false;
        while level < leaf_level
            invariant
                olds == *old(self),
                self.wf(),
                olds.wf(),
                lleaf == page_size.spec_leaf_level(),
                leaf_level as int == lleaf,
                1 <= lleaf <= 3,
                level <= leaf_level,
                v == virt_addr.0,
                PageTableSpace::preserves_tables(olds, *self),
                self.arena_end() == olds.arena_end(),
                self.path_ok(v, level as int),
                self.chain_table(v, level as int) == table_phys_addr,
                !fresh ==> *self == olds && olds.spec_conflict(v, lleaf) == olds.conflict_from(
                    v,
                    lleaf,
                    level as int,
                ) && olds.gap_from(v, lleaf, 0) == olds.gap_from(v, lleaf, level as int),
                fresh ==> ({
                    let g = olds.gap_from(v, lleaf, 0);
                    &&& !olds.spec_conflict(v, lleaf)
                    &&& 0 <= g < level as int
                    &&& self.spec_brk() == olds.spec_brk() + 4096 * (level as int - g)
                    &&& (forall|lv: int|
                        0 <= lv < 4 ==> self.spec_stats()[lv] == olds.spec_stats()[lv] + if g < lv
                            && lv <= level as int {
                            1int
                        } else {
                            0int
                        })
                    &&& (forall|i: int|
                        0 <= i < 512 ==> !spec_entry_valid(
                            #[trigger] self.entry_at(table_phys_addr, i),
                        ))
                }),
            decreases leaf_level - level,
        {
            proof {
                lemma_chain_in_dom(*self, v, level as int);
                lemma_lvl_index_fits(v, level as int);
            }
            let idx = virt_addr.lvl_index(level);
            let table_entry = PageTableEntry(self.read_entry(table_phys_addr, idx));

            if table_entry.valid() && !table_entry.table() {
                // An installed block stops the walk above the leaf
                // level: the range is already mapped.
                proof {
                    assert(!fresh);
                    assert(olds.conflict_from(v, lleaf, level as int));
                }
                return Err(PageMapError::AlreadyMapped);
            }
            if !table_entry.valid() {
                proof {
                    if !fresh {
                        assert(olds.gap_from(v, lleaf, level as int) == level as int);
                        assert(!olds.conflict_from(v, lleaf, level as int));
                        fresh = true;
                    }
                }
                let ghost g = olds.gap_from(v, lleaf, 0);
                let ghost before = *self;
                let next = match self.install_table(level + 1) {
                    Ok(a) => a,
                    Err(e) => {
                        proof {
                            assert(self.spec_brk() == self.arena_end());
                            assert(olds.free_tables() == level as int - g) by {
                                vstd::arithmetic::div_mod::lemma_fundamental_div_mod_converse(
                                    olds.arena_end() - olds.spec_brk(),
                                    4096,
                                    level as int - g,
                                    0,
                                );
                            }
                            assert(olds.free_tables() < olds.tables_needed(v, lleaf));
                            // The walk stops on the invalid slot: the
                            // address is left unmapped, the arena is
                            // dry, and the address still needs tables.
                            lemma_path_blocked(*self, v, level as int, lleaf);
                            vstd::arithmetic::div_mod::lemma_div_of0(4096);
                            lemma_path_entries(*self, v, level as int);
                            lemma_walk_prefix(*self, v, lleaf, level as int);
                        }
                        return Err(e);
                    },
                };
                let ghost pre = *self;
                let desc = PageTableEntry::new().with_valid(true).with_table(true).with_access_perm(
                    1,
                ).with_next_table_pfn(next >> 12);
                proof {
                    lemma_table_descriptor_build(next);
                    lemma_table_descriptor_fields(next);
                    lemma_walk_preserved(before, pre, v, level as int);
                }
                self.write_entry(table_phys_addr, idx, desc.0);
                proof {
                    let n = *self;
                    lemma_walk_untouched(pre, n, table_phys_addr, idx as int, level as int, v, level as int);
                    lemma_chain_in_dom(pre, v, level as int);
                    // Every slot but the written one is unchanged, so
                    // the tree invariant and prior walks survive.
                    assert forall|t: u64, i: int|
                        pre.is_table(t) && 0 <= i < 512 && (t != table_phys_addr || i
                            != idx as int) implies #[trigger] n.entry_at(t, i) == pre.entry_at(t, i) by {
                        lemma_entries_untouched(pre, n, table_phys_addr, idx as int, t, i);
                    }
                    assert(n.entry_at(table_phys_addr, idx as int) == spec_table_descriptor(next));
                    assert forall|t: u64| #[trigger] n.is_table(t) implies n.root() <= t && t + 4096
                        <= n.spec_brk() && t % 4096 == 0 && 0 <= n.level_of(t) <= 3 by {
                        assert(pre.is_table(t));
                    }
                    assert forall|t: u64, i: int|
                        n.is_table(t) && 0 <= i < 512 && n.level_of(t) < 3 && spec_entry_valid(
                            #[trigger] n.entry_at(t, i),
                        ) && spec_entry_table(n.entry_at(t, i)) implies n.is_table(
                        spec_entry_address(n.entry_at(t, i)),
                    ) && n.level_of(spec_entry_address(n.entry_at(t, i))) == n.level_of(t) + 1 by {
                        assert(pre.is_table(t));
                        if t == table_phys_addr && i == idx as int {
                            assert(n.entry_at(t, i) == spec_table_descriptor(next));
                        } else {
                            assert(n.entry_at(t, i) == pre.entry_at(t, i));
                        }
                    }
                    assert(n.tables_wf());
                    assert(PageTableSpace::preserves_tables(pre, n));
                    lemma_preserves_trans(olds, pre, n);
                    // The walk now follows the fresh descriptor.
                    assert(n.chain_entry(v, level as int) == spec_table_descriptor(next));
                    assert(n.path_ok(v, level as int + 1));
                    assert(n.chain_table(v, level as int + 1) == next);
                    // The fresh table is all-invalid: the slot just
                    // written lives in its parent, not in it.
                    assert forall|i: int| 0 <= i < 512 implies !spec_entry_valid(
                        #[trigger] n.entry_at(next, i),
                    ) by {
                        lemma_entries_untouched(pre, n, table_phys_addr, idx as int, next, i);
                    }
                }
                table_phys_addr = next;
            } else {
                // A valid table descriptor: follow it down.
                proof {
                    assert(!fresh);
                    let e = self.chain_entry(v, level as int);
                    assert(spec_entry_valid(e) && spec_entry_table(e));
                    assert(((e >> 12) & 0x7_ffff_ffff) << 12 == spec_entry_address(e)) by (bit_vector);
                    assert(olds.conflict_from(v, lleaf, level as int) == olds.conflict_from(
                        v,
                        lleaf,
                        level as int + 1,
                    ));
                    assert(olds.gap_from(v, lleaf, level as int) == olds.gap_from(
                        v,
                        lleaf,
                        level as int + 1,
                    ));
                }
                table_phys_addr = table_entry.next_table_pfn() << 12;
            }
            level += 1;
        }
        proof {
            lemma_chain_in_dom(*self, v, lleaf);
            lemma_lvl_index_fits(v, lleaf);
        }
        let idx = virt_addr.lvl_index(leaf_level);
        let page_entry = PageBlockEntry(self.read_entry(table_phys_addr, idx));
        if page_entry.valid() {
            proof {
                assert(!fresh);
                assert(olds.conflict_from(v, lleaf, lleaf));
            }
            return Err(PageMapError::AlreadyMapped);
        }
        // The `accessed` flag spares a hardware walk without
        // access-flag support a fault on first touch.
        let leaf = PageBlockEntry::new().with_valid(true).with_page(leaf_level == 3).with_accessed(
            true,
        ).with_access_perm(1).with_share_perm(3).with_mair_idx(memory_attribute_index).with_address_pfn(
            phys_addr >> 12,
        );
        let ghost pre = *self;
        let ghost leaf_spec = spec_leaf_descriptor(phys_addr, memory_attribute_index as u64, lleaf);
        proof {
            assert(page_size.spec_size() as int % 4096 == 0);
            assert(phys_addr as int % 4096 == 0) by (nonlinear_arith)
                requires
                    phys_addr as int % (page_size.spec_size() as int) == 0,
                    page_size.spec_size() as int % 4096 == 0,
                    page_size.spec_size() >= 4096,
            ;
            lemma_leaf_descriptor_build(phys_addr, memory_attribute_index as u64, leaf_level == 3);
            lemma_leaf_descriptor_fields(phys_addr, memory_attribute_index as u64, leaf_level == 3);
            assert(leaf.0 == leaf_spec);
        }
        self.write_entry(table_phys_addr, idx, leaf.0);
        proof {
            let n = *self;
            lemma_walk_untouched(pre, n, table_phys_addr, idx as int, lleaf, v, lleaf);
            lemma_chain_in_dom(pre, v, lleaf);
            assert forall|t: u64, i: int|
                pre.is_table(t) && 0 <= i < 512 && (t != table_phys_addr || i
                    != idx as int) implies #[trigger] n.entry_at(t, i) == pre.entry_at(t, i) by {
                lemma_entries_untouched(pre, n, table_phys_addr, idx as int, t, i);
            }
            assert(n.entry_at(table_phys_addr, idx as int) == leaf_spec);
            // A block leaf is no table descriptor, and a level-3
            // table carries no structural obligation: the tree
            // invariant survives the leaf write.
            assert forall|t: u64| #[trigger] n.is_table(t) implies n.root() <= t && t + 4096
                <= n.spec_brk() && t % 4096 == 0 && 0 <= n.level_of(t) <= 3 by {
                assert(pre.is_table(t));
            }
            assert forall|t: u64, i: int|
                n.is_table(t) && 0 <= i < 512 && n.level_of(t) < 3 && spec_entry_valid(
                    #[trigger] n.entry_at(t, i),
                ) && spec_entry_table(n.entry_at(t, i)) implies n.is_table(
                spec_entry_address(n.entry_at(t, i)),
            ) && n.level_of(spec_entry_address(n.entry_at(t, i))) == n.level_of(t) + 1 by {
                assert(pre.is_table(t));
                if t == table_phys_addr && i == idx as int {
                    // A leaf below level 3 has the table bit clear;
                    // at level 3 there is nothing to show.
                    assert(n.entry_at(t, i) == leaf_spec);
                } else {
                    assert(n.entry_at(t, i) == pre.entry_at(t, i));
                }
            }
            assert(n.tables_wf());
            assert(PageTableSpace::preserves_tables(pre, n));
            lemma_preserves_trans(olds, pre, n);
            assert(n.chain_entry(v, lleaf) == leaf_spec);
            assert(n.spec_mapped_leaf(v, lleaf, leaf_spec));
            if !fresh {
                assert(olds.gap_from(v, lleaf, lleaf) == lleaf);
                assert(olds.tables_needed(v, lleaf) == 0);
                assert(olds.free_tables() >= 0) by {
                    vstd::arithmetic::div_mod::lemma_div_pos_is_pos(
                        olds.arena_end() - olds.spec_brk(),
                        4096,
                    );
                }
            } else {
                let g = olds.gap_from(v, lleaf, 0);
                assert(olds.free_tables() >= lleaf - g) by {
                    vstd::arithmetic::div_mod::lemma_fundamental_div_mod_converse(
                        olds.arena_end() - olds.spec_brk(),
                        4096,
                        (olds.arena_end() - olds.spec_brk()) / 4096,
                        0,
                    );
                }
            }
        }
        Ok(())
    }
}

/// A failed run of `count` uniform pages is witnessed by the page it
/// stopped at: the pages before it are installed, and at the witness
/// the tree either already holds a mapping (`already`) or the walk
/// found nothing but the arena could not supply the missing tables.
pub open spec fn spec_run_failure(
    s: PageTableSpace,
    already: bool,
    phys: u64,
    v: u64,
    size: u64,
    leaf: int,
    mair: u64,
    count: int,
) -> bool {
    exists|m: int|
        #![trigger s.spec_conflict((v + m * size) as u64, leaf)]
        0 <= m < count && (forall|k: int|
            0 <= k < m ==> #[trigger] s.spec_mapped_leaf(
                (v + k * size) as u64,
                leaf,
                spec_leaf_descriptor((phys + k * size) as u64, mair, leaf),
            )) && already == s.spec_conflict((v + m * size) as u64, leaf) && (!already
            ==> s.tables_needed((v + m * size) as u64, leaf) >= 1)
}

/// The pre-validation of a mapping request, in check order: the
/// virtual address must have a zero page offset, be canonical, and
/// both addresses must be aligned to the requested granule.
pub open spec fn spec_check_addresses(
    phys_addr: u64,
    virt_addr: VirtualAddress,
    page_size: PageSize,
) -> Result<(), PageMapError> {
    if virt_addr.spec_offset() != 0 {
        Err(PageMapError::MisalignedVirtAddress)
    } else if !spec_canonical(virt_addr.0) {
        Err(PageMapError::NonCanonicalVirtAddress)
    } else if !spec_aligned(phys_addr as int, page_size.spec_size() as int) {
        Err(PageMapError::MisalignedPhysAddress)
    } else if !spec_aligned(virt_addr.0 as int, page_size.spec_size() as int) {
        Err(PageMapError::MisalignedVirtAddress)
    } else {
        Ok(())
    }
}

impl PageTableSpace {
    /// Validates a mapping request without touching any state.
    fn check_addresses_and_map_size(
        &self,
        phys_addr: u64,
        virt_addr: VirtualAddress,
        page_size: PageSize,
    ) -> (r: Result<(), PageMapError>)
        ensures
            r == spec_check_addresses(phys_addr, virt_addr, page_size),
    {
        if virt_addr.offset() != 0 {
            return Err(PageMapError::MisalignedVirtAddress);
        }
        if !virt_addr.is_canonical() {
            return Err(PageMapError::NonCanonicalVirtAddress);
        }
        if !aligned(phys_addr, page_size) {
            return Err(PageMapError::MisalignedPhysAddress);
        }
        if !aligned(virt_addr.0, page_size) {
            return Err(PageMapError::MisalignedVirtAddress);
        }
        Ok(())
    }

    /// Maps `page_count` consecutive leaves of `page_size`, starting
    /// at `(phys_addr, virt_addr)`, each with the leaf defaults and
    /// the caller's memory-attribute index.
    ///
    /// Validation failures and an empty request change nothing.  On
    /// success every page of the run is installed.  If the first page
    /// already overlaps an installed leaf, the call returns
    /// `AlreadyMapped` and changes nothing; a failure further into
    /// the run keeps the pages already installed, as the arena is
    /// advanced and not rolled back.
    pub fn map_pages(
        &mut self,
        phys_addr: u64,
        virt_addr: VirtualAddress,
        page_count: usize,
        page_size: PageSize,
        memory_attribute_index: usize,
    ) -> (r: Result<(), PageMapError>)
        requires
            old(self).wf(),
            memory_attribute_index < 8,
            phys_addr + page_count * page_size.spec_size() <= 0x8000_0000_0000,
            virt_addr.0 + page_count * page_size.spec_size() <= u64::MAX,
        ensures
            final(self).wf(),
            PageTableSpace::preserves_tables(*old(self), *final(self)),
            final(self).spec_brk() >= old(self).spec_brk(),
            final(self).spec_stats()[0] >= old(self).spec_stats()[0],
            final(self).spec_stats()[1] >= old(self).spec_stats()[1],
            final(self).spec_stats()[2] >= old(self).spec_stats()[2],
            final(self).spec_stats()[3] >= old(self).spec_stats()[3],
            spec_check_addresses(phys_addr, virt_addr, page_size) matches Err(e) ==> r == Err::<
                (),
                PageMapError,
            >(e) && *final(self) == *old(self),
            spec_check_addresses(phys_addr, virt_addr, page_size) is Ok && page_count == 0 ==> r
                == Err::<(), PageMapError>(PageMapError::EmptyMapping) && *final(self) == *old(
                self,
            ),
            spec_check_addresses(phys_addr, virt_addr, page_size) is Ok && page_count > 0 ==> ({
                let v = virt_addr.0;
                let leaf = page_size.spec_leaf_level();
                let size = page_size.spec_size();
                &&& (r is Ok ==> forall|k: int|
                    0 <= k < page_count ==> #[trigger] final(self).spec_mapped_leaf(
                        (v + k * size) as u64,
                        leaf,
                        spec_leaf_descriptor(
                            (phys_addr + k * size) as u64,
                            memory_attribute_index as u64,
                            leaf,
                        ),
                    ))
                &&& (old(self).spec_conflict(v, leaf) ==> r == Err::<(), PageMapError>(
                    PageMapError::AlreadyMapped,
                ) && *final(self) == *old(self))
                &&& (r is Err ==> (r == Err::<(), PageMapError>(PageMapError::AlreadyMapped) || r
                    == Err::<(), PageMapError>(PageMapError::OutOfMemory)))
                &&& (r is Err ==> spec_run_failure(
                    *final(self),
                    r == Err::<(), PageMapError>(PageMapError::AlreadyMapped),
                    phys_addr,
                    v,
                    size,
                    leaf,
                    memory_attribute_index as u64,
                    page_count as int,
                ))
                &&& (r == Err::<(), PageMapError>(PageMapError::OutOfMemory)
                    ==> final(self).free_tables() == 0)
                &&& (page_count == 1 ==> (r is Ok <==> !old(self).spec_conflict(v, leaf) && old(
                    self,
                ).free_tables() >= old(self).tables_needed(v, leaf)))
                &&& (page_count == 1 && r is Ok ==> ({
                    let g = old(self).gap_from(v, leaf, 0);
                    final(self).spec_brk() == old(self).spec_brk() + 4096 * old(
                        self,
                    ).tables_needed(v, leaf) && forall|lv: int|
                        0 <= lv < 4 ==> final(self).spec_stats()[lv] == old(
                            self,
                        ).spec_stats()[lv] + if g < lv && lv <= leaf {
                            1int
                        } else {
                            0int
                        }
                }))
            }),
    {
        match self.check_addresses_and_map_size(phys_addr, virt_addr, page_size) {
            Ok(()) => (),
            Err(e) => {
                return Err(e);
            },
        }
        if page_count == 0 {
            return Err(PageMapError::EmptyMapping);
        }
        let ghost olds = *old(self);
        let ghost v0 = virt_addr.0;
        let ghost p0 = phys_addr;
        let ghost size = page_size.spec_size();
        let ghost lleaf = page_size.spec_leaf_level();
        let pages_to_map = page_count;
        let mut pages_mapped: usize = 0;
        let mut cur_phys = phys_addr;
        let mut cur_virt = virt_addr.0;
        while pages_mapped < pages_to_map
            invariant
                olds == *old(self),
                v0 == virt_addr.0,
                p0 == phys_addr,
                spec_check_addresses(phys_addr, virt_addr, page_size) is Ok,
                self.wf(),
                olds.wf(),
                pages_to_map == page_count,
                pages_mapped <= pages_to_map,
                memory_attribute_index < 8,
                size == page_size.spec_size(),
                lleaf == page_size.spec_leaf_level(),
                p0 + page_count * size <= 0x8000_0000_0000,
                v0 + page_count * size <= u64::MAX,
                cur_phys == p0 + pages_mapped * size,
                cur_virt == v0 + pages_mapped * size,
                spec_aligned(p0 as int, size as int),
                spec_aligned(v0 as int, size as int),
                spec_aligned(cur_phys as int, size as int),
                spec_aligned(cur_virt as int, size as int),
                PageTableSpace::preserves_tables(olds, *self),
                self.spec_brk() >= olds.spec_brk(),
                forall|k: int|
                    0 <= k < pages_mapped ==> #[trigger] self.spec_mapped_leaf(
                        (v0 + k * size) as u64,
                        lleaf,
                        spec_leaf_descriptor(
                            (p0 + k * size) as u64,
                            memory_attribute_index as u64,
                            lleaf,
                        ),
                    ),
                pages_mapped == 0 ==> *self == olds,
                pages_mapped > 0 ==> !olds.spec_conflict(v0, lleaf) && olds.free_tables()
                    >= olds.tables_needed(v0, lleaf),
                self.spec_stats()[0] >= olds.spec_stats()[0],
                self.spec_stats()[1] >= olds.spec_stats()[1],
                self.spec_stats()[2] >= olds.spec_stats()[2],
                self.spec_stats()[3] >= olds.spec_stats()[3],
                pages_to_map == 1 && pages_mapped == 1 ==> ({
                    let g = olds.gap_from(v0, lleaf, 0);
                    self.spec_brk() == olds.spec_brk() + 4096 * olds.tables_needed(v0, lleaf)
                        && forall|lv: int|
                        0 <= lv < 4 ==> self.spec_stats()[lv] == olds.spec_stats()[lv] + if g < lv
                            && lv <= lleaf {
                            1int
                        } else {
                            0int
                        }
                }),
            decreases pages_to_map - pages_mapped,
        {
            proof {
                assert((pages_mapped + 1) * size == pages_mapped * size + size) by (nonlinear_arith);
                assert(pages_mapped * size >= 0) by (nonlinear_arith);
                assert((pages_mapped as int + 1) * size <= page_count * size) by (nonlinear_arith)
                    requires
                        pages_mapped < page_count && size > 0,
                ;
            }
            let ghost pre = *self;
            match self.map_page(cur_phys, VirtualAddress(cur_virt), memory_attribute_index, page_size) {
                Ok(()) => (),
                Err(e) => {
                    proof {
                        assert(e == PageMapError::AlreadyMapped || e == PageMapError::OutOfMemory);
                        // The failing page witnesses the error in the
                        // state the call leaves behind: the pages
                        // before it stay installed, and the failure
                        // itself is readable from the tree.
                        let m = pages_mapped as int;
                        assert forall|k: int|
                            0 <= k < m implies #[trigger] self.spec_mapped_leaf(
                            (v0 + k * size) as u64,
                            lleaf,
                            spec_leaf_descriptor(
                                (p0 + k * size) as u64,
                                memory_attribute_index as u64,
                                lleaf,
                            ),
                        ) by {
                            lemma_leaf_preserved(
                                pre,
                                *self,
                                (v0 + k * size) as u64,
                                lleaf,
                                spec_leaf_descriptor(
                                    (p0 + k * size) as u64,
                                    memory_attribute_index as u64,
                                    lleaf,
                                ),
                            );
                        }
                        if e == PageMapError::AlreadyMapped {
                            assert(self.spec_conflict((v0 + m * size) as u64, lleaf));
                        } else {
                            assert(!self.spec_conflict((v0 + m * size) as u64, lleaf)
                                && self.free_tables() == 0 && self.tables_needed(
                                (v0 + m * size) as u64,
                                lleaf,
                            ) >= 1);
                        }
                        assert(spec_run_failure(
                            *self,
                            e == PageMapError::AlreadyMapped,
                            p0,
                            v0,
                            size as u64,
                            lleaf,
                            memory_attribute_index as u64,
                            page_count as int,
                        ));
                        assert(self.spec_stats()[0] >= pre.spec_stats()[0]
                            && self.spec_stats()[1] >= pre.spec_stats()[1]
                            && self.spec_stats()[2] >= pre.spec_stats()[2]
                            && self.spec_stats()[3] >= pre.spec_stats()[3]);
                    }
                    return Err(e);
                },
            }
            proof {
                assert forall|k: int|
                    0 <= k < pages_mapped + 1 implies #[trigger] self.spec_mapped_leaf(
                    (v0 + k * size) as u64,
                    lleaf,
                    spec_leaf_descriptor(
                        (p0 + k * size) as u64,
                        memory_attribute_index as u64,
                        lleaf,
                    ),
                ) by {
                    if k < pages_mapped {
                        lemma_leaf_preserved(
                            pre,
                            *self,
                            (v0 + k * size) as u64,
                            lleaf,
                            spec_leaf_descriptor(
                                (p0 + k * size) as u64,
                                memory_attribute_index as u64,
                                lleaf,
                            ),
                        );
                    }
                }
                lemma_preserves_trans(olds, pre, *self);
                assert(self.spec_stats()[0] >= pre.spec_stats()[0]
                    && self.spec_stats()[1] >= pre.spec_stats()[1]
                    && self.spec_stats()[2] >= pre.spec_stats()[2]
                    && self.spec_stats()[3] >= pre.spec_stats()[3]);
                vstd::arithmetic::div_mod::lemma_mod_multiples_vanish(
                    1,
                    cur_phys as int,
                    size as int,
                );
                vstd::arithmetic::div_mod::lemma_mod_multiples_vanish(
                    1,
                    cur_virt as int,
                    size as int,
                );
            }
            pages_mapped += 1;
            cur_phys += page_size.size_bytes();
            cur_virt += page_size.size_bytes();
        }
        Ok(())
    }
}

/// Distance from `x` up to the next multiple of `s`: zero when `x`
/// is already one.
pub open spec fn spec_dist_up(x: int, s: int) -> int {
    if x % s == 0 {
        0
    } else {
        s - x % s
    }
}

impl PageTableSpace {
    /// Picks the granule and run length for the next step of
    /// [`Self::map_range`], trying the larger pages first so that the
    /// walk spends as few tables as possible, and never letting a run
    /// cross a boundary its granule is not aligned to: 1 GiB blocks
    /// whenever both cursors allow them, else 2 MiB blocks capped at
    /// the next 1 GiB virtual boundary, else 4 KiB pages up to the
    /// next 2 MiB or 1 GiB boundary, whichever comes first within the
    /// remaining length.
    fn get_page_size_and_page_count(&self, non_mapped: u64, phys_addr: u64, virt_addr: u64) -> (r: (
        PageSize,
        u64,
    ))
        requires
            non_mapped >= 4096,
            non_mapped as int % 4096 == 0,
            phys_addr as int % 4096 == 0,
            virt_addr as int % 4096 == 0,
        ensures
            r.1 >= 1,
            r.1 * r.0.spec_size() <= non_mapped,
            r.1 as int * r.0.spec_size() as int % 4096 == 0,
            phys_addr as int % r.0.spec_size() as int == 0,
            virt_addr as int % r.0.spec_size() as int == 0,
            phys_addr as int % 0x4000_0000 == 0 && virt_addr as int % 0x4000_0000 == 0
                && non_mapped >= 0x4000_0000 ==> r.0 == PageSize::Huge && r.1 as int
                == non_mapped as int / 0x4000_0000,
            !(phys_addr as int % 0x4000_0000 == 0 && virt_addr as int % 0x4000_0000 == 0
                && non_mapped >= 0x4000_0000) && phys_addr as int % 0x20_0000 == 0
                && virt_addr as int % 0x20_0000 == 0 && non_mapped >= 0x20_0000 ==> ({
                let before_huge = spec_dist_up(virt_addr as int, 0x4000_0000);
                let headroom = if 0 < before_huge < non_mapped {
                    before_huge
                } else {
                    non_mapped as int
                };
                r.0 == PageSize::Large && r.1 as int == headroom / 0x20_0000
            }),
            !(phys_addr as int % 0x20_0000 == 0 && virt_addr as int % 0x20_0000 == 0 && non_mapped
                >= 0x20_0000) ==> ({
                let before_huge = spec_dist_up(virt_addr as int, 0x4000_0000);
                let before_large = spec_dist_up(virt_addr as int, 0x20_0000);
                let headroom = if 0 < before_large < non_mapped {
                    before_large
                } else if 0 < before_huge < non_mapped {
                    before_huge
                } else {
                    non_mapped as int
                };
                r.0 == PageSize::Small && r.1 as int == headroom / 0x1000
            }),
    {
        if aligned(phys_addr, PageSize::Huge) && aligned(virt_addr, PageSize::Huge) && non_mapped
            >= PAGE_SIZE_1G {
            proof {
                assert(non_mapped as int / 0x4000_0000 >= 1 && (non_mapped as int / 0x4000_0000)
                    * 0x4000_0000 <= non_mapped as int && ((non_mapped as int / 0x4000_0000)
                    * 0x4000_0000) % 4096 == 0) by (nonlinear_arith)
                    requires
                        non_mapped >= 0x4000_0000,
                ;
            }
            (PageSize::Huge, non_mapped / PAGE_SIZE_1G)
        } else if aligned(phys_addr, PageSize::Large) && aligned(virt_addr, PageSize::Large)
            && non_mapped >= PAGE_SIZE_2M {
            // Stop 2 MiB runs at the next 1 GiB virtual boundary so a
            // later step can coalesce into 1 GiB blocks.
            let rem: u64 = virt_addr % PAGE_SIZE_1G;
            let before_huge_page: u64 = if rem == 0 {
                0
            } else {
                PAGE_SIZE_1G - rem
            };
            let headroom: u64 = if before_huge_page > 0 && before_huge_page < non_mapped {
                before_huge_page
            } else {
                non_mapped
            };
            proof {
                assert((virt_addr as int % 0x4000_0000) % 0x20_0000 == 0) by (nonlinear_arith)
                    requires
                        virt_addr as int % 0x20_0000 == 0,
                ;
                assert(rem as int % 0x20_0000 == 0 && rem < 0x4000_0000 && rem != 0 ==> rem as int
                    <= 0x4000_0000 - 0x20_0000) by (nonlinear_arith);
                assert(headroom >= 0x20_0000);
                assert(headroom as int / 0x20_0000 >= 1 && (headroom as int / 0x20_0000) * 0x20_0000
                    <= headroom as int && ((headroom as int / 0x20_0000) * 0x20_0000) % 4096 == 0)
                    by (nonlinear_arith)
                    requires
                        headroom >= 0x20_0000,
                ;
            }
            (PageSize::Large, headroom / PAGE_SIZE_2M)
        } else {
            // 4 KiB pages up to the first boundary ahead, so larger
            // granules can take over there.
            let rem_l: u64 = virt_addr % PAGE_SIZE_2M;
            let before_large_page: u64 = if rem_l == 0 {
                0
            } else {
                PAGE_SIZE_2M - rem_l
            };
            let rem_h: u64 = virt_addr % PAGE_SIZE_1G;
            let before_huge_page: u64 = if rem_h == 0 {
                0
            } else {
                PAGE_SIZE_1G - rem_h
            };
            let headroom: u64 = if before_large_page > 0 && before_large_page < non_mapped {
                before_large_page
            } else if before_huge_page > 0 && before_huge_page < non_mapped {
                before_huge_page
            } else {
                non_mapped
            };
            proof {
                assert((virt_addr as int % 0x20_0000) % 4096 == 0 && (virt_addr as int
                    % 0x4000_0000) % 4096 == 0) by (nonlinear_arith)
                    requires
                        virt_addr as int % 4096 == 0,
                ;
                assert(headroom as int % 4096 == 0);
                assert(headroom as int / 4096 >= 1 && (headroom as int / 4096) * 4096
                    == headroom as int) by (nonlinear_arith)
                    requires
                        headroom as int % 4096 == 0 && headroom >= 4096,
                ;
            }
            (PageSize::Small, headroom / PAGE_SIZE_4K)
        }
    }
}

/// An overlap seen by a walk towards the deepest level is seen by a
/// walk towards any leaf level: whatever valid descriptor stops the
/// deep walk stops, or terminates, the shallow one.
proof fn lemma_conflict_any_level(s: PageTableSpace, v: u64, leaf: int, l: int)
    requires
        1 <= leaf <= 3,
        0 <= l <= leaf,
        s.conflict_from(v, 3, l),
    ensures
        s.conflict_from(v, leaf, l),
    decreases leaf - l,
{
    if l < leaf {
        if spec_entry_table(s.chain_entry(v, l)) {
            lemma_conflict_any_level(s, v, leaf, l + 1);
        }
    }
}

/// After a chunk of uniform pages is installed, every 4 KiB offset
/// it covers translates to the matching physical address.
proof fn lemma_chunk_covers(
    s: PageTableSpace,
    page_size: PageSize,
    n: int,
    mair: usize,
    cur_virt: u64,
    cur_phys: u64,
    v0: u64,
    p0: u64,
    mapped: int,
    size: int,
)
    requires
        s.wf(),
        mair < 8,
        n >= 1,
        cur_virt == v0 + mapped,
        cur_phys == p0 + mapped,
        mapped >= 0,
        mapped % 4096 == 0,
        mapped + n * page_size.spec_size() <= size,
        p0 + size <= 0x8000_0000_0000,
        v0 + size <= u64::MAX,
        cur_virt as int % page_size.spec_size() as int == 0,
        cur_phys as int % page_size.spec_size() as int == 0,
        forall|j: int|
            0 <= j < n ==> #[trigger] s.spec_mapped_leaf(
                (cur_virt + j * page_size.spec_size()) as u64,
                page_size.spec_leaf_level(),
                spec_leaf_descriptor(
                    (cur_phys + j * page_size.spec_size()) as u64,
                    mair as u64,
                    page_size.spec_leaf_level(),
                ),
            ),
    ensures
        forall|k: int|
            mapped <= k < mapped + n * page_size.spec_size() && k % 4096 == 0
                ==> #[trigger] s.spec_translates((v0 + k) as u64, p0 + k),
{
    let sz = page_size.spec_size() as int;
    let lvl = page_size.spec_leaf_level();
    assert(spec_level_size(lvl) == page_size.spec_size());
    assert forall|k: int|
        mapped <= k < mapped + n * sz && k % 4096 == 0 implies #[trigger] s.spec_translates(
        (v0 + k) as u64,
        p0 + k,
    ) by {
        let off = k - mapped;
        let j = off / sz;
        let r = off % sz;
        vstd::arithmetic::div_mod::lemma_fundamental_div_mod(off, sz);
        assert(0 <= r < sz && off == j * sz + r) by (nonlinear_arith)
            requires
                off == sz * j + r && 0 <= r < sz,
        ;
        assert(0 <= j < n) by (nonlinear_arith)
            requires
                off == j * sz + r && 0 <= r < sz && 0 <= off && off < n * sz && sz > 0,
        ;
        let q = sz / 4096;
        vstd::arithmetic::div_mod::lemma_fundamental_div_mod(sz, 4096);
        assert(j * sz == (j * q) * 4096) by (nonlinear_arith)
            requires
                sz == 4096 * q,
        ;
        vstd::arithmetic::div_mod::lemma_mod_multiples_basic(j * q, 4096);
        vstd::arithmetic::div_mod::lemma_sub_mod_noop(off, j * sz, 4096);
        assert(r % 4096 == 0);
        vstd::arithmetic::div_mod::lemma_mod_multiples_basic(j, sz);
        vstd::arithmetic::div_mod::lemma_add_mod_noop(cur_virt as int, j * sz, sz);
        vstd::arithmetic::div_mod::lemma_add_mod_noop(cur_phys as int, j * sz, sz);
        vstd::arithmetic::div_mod::lemma_mod_self_0(sz);
        vstd::arithmetic::div_mod::lemma_small_mod(0nat, sz as nat);
        assert((cur_virt + j * sz) as int % sz == 0 && (cur_phys + j * sz) as int % sz == 0);
        assert((j + 1) * sz <= n * sz && j * sz + sz == (j + 1) * sz) by (nonlinear_arith)
            requires
                0 <= j < n && sz > 0,
        ;
        assert(s.spec_mapped_leaf(
            (cur_virt as int + j * page_size.spec_size()) as u64,
            lvl,
            spec_leaf_descriptor(
                (cur_phys as int + j * page_size.spec_size()) as u64,
                mair as u64,
                lvl,
            ),
        ));
        lemma_block_translates(
            s,
            (cur_virt as int + j * sz) as u64,
            (cur_phys as int + j * sz) as u64,
            mair as u64,
            lvl,
            r as u64,
        );
        assert((cur_virt as int + j * sz) + r == v0 + k && (cur_phys as int + j * sz) + r == p0
            + k);
    }
}

/// A canonical address below a non-canonical one pins the two to
/// the sides of the low canonical half's upper edge.
proof fn lemma_canonical_range(a: u64, b: u64)
    by (bit_vector)
    requires
        a >> 47 == 0 || a >> 47 == 0x1ffff,
        !(b >> 47 == 0 || b >> 47 == 0x1ffff),
        a <= b,
    ensures
        a < 0x8000_0000_0000,
        b >= 0x8000_0000_0000,
{
}

/// The page witnessing a failed uniform run lies inside the byte
/// range the run belongs to, at a page-aligned offset.
proof fn lemma_run_failure_locates(
    s: PageTableSpace,
    already: bool,
    phys: u64,
    v: u64,
    size: u64,
    leaf: int,
    mair: u64,
    count: int,
    lo: u64,
    span: u64,
)
    requires
        spec_run_failure(s, already, phys, v, size, leaf, mair, count),
        already,
        1 <= leaf <= 3,
        size as int % 4096 == 0,
        size > 0,
        count >= 1,
        lo <= v,
        (v - lo) as int % 4096 == 0,
        v + count * size <= lo + span,
        lo + span <= u64::MAX,
    ensures
        exists|va: u64, l: int|
            #![trigger s.spec_conflict(va, l)]
            lo <= va < lo + span && (va - lo) % 4096 == 0 && 1 <= l <= 3 && s.spec_conflict(va, l),
{
    let m = choose|m: int|
        #![trigger s.spec_conflict((v + m * size) as u64, leaf)]
        0 <= m < count && (forall|k: int|
            0 <= k < m ==> #[trigger] s.spec_mapped_leaf(
                (v + k * size) as u64,
                leaf,
                spec_leaf_descriptor((phys + k * size) as u64, mair, leaf),
            )) && already == s.spec_conflict((v + m * size) as u64, leaf) && (!already
            ==> s.tables_needed((v + m * size) as u64, leaf) >= 1);
    assert(0 <= m * size && m * size + size <= count * size) by (nonlinear_arith)
        requires
            0 <= m < count && size > 0,
    ;
    let q = size as int / 4096;
    vstd::arithmetic::div_mod::lemma_fundamental_div_mod(size as int, 4096);
    assert(m * size == (m * q) * 4096) by (nonlinear_arith)
        requires
            size == 4096 * q,
    ;
    vstd::arithmetic::div_mod::lemma_mod_multiples_basic(m * q, 4096);
    vstd::arithmetic::div_mod::lemma_add_mod_noop((v - lo) as int, m * size, 4096);
    let va = (v + m * size) as u64;
    assert(lo <= va < lo + span && (va - lo) % 4096 == 0 && s.spec_conflict(va, leaf));
}

impl PageTableSpace {
    /// Maps the byte range `[virt_addr, virt_addr + size)` onto
    /// `[phys_addr, phys_addr + size)` with the caller's
    /// memory-attribute index, choosing 1 GiB, 2 MiB and 4 KiB leaves
    /// greedily so that as few tables as possible are spent.
    ///
    /// Inputs are validated before any state change, in this order:
    /// the physical address must be 4 KiB-aligned, the size a
    /// non-zero whole number of 4 KiB pages, and the virtual address
    /// page-aligned and canonical.  A failure further into the range
    /// keeps what was already installed.
    #[verifier::rlimit(100)]
    pub fn map_range(
        &mut self,
        phys_addr: u64,
        virt_addr: VirtualAddress,
        size: u64,
        memory_attribute_index: usize,
    ) -> (r: Result<(), PageMapError>)
        requires
            old(self).wf(),
            memory_attribute_index < 8,
            phys_addr + size <= 0x8000_0000_0000,
            virt_addr.0 + size <= u64::MAX,
            size / 4096 <= usize::MAX,
        ensures
            final(self).wf(),
            PageTableSpace::preserves_tables(*old(self), *final(self)),
            final(self).spec_brk() >= old(self).spec_brk(),
            final(self).spec_stats()[0] >= old(self).spec_stats()[0],
            final(self).spec_stats()[1] >= old(self).spec_stats()[1],
            final(self).spec_stats()[2] >= old(self).spec_stats()[2],
            final(self).spec_stats()[3] >= old(self).spec_stats()[3],
            phys_addr as int % 4096 != 0 ==> r == Err::<(), PageMapError>(
                PageMapError::MisalignedPhysAddress,
            ) && *final(self) == *old(self),
            phys_addr as int % 4096 == 0 && size as int % 4096 != 0 ==> r == Err::<
                (),
                PageMapError,
            >(PageMapError::InvalidMappingSize) && *final(self) == *old(self),
            phys_addr as int % 4096 == 0 && size as int % 4096 == 0 && size == 0 ==> r == Err::<
                (),
                PageMapError,
            >(PageMapError::EmptyMapping) && *final(self) == *old(self),
            phys_addr as int % 4096 == 0 && size as int % 4096 == 0 && size > 0
                && virt_addr.spec_offset() != 0 ==> r == Err::<(), PageMapError>(
                PageMapError::MisalignedVirtAddress,
            ) && *final(self) == *old(self),
            phys_addr as int % 4096 == 0 && size as int % 4096 == 0 && size > 0
                && virt_addr.spec_offset() == 0 && !spec_canonical(virt_addr.0) ==> r == Err::<
                (),
                PageMapError,
            >(PageMapError::NonCanonicalVirtAddress) && *final(self) == *old(self),
            ({
                let valid = phys_addr as int % 4096 == 0 && size as int % 4096 == 0 && size > 0
                    && virt_addr.spec_offset() == 0 && spec_canonical(virt_addr.0);
                &&& (valid && old(self).spec_conflict(virt_addr.0, 3) ==> r == Err::<
                    (),
                    PageMapError,
                >(PageMapError::AlreadyMapped) && *final(self) == *old(self))
                &&& (valid && r is Err ==> (r == Err::<(), PageMapError>(
                    PageMapError::AlreadyMapped,
                ) || r == Err::<(), PageMapError>(PageMapError::OutOfMemory) || r == Err::<
                    (),
                    PageMapError,
                >(PageMapError::NonCanonicalVirtAddress)))
                &&& (valid && r is Ok ==> forall|k: int|
                    0 <= k < size && k % 4096 == 0 ==> #[trigger] final(self).spec_translates(
                        (virt_addr.0 + k) as u64,
                        phys_addr + k,
                    ))
                &&& (valid && size == 4096 ==> (r is Ok <==> !old(self).spec_conflict(virt_addr.0, 3)
                    && old(self).free_tables() >= old(self).tables_needed(virt_addr.0, 3)))
                &&& (valid && r == Err::<(), PageMapError>(PageMapError::OutOfMemory)
                    ==> final(self).free_tables() == 0)
                &&& (valid && r == Err::<(), PageMapError>(PageMapError::AlreadyMapped)
                    ==> exists|va: u64, l: int|
                        #![trigger final(self).spec_conflict(va, l)]
                        virt_addr.0 <= va < virt_addr.0 + size && (va - virt_addr.0) % 4096 == 0
                        && 1 <= l <= 3 && final(self).spec_conflict(va, l))
                &&& (valid && r == Err::<(), PageMapError>(PageMapError::NonCanonicalVirtAddress)
                    ==> virt_addr.0 < 0x8000_0000_0000 && virt_addr.0 + size > 0x8000_0000_0000)
            }),
    {
        if !aligned(phys_addr, PageSize::Small) {
            return Err(PageMapError::MisalignedPhysAddress);
        }
        if !aligned(size, PageSize::Small) {
            return Err(PageMapError::InvalidMappingSize);
        }
        if size == 0 {
            return Err(PageMapError::EmptyMapping);
        }
        if virt_addr.offset() != 0 {
            return Err(PageMapError::MisalignedVirtAddress);
        }
        if !virt_addr.is_canonical() {
            return Err(PageMapError::NonCanonicalVirtAddress);
        }
        proof {
            lemma_offset_is_page_alignment(virt_addr.0);
        }
        let ghost olds = *old(self);
        let ghost p0 = phys_addr;
        let ghost v0 = virt_addr.0;
        let mut non_mapped = size;
        let mut cur_phys = phys_addr;
        let mut cur_virt = virt_addr.0;
        let mut mapped: u64 = 0;
        while mapped < size
            invariant
                olds == *old(self),
                self.wf(),
                olds.wf(),
                memory_attribute_index < 8,
                p0 == phys_addr,
                v0 == virt_addr.0,
                virt_addr.spec_offset() == 0,
                spec_canonical(virt_addr.0),
                mapped <= size,
                mapped + non_mapped == size,
                cur_phys == p0 + mapped,
                cur_virt == v0 + mapped,
                p0 + size <= 0x8000_0000_0000,
                v0 + size <= u64::MAX,
                size / 4096 <= usize::MAX,
                mapped as int % 4096 == 0,
                size as int % 4096 == 0,
                p0 as int % 4096 == 0,
                v0 as int % 4096 == 0,
                PageTableSpace::preserves_tables(olds, *self),
                self.spec_brk() >= olds.spec_brk(),
                mapped == 0 ==> *self == olds,
                mapped > 0 ==> !olds.spec_conflict(v0, 3),
                size == 4096 && mapped > 0 ==> olds.free_tables() >= olds.tables_needed(v0, 3),
                self.spec_stats()[0] >= olds.spec_stats()[0],
                self.spec_stats()[1] >= olds.spec_stats()[1],
                self.spec_stats()[2] >= olds.spec_stats()[2],
                self.spec_stats()[3] >= olds.spec_stats()[3],
                memory_attribute_index < 8,
                forall|k: int|
                    0 <= k < mapped && k % 4096 == 0 ==> #[trigger] self.spec_translates(
                        (v0 + k) as u64,
                        p0 + k,
                    ),
            decreases size - mapped,
        {
            proof {
                assert(non_mapped as int % 4096 == 0);
                assert(cur_phys as int % 4096 == 0 && cur_virt as int % 4096 == 0) by {
                    broadcast use vstd::arithmetic::div_mod::lemma_add_mod_noop;

                }
            }
            let (page_size, page_count) = self.get_page_size_and_page_count(
                non_mapped,
                cur_phys,
                cur_virt,
            );
            proof {
                assert(page_count <= usize::MAX && page_count as int * page_size.spec_size() as int
                    <= non_mapped as int) by (nonlinear_arith)
                    requires
                        page_count as int * page_size.spec_size() as int <= non_mapped as int
                            && page_size.spec_size() >= 4096 && page_count >= 0 && non_mapped as int
                            / 4096 <= usize::MAX && non_mapped as int % 4096 == 0,
                ;
                assert(non_mapped as int / 4096 <= size as int / 4096) by {
                    broadcast use vstd::arithmetic::div_mod::lemma_div_is_ordered;

                }
            }
            let ghost pre = *self;
            match self.map_pages(
                cur_phys,
                VirtualAddress(cur_virt),
                page_count as usize,
                page_size,
                memory_attribute_index,
            ) {
                Ok(()) => {
                    proof {
                        if mapped == 0 && olds.spec_conflict(v0, 3) {
                            lemma_conflict_any_level(olds, v0, page_size.spec_leaf_level(), 0);
                        }
                        lemma_offset_is_page_alignment(cur_virt);
                        if size == 4096 {
                            assert(page_size == PageSize::Small && page_count == 1);
                        }
                        let sz = page_size.spec_size() as int;
                        let lvl = page_size.spec_leaf_level();
                        let n = page_count as int;
                        assert(spec_level_size(lvl) == page_size.spec_size());
                        // Addresses already mapped keep translating.
                        assert forall|k: int|
                            0 <= k < mapped && k % 4096 == 0 implies #[trigger] self.spec_translates(
                            (v0 + k) as u64,
                            p0 + k,
                        ) by {
                            lemma_translation_preserved(pre, *self, (v0 + k) as u64, p0 + k);
                        }
                        lemma_chunk_covers(
                            *self,
                            page_size,
                            page_count as int,
                            memory_attribute_index,
                            cur_virt,
                            cur_phys,
                            v0,
                            p0,
                            mapped as int,
                            size as int,
                        );
                    }
                },
                Err(e) => {
                    proof {
                        lemma_offset_is_page_alignment(cur_virt);
                        assert(VirtualAddress(cur_virt).spec_offset() == 0);
                        if mapped == 0 && olds.spec_conflict(v0, 3) {
                            lemma_conflict_any_level(olds, v0, page_size.spec_leaf_level(), 0);
                        }
                        if size == 4096 {
                            // A 4 KiB range is exactly one small
                            // page: the chunk chooser picks it, and
                            // the single-page outcome is exact.
                            assert(page_size == PageSize::Small && page_count == 1);
                        }
                        assert(self.spec_stats()[0] >= pre.spec_stats()[0]
                            && self.spec_stats()[1] >= pre.spec_stats()[1]
                            && self.spec_stats()[2] >= pre.spec_stats()[2]
                            && self.spec_stats()[3] >= pre.spec_stats()[3]);
                        if e == PageMapError::NonCanonicalVirtAddress {
                            // The run marched off the low canonical
                            // half: the error names the crossing.
                            assert(!spec_canonical(cur_virt));
                            lemma_canonical_range(v0, cur_virt);
                        }
                        if e == PageMapError::AlreadyMapped {
                            assert(spec_check_addresses(
                                cur_phys,
                                VirtualAddress(cur_virt),
                                page_size,
                            ) is Ok);
                            lemma_run_failure_locates(
                                *self,
                                true,
                                cur_phys,
                                cur_virt,
                                page_size.spec_size(),
                                page_size.spec_leaf_level(),
                                memory_attribute_index as u64,
                                page_count as int,
                                virt_addr.0,
                                size,
                            );
                        }
                    }
                    return Err(e);
                },
            }
            let just_mapped = page_count * page_size.size_bytes();
            proof {
                lemma_preserves_trans(olds, pre, *self);
                assert(self.spec_stats()[0] >= pre.spec_stats()[0]
                    && self.spec_stats()[1] >= pre.spec_stats()[1]
                    && self.spec_stats()[2] >= pre.spec_stats()[2]
                    && self.spec_stats()[3] >= pre.spec_stats()[3]);
                assert(just_mapped as int % 4096 == 0 && just_mapped >= 4096) by (nonlinear_arith)
                    requires
                        just_mapped as int == page_count as int * page_size.spec_size() as int
                            && page_count >= 1 && page_size.spec_size() >= 4096
                            && page_size.spec_size() as int % 4096 == 0,
                ;
                assert((mapped + just_mapped) as int % 4096 == 0) by {
                    broadcast use vstd::arithmetic::div_mod::lemma_add_mod_noop;

                }
            }
            mapped += just_mapped;
            non_mapped -= just_mapped;
            cur_phys += just_mapped;
            cur_virt += just_mapped;
        }
        Ok(())
    }
}

/// A zero page offset is exactly 4 KiB alignment.
proof fn lemma_offset_is_page_alignment(v: u64)
    by (bit_vector)
    ensures
        (v & 0xfff == 0) <==> v % 4096 == 0,
{
}

/// Bytes covered by a leaf installed at the given level.
pub open spec fn spec_level_size(level: int) -> u64 {
    if level == 1 {
        PAGE_SIZE_1G
    } else if level == 2 {
        PAGE_SIZE_2M
    } else {
        PAGE_SIZE_4K
    }
}

impl PageTableSpace {
    /// The walk of `va` ends in an installed leaf whose output
    /// address is `pa`: the leaf's address field plus the offset of
    /// `va` within the leaf.
    pub open spec fn spec_translates(self, va: u64, pa: int) -> bool {
        exists|l: int|
            1 <= l <= 3 && #[trigger] self.path_ok(va, l) && spec_entry_is_leaf(
                self.chain_entry(va, l),
                l,
            ) && pa == spec_entry_address(self.chain_entry(va, l)) + (va % spec_level_size(l))
    }
}

/// Two addresses inside the same naturally-aligned block take the
/// same table indices down to the block's level.
proof fn lemma_same_indices_within_block(base: u64, r: u64, l: int)
    requires
        1 <= l <= 3,
        base % spec_level_size(l) == 0,
        r < spec_level_size(l),
        base + r <= u64::MAX,
    ensures
        forall|j: int| 0 <= j <= l ==> spec_lvl_index((base + r) as u64, j) == spec_lvl_index(base, j),
        (base + r) as u64 % spec_level_size(l) == r,
{
    let va = (base + r) as u64;
    if l == 1 {
        assert(spec_lvl_index(va, 0) == spec_lvl_index(base, 0) && spec_lvl_index(va, 1)
            == spec_lvl_index(base, 1) && va % 0x4000_0000 == r) by (bit_vector)
            requires
                base % 0x4000_0000 == 0 && r < 0x4000_0000 && va == base + r,
        ;
    } else if l == 2 {
        assert(spec_lvl_index(va, 0) == spec_lvl_index(base, 0) && spec_lvl_index(va, 1)
            == spec_lvl_index(base, 1) && spec_lvl_index(va, 2) == spec_lvl_index(base, 2) && va
            % 0x20_0000 == r) by (bit_vector)
            requires
                base % 0x20_0000 == 0 && r < 0x20_0000 && va == base + r,
        ;
    } else {
        assert(spec_lvl_index(va, 0) == spec_lvl_index(base, 0) && spec_lvl_index(va, 1)
            == spec_lvl_index(base, 1) && spec_lvl_index(va, 2) == spec_lvl_index(base, 2)
            && spec_lvl_index(va, 3) == spec_lvl_index(base, 3) && va % 0x1000 == r)
            by (bit_vector)
            requires
                base % 0x1000 == 0 && r < 0x1000 && va == base + r,
        ;
    }
    assert forall|j: int| 0 <= j <= l implies spec_lvl_index(va, j) == spec_lvl_index(base, j) by {
        if j == 0 {
            assert(spec_lvl_index(va, 0) == spec_lvl_index(base, 0));
        } else if j == 1 {
            assert(spec_lvl_index(va, 1) == spec_lvl_index(base, 1));
        } else if j == 2 {
            assert(spec_lvl_index(va, 2) == spec_lvl_index(base, 2));
        } else {
            assert(spec_lvl_index(va, 3) == spec_lvl_index(base, 3));
        }
    }
}

/// Walks of two addresses with the same indices read the same
/// descriptors down to the given level.
proof fn lemma_chain_same_indices(s: PageTableSpace, va1: u64, va2: u64, l: int)
    requires
        0 <= l,
        forall|j: int| 0 <= j <= l ==> spec_lvl_index(va1, j) == spec_lvl_index(va2, j),
    ensures
        s.chain_table(va1, l) == s.chain_table(va2, l),
        s.chain_entry(va1, l) == s.chain_entry(va2, l),
        s.path_ok(va1, l) == s.path_ok(va2, l),
    decreases l,
{
    if l > 0 {
        lemma_chain_same_indices(s, va1, va2, l - 1);
    }
}

/// Every address inside a block mapped by an installed leaf
/// translates to the matching offset of the leaf's output block.
proof fn lemma_block_translates(s: PageTableSpace, base: u64, phys: u64, mair: u64, l: int, r: u64)
    requires
        s.wf(),
        1 <= l <= 3,
        s.spec_mapped_leaf(base, l, spec_leaf_descriptor(phys, mair, l)),
        base % spec_level_size(l) == 0,
        phys % spec_level_size(l) == 0,
        phys + spec_level_size(l) <= 0x8000_0000_0000,
        mair < 8,
        r < spec_level_size(l),
        base + r <= u64::MAX,
    ensures
        s.spec_translates((base + r) as u64, phys + r),
{
    lemma_same_indices_within_block(base, r, l);
    lemma_chain_same_indices(s, (base + r) as u64, base, l);
    assert(phys as int % 4096 == 0) by (nonlinear_arith)
        requires
            phys as int % (spec_level_size(l) as int) == 0 && (spec_level_size(l) == 0x1000
                || spec_level_size(l) == 0x20_0000 || spec_level_size(l) == 0x4000_0000),
    ;
    lemma_leaf_descriptor_fields(phys, mair, l == 3);
    let va = (base + r) as u64;
    assert(s.path_ok(va, l) && spec_entry_is_leaf(s.chain_entry(va, l), l) && phys + r
        == spec_entry_address(s.chain_entry(va, l)) + (va % spec_level_size(l)));
}

/// What translates keeps translating in any state that preserves
/// tables and valid descriptors.
pub proof fn lemma_translation_preserved(s1: PageTableSpace, s2: PageTableSpace, va: u64, pa: int)
    requires
        s1.wf(),
        PageTableSpace::preserves_tables(s1, s2),
        s1.spec_translates(va, pa),
    ensures
        s2.spec_translates(va, pa),
{
    let l = choose|l: int|
        1 <= l <= 3 && #[trigger] s1.path_ok(va, l) && spec_entry_is_leaf(
            s1.chain_entry(va, l),
            l,
        ) && pa == spec_entry_address(s1.chain_entry(va, l)) + (va % spec_level_size(l));
    lemma_walk_preserved(s1, s2, va, l);
    assert(s2.path_ok(va, l) && spec_entry_is_leaf(s2.chain_entry(va, l), l) && pa
        == spec_entry_address(s2.chain_entry(va, l)) + (va % spec_level_size(l)));
}

/// A reachable level means every descriptor above it is a valid
/// table descriptor.
proof fn lemma_path_entries(s: PageTableSpace, va: u64, j: int)
    requires
        s.path_ok(va, j),
        0 <= j,
    ensures
        forall|i: int|
            0 <= i < j ==> spec_entry_valid(#[trigger] s.chain_entry(va, i)) && spec_entry_table(
                s.chain_entry(va, i),
            ),
    decreases j,
{
    if j > 0 {
        lemma_path_entries(s, va, j - 1);
    }
}

/// Over a prefix of valid table descriptors, the walk's first gap
/// and its conflict verdict are decided below the prefix.
proof fn lemma_walk_prefix(s: PageTableSpace, va: u64, leaf: int, j: int)
    requires
        0 <= j <= leaf,
        forall|i: int|
            0 <= i < j ==> spec_entry_valid(#[trigger] s.chain_entry(va, i)) && spec_entry_table(
                s.chain_entry(va, i),
            ),
    ensures
        s.gap_from(va, leaf, 0) == s.gap_from(va, leaf, j),
        s.conflict_from(va, leaf, 0) == s.conflict_from(va, leaf, j),
    decreases j,
{
    if j > 0 {
        lemma_walk_prefix(s, va, leaf, j - 1);
    }
}

/// Once a walk meets a descriptor that is not a valid table, no
/// deeper level is reachable.
proof fn lemma_path_blocked(s: PageTableSpace, va: u64, j: int, l: int)
    requires
        0 <= j < l,
        !(spec_entry_valid(s.chain_entry(va, j)) && spec_entry_table(s.chain_entry(va, j))),
    ensures
        !s.path_ok(va, l),
    decreases l,
{
    if j < l - 1 {
        lemma_path_blocked(s, va, j, l - 1);
    }
}

impl PageTableSpace {
    /// Walks the tree for `virt_addr` and returns the physical
    /// address an installed leaf maps it to, or `None` when no leaf
    /// covers it: the reading companion of the mapping operations.
    pub fn translate(&self, virt_addr: VirtualAddress) -> (r: Option<u64>)
        requires
            self.wf(),
        ensures
            match r {
                Some(pa) => self.spec_translates(virt_addr.0, pa as int),
                None => forall|pa: int| !self.spec_translates(virt_addr.0, pa),
            },
    {
        let v = virt_addr.0;
        let mut table_phys_addr: u64 = self.phys_page_table_root as u64;
        let mut level: usize = 0;
        loop
            invariant
                self.wf(),
                v == virt_addr.0,
                level <= 3,
                self.path_ok(v, level as int),
                self.chain_table(v, level as int) == table_phys_addr,
                forall|j: int|
                    0 <= j < level ==> spec_entry_valid(#[trigger] self.chain_entry(v, j))
                        && spec_entry_table(self.chain_entry(v, j)),
            decreases 3 - level,
        {
            proof {
                lemma_chain_in_dom(*self, v, level as int);
                lemma_lvl_index_fits(v, level as int);
            }
            let idx = virt_addr.lvl_index(level);
            let entry = self.read_entry(table_phys_addr, idx);
            if entry & 1 != 1 {
                // Nothing is installed here: no level holds a leaf
                // for this address.
                proof {
                    lemma_no_translation(*self, v, level as int, false);
                }
                return None;
            }
            if level == 3 || entry & 2 != 2 {
                if level == 0 {
                    // A valid non-table descriptor in the root is
                    // no leaf: level 0 carries none.
                    proof {
                        lemma_no_translation(*self, v, 0, true);
                    }
                    return None;
                }
                // A block, or a level-3 page: reconstruct the output
                // address from the leaf and the offset within it.
                let block_size: u64 = if level == 1 {
                    PAGE_SIZE_1G
                } else if level == 2 {
                    PAGE_SIZE_2M
                } else {
                    PAGE_SIZE_4K
                };
                proof {
                    lemma_leaf_address_fits(entry);
                }
                let pa = (entry & 0x7fff_ffff_f000) + v % block_size;
                proof {
                    assert(self.path_ok(v, level as int) && spec_entry_is_leaf(
                        self.chain_entry(v, level as int),
                        level as int,
                    ) && pa as int == spec_entry_address(self.chain_entry(v, level as int)) + (v
                        % spec_level_size(level as int)));
                }
                return Some(pa);
            }
            proof {
                let e = self.chain_entry(v, level as int);
                assert(((e >> 12) & 0x7_ffff_ffff) << 12 == spec_entry_address(e)) by (bit_vector);
            }
            table_phys_addr = PageTableEntry(entry).next_table_pfn() << 12;
            level += 1;
        }
    }
}

/// When the walk stops without a leaf — on an invalid descriptor, or
/// on a valid non-table descriptor in the root — no level translates
/// the address.
proof fn lemma_no_translation(s: PageTableSpace, va: u64, stop: int, root_block: bool)
    requires
        0 <= stop <= 3,
        s.path_ok(va, stop),
        forall|j: int|
            0 <= j < stop ==> spec_entry_valid(#[trigger] s.chain_entry(va, j)) && spec_entry_table(
                s.chain_entry(va, j),
            ),
        if root_block {
            stop == 0 && !spec_entry_table(s.chain_entry(va, 0))
        } else {
            !spec_entry_valid(s.chain_entry(va, stop))
        },
    ensures
        forall|pa: int| !s.spec_translates(va, pa),
{
    assert forall|pa: int| !s.spec_translates(va, pa) by {
        assert forall|l: int|
            1 <= l <= 3 implies !(s.path_ok(va, l) && spec_entry_is_leaf(
            s.chain_entry(va, l),
            l,
        )) by {
            if l < stop {
                // Above the stop the walk saw table descriptors,
                // which are no leaves below level 3.
                assert(spec_entry_table(s.chain_entry(va, l)));
            } else if l == stop {
                if !root_block {
                    assert(!spec_entry_valid(s.chain_entry(va, l)));
                }
            } else {
                lemma_path_blocked(s, va, stop, l);
            }
        }
    }
}

/// The address field of a descriptor leaves room for the offset.
proof fn lemma_leaf_address_fits(e: u64)
    by (bit_vector)
    ensures
        e & 0x7fff_ffff_f000 <= 0x7fff_ffff_f000,
{
}
} // verus!
