use aarch64::mmu::PageBlockEntry;
use aarch64::mmu::PageMapError;
use aarch64::mmu::PageTableEntry;
use aarch64::mmu::PageSize;
use aarch64::mmu::PageTableSpace;
use aarch64::mmu::VirtualAddress;
use aarch64::mmu::align_down;
use aarch64::mmu::align_up;
use aarch64::mmu::aligned;
use aarch64::regs::MemoryAttributeEl1;
use aarch64::regs::MemoryAttributeIndirectionEl1;

#[test]
fn test_mmu_small_pages() {
    let space = vec![0xaa; 0x100000];
    let mut page_tables =
        PageTableSpace::new(0x00000040248000, space).expect("Can initialize page tables");

    let mair_el1 = MemoryAttributeIndirectionEl1::default();
    let wb_index = mair_el1
        .get_index(MemoryAttributeEl1::Normal_WriteBack)
        .expect("must be some WB memory available");

    let res = page_tables.map_pages(
        0x4000,
        VirtualAddress::from(0x4000),
        1,
        PageSize::Small,
        wb_index,
    );
    assert_eq!(res, Ok(()));
    assert_eq!(page_tables.lvl_stats(), [1, 1, 1, 1]);

    let res = page_tables.map_pages(
        0x5000,
        VirtualAddress::from(0x5000),
        1,
        PageSize::Small,
        wb_index,
    );
    assert_eq!(res, Ok(()));
    assert_eq!(page_tables.lvl_stats(), [1, 1, 1, 1]);

    let res = page_tables.map_pages(
        0x200000,
        VirtualAddress::from(0x200000),
        1,
        PageSize::Small,
        wb_index,
    );
    assert_eq!(res, Ok(()));
    assert_eq!(page_tables.lvl_stats(), [1, 1, 1, 2]);

    let res = page_tables.map_pages(
        0x201000,
        VirtualAddress::from(0x201000),
        1,
        PageSize::Small,
        wb_index,
    );
    assert_eq!(res, Ok(()));
    assert_eq!(page_tables.lvl_stats(), [1, 1, 1, 2]);

    let res = page_tables.map_pages(
        0x4000,
        VirtualAddress::from(0xffff_8000_0000_4000),
        1,
        PageSize::Small,
        wb_index,
    );
    assert_eq!(res, Ok(()));
    assert_eq!(page_tables.lvl_stats(), [1, 2, 2, 3]);

    let res = page_tables.map_pages(
        0x5000,
        VirtualAddress::from(0xffff_8000_0000_5000),
        1,
        PageSize::Small,
        wb_index,
    );
    assert_eq!(res, Ok(()));
    assert_eq!(page_tables.lvl_stats(), [1, 2, 2, 3]);

    let res = page_tables.map_pages(
        0x4000_0000,
        VirtualAddress::from(0x4000_0000),
        0x200,
        PageSize::Small,
        wb_index,
    );
    assert_eq!(res, Ok(()));
    assert_eq!(page_tables.lvl_stats(), [1, 2, 3, 4]);
}

#[test]
fn test_mmu_large_pages() {
    let space = vec![0xaa; 0x100000];
    let mut page_tables =
        PageTableSpace::new(0x00000040248000, space).expect("Can initialize page tables");

    let mair_el1 = MemoryAttributeIndirectionEl1::default();
    let wb_index = mair_el1
        .get_index(MemoryAttributeEl1::Normal_WriteBack)
        .expect("must be some WB memory available");

    let res = page_tables.map_pages(
        0,
        VirtualAddress::from(0),
        0x2000,
        PageSize::Large,
        wb_index,
    );
    assert_eq!(res, Ok(()));
    assert_eq!(page_tables.lvl_stats(), [1, 1, 16, 0]);

    let res = page_tables.map_pages(
        0x4000,
        VirtualAddress::from(0x4000),
        4,
        PageSize::Small,
        wb_index,
    );
    assert_eq!(res, Err(PageMapError::AlreadyMapped));
    assert_eq!(page_tables.lvl_stats(), [1, 1, 16, 0]);
}

#[test]
fn test_mmu_huge_pages() {
    let space = vec![0xaa; 0x100000];
    let mut page_tables =
        PageTableSpace::new(0x00000040248000, space).expect("Can initialize page tables");

    let mair_el1 = MemoryAttributeIndirectionEl1::default();
    let wb_index = mair_el1
        .get_index(MemoryAttributeEl1::Normal_WriteBack)
        .expect("must be some WB memory available");

    let res = page_tables.map_pages(0, VirtualAddress::from(0), 4, PageSize::Huge, wb_index);
    assert_eq!(res, Ok(()));
    assert_eq!(page_tables.lvl_stats(), [1, 1, 0, 0]);

    let res = page_tables.map_pages(
        1 << 30,
        VirtualAddress::from(0x4000_0000),
        4,
        PageSize::Small,
        wb_index,
    );
    assert_eq!(res, Err(PageMapError::AlreadyMapped));
    assert_eq!(page_tables.lvl_stats(), [1, 1, 0, 0]);
}

#[test]
fn test_mmu_page_mix() {
    let space = vec![0xaa; 0x100000];
    let mut page_tables =
        PageTableSpace::new(0x00000040248000, space).expect("Can initialize page tables");

    let mair_el1 = MemoryAttributeIndirectionEl1::default();
    let wb_index = mair_el1
        .get_index(MemoryAttributeEl1::Normal_WriteBack)
        .expect("must be some WB memory available");

    let one_gib: u64 = 1 << 30;

    let addr = one_gib - 0x1000;
    let res = page_tables.map_range(addr, VirtualAddress::from(addr), 3 * one_gib, wb_index);
    assert_eq!(res, Ok(()));
    assert_eq!(page_tables.lvl_stats(), [1, 1, 2, 2]);
}

#[test]
fn test_new_validation() {
    // A misaligned base is rejected before anything else.
    let r = PageTableSpace::new(0x1001, vec![0u8; 0x1000]);
    assert!(matches!(r, Err(PageMapError::MisalignedPhysAddress)));
    // A length that is not a whole number of pages.
    let r = PageTableSpace::new(0x1000, vec![0u8; 0x1234]);
    assert!(matches!(r, Err(PageMapError::InvalidMappingSize)));
    // An empty arena.
    let r = PageTableSpace::new(0x1000, Vec::new());
    assert!(matches!(r, Err(PageMapError::EmptyMapping)));
    // A well-formed arena comes up with only the root allocated.
    let pt = PageTableSpace::new(0x40248000, vec![0u8; 0x4000]).unwrap();
    assert_eq!(pt.lvl_stats(), [1, 0, 0, 0]);
    assert_eq!(pt.used_space(), 0x1000);
    assert_eq!(pt.start(), 0x40248000);
    assert_eq!(pt.end(), 0x4024c000);
    assert_eq!(pt.brk(), 0x40249000);
    assert_eq!(pt.available(), 0x3000);
}

#[test]
fn test_map_pages_validation() {
    let mut pt = PageTableSpace::new(0x40248000, vec![0u8; 0x100000]).unwrap();
    // Virtual address with a page offset.
    let r = pt.map_pages(0x1000, VirtualAddress::from(0x1234), 1, PageSize::Small, 2);
    assert_eq!(r, Err(PageMapError::MisalignedVirtAddress));
    // Non-canonical virtual address: bit 48 set, bit 47 clear.
    let r = pt.map_pages(
        0x1000,
        VirtualAddress::from(0x0001_0000_0000_0000),
        1,
        PageSize::Small,
        2,
    );
    assert_eq!(r, Err(PageMapError::NonCanonicalVirtAddress));
    // Physical address unaligned to the granule.
    let r = pt.map_pages(0x1000, VirtualAddress::from(0x20_0000), 1, PageSize::Large, 2);
    assert_eq!(r, Err(PageMapError::MisalignedPhysAddress));
    // Virtual address unaligned to the granule.
    let r = pt.map_pages(0x20_0000, VirtualAddress::from(0x1000), 1, PageSize::Large, 2);
    assert_eq!(r, Err(PageMapError::MisalignedVirtAddress));
    // Zero pages.
    let r = pt.map_pages(0x1000, VirtualAddress::from(0x1000), 0, PageSize::Small, 2);
    assert_eq!(r, Err(PageMapError::EmptyMapping));
    // Nothing was changed by any of the rejections.
    assert_eq!(pt.lvl_stats(), [1, 0, 0, 0]);
    assert_eq!(pt.used_space(), 0x1000);
}

#[test]
fn test_map_range_validation() {
    let mut pt = PageTableSpace::new(0x40248000, vec![0u8; 0x100000]).unwrap();
    let r = pt.map_range(0x1001, VirtualAddress::from(0x1000), 0x1000, 2);
    assert_eq!(r, Err(PageMapError::MisalignedPhysAddress));
    let r = pt.map_range(0x1000, VirtualAddress::from(0x1000), 0x123, 2);
    assert_eq!(r, Err(PageMapError::InvalidMappingSize));
    let r = pt.map_range(0x1000, VirtualAddress::from(0x1000), 0, 2);
    assert_eq!(r, Err(PageMapError::EmptyMapping));
    let r = pt.map_range(0x1000, VirtualAddress::from(0x1008), 0x1000, 2);
    assert_eq!(r, Err(PageMapError::MisalignedVirtAddress));
    let r = pt.map_range(0x1000, VirtualAddress::from(0x0001_0000_0000_0000), 0x1000, 2);
    assert_eq!(r, Err(PageMapError::NonCanonicalVirtAddress));
    assert_eq!(pt.used_space(), 0x1000);
}

#[test]
fn test_out_of_memory() {
    // A one-page arena holds the root table and nothing else: the
    // walk cannot allocate the three intermediate tables it needs.
    let mut pt = PageTableSpace::new(0x40248000, vec![0u8; 0x1000]).unwrap();
    let r = pt.map_pages(0x1000, VirtualAddress::from(0x1000), 1, PageSize::Small, 2);
    assert_eq!(r, Err(PageMapError::OutOfMemory));
    // A three-page arena gets two levels in before running dry.
    let mut pt = PageTableSpace::new(0x40248000, vec![0u8; 0x3000]).unwrap();
    let r = pt.map_pages(0x1000, VirtualAddress::from(0x1000), 1, PageSize::Small, 2);
    assert_eq!(r, Err(PageMapError::OutOfMemory));
    assert_eq!(pt.lvl_stats(), [1, 1, 1, 0]);
    assert_eq!(pt.available(), 0);
}

#[test]
fn test_already_mapped_idempotent() {
    // Re-invoking on an overlapping range reports the overlap and
    // leaves the statistics alone.
    let mut pt = PageTableSpace::new(0x40248000, vec![0u8; 0x100000]).unwrap();
    assert_eq!(
        pt.map_pages(0x4000, VirtualAddress::from(0x4000), 1, PageSize::Small, 2),
        Ok(())
    );
    let stats = pt.lvl_stats();
    let used = pt.used_space();
    for _ in 0..3 {
        assert_eq!(
            pt.map_pages(0x4000, VirtualAddress::from(0x4000), 1, PageSize::Small, 2),
            Err(PageMapError::AlreadyMapped)
        );
        assert_eq!(pt.lvl_stats(), stats);
        assert_eq!(pt.used_space(), used);
    }
    // The same through the range mapper.
    assert_eq!(
        pt.map_range(0x4000, VirtualAddress::from(0x4000), 0x1000, 2),
        Err(PageMapError::AlreadyMapped)
    );
    assert_eq!(pt.lvl_stats(), stats);
}

#[test]
fn test_used_space_monotonic() {
    // `used_space` equals 4 KiB times the table count and never
    // shrinks, whatever a call returns.
    let mut pt = PageTableSpace::new(0x40248000, vec![0u8; 0x100000]).unwrap();
    let mut last = pt.used_space();
    let stats = pt.lvl_stats();
    assert_eq!(last, 0x1000 * (stats[0] + stats[1] + stats[2] + stats[3]));
    let calls: [(u64, u64); 4] = [
        (0x4000, 0x4000),
        (0x4000, 0x4000),
        (0x200000, 0x200000),
        (0x5000, 0x1234),
    ];
    for (phys, virt) in calls {
        let _ = pt.map_pages(phys, VirtualAddress::from(virt), 1, PageSize::Small, 2);
        let used = pt.used_space();
        assert!(used >= last);
        let stats = pt.lvl_stats();
        assert_eq!(used, 0x1000 * (stats[0] + stats[1] + stats[2] + stats[3]));
        last = used;
    }
}

#[test]
fn test_alignment_helpers() {
    assert!(aligned(0x4000, PageSize::Small));
    assert!(!aligned(0x4001, PageSize::Small));
    assert!(aligned(0x4000_0000, PageSize::Huge));
    assert!(!aligned(0x2000_0000, PageSize::Huge));
    assert_eq!(align_up(0x1001, PageSize::Small), 0x2000);
    assert_eq!(align_up(0x1000, PageSize::Small), 0x1000);
    assert_eq!(align_up(1, PageSize::Huge), 0x4000_0000);
    assert_eq!(align_down(0x1fff, PageSize::Small), 0x1000);
    assert_eq!(align_down(0x3fff_ffff, PageSize::Huge), 0);
    assert_eq!(align_down(0x20_0001, PageSize::Large), 0x20_0000);
}

#[test]
fn test_virtual_address_fields() {
    // 0xffff_8000_0000_4000: high-half canonical, level indices
    // 256/0/0/4.
    let va = VirtualAddress::from(0xffff_8000_0000_4000);
    assert!(va.is_canonical());
    assert_eq!(va.offset(), 0);
    assert_eq!(va.lvl0(), 256);
    assert_eq!(va.lvl1(), 0);
    assert_eq!(va.lvl2(), 0);
    assert_eq!(va.lvl3(), 4);
    assert_eq!(va.lvl_index(0), 256);
    assert_eq!(va.lvl_index(3), 4);
    assert_eq!(va.asid(), 0xffff);
    // The first non-canonical address above the low half.
    let bad = VirtualAddress::from(0x0000_8000_0000_0000);
    assert!(!bad.is_canonical());
    // A mixed address decomposes into all four indices.
    let va = VirtualAddress::from(0x0000_0040_6030_1000);
    assert_eq!(va.lvl0(), 0);
    assert_eq!(va.lvl1(), 257);
    assert_eq!(va.lvl2(), 257);
    assert_eq!(va.lvl3(), 257);
    assert_eq!(va.offset(), 0);
}

#[test]
fn test_descriptor_builders() {
    let e = PageTableEntry::new()
        .with_valid(true)
        .with_table(true)
        .with_access_perm(1)
        .with_next_table_pfn(0x40249000 >> 12);
    assert!(e.valid());
    assert!(e.table());
    assert_eq!(e.next_table_pfn(), 0x40249);
    assert_eq!(e.0, 0x2000_0000_4024_9003);

    let b = PageBlockEntry::new()
        .with_valid(true)
        .with_page(true)
        .with_accessed(true)
        .with_access_perm(1)
        .with_share_perm(3)
        .with_mair_idx(2)
        .with_address_pfn(0x4000 >> 12);
    assert!(b.valid());
    assert_eq!(b.address_pfn(), 4);
    // valid | page | mair 2 | AP 01 | SH 11 | AF | pfn 4.
    assert_eq!(b.0, 0x474b);
}

#[test]
fn test_translate_small_pages() {
    let mut pt = PageTableSpace::new(0x40248000, vec![0u8; 0x100000]).unwrap();
    // Nothing is mapped yet.
    assert_eq!(pt.translate(VirtualAddress::from(0x4000)), None);
    assert_eq!(
        pt.map_pages(0x7000, VirtualAddress::from(0x4000), 2, PageSize::Small, 2),
        Ok(())
    );
    // Both pages translate, offsets included.
    assert_eq!(pt.translate(VirtualAddress::from(0x4000)), Some(0x7000));
    assert_eq!(pt.translate(VirtualAddress::from(0x4123)), Some(0x7123));
    assert_eq!(pt.translate(VirtualAddress::from(0x5fff)), Some(0x8fff));
    // Around the run nothing translates.
    assert_eq!(pt.translate(VirtualAddress::from(0x3fff)), None);
    assert_eq!(pt.translate(VirtualAddress::from(0x6000)), None);
}

#[test]
fn test_translate_mixed_range() {
    // The scenario of the mixed-granule range: every 4 KiB step of
    // the range walks to the physical address it was mapped to.
    let mut pt = PageTableSpace::new(0x40248000, vec![0u8; 0x100000]).unwrap();
    let one_gib: u64 = 1 << 30;
    let addr = one_gib - 0x1000;
    assert_eq!(
        pt.map_range(addr, VirtualAddress::from(addr), 3 * one_gib, 2),
        Ok(())
    );
    // The leading 4 KiB page, the 1 GiB blocks, the trailing 2 MiB
    // blocks and the trailing 4 KiB pages.
    for k in [
        0u64,
        0x1000,
        one_gib,
        2 * one_gib,
        2 * one_gib + 0x123000,
        3 * one_gib - 0x200000,
        3 * one_gib - 0x1000,
    ] {
        assert_eq!(
            pt.translate(VirtualAddress::from(addr + k)),
            Some(addr + k),
            "offset {k:#x}"
        );
    }
    assert_eq!(pt.translate(VirtualAddress::from(addr - 0x1000)), None);
    assert_eq!(pt.translate(VirtualAddress::from(addr + 3 * one_gib)), None);
}

#[test]
fn test_translate_block_offsets() {
    // A 2 MiB block maps every offset within it.
    let mut pt = PageTableSpace::new(0x40248000, vec![0u8; 0x100000]).unwrap();
    assert_eq!(
        pt.map_pages(
            0x4000_0000,
            VirtualAddress::from(0x20_0000),
            1,
            PageSize::Large,
            3
        ),
        Ok(())
    );
    assert_eq!(
        pt.translate(VirtualAddress::from(0x20_0000)),
        Some(0x4000_0000)
    );
    assert_eq!(
        pt.translate(VirtualAddress::from(0x2f_f123)),
        Some(0x400f_f123)
    );
    assert_eq!(pt.translate(VirtualAddress::from(0x40_0000)), None);
}

#[test]
fn test_map_range_canonical_crossing() {
    // A range that starts canonical but runs off the low half: the
    // pages before the crossing are installed, then the crossing is
    // reported.  The arena is advanced and not rolled back.
    let mut pt = PageTableSpace::new(0x40248000, vec![0u8; 0x100000]).unwrap();
    let edge: u64 = (1u64 << 47) - 0x1000;
    let r = pt.map_range(0x4000, VirtualAddress::from(edge), 0x2000, 2);
    assert_eq!(r, Err(PageMapError::NonCanonicalVirtAddress));
    assert_eq!(pt.translate(VirtualAddress::from(edge)), Some(0x4000));
    assert_eq!(pt.translate(VirtualAddress::from(1u64 << 47)), None);
}

#[test]
fn test_partial_install_keeps_pages() {
    // A run that dies of exhaustion midway keeps what it installed:
    // the four-page arena maps the first page (three fresh tables),
    // then runs dry crossing into a fresh level-2 region.
    let mut pt = PageTableSpace::new(0x40248000, vec![0u8; 0x4000]).unwrap();
    let r = pt.map_pages(0x4000, VirtualAddress::from(0x1f_f000), 2, PageSize::Small, 2);
    assert_eq!(r, Err(PageMapError::OutOfMemory));
    assert_eq!(pt.translate(VirtualAddress::from(0x1f_f000)), Some(0x4000));
    assert_eq!(pt.translate(VirtualAddress::from(0x20_0000)), None);
    assert_eq!(pt.available(), 0);
}
