use barekit::paging::{dump_paging_step, PagingRecord};
use barekit::paging::{
    bits_at_level, get_anchor_for, page_index_at_bits, page_is_block, page_is_present, page_is_table,
    page_target_at_index, paging_get_low_mem_paging, paging_virtual_info, paging_virtual_info_ex,
    table_target_at_index, tcr_low_range_valid, TableMemory, WalkResult, TRANSLATION_2_LEVELS,
    TRANSLATION_3_LEVELS, TRANSLATION_4_LEVELS,
};

#[test]
fn descriptor_decoding() {
    assert_eq!(bits_at_level(0), 48);
    assert_eq!(bits_at_level(3), 21);
    assert_eq!(bits_at_level(4), 12);
    assert_eq!(page_index_at_bits(0x4020_1000, 21), 0x001);
    assert_eq!(page_index_at_bits(0x4020_1000, 30), 0x001);
    assert_eq!(page_index_at_bits(0x7FC0_0000, 21), 0x1FE);
    assert_eq!(page_index_at_bits(0x4020_1000, 12), 0x001);
    assert!(page_is_present(0x3));
    assert!(!page_is_present(0x2));
    assert!(page_is_block(0x1, 21));
    assert!(!page_is_block(0x1, 12));
    assert!(page_is_table(0x3, 30));
    assert!(!page_is_table(0x3, 12));
    assert_eq!(table_target_at_index(0xFFFF_0000_8765_4FFF, 1), 0x0000_0000_8765_4000);
    assert_eq!(page_target_at_index(0x0060_0000_4000_0701, 3), 0x0000_0000_4000_0000);
    assert_eq!(page_target_at_index(0x0000_0000_4000_1703, 4), 0x4000_1000);
}

#[test]
fn low_range_shape_from_t0sz() {
    assert!(tcr_low_range_valid(16));
    assert!(!tcr_low_range_valid(11));
    assert!(!tcr_low_range_valid(49));
    assert_eq!(paging_get_low_mem_paging(16), (TRANSLATION_4_LEVELS, 1u64 << 48));
    assert_eq!(paging_get_low_mem_paging(25), (TRANSLATION_3_LEVELS, 1u64 << 39));
    assert_eq!(paging_get_low_mem_paging(0x8080_0022), (TRANSLATION_2_LEVELS, 1u64 << 30));
    assert_eq!(paging_get_low_mem_paging(12).0, 0);
    assert_eq!(paging_get_low_mem_paging(48).0, 4);
}

#[test]
fn anchor_selection() {
    let tcr = (16u64 << 16) | 16;
    assert_eq!(get_anchor_for(1, tcr, 0x1001, 0x2001, 0x1000), Some(0x1000));
    assert_eq!(get_anchor_for(1, tcr, 0x1001, 0x2001, 0x0001_0000_0000_0000), None);
    assert_eq!(get_anchor_for(1, tcr, 0x1001, 0x2001, 0xFFFF_0000_0000_0000), Some(0x2000));
    assert_eq!(get_anchor_for(2, tcr, 0x1001, 0x2001, 0xFFFF_0000_0000_0000), Some(0x1000));
    assert_eq!(get_anchor_for(3, 0, 0x3000, 0, 5), Some(0x3000));
}

const BASE: u64 = 0x8000_0000;

/// A level-2 table at BASE whose first two entries point to last-level
/// tables right after it, mapping the first 4 MiB to themselves.
fn identity_tables() -> TableMemory {
    let mut words = vec![0u64; 512 * 3];
    for i in 0..2u64 {
        let t = BASE + 0x1000 * (i + 1);
        words[i as usize] = t | 3;
        for j in 0..512u64 {
            words[(512 * (i + 1) + j) as usize] = ((i * 0x20_0000 + j * 0x1000) | 0x703) as u64;
        }
    }
    TableMemory { base: BASE, words }
}

#[test]
fn identity_walk_resolves_to_the_address() {
    let mem = identity_tables();
    for va in [0u64, 0x1000, 0x1F_F000, 0x20_0000, 0x23_4000, 0x3F_F000] {
        let r = paging_virtual_info_ex(&mem, BASE, 3, va).unwrap();
        let i = va / 0x20_0000;
        let j = (va / 0x1000) % 512;
        assert_eq!(r, WalkResult { size: 0x1000, target: va, entry: BASE + 0x1000 * (i + 1) + 8 * j });
    }
}

#[test]
fn walk_of_unaligned_address_gives_page_start() {
    let mem = identity_tables();
    let r = paging_virtual_info_ex(&mem, BASE, 3, 0x23_4567).unwrap();
    assert_eq!(r.target, 0x23_4000);
}

#[test]
fn walk_stops_at_absent_entry() {
    let mem = identity_tables();
    let r = paging_virtual_info_ex(&mem, BASE, 3, 0x40_0000).unwrap();
    assert_eq!(r.size, 0x20_0000);
    assert_eq!(r.entry, BASE + 16);
}

#[test]
fn walk_outside_tables_is_not_found() {
    let mem = identity_tables();
    assert_eq!(paging_virtual_info_ex(&mem, 0x10_0000, 3, 0), None);
    assert_eq!(paging_virtual_info_ex(&mem, BASE, 5, 0), None);
}

#[test]
fn walk_from_registers() {
    let mem = identity_tables();
    let tcr = 34u64;
    let r = paging_virtual_info(&mem, 2, tcr, BASE | 1, 0, 0x1000).unwrap();
    assert_eq!(r.target, 0x1000);
}

#[test]
fn dump_lists_tables_and_mappings() {
    let mut words = vec![0u64; 1024];
    words[0] = (BASE + 0x1000) | 3;
    words[1] = 0x4000_0000 | 0x781;
    words[512] = 0x0 | 0x703;
    words[513] = 0x1000 | 0x783;
    let mem = TableMemory { base: BASE, words };
    let r = dump_paging_step(&mem, BASE, 0, 3, 0x40_0000);
    assert_eq!(r.len(), 4);
    assert_eq!(r[0], PagingRecord::Table { level: 3, table: BASE, index: 0, descriptor: (BASE + 0x1000) | 3, target: BASE + 0x1000, va_start: 0, va_end: 0x1F_FFFF });
    assert!(matches!(r[1], PagingRecord::Mapping { level: 4, index: 0, read_only: false, va_start: 0, va_end: 0xFFF, pa_start: 0, pa_end: 0xFFF, .. }));
    assert!(matches!(r[2], PagingRecord::Mapping { level: 4, index: 1, read_only: true, va_start: 0x1000, pa_start: 0x1000, .. }));
    assert!(matches!(r[3], PagingRecord::Mapping { level: 3, index: 1, read_only: true, va_start: 0x20_0000, va_end: 0x3F_FFFF, pa_start: 0x4000_0000, pa_end: 0x401F_FFFF, .. }));
}
