use barekit::image::{relocate, parse_image, ImageError, DATA_SECTION_FLAGS, RELOC_SECTION_NAME, SECTION_DISCARDABLE};

const NT: usize = 0x40;
const OPT_SIZE: usize = 0xF0;
const TABLE: usize = NT + 24 + OPT_SIZE;

fn put32(m: &mut Vec<u8>, o: usize, v: u32) {
    m[o..o + 4].copy_from_slice(&v.to_le_bytes());
}

fn put16(m: &mut Vec<u8>, o: usize, v: u16) {
    m[o..o + 2].copy_from_slice(&v.to_le_bytes());
}

fn put64(m: &mut Vec<u8>, o: usize, v: u64) {
    m[o..o + 8].copy_from_slice(&v.to_le_bytes());
}

fn get64(m: &Vec<u8>, o: usize) -> u64 {
    u64::from_le_bytes(m[o..o + 8].try_into().unwrap())
}

struct Sec {
    name: u64,
    vsize: u32,
    vaddr: u32,
    rsize: u32,
    raddr: u32,
    flags: u32,
}

fn image(len: usize, image_base: u64, secs: &[Sec]) -> Vec<u8> {
    let mut m = vec![0u8; len];
    m[0] = b'M';
    m[1] = b'Z';
    put32(&mut m, 0x3c, NT as u32);
    put32(&mut m, NT, 0x4550);
    put16(&mut m, NT + 6, secs.len() as u16);
    put16(&mut m, NT + 20, OPT_SIZE as u16);
    put64(&mut m, NT + 48, image_base);
    put32(&mut m, NT + 56, 0x1000);
    for (k, s) in secs.iter().enumerate() {
        let o = TABLE + 40 * k;
        put64(&mut m, o, s.name);
        put32(&mut m, o + 8, s.vsize);
        put32(&mut m, o + 12, s.vaddr);
        put32(&mut m, o + 16, s.rsize);
        put32(&mut m, o + 20, s.raddr);
        put32(&mut m, o + 36, s.flags);
    }
    m
}

const TEXT: u64 = 0x0000_0074_7865_742e;
const DATA: u64 = 0x0000_0061_7461_642e;
const TEXT_FLAGS: u32 = 0x6000_0020;

#[test]
fn parse_reads_header_fields() {
    let m = image(0x2000, 0x1_4000_0000, &[Sec { name: TEXT, vsize: 0x100, vaddr: 0x1000, rsize: 0x100, raddr: 0x400, flags: TEXT_FLAGS }]);
    let l = parse_image(&m).unwrap();
    assert_eq!(l.image_base, 0x1_4000_0000);
    assert_eq!(l.section_alignment, 0x1000);
    assert_eq!(l.sections.len(), 1);
    assert_eq!(l.sections[0].virtual_address, 0x1000);
    assert_eq!(l.sections[0].raw_data_address, 0x400);
}

#[test]
fn in_place_section_is_not_copied() {
    let mut m = image(0x3000, 0, &[Sec { name: TEXT, vsize: 0x200, vaddr: 0x1000, rsize: 0x200, raddr: 0x1000, flags: TEXT_FLAGS }]);
    for k in 0..0x200 {
        m[0x1000 + k] = (k % 251) as u8;
    }
    let before = m.clone();
    assert_eq!(relocate(&mut m, 0x4000_0000, 0x4000_3000), Ok(()));
    assert_eq!(m, before);
}

#[test]
fn moved_section_lands_at_virtual_offset() {
    let mut m = image(0x3000, 0, &[Sec { name: TEXT, vsize: 0x100, vaddr: 0x2000, rsize: 0x100, raddr: 0x400, flags: TEXT_FLAGS }]);
    for k in 0..0x100 {
        m[0x400 + k] = (k as u8) ^ 0x5a;
    }
    assert_eq!(relocate(&mut m, 0x4000_0000, 0), Ok(()));
    for k in 0..0x100 {
        assert_eq!(m[0x2000 + k], (k as u8) ^ 0x5a);
    }
}

#[test]
fn overlapping_move_keeps_content() {
    let mut m = image(0x3000, 0, &[Sec { name: TEXT, vsize: 0x1000, vaddr: 0x1200, rsize: 0x1000, raddr: 0x1000, flags: TEXT_FLAGS }]);
    for k in 0..0x1000 {
        m[0x1000 + k] = (k % 253) as u8;
    }
    assert_eq!(relocate(&mut m, 0x4000_0000, 0), Ok(()));
    for k in 0..0x1000 {
        assert_eq!(m[0x1200 + k], (k % 253) as u8);
    }
}

#[test]
fn data_section_tail_is_zeroed() {
    let mut m = image(0x6000, 0, &[Sec { name: DATA, vsize: 0x4030, vaddr: 0x1000, rsize: 0x18, raddr: 0x1000, flags: DATA_SECTION_FLAGS }]);
    for k in 0..0x5000 {
        m[0x1000 + k] = 0xAA;
    }
    assert_eq!(relocate(&mut m, 0x4000_0000, 0), Ok(()));
    for k in 0..0x18 {
        assert_eq!(m[0x1000 + k], 0xAA);
    }
    for k in 0x18..0x4030 {
        assert_eq!(m[0x1000 + k], 0, "byte {:#x}", k);
    }
    assert_eq!(m[0x1000 + 0x4030], 0xAA);
}

fn reloc_image(tag: u16, value: u64) -> Vec<u8> {
    let mut m = image(0x4000, 0x1_0000_0000, &[
        Sec { name: TEXT, vsize: 0x100, vaddr: 0x1000, rsize: 0x100, raddr: 0x1000, flags: TEXT_FLAGS },
        Sec { name: RELOC_SECTION_NAME, vsize: 10, vaddr: 0x3000, rsize: 0x200, raddr: 0x3000, flags: 0x4200_0040 },
    ]);
    put32(&mut m, 0x3000, 0x1000);
    put32(&mut m, 0x3004, 10);
    put16(&mut m, 0x3008, tag);
    put64(&mut m, 0x1010, value);
    m
}

#[test]
fn dir64_entry_adds_load_delta() {
    let mut m = reloc_image(0xA010, 0x1_0000_2000);
    assert_eq!(relocate(&mut m, 0x4000_0000, 0), Ok(()));
    assert_eq!(get64(&m, 0x1010), 0x1_0000_2000u64.wrapping_add(0x4000_0000).wrapping_sub(0x1_0000_0000));
    assert_eq!(get64(&m, 0x1010), 0x4000_2000);
}

#[test]
fn dir64_alternate_type_is_applied_the_same() {
    let mut m = reloc_image(0xB010, 0x1_0000_2000);
    assert_eq!(relocate(&mut m, 0x4000_0000, 0), Ok(()));
    assert_eq!(get64(&m, 0x1010), 0x4000_2000);
}

#[test]
fn padding_entry_changes_nothing() {
    let mut m = reloc_image(0x0010, 0x1_0000_2000);
    let before = m.clone();
    assert_eq!(relocate(&mut m, 0x4000_0000, 0), Ok(()));
    assert_eq!(m, before);
}

#[test]
fn unknown_entry_type_is_ignored() {
    let mut m = reloc_image(0x3010, 0x1_0000_2000);
    let before = m.clone();
    assert_eq!(relocate(&mut m, 0x4000_0000, 0), Ok(()));
    assert_eq!(m, before);
}

#[test]
fn discardable_section_other_than_reloc_is_not_moved() {
    let mut m = image(0x3000, 0, &[Sec { name: 0x6775_6265_642e, vsize: 0x100, vaddr: 0x2000, rsize: 0x100, raddr: 0x400, flags: SECTION_DISCARDABLE | 0x4000_0040 }]);
    m[0x400] = 7;
    let before = m.clone();
    assert_eq!(relocate(&mut m, 0x4000_0000, 0), Ok(()));
    assert_eq!(m, before);
}

#[test]
fn truncated_header_is_rejected() {
    let mut m = vec![0u8; 0x20];
    assert_eq!(relocate(&mut m, 0, 0), Err(ImageError::Malformed));
}

#[test]
fn section_beyond_image_is_rejected() {
    let mut m = image(0x2000, 0, &[Sec { name: TEXT, vsize: 0x100, vaddr: 0x1f80, rsize: 0x100, raddr: 0x400, flags: TEXT_FLAGS }]);
    assert_eq!(relocate(&mut m, 0, 0), Err(ImageError::Malformed));
}

#[test]
fn block_smaller_than_header_is_rejected() {
    let mut m = reloc_image(0xA010, 5);
    put32(&mut m, 0x3004, 4);
    assert_eq!(relocate(&mut m, 0x4000_0000, 0), Err(ImageError::Malformed));
}

#[test]
fn section_written_over_headers_is_rejected() {
    let mut m = image(0x3000, 0, &[Sec { name: TEXT, vsize: 0x100, vaddr: 0x100, rsize: 0x100, raddr: 0x1000, flags: TEXT_FLAGS }]);
    assert_eq!(relocate(&mut m, 0, 0), Err(ImageError::Malformed));
}

#[test]
fn section_alignment_read_in_place() {
    let m = image(0x2000, 0, &[]);
    assert_eq!(barekit::image::image_section_alignment(&m), Some(0x1000));
    assert_eq!(barekit::image::image_section_alignment(&vec![0u8; 0x10]), None);
}
