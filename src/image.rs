//! Self-relocation of a PE/COFF image that was loaded as a flat copy of its
//! file: sections move from their file offsets to their virtual offsets, the
//! data section's tail is zeroed to stand in for the absent BSS section, and
//! the 64-bit absolute base relocations are applied for the load address.
//!
//! The image is a byte buffer whose index 0 is the load address. No section
//! may be written over the headers, so the section table reads the same
//! before and while sections move.

use vstd::prelude::*;
use crate::bytes::{u16_at, u32_at, u64_at, put_u64, read_u16, read_u32, read_u64, write_u64};

verus! {

/// Section flag: the section may be discarded once the image is loaded.
pub const SECTION_DISCARDABLE: u32 = 0x0200_0000;
/// Section flags of the initialised data section, exactly: writable,
/// readable, initialised data.
pub const DATA_SECTION_FLAGS: u32 = 0xC000_0040;
/// Name of the base-relocation section, ".reloc", read as a little-endian
/// 64-bit value.
pub const RELOC_SECTION_NAME: u64 = 0x0000_636f_6c65_722e;
/// Offset of the field that gives the offset of the NT headers.
pub const NEW_HEADER_FIELD: usize = 0x3c;
/// Size of a section header.
pub const SECTION_HEADER_SIZE: usize = 40;
/// Size of a relocation block's header: page offset and block size.
pub const RELOC_BLOCK_HEADER_SIZE: u32 = 8;
/// Relocation types that add the load delta to a 64-bit value.
pub const RELOC_DIR64: u16 = 10;
pub const RELOC_DIR64_ALT: u16 = 11;

/// The fields of a section header that relocation reads.
#[derive(PartialEq, Eq, Structural, Clone, Copy, Debug)]
pub struct SectionHeader {
    pub name: u64,
    pub virtual_size: u32,
    pub virtual_address: u32,
    pub raw_data_size: u32,
    pub raw_data_address: u32,
    pub characteristics: u32,
}

/// What relocation reads from the image headers.
pub struct ImageLayout {
    pub image_base: u64,
    pub section_alignment: u32,
    pub sections: Vec<SectionHeader>,
}

/// The image cannot be relocated: a header, a section or a relocation
/// block lies beyond the buffer, or a block does not cover its own header.
#[derive(PartialEq, Eq, Structural, Clone, Copy, Debug)]
pub enum ImageError {
    Malformed,
}

pub open spec fn nt_offset(m: Seq<u8>) -> int {
    u32_at(m, NEW_HEADER_FIELD as int) as int
}

pub open spec fn section_count(m: Seq<u8>) -> int {
    u16_at(m, nt_offset(m) + 6) as int
}

/// Offset of the section table: signature, file header, optional header.
pub open spec fn section_table(m: Seq<u8>) -> int {
    nt_offset(m) + 24 + u16_at(m, nt_offset(m) + 20) as int
}

pub open spec fn headers_fit(m: Seq<u8>) -> bool {
    &&& NEW_HEADER_FIELD + 4 <= m.len()
    &&& nt_offset(m) + 60 <= m.len()
    &&& section_table(m) + SECTION_HEADER_SIZE * section_count(m) <= m.len()
}

pub open spec fn section_at(m: Seq<u8>, o: int) -> SectionHeader {
    SectionHeader {
        name: u64_at(m, o),
        virtual_size: u32_at(m, o + 8),
        virtual_address: u32_at(m, o + 12),
        raw_data_size: u32_at(m, o + 16),
        raw_data_address: u32_at(m, o + 20),
        characteristics: u32_at(m, o + 36),
    }
}

pub open spec fn image_base_of(m: Seq<u8>) -> u64 {
    u64_at(m, nt_offset(m) + 48)
}

pub open spec fn section_alignment_of(m: Seq<u8>) -> u32 {
    u32_at(m, nt_offset(m) + 56)
}

pub open spec fn sections_of(m: Seq<u8>) -> Seq<SectionHeader> {
    Seq::new(
        section_count(m) as nat,
        |k: int| section_at(m, section_table(m) + SECTION_HEADER_SIZE * k),
    )
}

/// Reads the image base, the section alignment and the section table.
pub fn parse_image(m: &Vec<u8>) -> (r: Option<ImageLayout>)
    ensures
        r is Some <==> headers_fit(m@),
        r matches Some(l) ==> {
            &&& l.image_base == image_base_of(m@)
            &&& l.section_alignment == section_alignment_of(m@)
            &&& l.sections@ == sections_of(m@)
        },
{
    if m.len() < NEW_HEADER_FIELD + 4 {
        return None;
    }
    let nt32 = read_u32(m, NEW_HEADER_FIELD);
    if m.len() < 60 || nt32 as u64 > (m.len() - 60) as u64 {
        return None;
    }
    let nt = nt32 as usize;
    let count = read_u16(m, nt + 6) as usize;
    let opt = read_u16(m, nt + 20) as usize;
    if opt > m.len() - nt - 24 {
        return None;
    }
    let table = nt + 24 + opt;
    if count as u64 * 40 > (m.len() - table) as u64 {
        return None;
    }
    let image_base = read_u64(m, nt + 48);
    let section_alignment = read_u32(m, nt + 56);
    let mut sections: Vec<SectionHeader> = Vec::new();
    let mut k: usize = 0;
    while k < count
        invariant
            k <= count,
            count == section_count(m@),
            table == section_table(m@),
            table + SECTION_HEADER_SIZE * count <= m.len(),
            sections@ == sections_of(m@).subrange(0, k as int),
        decreases count - k,
    {
        let o = table + SECTION_HEADER_SIZE * k;
        let s = SectionHeader {
            name: read_u64(m, o),
            virtual_size: read_u32(m, o + 8),
            virtual_address: read_u32(m, o + 12),
            raw_data_size: read_u32(m, o + 16),
            raw_data_address: read_u32(m, o + 20),
            characteristics: read_u32(m, o + 36),
        };
        sections.push(s);
        k += 1;
        assert(sections@ =~= sections_of(m@).subrange(0, k as int));
    }
    assert(sections@ =~= sections_of(m@));
    Some(ImageLayout { image_base, section_alignment, sections })
}

/// The discardable section that holds the base relocations.
pub open spec fn is_reloc_section(s: SectionHeader) -> bool {
    s.characteristics & SECTION_DISCARDABLE != 0 && s.name == RELOC_SECTION_NAME
}

/// A section moves when its file offset differs from its virtual offset;
/// of the discardable sections only the relocation section moves.
pub open spec fn section_moves(s: SectionHeader) -> bool {
    if s.characteristics & SECTION_DISCARDABLE == 0 {
        s.raw_data_address != s.virtual_address
    } else {
        is_reloc_section(s) && s.raw_data_address != s.virtual_address
    }
}

/// The data section, whose tail past its file data is the BSS.
pub open spec fn is_data_section(s: SectionHeader) -> bool {
    s.characteristics == DATA_SECTION_FLAGS
}

/// Every byte that the section's move and zero fill touch is in the image.
pub open spec fn section_fits(s: SectionHeader, len: int) -> bool {
    &&& section_moves(s) ==> s.raw_data_address + s.raw_data_size <= len && s.virtual_address
        + s.raw_data_size <= len
    &&& is_data_section(s) && s.raw_data_size < s.virtual_size ==> s.virtual_address + s.virtual_size
        <= len
}

/// End of the headers: the section table's last byte plus one.
pub open spec fn headers_end(m: Seq<u8>) -> int {
    section_table(m) + SECTION_HEADER_SIZE * section_count(m)
}

/// Nothing the section writes lies in the headers, which stay readable
/// while sections move.
pub open spec fn section_clear_of_headers(s: SectionHeader, headers_end: int) -> bool {
    (section_moves(s) || (is_data_section(s) && s.raw_data_size < s.virtual_size)) ==> s.virtual_address
        >= headers_end
}

/// `m` with `n` bytes from `src` placed at `dst`.
pub open spec fn copy_range(m: Seq<u8>, src: int, dst: int, n: int) -> Seq<u8> {
    Seq::new(m.len(), |k: int| if dst <= k < dst + n { m[src + k - dst] } else { m[k] })
}

/// `m` with the bytes in `[start, end)` zeroed.
pub open spec fn zero_range(m: Seq<u8>, start: int, end: int) -> Seq<u8> {
    Seq::new(m.len(), |k: int| if start <= k < end { 0u8 } else { m[k] })
}

/// One section put in place: moved if it moves, then, for the data section,
/// its tail from the file size to the virtual size zeroed.
pub open spec fn section_applied(m: Seq<u8>, s: SectionHeader) -> Seq<u8> {
    let moved = if section_moves(s) {
        copy_range(m, s.raw_data_address as int, s.virtual_address as int, s.raw_data_size as int)
    } else {
        m
    };
    if is_data_section(s) {
        zero_range(
            moved,
            s.virtual_address + s.raw_data_size,
            s.virtual_address + s.virtual_size,
        )
    } else {
        moved
    }
}

/// The sections from index `i` on put in place, last one first.
pub open spec fn sections_applied(m: Seq<u8>, secs: Seq<SectionHeader>, i: int) -> Seq<u8>
    decreases secs.len() - i,
{
    if i < 0 || i >= secs.len() {
        m
    } else {
        section_applied(sections_applied(m, secs, i + 1), secs[i])
    }
}

/// Virtual offset and size of the first relocation section from index `i`.
pub open spec fn reloc_table_from(secs: Seq<SectionHeader>, i: int) -> Option<(u32, u32)>
    decreases secs.len() - i,
{
    if i < 0 || i >= secs.len() {
        None
    } else if is_reloc_section(secs[i]) {
        Some((secs[i].virtual_address, secs[i].virtual_size))
    } else {
        reloc_table_from(secs, i + 1)
    }
}

/// One relocation entry: its 12-bit page offset and its 4-bit type.
pub open spec fn entry_offset(tag: u16) -> u16 {
    tag & 0xfffu16
}

pub open spec fn entry_type(tag: u16) -> u16 {
    tag >> 12u16
}

/// `count` relocation entries from `at`, for the page at `page`: types 10
/// and 11 add `delta` to the 64-bit value they point at, any other type is
/// skipped.
pub open spec fn entries_applied(m: Seq<u8>, delta: u64, page: u32, at: int, count: nat) -> Option<Seq<u8>>
    decreases count,
{
    if count == 0 {
        Some(m)
    } else if at < 0 || at + 2 > m.len() {
        None
    } else {
        let tag = u16_at(m, at);
        let ty = entry_type(tag);
        let target = page + entry_offset(tag);
        if ty == RELOC_DIR64 || ty == RELOC_DIR64_ALT {
            if target + 8 > m.len() {
                None
            } else {
                entries_applied(
                    put_u64(m, target, vstd::wrapping::u64_specs::wrapping_add(u64_at(m, target), delta)),
                    delta,
                    page,
                    at + 2,
                    (count - 1) as nat,
                )
            }
        } else {
            entries_applied(m, delta, page, at + 2, (count - 1) as nat)
        }
    }
}

/// The relocation blocks from `pos` up to `end`.
pub open spec fn blocks_applied(m: Seq<u8>, delta: u64, pos: int, end: int) -> Option<Seq<u8>>
    decreases (if pos < end { end - pos } else { 0 }),
{
    if pos >= end {
        Some(m)
    } else if pos < 0 || pos + 8 > m.len() {
        None
    } else {
        let page = u32_at(m, pos);
        let size = u32_at(m, pos + 4);
        if size < 8 {
            None
        } else {
            match entries_applied(m, delta, page, pos + 8, ((size - 8) / 2) as nat) {
                None => None,
                Some(m2) => blocks_applied(m2, delta, pos + size, end),
            }
        }
    }
}

/// The whole relocation of image `m` loaded at `load_address`.
pub open spec fn relocate_spec(m: Seq<u8>, load_address: u64) -> Option<Seq<u8>> {
    if !headers_fit(m) {
        None
    } else {
        let secs = sections_of(m);
        if !(forall|k: int|
            0 <= k < secs.len() ==> section_fits(#[trigger] secs[k], m.len() as int)
                && section_clear_of_headers(secs[k], headers_end(m))) {
            None
        } else {
            let placed = sections_applied(m, secs, 0);
            match reloc_table_from(secs, 0) {
                None => Some(placed),
                Some((offset, size)) => {
                    if offset == 0 {
                        Some(placed)
                    } else {
                        blocks_applied(
                            placed,
                            vstd::wrapping::u64_specs::wrapping_sub(load_address, image_base_of(m)),
                            offset as int,
                            offset + size,
                        )
                    }
                },
            }
        }
    }
}

/// Puts one section in place.
pub fn apply_section(m: &mut Vec<u8>, s: &SectionHeader)
    requires
        section_fits(*s, old(m).len() as int),
    ensures
        final(m)@ == section_applied(old(m)@, *s),
{
    let ghost m0 = m@;
    let moves = if s.characteristics & SECTION_DISCARDABLE == 0 {
        s.raw_data_address != s.virtual_address
    } else {
        s.name == RELOC_SECTION_NAME && s.raw_data_address != s.virtual_address
    };
    if moves {
        let src = s.raw_data_address as usize;
        let dst = s.virtual_address as usize;
        let n = s.raw_data_size as usize;
        if dst <= src {
            let mut i: usize = 0;
            while i < n
                invariant
                    dst <= src,
                    i <= n,
                    src + n <= m0.len(),
                    dst + n <= m0.len(),
                    m.len() == m0.len(),
                    m@ == copy_range(m0, src as int, dst as int, i as int),
                decreases n - i,
            {
                let b = m[src + i];
                m.set(dst + i, b);
                i += 1;
                assert(m@ =~= copy_range(m0, src as int, dst as int, i as int));
            }
        } else {
            let mut i: usize = n;
            assert(m@ =~= Seq::new(
                m0.len(),
                |k: int| if dst + i <= k < dst + n { m0[src + k - dst] } else { m0[k] },
            ));
            while i > 0
                invariant
                    src < dst,
                    i <= n,
                    src + n <= m0.len(),
                    dst + n <= m0.len(),
                    m.len() == m0.len(),
                    m@ == Seq::new(
                        m0.len(),
                        |k: int| if dst + i <= k < dst + n { m0[src + k - dst] } else { m0[k] },
                    ),
                decreases i,
            {
                i -= 1;
                let b = m[src + i];
                m.set(dst + i, b);
                assert(m@ =~= Seq::new(
                    m0.len(),
                    |k: int| if dst + i <= k < dst + n { m0[src + k - dst] } else { m0[k] },
                ));
            }
            assert(m@ =~= copy_range(m0, src as int, dst as int, n as int));
        }
    } else {
        assert(m@ =~= m0);
    }
    let ghost moved = m@;
    if s.characteristics == DATA_SECTION_FLAGS && s.raw_data_size < s.virtual_size {
        let start = s.virtual_address as usize + s.raw_data_size as usize;
        let end = s.virtual_address as usize + s.virtual_size as usize;
        let mut k = start;
        assert(m@ =~= zero_range(moved, start as int, k as int));
        while k < end
            invariant
                start <= k <= end,
                end <= m.len(),
                m.len() == moved.len(),
                m@ == zero_range(moved, start as int, k as int),
            decreases end - k,
        {
            m.set(k, 0);
            k += 1;
            assert(m@ =~= zero_range(moved, start as int, k as int));
        }
        assert(m@ =~= zero_range(moved, start as int, end as int));
    } else if s.characteristics == DATA_SECTION_FLAGS {
        assert(m@ =~= zero_range(
            moved,
            s.virtual_address + s.raw_data_size,
            s.virtual_address + s.virtual_size,
        ));
    }
}

/// Applies `count` relocation entries from `at`; `false` where one lies
/// beyond the image.
pub fn apply_entries(m: &mut Vec<u8>, delta: u64, page: u32, at: usize, count: u32) -> (ok: bool)
    ensures
        final(m).len() == old(m).len(),
        ok == entries_applied(old(m)@, delta, page, at as int, count as nat) is Some,
        ok ==> entries_applied(old(m)@, delta, page, at as int, count as nat) == Some(final(m)@),
{
    let ghost m0 = m@;
    let mut k: u32 = 0;
    let mut pos = at;
    while k < count
        invariant
            k <= count,
            m0 == old(m)@,
            m.len() == m0.len(),
            pos == at + 2 * k,
            entries_applied(m0, delta, page, at as int, count as nat) == entries_applied(
                m@,
                delta,
                page,
                pos as int,
                (count - k) as nat,
            ),
        decreases count - k,
    {
        if pos > m.len() || m.len() - pos < 2 {
            return false;
        }
        let tag = read_u16(m, pos);
        let ty = tag >> 12u16;
        let target64 = page as u64 + (tag & 0xfff) as u64;
        if ty == RELOC_DIR64 || ty == RELOC_DIR64_ALT {
            if target64 > m.len() as u64 || m.len() as u64 - target64 < 8 {
                return false;
            }
            let target = target64 as usize;
            let v = read_u64(m, target);
            write_u64(m, target, v.wrapping_add(delta));
        }
        pos = pos + 2;
        k += 1;
    }
    true
}

/// Applies the relocation blocks in `[pos, end)`; `false` where a block
/// lies beyond the image or does not cover its own header.
pub fn apply_blocks(m: &mut Vec<u8>, delta: u64, start: u64, end: u64) -> (ok: bool)
    ensures
        final(m).len() == old(m).len(),
        ok == blocks_applied(old(m)@, delta, start as int, end as int) is Some,
        ok ==> blocks_applied(old(m)@, delta, start as int, end as int) == Some(final(m)@),
{
    let ghost m0 = m@;
    let mut pos = start;
    while pos < end
        invariant
            m0 == old(m)@,
            m.len() == m0.len(),
            blocks_applied(m0, delta, start as int, end as int) == blocks_applied(
                m@,
                delta,
                pos as int,
                end as int,
            ),
        decreases (if pos < end { end - pos } else { 0 }),
    {
        if pos > m.len() as u64 || m.len() as u64 - pos < 8 {
            return false;
        }
        let p = pos as usize;
        let page = read_u32(m, p);
        let size = read_u32(m, p + 4);
        if size < RELOC_BLOCK_HEADER_SIZE {
            return false;
        }
        if !apply_entries(m, delta, page, p + 8, (size - 8) / 2) {
            return false;
        }
        if size as u64 >= end - pos {
            assert(blocks_applied(m@, delta, pos + size, end as int) == Some(m@));
            return true;
        }
        pos = pos + size as u64;
    }
    true
}

/// The section alignment declared in the optional header, read in place;
/// `None` where the headers do not fit in the image.
pub fn image_section_alignment(m: &Vec<u8>) -> (r: Option<u32>)
    ensures
        r is Some <==> (NEW_HEADER_FIELD + 4 <= m.len() && nt_offset(m@) + 60 <= m.len()),
        r matches Some(a) ==> a == section_alignment_of(m@),
{
    if m.len() < NEW_HEADER_FIELD + 4 {
        return None;
    }
    let nt = read_u32(m, NEW_HEADER_FIELD);
    if m.len() < 60 || nt as u64 > (m.len() - 60) as u64 {
        return None;
    }
    Some(read_u32(m, nt as usize + 56))
}

/// Reads the section header at `o`.
pub fn read_section(m: &Vec<u8>, o: usize) -> (r: SectionHeader)
    requires
        o + SECTION_HEADER_SIZE <= m.len(),
    ensures
        r == section_at(m@, o as int),
{
    SectionHeader {
        name: read_u64(m, o),
        virtual_size: read_u32(m, o + 8),
        virtual_address: read_u32(m, o + 12),
        raw_data_size: read_u32(m, o + 16),
        raw_data_address: read_u32(m, o + 20),
        characteristics: read_u32(m, o + 36),
    }
}

/// Relocates the image in `image`, loaded at `load_address`, in place:
/// sections from last to first are moved to their virtual offsets, the
/// data section's BSS tail is zeroed, then the base relocations of the
/// first relocation section (when its offset is not zero) are applied with
/// the difference between the load address and the declared image base.
/// Nothing is allocated, so this can run before any heap exists.
/// `upper_limit` is accepted and not checked: the buffer bounds every access.
pub fn relocate(image: &mut Vec<u8>, load_address: u64, upper_limit: u64) -> (r: Result<(), ImageError>)
    ensures
        final(image).len() == old(image).len(),
        match relocate_spec(old(image)@, load_address) {
            Some(m) => r is Ok && final(image)@ == m,
            None => r == Err::<(), ImageError>(ImageError::Malformed),
        },
{
    let ghost m0 = image@;
    let len = image.len();
    if len < NEW_HEADER_FIELD + 4 {
        return Err(ImageError::Malformed);
    }
    let nt32 = read_u32(image, NEW_HEADER_FIELD);
    if len < 60 || nt32 as u64 > (len - 60) as u64 {
        return Err(ImageError::Malformed);
    }
    let nt = nt32 as usize;
    let count = read_u16(image, nt + 6) as usize;
    let opt = read_u16(image, nt + 20) as usize;
    if opt > len - nt - 24 {
        return Err(ImageError::Malformed);
    }
    let table = nt + 24 + opt;
    if count as u64 * 40 > (len - table) as u64 {
        return Err(ImageError::Malformed);
    }
    let hdr_end = table + SECTION_HEADER_SIZE * count;
    assert(headers_fit(m0));
    let image_base = read_u64(image, nt + 48);
    let ghost secs = sections_of(m0);
    let mut k: usize = 0;
    while k < count
        invariant
            m0 == old(image)@,
            image@ == m0,
            len == m0.len(),
            headers_fit(m0),
            secs == sections_of(m0),
            count == section_count(m0),
            table == section_table(m0),
            hdr_end == headers_end(m0),
            hdr_end <= len,
            k <= count,
            forall|j: int|
                0 <= j < k ==> section_fits(#[trigger] secs[j], len as int) && section_clear_of_headers(
                    secs[j],
                    hdr_end as int,
                ),
        decreases count - k,
    {
        let s = read_section(image, table + SECTION_HEADER_SIZE * k);
        assert(s == secs[k as int]);
        let moves = if s.characteristics & SECTION_DISCARDABLE == 0 {
            s.raw_data_address != s.virtual_address
        } else {
            s.name == RELOC_SECTION_NAME && s.raw_data_address != s.virtual_address
        };
        assert(moves == section_moves(s));
        let tail = s.characteristics == DATA_SECTION_FLAGS && s.raw_data_size < s.virtual_size;
        if moves && (s.raw_data_address as u64 + s.raw_data_size as u64 > len as u64
            || s.virtual_address as u64 + s.raw_data_size as u64 > len as u64) {
            assert(!section_fits(secs[k as int], len as int));
            return Err(ImageError::Malformed);
        }
        if tail && s.virtual_address as u64 + s.virtual_size as u64 > len as u64 {
            assert(!section_fits(secs[k as int], len as int));
            return Err(ImageError::Malformed);
        }
        if (moves || tail) && (s.virtual_address as u64) < hdr_end as u64 {
            assert(!section_clear_of_headers(secs[k as int], hdr_end as int));
            return Err(ImageError::Malformed);
        }
        k += 1;
    }
    let mut reloc: Option<(u32, u32)> = None;
    let mut i = count;
    while i > 0
        invariant
            i <= count,
            m0 == old(image)@,
            headers_fit(m0),
            secs == sections_of(m0),
            count == section_count(m0),
            table == section_table(m0),
            hdr_end == headers_end(m0),
            hdr_end <= m0.len(),
            image.len() == m0.len(),
            forall|j: int|
                0 <= j < secs.len() ==> section_fits(#[trigger] secs[j], m0.len() as int)
                    && section_clear_of_headers(secs[j], hdr_end as int),
            forall|o: int| 0 <= o < hdr_end ==> #[trigger] image@[o] == m0[o],
            image@ == sections_applied(m0, secs, i as int),
            reloc == reloc_table_from(secs, i as int),
        decreases i,
    {
        i -= 1;
        let o = table + SECTION_HEADER_SIZE * i;
        let s = read_section(image, o);
        assert(section_at(image@, o as int) == section_at(m0, o as int)) by {
            assert(o + SECTION_HEADER_SIZE <= hdr_end);
            assert(image@[o as int] == m0[o as int]);
        }
        assert(s == secs[i as int]);
        if s.characteristics & SECTION_DISCARDABLE != 0 && s.name == RELOC_SECTION_NAME {
            reloc = Some((s.virtual_address, s.virtual_size));
        }
        let ghost before = image@;
        apply_section(image, &s);
        assert forall|o: int| 0 <= o < hdr_end implies #[trigger] image@[o] == m0[o] by {
            assert(before[o] == m0[o]);
        }
    }
    match reloc {
        None => Ok(()),
        Some((offset, size)) => {
            if offset == 0 {
                Ok(())
            } else {
                let delta = load_address.wrapping_sub(image_base);
                if apply_blocks(image, delta, offset as u64, offset as u64 + size as u64) {
                    Ok(())
                } else {
                    Err(ImageError::Malformed)
                }
            }
        },
    }
}

/// A section whose file offset equals its virtual offset is never copied;
/// unless it is the data section, putting it in place leaves the image as
/// it was.
pub proof fn lemma_in_place_section_not_copied(m: Seq<u8>, s: SectionHeader)
    requires
        s.raw_data_address == s.virtual_address,
    ensures
        !section_moves(s),
        !is_data_section(s) ==> section_applied(m, s) == m,
{
}

/// After the data section is put in place, its first `raw_data_size` bytes
/// hold its file data and the rest up to `virtual_size` are zero.
pub proof fn lemma_data_section_tail_zeroed(m: Seq<u8>, s: SectionHeader)
    requires
        is_data_section(s),
        s.raw_data_address + s.raw_data_size <= m.len(),
        s.virtual_address + s.raw_data_size <= m.len(),
        s.virtual_address + s.virtual_size <= m.len(),
    ensures
        forall|k: int|
            0 <= k < s.raw_data_size ==> #[trigger] section_applied(m, s)[s.virtual_address + k]
                == m[s.raw_data_address + k],
        forall|k: int|
            s.raw_data_size <= k < s.virtual_size ==> #[trigger] section_applied(m, s)[s.virtual_address
                + k] == 0,
        section_applied(m, s).len() == m.len(),
{
    assert(0xC000_0040u32 & 0x0200_0000u32 == 0) by (bit_vector);
    let moved = if section_moves(s) {
        copy_range(m, s.raw_data_address as int, s.virtual_address as int, s.raw_data_size as int)
    } else {
        m
    };
    assert forall|k: int| 0 <= k < s.raw_data_size implies #[trigger] section_applied(m, s)[s.virtual_address
        + k] == m[s.raw_data_address + k] by {
        assert(moved[s.virtual_address + k] == m[s.raw_data_address + k]);
    }
}

/// A block that holds one entry of type 10 or 11 adds the difference
/// between load address and image base to the 64-bit value it points at,
/// wrapping; an entry of type 0 at the same place leaves the image as it
/// was.
pub proof fn lemma_single_entry_block(
    m: Seq<u8>,
    load_address: u64,
    image_base: u64,
    pos: int,
    tag: u16,
)
    requires
        0 <= pos,
        pos + 10 <= m.len(),
        u32_at(m, pos + 4) == 10,
        u16_at(m, pos + 8) == tag,
        u32_at(m, pos) + entry_offset(tag) + 8 <= m.len(),
        entry_type(tag) == RELOC_DIR64 || entry_type(tag) == RELOC_DIR64_ALT || entry_type(tag) == 0,
    ensures
        ({
            let delta = vstd::wrapping::u64_specs::wrapping_sub(load_address, image_base);
            let target = u32_at(m, pos) + entry_offset(tag);
            let v = u64_at(m, target);
            let r = blocks_applied(m, delta, pos, pos + 10);
            &&& entry_type(tag) == 0 ==> r == Some(m)
            &&& entry_type(tag) != 0 ==> (r matches Some(n) && u64_at(n, target)
                == vstd::wrapping::u64_specs::wrapping_add(v, delta) && n.len() == m.len())
        }),
{
    let delta = vstd::wrapping::u64_specs::wrapping_sub(load_address, image_base);
    let target = u32_at(m, pos) + entry_offset(tag);
    let v = u64_at(m, target);
    let written = put_u64(m, target, vstd::wrapping::u64_specs::wrapping_add(v, delta));
    assert(((10u32 - 8) / 2) as nat == 1);
    if entry_type(tag) != 0 {
        crate::bytes::lemma_u64_round_trip(m, target, vstd::wrapping::u64_specs::wrapping_add(v, delta));
        assert(entries_applied(written, delta, u32_at(m, pos), pos + 10, 0) == Some(written));
        assert(blocks_applied(written, delta, pos + 10, pos + 10) == Some(written));
    } else {
        assert(entries_applied(m, delta, u32_at(m, pos), pos + 10, 0) == Some(m));
        assert(blocks_applied(m, delta, pos + 10, pos + 10) == Some(m));
    }
}

} // verus!
