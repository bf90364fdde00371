//! Translation-table introspection: descriptor decoding, the shape of the
//! low address range, the table base that covers an address, and a walk that
//! resolves an address to its mapping and to the descriptor that maps it.

use vstd::prelude::*;

verus! {

/// Walk start index for 5-level translation.
pub const TRANSLATION_5_LEVELS: u8 = 0;
/// Walk start index for 4-level translation.
pub const TRANSLATION_4_LEVELS: u8 = 1;
/// Walk start index for 3-level translation.
pub const TRANSLATION_3_LEVELS: u8 = 2;
/// Walk start index for 2-level translation.
pub const TRANSLATION_2_LEVELS: u8 = 3;
/// Walk start index for 1-level translation.
pub const TRANSLATION_1_LEVEL: u8 = 4;

/// Address bits that an entry at walk index `index` covers (4 KiB granule):
/// index 0 is the architecture's level -1, index 4 its level 3.
pub open spec fn bits_at(index: int) -> u8 {
    if index == 0 {
        48
    } else if index == 1 {
        39
    } else if index == 2 {
        30
    } else if index == 3 {
        21
    } else {
        12
    }
}

/// Address bits covered by an entry at walk index `index`.
pub fn bits_at_level(index: usize) -> (r: u8)
    requires
        index < 5,
    ensures
        r == bits_at(index as int),
{
    if index == 0 {
        48
    } else if index == 1 {
        39
    } else if index == 2 {
        30
    } else if index == 3 {
        21
    } else {
        12
    }
}

/// Index into a table of the entry that covers `va`, for entries that cover
/// `bits` address bits.
pub open spec fn index_at(va: u64, bits: u8) -> u64 {
    (va >> bits) & 0x1ffu64
}

pub fn page_index_at_bits(va: u64, bits: u8) -> (r: usize)
    requires
        bits < 64,
    ensures
        r as u64 == index_at(va, bits),
        r < 512,
{
    let i = (va >> bits) & 0x1ffu64;
    assert(((va >> bits) & 0x1ffu64) < 512u64) by (bit_vector);
    i as usize
}

pub open spec fn is_present(d: u64) -> bool {
    d & 1u64 != 0
}

pub open spec fn is_block(d: u64, bits: u8) -> bool {
    bits > 12 && d & 2u64 == 0
}

pub open spec fn is_table(d: u64, bits: u8) -> bool {
    bits > 12 && d & 2u64 == 2
}

/// A descriptor's valid bit is set.
pub fn page_is_present(pageinfo: u64) -> (r: bool)
    ensures
        r == is_present(pageinfo),
{
    pageinfo & 1 != 0
}

/// A descriptor above the last level that maps a block directly.
pub fn page_is_block(pageinfo: u64, bits: u8) -> (r: bool)
    ensures
        r == is_block(pageinfo, bits),
{
    bits > 12 && pageinfo & 2 == 0
}

/// A descriptor above the last level that points to a next-level table.
pub fn page_is_table(pageinfo: u64, bits: u8) -> (r: bool)
    ensures
        r == is_table(pageinfo, bits),
{
    bits > 12 && pageinfo & 2 == 2
}

/// Mask of the descriptor bits that are not part of a table address: the
/// low twelve attribute bits and the top sixteen.
pub const ADDRESS_ATTRIBUTES: u64 = 0xffff_0000_0000_0fff;

/// Address of the next-level table that a table descriptor points to.
pub open spec fn table_target(d: u64) -> u64 {
    d & !ADDRESS_ATTRIBUTES
}

/// Address that a block or page descriptor at walk index `index` maps.
pub open spec fn page_target(d: u64, index: int) -> u64 {
    if bits_at(index) > 12 {
        d & !(ADDRESS_ATTRIBUTES | (((1u64 << bits_at(index + 1)) - 1) as u64))
    } else {
        d & !ADDRESS_ATTRIBUTES
    }
}

/// Output address of a block or page descriptor found at walk index `index`.
pub fn page_target_at_index(pageinfo: u64, index: usize) -> (r: u64)
    requires
        index < 5,
    ensures
        r == page_target(pageinfo, index as int),
{
    let bits = bits_at_level(index);
    if bits > 12 {
        let next = bits_at_level(index + 1);
        assert(1u64 << next >= 1u64) by (bit_vector)
            requires
                next < 64u8,
        ;
        let low: u64 = (1u64 << next) - 1;
        pageinfo & !(ADDRESS_ATTRIBUTES | low)
    } else {
        pageinfo & !ADDRESS_ATTRIBUTES
    }
}

/// Address of the next-level table that a table descriptor points to.
pub fn table_target_at_index(pageinfo: u64, index: usize) -> (r: u64)
    ensures
        r == table_target(pageinfo),
{
    pageinfo & !ADDRESS_ATTRIBUTES
}

/// The T0SZ field of a translation-control value.
pub open spec fn t0sz_of(tcr: u64) -> u64 {
    tcr & 0x3fu64
}

/// The T1SZ field of a translation-control value.
pub open spec fn t1sz_of(tcr: u64) -> u64 {
    (tcr >> 16u64) & 0x3fu64
}

/// T0SZ values that the 4 KiB granule defines.
pub open spec fn t0sz_valid(tcr: u64) -> bool {
    12 <= t0sz_of(tcr) < 49
}

/// Walk start index for a T0SZ value (4 KiB granule).
pub open spec fn start_index_for(tsz: u64) -> u8 {
    if tsz < 16 {
        TRANSLATION_5_LEVELS
    } else if tsz < 25 {
        TRANSLATION_4_LEVELS
    } else if tsz < 34 {
        TRANSLATION_3_LEVELS
    } else if tsz < 43 {
        TRANSLATION_2_LEVELS
    } else {
        TRANSLATION_1_LEVEL
    }
}

/// Whether the T0SZ field of `tcr` is one the granule defines; any other
/// value is fatal to the caller.
pub fn tcr_low_range_valid(tcr: u64) -> (r: bool)
    ensures
        r == t0sz_valid(tcr),
{
    let tsz = tcr & 0x3f;
    12 <= tsz && tsz < 49
}

/// Shape of the low address range: the walk start index and the size of
/// the range in bytes, from the T0SZ field of `tcr`.
pub fn paging_get_low_mem_paging(tcr: u64) -> (r: (u8, u64))
    requires
        t0sz_valid(tcr),
    ensures
        r.0 == start_index_for(t0sz_of(tcr)),
        r.1 == 1u64 << ((64 - t0sz_of(tcr)) as u64),
        r.0 <= 4,
{
    let tsz = tcr & 0x3f;
    let level: u8 = if tsz < 16 {
        TRANSLATION_5_LEVELS
    } else if tsz < 25 {
        TRANSLATION_4_LEVELS
    } else if tsz < 34 {
        TRANSLATION_3_LEVELS
    } else if tsz < 43 {
        TRANSLATION_2_LEVELS
    } else {
        TRANSLATION_1_LEVEL
    };
    (level, 1u64 << (64 - tsz))
}

/// Table base register values that the anchor choice reads.
pub open spec fn anchor_spec(el: u8, tcr: u64, ttbr0: u64, ttbr1: u64, va: u64) -> Option<u64> {
    if el == 1 {
        if va < (1u64 << ((64 - t0sz_of(tcr)) as u64)) {
            Some(ttbr0 & !1u64)
        } else if va < ((u64::MAX - (1u64 << ((64 - t1sz_of(tcr)) as u64))) + 1) as u64 {
            None
        } else {
            Some(ttbr1 & !1u64)
        }
    } else {
        Some(ttbr0 & !1u64)
    }
}

/// The translation table base that covers `va`, from the register values of
/// the current exception level `el`. At EL1 the low range goes through TTBR0,
/// the high range through TTBR1, and the gap between them is unaddressable
/// (`None`); at EL2 and EL3 `ttbr0` is the single base. Bit 0 of the register
/// is not part of the address.
pub fn get_anchor_for(el: u8, tcr: u64, ttbr0: u64, ttbr1: u64, va: u64) -> (r: Option<u64>)
    requires
        1 <= el <= 3,
        el == 1 ==> 1 <= t0sz_of(tcr) && 1 <= t1sz_of(tcr),
    ensures
        r == anchor_spec(el, tcr, ttbr0, ttbr1, va),
{
    if el == 1 {
        let t0sz = tcr & 0x3f;
        let t1sz = (tcr >> 16) & 0x3f;
        assert(tcr & 0x3fu64 <= 63u64) by (bit_vector);
        assert((tcr >> 16u64) & 0x3fu64 <= 63u64) by (bit_vector);
        let end_low_mem = 1u64 << (64 - t0sz);
        let high_size = 1u64 << (64 - t1sz);
        let sh = 64 - t1sz;
        assert(1u64 <= high_size && high_size <= 0x8000_0000_0000_0000u64) by (bit_vector)
            requires
                high_size == 1u64 << sh,
                sh >= 1u64,
                sh <= 63u64,
        ;
        let start_high_mem = u64::MAX - high_size + 1;
        if va < end_low_mem {
            Some(ttbr0 & !1u64)
        } else if va < start_high_mem {
            None
        } else {
            Some(ttbr1 & !1u64)
        }
    } else {
        Some(ttbr0 & !1u64)
    }
}

/// What a walk resolves: the size of the mapping, the address it maps to,
/// and the address of the descriptor that maps it.
#[derive(PartialEq, Eq, Structural, Clone, Copy, Debug)]
pub struct WalkResult {
    pub size: u64,
    pub target: u64,
    pub entry: u64,
}

/// Read access to the memory that holds translation tables.
pub trait DescriptorMemory {
    /// The 64-bit word at `addr`, or `None` where it cannot be read.
    spec fn word(&self, addr: u64) -> Option<u64>;

    fn read_word(&self, addr: u64) -> (r: Option<u64>)
        ensures
            r == self.word(addr),
    ;
}

/// Address of the descriptor for `va` in the table that `pageinfo` points to,
/// at walk index `index`.
pub open spec fn entry_addr(pageinfo: u64, index: int, va: u64) -> u64 {
    (table_target(pageinfo) + 8 * index_at(va, bits_at(index))) as u64
}

/// The walk from walk index `index`, with `pageinfo` the anchor or the table
/// descriptor reached so far. It stops at a block, an absent entry or the
/// last level; it gives `None` where the depth runs out or a descriptor
/// cannot be read.
pub open spec fn walk_spec<M: DescriptorMemory>(mem: &M, pageinfo: u64, index: int, va: u64) -> Option<WalkResult>
    decreases 5 - index,
{
    if index < 0 || index >= 5 {
        None
    } else {
        let entry = entry_addr(pageinfo, index, va);
        match mem.word(entry) {
            None => None,
            Some(d) => {
                if is_block(d, bits_at(index)) || !is_present(d) || index == 4 {
                    Some(
                        WalkResult {
                            size: 1u64 << bits_at(index),
                            target: page_target(d, index),
                            entry,
                        },
                    )
                } else {
                    walk_spec(mem, d, index + 1, va)
                }
            },
        }
    }
}

/// Walks the translation tables under `anchor` from walk index `start_index`
/// for the address `location`.
pub fn paging_virtual_info_ex<M: DescriptorMemory>(mem: &M, anchor: u64, start_index: usize, location: u64) -> (r: Option<WalkResult>)
    ensures
        r == walk_spec(mem, anchor, start_index as int, location),
{
    let mut pageinfo = anchor;
    let mut current_index = start_index;
    while current_index < 5
        invariant
            walk_spec(mem, anchor, start_index as int, location) == walk_spec(mem, pageinfo, current_index as int, location),
        decreases 5 - current_index,
    {
        let bits = bits_at_level(current_index);
        let index = page_index_at_bits(location, bits);
        let table = table_target_at_index(pageinfo, current_index);
        assert(table <= 0x0000_ffff_ffff_f000u64) by (bit_vector)
            requires
                table == pageinfo & !0xffff_0000_0000_0fffu64,
        ;
        let entry = table + 8 * (index as u64);
        match mem.read_word(entry) {
            None => {
                return None;
            },
            Some(d) => {
                if page_is_block(d, bits) || !page_is_present(d) || current_index == 4 {
                    return Some(
                        WalkResult {
                            size: 1u64 << bits,
                            target: page_target_at_index(d, current_index),
                            entry,
                        },
                    );
                }
                pageinfo = d;
            },
        }
        current_index += 1;
    }
    None
}

/// Resolves `location` through the tables of the current exception level,
/// from the values of its translation registers.
pub fn paging_virtual_info<M: DescriptorMemory>(mem: &M, el: u8, tcr: u64, ttbr0: u64, ttbr1: u64, location: u64) -> (r: Option<WalkResult>)
    requires
        1 <= el <= 3,
        el == 1 ==> 1 <= t1sz_of(tcr),
        t0sz_valid(tcr),
    ensures
        r == match anchor_spec(el, tcr, ttbr0, ttbr1, location) {
            None => None,
            Some(anchor) => walk_spec(mem, anchor, start_index_for(t0sz_of(tcr)) as int, location),
        },
{
    match get_anchor_for(el, tcr, ttbr0, ttbr1, location) {
        None => None,
        Some(anchor) => {
            let info = paging_get_low_mem_paging(tcr);
            paging_virtual_info_ex(mem, anchor, info.0 as usize, location)
        },
    }
}

/// One line of a dump of the translation tables.
#[derive(PartialEq, Eq, Structural, Clone, Copy, Debug)]
pub enum PagingRecord {
    /// A table descriptor and the range of addresses its table covers.
    Table { level: usize, table: u64, index: u64, descriptor: u64, target: u64, va_start: u64, va_end: u64 },
    /// A block or page descriptor and what it maps.
    Mapping {
        level: usize,
        table: u64,
        index: u64,
        descriptor: u64,
        read_only: bool,
        va_start: u64,
        va_end: u64,
        pa_start: u64,
        pa_end: u64,
    },
}

/// Entries of a table at walk index `level` that cover `level_size` bytes:
/// one per `1 << bits` bytes, at most 512.
pub open spec fn entries_covering(level: int, level_size: u64) -> int {
    let n = level_size / (1u64 << bits_at(level));
    if n > 512 {
        512
    } else {
        n as int
    }
}

pub open spec fn wadd(a: u64, b: u64) -> u64 {
    vstd::wrapping::u64_specs::wrapping_add(a, b)
}

/// The dump of the entries from `i` on of the table at `table`, at walk
/// index `level`, whose first entry covers `base`: present table entries
/// with the dump of their table after them, present block and page
/// entries; absent or unreadable entries give nothing.
pub open spec fn dump_spec<M: DescriptorMemory>(mem: &M, table: u64, base: u64, level: int, level_size: u64, i: int) -> Seq<PagingRecord>
    decreases 5 - level, 512 - i,
{
    if level < 0 || level > 4 || i < 0 || i >= entries_covering(level, level_size) {
        Seq::empty()
    } else {
        let bits = bits_at(level);
        let size = 1u64 << bits;
        let va_start = wadd(base, (size * i) as u64);
        let va_end = wadd(va_start, (size - 1) as u64);
        let rest = dump_spec(mem, table, base, level, level_size, i + 1);
        match mem.word(wadd(table, (8 * i) as u64)) {
            Some(d) => if !is_present(d) {
                rest
            } else if is_table(d, bits) {
                seq![PagingRecord::Table {
                    level: level as usize,
                    table,
                    index: i as u64,
                    descriptor: d,
                    target: table_target(d),
                    va_start,
                    va_end,
                }] + dump_spec(mem, table_target(d), va_start, level + 1, size, 0) + rest
            } else {
                let pa = page_target(d, level);
                seq![PagingRecord::Mapping {
                    level: level as usize,
                    table,
                    index: i as u64,
                    descriptor: d,
                    read_only: d & DESCRIPTOR_READ_ONLY != 0,
                    va_start,
                    va_end,
                    pa_start: pa,
                    pa_end: wadd(pa, (size - 1) as u64),
                }] + rest
            },
            None => rest,
        }
    }
}

/// Bit of a block or page descriptor that makes the mapping read-only.
pub const DESCRIPTOR_READ_ONLY: u64 = 0x80;

/// Dumps the table at `anchor` for walk index `level`, whose entries start
/// at address `base` and cover `level_size` bytes, descending into
/// next-level tables.
pub fn dump_paging_step<M: DescriptorMemory>(mem: &M, anchor: u64, base: u64, level: usize, level_size: u64) -> (r: Vec<PagingRecord>)
    ensures
        r@ == dump_spec(mem, anchor, base, level as int, level_size, 0),
    decreases 5 - level,
{
    let mut out: Vec<PagingRecord> = Vec::new();
    if level > 4 {
        return out;
    }
    let bits = bits_at_level(level);
    assert(1u64 << bits >= 1 && 1u64 << bits <= 0x1_0000_0000_0000) by (bit_vector)
        requires
            bits <= 48u8,
    ;
    let size: u64 = 1u64 << bits;
    let n = level_size / size;
    let count: u64 = if n > 512 { 512 } else { n };
    let mut i: u64 = 0;
    while i < count
        invariant
            level <= 4,
            bits == bits_at(level as int),
            size == 1u64 << bits,
            1 <= size <= 0x1_0000_0000_0000,
            count == entries_covering(level as int, level_size),
            i <= count,
            count <= 512,
            out@ + dump_spec(mem, anchor, base, level as int, level_size, i as int) == dump_spec(
                mem,
                anchor,
                base,
                level as int,
                level_size,
                0,
            ),
        decreases count - i,
    {
        let ghost rest = dump_spec(mem, anchor, base, level as int, level_size, i as int + 1);
        assert(size * i <= 0x200_0000_0000_0000) by (nonlinear_arith)
            requires
                size <= 0x1_0000_0000_0000,
                i < 512,
        ;
        let va_start = base.wrapping_add(size * i);
        let va_end = va_start.wrapping_add(size - 1);
        match mem.read_word(anchor.wrapping_add(8 * i)) {
            Some(d) => {
                if page_is_present(d) {
                    if page_is_table(d, bits) {
                        let target = table_target_at_index(d, level);
                        out.push(
                            PagingRecord::Table {
                                level,
                                table: anchor,
                                index: i,
                                descriptor: d,
                                target,
                                va_start,
                                va_end,
                            },
                        );
                        let sub = dump_paging_step(mem, target, va_start, level + 1, size);
                        let ghost before = out@;
                        let mut k: usize = 0;
                        while k < sub.len()
                            invariant
                                k <= sub.len(),
                                out@ == before + sub@.subrange(0, k as int),
                            decreases sub.len() - k,
                        {
                            out.push(sub[k]);
                            k += 1;
                            assert(out@ =~= before + sub@.subrange(0, k as int));
                        }
                        assert(sub@.subrange(0, sub.len() as int) =~= sub@);
                    } else {
                        let pa = page_target_at_index(d, level);
                        out.push(
                            PagingRecord::Mapping {
                                level,
                                table: anchor,
                                index: i,
                                descriptor: d,
                                read_only: d & DESCRIPTOR_READ_ONLY != 0,
                                va_start,
                                va_end,
                                pa_start: pa,
                                pa_end: pa.wrapping_add(size - 1),
                            },
                        );
                    }
                }
            },
            None => {},
        }
        proof {
            assert(out@ + rest =~= dump_spec(mem, anchor, base, level as int, level_size, 0)) by {
                let x = dump_spec(mem, anchor, base, level as int, level_size, i as int);
                assert(x == dump_spec(mem, anchor, base, level as int, level_size, i as int));
            }
        }
        i += 1;
    }
    assert(dump_spec(mem, anchor, base, level as int, level_size, i as int) =~= Seq::<PagingRecord>::empty());
    assert(out@ =~= out@ + Seq::<PagingRecord>::empty());
    out
}

/// Dumps the low address range from the anchor and T0SZ field that the
/// current exception level uses.
pub fn dump_paging<M: DescriptorMemory>(mem: &M, anchor: u64, tcr: u64) -> (r: Vec<PagingRecord>)
    requires
        t0sz_valid(tcr),
    ensures
        r@ == dump_spec(mem, anchor, 0, start_index_for(t0sz_of(tcr)) as int, 1u64 << ((64 - t0sz_of(tcr)) as u64), 0),
{
    let info = paging_get_low_mem_paging(tcr);
    dump_paging_step(mem, anchor, 0, info.0 as usize, info.1)
}

/// Translation tables held in a window of memory: `words[k]` is the word
/// at `base + 8 * k`; nothing outside the window can be read.
pub struct TableMemory {
    pub base: u64,
    pub words: Vec<u64>,
}

impl TableMemory {
    pub open spec fn word_at(&self, addr: u64) -> Option<u64> {
        if self.base <= addr && (addr - self.base) % 8 == 0 && (addr - self.base) / 8 < self.words.len() {
            Some(self.words@[(addr - self.base) / 8])
        } else {
            None
        }
    }
}

impl DescriptorMemory for TableMemory {
    open spec fn word(&self, addr: u64) -> Option<u64> {
        self.word_at(addr)
    }

    fn read_word(&self, addr: u64) -> (r: Option<u64>) {
        if self.base <= addr && (addr - self.base) % 8 == 0 && (addr - self.base) / 8
            < self.words.len() as u64 {
            Some(self.words[((addr - self.base) / 8) as usize])
        } else {
            None
        }
    }
}

/// The descriptor of the last-level page that maps `va` to itself.
pub open spec fn identity_page(va: u64) -> u64 {
    va | 3
}

/// `anchor` is a page-aligned level-2 table whose first `tables` entries
/// point to last-level tables that map, page by page, the addresses below
/// `tables` * 2 MiB to themselves.
pub open spec fn identity_two_level<M: DescriptorMemory>(mem: &M, anchor: u64, tables: nat) -> bool {
    &&& anchor & 0xfffu64 == 0
    &&& anchor < 0x1_0000_0000_0000
    &&& tables <= 512
    &&& forall|i: int|
        #![trigger mem.word((anchor + 8 * i) as u64)]
        0 <= i < tables ==> match mem.word((anchor + 8 * i) as u64) {
            Some(d) => {
                &&& d & 3u64 == 3
                &&& forall|j: int|
                    #![trigger mem.word((table_target(d) + 8 * j) as u64)]
                    0 <= j < 512 ==> mem.word((table_target(d) + 8 * j) as u64) == Some(
                        identity_page((i * 0x20_0000 + j * 0x1000) as u64),
                    )
            },
            None => false,
        }
}

/// On an identity-mapped two-level table, the walk of a page-aligned address
/// in range resolves to a 4 KiB page at that same address, through the
/// descriptor at the address's slot of its last-level table.
pub proof fn lemma_identity_walk<M: DescriptorMemory>(mem: &M, anchor: u64, tables: nat, va: u64)
    requires
        identity_two_level(mem, anchor, tables),
        va < tables * 0x20_0000,
        va % 0x1000 == 0,
    ensures
        ({
            let i = va / 0x20_0000;
            let j = (va / 0x1000) % 512;
            let d = mem.word((anchor + 8 * i) as u64)->0;
            walk_spec(mem, anchor, TRANSLATION_2_LEVELS as int, va) == Some(
                WalkResult { size: 0x1000, target: va, entry: (table_target(d) + 8 * j) as u64 },
            )
        }),
{
    let i = va / 0x20_0000;
    let j = (va / 0x1000) % 512;
    assert(va < 0x4000_0000);
    assert(index_at(va, 21) == i) by (bit_vector)
        requires
            va < 0x4000_0000u64,
            i == va / 0x20_0000u64,
    ;
    assert(index_at(va, 12) == j) by (bit_vector)
        requires
            j == (va / 0x1000u64) % 512u64,
    ;
    assert(table_target(anchor) == anchor) by (bit_vector)
        requires
            anchor & 0xfffu64 == 0,
            anchor < 0x1_0000_0000_0000u64,
    ;
    assert(entry_addr(anchor, 3, va) == (anchor + 8 * i) as u64);
    let d = mem.word((anchor + 8 * i) as u64)->0;
    assert(d & 3u64 == 3);
    assert(d & 1u64 != 0 && d & 2u64 == 2) by (bit_vector)
        requires
            d & 3u64 == 3,
    ;
    assert(table_target(d) <= 0x0000_ffff_ffff_f000u64) by (bit_vector);
    assert(entry_addr(d, 4, va) == (table_target(d) + 8 * j) as u64);
    assert(i * 0x20_0000 + j * 0x1000 == va) by (nonlinear_arith)
        requires
            i == va / 0x20_0000,
            j == (va / 0x1000) % 512,
            va % 0x1000 == 0,
    ;
    assert(va & 0xfffu64 == 0) by (bit_vector)
        requires
            va % 0x1000u64 == 0,
    ;
    assert(i < tables) by (nonlinear_arith)
        requires
            i == va / 0x20_0000,
            va < tables * 0x20_0000,
    ;
    assert(0 <= j < 512);
    assert(page_target(identity_page(va), 4) == va) by (bit_vector)
        requires
            va & 0xfffu64 == 0,
            va < 0x4000_0000u64,
    ;
    assert(1u64 << 12u8 == 0x1000) by (bit_vector);
    assert(mem.word((table_target(d) + 8 * j) as u64) == Some(identity_page((i * 0x20_0000 + j * 0x1000) as u64)));
    assert(!is_present(identity_page(va)) || !is_block(identity_page(va), 12));
    assert(walk_spec(mem, d, 4, va) == Some(
        WalkResult { size: 0x1000, target: va, entry: (table_target(d) + 8 * j) as u64 },
    ));
    assert(!is_block(d, 21) && is_present(d));
    assert(walk_spec(mem, anchor, 3, va) == walk_spec(mem, d, 4, va));
}

} // verus!
