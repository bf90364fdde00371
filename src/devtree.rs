//! Device-tree values that the boot sequence reads: `reg` records, bus
//! address translation through `ranges`, and node-name matching.

use vstd::prelude::*;
use vstd::string::StringSliceAdditionalSpecFns;
use vstd::string::StrSliceExecFns;

verus! {

/// A memory or register region.
#[derive(PartialEq, Eq, Structural, Clone, Copy, Debug)]
pub struct Region {
    pub base: u64,
    pub size: u64,
}

/// One `ranges` record: a window of a bus mapped onto the parent's
/// addresses.
#[derive(PartialEq, Eq, Structural, Clone, Copy, Debug)]
pub struct Translation {
    pub bus_base: u64,
    pub host_base: u64,
    pub size: u64,
}

/// The big-endian 32-bit cell at `o`.
pub open spec fn be_cell(m: Seq<u8>, o: int) -> u64 {
    ((m[o] as u64) << 24u64 | (m[o + 1] as u64) << 16u64 | (m[o + 2] as u64) << 8u64 | (m[o + 3] as u64)) as u64
}

/// A value of one or two cells at `o`, the first cell the high half.
pub open spec fn cells_value(m: Seq<u8>, o: int, cells: u32) -> u64 {
    if cells == 1 {
        be_cell(m, o)
    } else {
        (be_cell(m, o) << 32u64 | be_cell(m, o + 4)) as u64
    }
}

fn read_cell(m: &Vec<u8>, o: usize) -> (r: u64)
    requires
        o + 4 <= m.len(),
    ensures
        r == be_cell(m@, o as int),
{
    (m[o] as u64) << 24u64 | (m[o + 1] as u64) << 16u64 | (m[o + 2] as u64) << 8u64 | (m[o + 3] as u64)
}

/// Reads a value of `cells` (one or two) cells at `o`.
pub fn read_item(m: &Vec<u8>, o: usize, cells: u32) -> (r: u64)
    requires
        cells == 1 || cells == 2,
        o + 4 * cells <= m.len(),
    ensures
        r == cells_value(m@, o as int, cells),
{
    if cells == 1 {
        read_cell(m, o)
    } else {
        read_cell(m, o) << 32u64 | read_cell(m, o + 4)
    }
}

/// Splits a `reg` property into (base, size) records of `acells` and
/// `scells` cells.
pub fn read_two_items(raw: &Vec<u8>, acells: u32, scells: u32) -> (r: Vec<Region>)
    requires
        acells == 1 || acells == 2,
        scells == 1 || scells == 2,
        (raw.len() as int) % (4 * (acells + scells)) as int == 0,
    ensures
        r.len() == (raw.len() as int) / (4 * (acells + scells)) as int,
        forall|i: int|
            0 <= i < r.len() ==> #[trigger] r[i] == (Region {
                base: cells_value(raw@, i * 4 * (acells + scells), acells),
                size: cells_value(raw@, i * 4 * (acells + scells) + 4 * acells, scells),
            }),
{
    let record = 4 * (acells as usize + scells as usize);
    let count = raw.len() / record;
    let mut result: Vec<Region> = Vec::new();
    let mut i: usize = 0;
    while i < count
        invariant
            record == 4 * (acells + scells),
            acells == 1 || acells == 2,
            scells == 1 || scells == 2,
            count == (raw.len() as int) / (record as int),
            (raw.len() as int) % (record as int) == 0,
            i <= count,
            result.len() == i,
            forall|j: int|
                0 <= j < i ==> #[trigger] result[j] == (Region {
                    base: cells_value(raw@, j * 4 * (acells + scells), acells),
                    size: cells_value(raw@, j * 4 * (acells + scells) + 4 * acells, scells),
                }),
        decreases count - i,
    {
        assert((i + 1) * record <= count * record) by (nonlinear_arith)
            requires
                i < count,
        ;
        proof {
            vstd::arithmetic::div_mod::lemma_fundamental_div_mod(raw.len() as int, record as int);
        }
        assert(count * record <= raw.len()) by (nonlinear_arith)
            requires
                raw.len() == record * (raw.len() as int / record as int) + (raw.len() as int)
                    % (record as int),
                count == (raw.len() as int) / (record as int),
                (raw.len() as int) % (record as int) == 0,
        ;
        assert(i * record + 4 * (acells + scells) == (i + 1) * record) by (nonlinear_arith)
            requires
                record == 4 * (acells + scells),
        ;
        assert(i * record == i * 4 * (acells + scells)) by (nonlinear_arith)
            requires
                record == 4 * (acells + scells),
        ;
        let o = i * record;
        let base = read_item(raw, o, acells);
        let size = read_item(raw, o + 4 * acells as usize, scells);
        result.push(Region { base, size });
        i += 1;
    }
    result
}

/// The window of `t` holds all of `r`.
pub open spec fn window_holds(r: Region, t: Translation) -> bool {
    t.bus_base <= r.base && r.base <= t.bus_base + t.size && r.base + r.size <= t.bus_base + t.size
}

/// `r` moved from the bus window of `t` to the parent's addresses.
pub open spec fn translated(r: Region, t: Translation) -> Region {
    Region {
        base: vstd::wrapping::u64_specs::wrapping_add(t.host_base, (r.base - t.bus_base) as u64),
        size: r.size,
    }
}

/// `r` through the first `ranges` record at or after index `i` whose window holds it.
pub open spec fn translate_from(r: Region, ts: Seq<Translation>, i: int) -> Region
    decreases ts.len() - i,
{
    if i < 0 || i >= ts.len() {
        r
    } else if window_holds(r, ts[i]) {
        translated(r, ts[i])
    } else {
        translate_from(r, ts, i + 1)
    }
}

/// Translates a region through the first `ranges` record whose window holds
/// it; a region that no window holds stays as it is.
pub fn translate_one(r: Region, translations: &Vec<Translation>) -> (out: Region)
    ensures
        out == translate_from(r, translations@, 0),
{
    let mut i: usize = 0;
    while i < translations.len()
        invariant
            i <= translations.len(),
            translate_from(r, translations@, 0) == translate_from(r, translations@, i as int),
        decreases translations.len() - i,
    {
        let t = translations[i];
        let end = t.bus_base as u128 + t.size as u128;
        if t.bus_base <= r.base && (r.base as u128) <= end && r.base as u128 + r.size as u128 <= end {
            return Region { base: t.host_base.wrapping_add(r.base - t.bus_base), size: r.size };
        }
        i += 1;
    }
    r
}

/// Translates every region.
pub fn translate(reg: &Vec<Region>, translations: &Vec<Translation>) -> (out: Vec<Region>)
    ensures
        out.len() == reg.len(),
        forall|i: int| 0 <= i < out.len() ==> #[trigger] out[i] == translate_from(reg[i], translations@, 0),
{
    let mut out: Vec<Region> = Vec::new();
    let mut i: usize = 0;
    while i < reg.len()
        invariant
            i <= reg.len(),
            out.len() == i,
            forall|j: int| 0 <= j < i ==> #[trigger] out[j] == translate_from(reg[j], translations@, 0),
        decreases reg.len() - i,
    {
        out.push(translate_one(reg[i], translations));
        i += 1;
    }
    out
}

/// `name` is `wanted`, or `wanted` followed by a unit address (`@...`).
pub open spec fn name_matches(name: Seq<char>, wanted: Seq<char>) -> bool {
    name == wanted || (name.len() > wanted.len() && name.subrange(0, wanted.len() as int) == wanted
        && name[wanted.len() as int] == '@')
}

/// Whether the node name (or path) `name` matches `wanted`, with or without
/// a unit address: `memory` matches `memory` and `memory@40000000`.
pub fn matches_name(name: &str, wanted: &str) -> (r: bool)
    ensures
        r == name_matches(name@, wanted@),
{
    let nl = name.unicode_len();
    let wl = wanted.unicode_len();
    if nl < wl {
        return false;
    }
    let mut i: usize = 0;
    while i < wl
        invariant
            nl == name@.len(),
            wl == wanted@.len(),
            wl <= nl,
            i <= wl,
            forall|j: int| 0 <= j < i ==> name@[j] == wanted@[j],
        decreases wl - i,
    {
        if name.get_char(i) != wanted.get_char(i) {
            assert(name@ != wanted@);
            assert(name@.subrange(0, wl as int)[i as int] != wanted@[i as int]);
            return false;
        }
        i += 1;
    }
    assert(name@.subrange(0, wl as int) =~= wanted@);
    if nl == wl {
        assert(name@ =~= wanted@);
        true
    } else {
        name.get_char(wl) == '@'
    }
}

/// Length of the path part of a `stdout-path` value: the bytes before the
/// first `:`, which starts the options.
pub open spec fn path_part_len(s: Seq<u8>, i: int) -> int
    decreases s.len() - i,
{
    if i < 0 || i >= s.len() {
        s.len() as int
    } else if s[i] == 0x3au8 {
        i
    } else {
        path_part_len(s, i + 1)
    }
}

pub fn stdout_path_len(stdout: &str) -> (r: usize)
    ensures
        r == path_part_len(stdout.spec_bytes(), 0),
{
    let b = stdout.as_bytes();
    let mut i: usize = 0;
    while i < b.len()
        invariant
            b@ == stdout.spec_bytes(),
            i <= b.len(),
            path_part_len(b@, 0) == path_part_len(b@, i as int),
        decreases b.len() - i,
    {
        if b[i] == 0x3au8 {
            return i;
        }
        i += 1;
    }
    i
}

/// Console path used when `/chosen` has no `stdout-path`.
pub const DEFAULT_STDOUT: &'static str = "serial0";

/// Index of the first name from `i` on that matches `wanted`.
pub open spec fn first_match(names: Seq<Seq<char>>, wanted: Seq<char>, i: int) -> Option<int>
    decreases names.len() - i,
{
    if i < 0 || i >= names.len() {
        None
    } else if name_matches(names[i], wanted) {
        Some(i)
    } else {
        first_match(names, wanted, i + 1)
    }
}

pub open spec fn name_texts(names: Seq<String>) -> Seq<Seq<char>> {
    names.map_values(|n: String| n@)
}

/// The first of `names` (node names or paths, in tree order) that matches
/// `wanted` with or without a unit address.
pub fn find_node(names: &Vec<String>, wanted: &str) -> (r: Option<usize>)
    ensures
        r matches Some(k) ==> first_match(name_texts(names@), wanted@, 0) == Some(k as int),
        r is None ==> first_match(name_texts(names@), wanted@, 0) is None,
{
    let mut i: usize = 0;
    while i < names.len()
        invariant
            i <= names.len(),
            first_match(name_texts(names@), wanted@, 0) == first_match(
                name_texts(names@),
                wanted@,
                i as int,
            ),
        decreases names.len() - i,
    {
        let n = names[i].as_str();
        assert(name_texts(names@)[i as int] == n@);
        if matches_name(n, wanted) {
            return Some(i);
        }
        i += 1;
    }
    None
}

} // verus!
