//! Little-endian fields in a byte buffer.

use vstd::prelude::*;

verus! {

pub open spec fn u16_at(m: Seq<u8>, o: int) -> u16 {
    ((m[o] as u16) | ((m[o + 1] as u16) << 8u16)) as u16
}

pub open spec fn u32_at(m: Seq<u8>, o: int) -> u32 {
    ((m[o] as u32) | ((m[o + 1] as u32) << 8u32) | ((m[o + 2] as u32) << 16u32) | ((m[o + 3] as u32)
        << 24u32)) as u32
}

pub open spec fn u64_at(m: Seq<u8>, o: int) -> u64 {
    ((m[o] as u64) | ((m[o + 1] as u64) << 8u64) | ((m[o + 2] as u64) << 16u64) | ((m[o + 3] as u64)
        << 24u64) | ((m[o + 4] as u64) << 32u64) | ((m[o + 5] as u64) << 40u64) | ((m[o + 6] as u64)
        << 48u64) | ((m[o + 7] as u64) << 56u64)) as u64
}

/// `m` with the eight bytes at `o` replaced by `v`, little-endian.
pub open spec fn put_u64(m: Seq<u8>, o: int, v: u64) -> Seq<u8> {
    m.update(o, (v & 0xffu64) as u8).update(o + 1, ((v >> 8u64) & 0xffu64) as u8).update(
        o + 2,
        ((v >> 16u64) & 0xffu64) as u8,
    ).update(o + 3, ((v >> 24u64) & 0xffu64) as u8).update(o + 4, ((v >> 32u64) & 0xffu64) as u8).update(
        o + 5,
        ((v >> 40u64) & 0xffu64) as u8,
    ).update(o + 6, ((v >> 48u64) & 0xffu64) as u8).update(o + 7, ((v >> 56u64) & 0xffu64) as u8)
}

pub fn read_u16(m: &Vec<u8>, o: usize) -> (r: u16)
    requires
        o + 2 <= m.len(),
    ensures
        r == u16_at(m@, o as int),
{
    (m[o] as u16) | ((m[o + 1] as u16) << 8u16)
}

pub fn read_u32(m: &Vec<u8>, o: usize) -> (r: u32)
    requires
        o + 4 <= m.len(),
    ensures
        r == u32_at(m@, o as int),
{
    (m[o] as u32) | ((m[o + 1] as u32) << 8u32) | ((m[o + 2] as u32) << 16u32) | ((m[o + 3] as u32)
        << 24u32)
}

pub fn read_u64(m: &Vec<u8>, o: usize) -> (r: u64)
    requires
        o + 8 <= m.len(),
    ensures
        r == u64_at(m@, o as int),
{
    (m[o] as u64) | ((m[o + 1] as u64) << 8u64) | ((m[o + 2] as u64) << 16u64) | ((m[o + 3] as u64)
        << 24u64) | ((m[o + 4] as u64) << 32u64) | ((m[o + 5] as u64) << 40u64) | ((m[o + 6] as u64)
        << 48u64) | ((m[o + 7] as u64) << 56u64)
}

pub fn write_u64(m: &mut Vec<u8>, o: usize, v: u64)
    requires
        o + 8 <= old(m).len(),
    ensures
        final(m)@ == put_u64(old(m)@, o as int, v),
{
    m.set(o, (v & 0xffu64) as u8);
    m.set(o + 1, ((v >> 8u64) & 0xffu64) as u8);
    m.set(o + 2, ((v >> 16u64) & 0xffu64) as u8);
    m.set(o + 3, ((v >> 24u64) & 0xffu64) as u8);
    m.set(o + 4, ((v >> 32u64) & 0xffu64) as u8);
    m.set(o + 5, ((v >> 40u64) & 0xffu64) as u8);
    m.set(o + 6, ((v >> 48u64) & 0xffu64) as u8);
    m.set(o + 7, ((v >> 56u64) & 0xffu64) as u8);
}

/// Eight bytes written at `o` read back as the value written.
pub proof fn lemma_u64_round_trip(m: Seq<u8>, o: int, v: u64)
    requires
        0 <= o,
        o + 8 <= m.len(),
    ensures
        u64_at(put_u64(m, o, v), o) == v,
        put_u64(m, o, v).len() == m.len(),
{
    let b0 = (v & 0xffu64);
    let b1 = ((v >> 8u64) & 0xffu64);
    let b2 = ((v >> 16u64) & 0xffu64);
    let b3 = ((v >> 24u64) & 0xffu64);
    let b4 = ((v >> 32u64) & 0xffu64);
    let b5 = ((v >> 40u64) & 0xffu64);
    let b6 = ((v >> 48u64) & 0xffu64);
    let b7 = ((v >> 56u64) & 0xffu64);
    assert(b0 <= 0xff && b1 <= 0xff && b2 <= 0xff && b3 <= 0xff && b4 <= 0xff && b5 <= 0xff && b6 <= 0xff
        && b7 <= 0xff) by (bit_vector)
        requires
            b0 == (v & 0xffu64),
            b1 == ((v >> 8u64) & 0xffu64),
            b2 == ((v >> 16u64) & 0xffu64),
            b3 == ((v >> 24u64) & 0xffu64),
            b4 == ((v >> 32u64) & 0xffu64),
            b5 == ((v >> 40u64) & 0xffu64),
            b6 == ((v >> 48u64) & 0xffu64),
            b7 == ((v >> 56u64) & 0xffu64),
    ;
    assert(b0 | (b1 << 8u64) | (b2 << 16u64) | (b3 << 24u64) | (b4 << 32u64) | (b5 << 40u64) | (b6
        << 48u64) | (b7 << 56u64) == v) by (bit_vector)
        requires
            b0 == (v & 0xffu64),
            b1 == ((v >> 8u64) & 0xffu64),
            b2 == ((v >> 16u64) & 0xffu64),
            b3 == ((v >> 24u64) & 0xffu64),
            b4 == ((v >> 32u64) & 0xffu64),
            b5 == ((v >> 40u64) & 0xffu64),
            b6 == ((v >> 48u64) & 0xffu64),
            b7 == ((v >> 56u64) & 0xffu64),
    ;
    let p = put_u64(m, o, v);
    assert(p[o] as u64 == b0);
    assert(p[o + 1] as u64 == b1);
    assert(p[o + 2] as u64 == b2);
    assert(p[o + 3] as u64 == b3);
    assert(p[o + 4] as u64 == b4);
    assert(p[o + 5] as u64 == b5);
    assert(p[o + 6] as u64 == b6);
    assert(p[o + 7] as u64 == b7);
}

} // verus!
