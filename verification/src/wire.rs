//! Integers on the wire. Records cross the ring buffer as the probe laid them
//! out in memory: each integer in little-endian order at a fixed offset.

use vstd::prelude::*;

verus! {

/// The 16-bit word stored at `at`.
pub open spec fn spec_u16_at(s: Seq<u8>, at: int) -> u16 {
    (s[at] as u16) | ((s[at + 1] as u16) << 8)
}

/// The 32-bit word stored at `at`.
pub open spec fn spec_u32_at(s: Seq<u8>, at: int) -> u32 {
    (s[at] as u32) | ((s[at + 1] as u32) << 8) | ((s[at + 2] as u32) << 16) | ((s[at + 3] as u32)
        << 24)
}

/// The 64-bit word stored at `at`.
pub open spec fn spec_u64_at(s: Seq<u8>, at: int) -> u64 {
    (spec_u32_at(s, at) as u64) | ((spec_u32_at(s, at + 4) as u64) << 32)
}

/// The two bytes that store `x`.
pub open spec fn spec_u16_bytes(x: u16) -> Seq<u8> {
    seq![(x & 0xff) as u8, (x >> 8) as u8]
}

/// The four bytes that store `x`.
pub open spec fn spec_u32_bytes(x: u32) -> Seq<u8> {
    seq![
        (x & 0xff) as u8,
        ((x >> 8) & 0xff) as u8,
        ((x >> 16) & 0xff) as u8,
        (x >> 24) as u8,
    ]
}

/// The eight bytes that store `x`.
pub open spec fn spec_u64_bytes(x: u64) -> Seq<u8> {
    spec_u32_bytes((x & 0xffff_ffff) as u32) + spec_u32_bytes((x >> 32) as u32)
}

/// Whether `len` bytes starting at `at` lie inside a buffer of `total` bytes.
pub open spec fn in_bounds(total: int, at: int, len: int) -> bool {
    0 <= at && at + len <= total
}

/// Reads the 16-bit word at `at`, or nothing where it would pass the end.
pub fn read_u16(s: &[u8], at: usize) -> (r: Option<u16>)
    ensures
        r == if in_bounds(s@.len() as int, at as int, 2) {
            Some(spec_u16_at(s@, at as int))
        } else {
            None
        },
{
    if s.len() < 2 || at > s.len() - 2 {
        return None;
    }
    Some((s[at] as u16) | ((s[at + 1] as u16) << 8))
}

/// Reads the 32-bit word at `at`, or nothing where it would pass the end.
pub fn read_u32(s: &[u8], at: usize) -> (r: Option<u32>)
    ensures
        r == if in_bounds(s@.len() as int, at as int, 4) {
            Some(spec_u32_at(s@, at as int))
        } else {
            None
        },
{
    if s.len() < 4 || at > s.len() - 4 {
        return None;
    }
    Some(
        (s[at] as u32) | ((s[at + 1] as u32) << 8) | ((s[at + 2] as u32) << 16) | ((s[at
            + 3] as u32) << 24),
    )
}

/// Reads the 64-bit word at `at`, or nothing where it would pass the end.
pub fn read_u64(s: &[u8], at: usize) -> (r: Option<u64>)
    ensures
        r == if in_bounds(s@.len() as int, at as int, 8) {
            Some(spec_u64_at(s@, at as int))
        } else {
            None
        },
{
    if s.len() < 8 || at > s.len() - 8 {
        return None;
    }
    let lo = (s[at] as u32) | ((s[at + 1] as u32) << 8) | ((s[at + 2] as u32) << 16) | ((s[at
        + 3] as u32) << 24);
    let hi = (s[at + 4] as u32) | ((s[at + 5] as u32) << 8) | ((s[at + 6] as u32) << 16) | ((s[at
        + 7] as u32) << 24);
    Some((lo as u64) | ((hi as u64) << 32))
}

/// Appends the bytes that store `x`.
pub fn put_u16(buf: &mut Vec<u8>, x: u16)
    ensures
        final(buf)@ == old(buf)@ + spec_u16_bytes(x),
{
    buf.push((x & 0xff) as u8);
    buf.push((x >> 8) as u8);
    assert(buf@ =~= old(buf)@ + spec_u16_bytes(x));
}

/// Appends the bytes that store `x`.
pub fn put_u32(buf: &mut Vec<u8>, x: u32)
    ensures
        final(buf)@ == old(buf)@ + spec_u32_bytes(x),
{
    buf.push((x & 0xff) as u8);
    buf.push(((x >> 8) & 0xff) as u8);
    buf.push(((x >> 16) & 0xff) as u8);
    buf.push((x >> 24) as u8);
    assert(buf@ =~= old(buf)@ + spec_u32_bytes(x));
}

/// Appends the bytes that store `x`.
pub fn put_u64(buf: &mut Vec<u8>, x: u64)
    ensures
        final(buf)@ == old(buf)@ + spec_u64_bytes(x),
{
    put_u32(buf, (x & 0xffff_ffff) as u32);
    put_u32(buf, (x >> 32) as u32);
    assert(buf@ =~= old(buf)@ + spec_u64_bytes(x));
}

/// A 16-bit word reads back from the bytes that store it.
pub proof fn lemma_u16_round_trip(x: u16)
    ensures
        spec_u16_bytes(x).len() == 2,
        spec_u16_at(spec_u16_bytes(x), 0) == x,
{
    let b0 = (x & 0xff) as u8;
    let b1 = (x >> 8) as u8;
    assert((b0 as u16) | ((b1 as u16) << 8) == x) by (bit_vector)
        requires
            b0 == (x & 0xff) as u8,
            b1 == (x >> 8) as u8,
    ;
}

/// A 32-bit word reads back from the bytes that store it.
pub proof fn lemma_u32_round_trip(x: u32)
    ensures
        spec_u32_bytes(x).len() == 4,
        spec_u32_at(spec_u32_bytes(x), 0) == x,
{
    let b0 = (x & 0xff) as u8;
    let b1 = ((x >> 8) & 0xff) as u8;
    let b2 = ((x >> 16) & 0xff) as u8;
    let b3 = (x >> 24) as u8;
    assert((b0 as u32) | ((b1 as u32) << 8) | ((b2 as u32) << 16) | ((b3 as u32) << 24) == x)
        by (bit_vector)
        requires
            b0 == (x & 0xff) as u8,
            b1 == ((x >> 8) & 0xff) as u8,
            b2 == ((x >> 16) & 0xff) as u8,
            b3 == (x >> 24) as u8,
    ;
}

/// A word read at an offset depends only on the bytes it covers.
pub proof fn lemma_u32_at_window(s: Seq<u8>, at: int, t: Seq<u8>, u: int)
    requires
        in_bounds(s.len() as int, at, 4),
        in_bounds(t.len() as int, u, 4),
        s.subrange(at, at + 4) == t.subrange(u, u + 4),
    ensures
        spec_u32_at(s, at) == spec_u32_at(t, u),
{
    let a = s.subrange(at, at + 4);
    let b = t.subrange(u, u + 4);
    assert(a[0] == b[0] && a[1] == b[1] && a[2] == b[2] && a[3] == b[3]);
    assert(a[0] == s[at] && a[1] == s[at + 1] && a[2] == s[at + 2] && a[3] == s[at + 3]);
    assert(b[0] == t[u] && b[1] == t[u + 1] && b[2] == t[u + 2] && b[3] == t[u + 3]);
}

/// A 64-bit word reads back from the bytes that store it.
pub proof fn lemma_u64_round_trip(x: u64)
    ensures
        spec_u64_bytes(x).len() == 8,
        spec_u64_at(spec_u64_bytes(x), 0) == x,
{
    let lo = (x & 0xffff_ffff) as u32;
    let hi = (x >> 32) as u32;
    let s = spec_u64_bytes(x);
    lemma_u32_round_trip(lo);
    lemma_u32_round_trip(hi);
    assert(s.subrange(0, 4) =~= spec_u32_bytes(lo));
    assert(s.subrange(4, 8) =~= spec_u32_bytes(hi));
    assert(spec_u32_bytes(lo).subrange(0, 4) =~= spec_u32_bytes(lo));
    assert(spec_u32_bytes(hi).subrange(0, 4) =~= spec_u32_bytes(hi));
    lemma_u32_at_window(s, 0, spec_u32_bytes(lo), 0);
    lemma_u32_at_window(s, 4, spec_u32_bytes(hi), 0);
    assert((lo as u64) | ((hi as u64) << 32) == x) by (bit_vector)
        requires
            lo == (x & 0xffff_ffff) as u32,
            hi == (x >> 32) as u32,
    ;
}

/// The eight bytes stored at `at`, as an array.
pub open spec fn spec_array8(s: Seq<u8>, at: int) -> [u8; 8] {
    [
        s[at],
        s[at + 1],
        s[at + 2],
        s[at + 3],
        s[at + 4],
        s[at + 5],
        s[at + 6],
        s[at + 7],
    ]
}

/// The sixteen bytes stored at `at`, as an array.
pub open spec fn spec_array16(s: Seq<u8>, at: int) -> [u8; 16] {
    [
        s[at],
        s[at + 1],
        s[at + 2],
        s[at + 3],
        s[at + 4],
        s[at + 5],
        s[at + 6],
        s[at + 7],
        s[at + 8],
        s[at + 9],
        s[at + 10],
        s[at + 11],
        s[at + 12],
        s[at + 13],
        s[at + 14],
        s[at + 15],
    ]
}

/// Reads the eight bytes at `at`, or nothing where they would pass the end.
pub fn read_bytes8(s: &[u8], at: usize) -> (r: Option<[u8; 8]>)
    ensures
        r is Some <==> in_bounds(s@.len() as int, at as int, 8),
        r matches Some(a) ==> a == spec_array8(s@, at as int) && a@ == s@.subrange(
            at as int,
            at + 8,
        ),
{
    if s.len() < 8 || at > s.len() - 8 {
        return None;
    }
    let a = [s[at], s[at + 1], s[at + 2], s[at + 3], s[at + 4], s[at + 5], s[at + 6], s[at + 7]];
    assert(a@ =~= s@.subrange(at as int, at + 8));
    assert(a =~= spec_array8(s@, at as int));
    Some(a)
}

/// Reads the sixteen bytes at `at`, or nothing where they would pass the end.
pub fn read_bytes16(s: &[u8], at: usize) -> (r: Option<[u8; 16]>)
    ensures
        r is Some <==> in_bounds(s@.len() as int, at as int, 16),
        r matches Some(a) ==> a == spec_array16(s@, at as int) && a@ == s@.subrange(
            at as int,
            at + 16,
        ),
{
    if s.len() < 16 || at > s.len() - 16 {
        return None;
    }
    let a = [
        s[at],
        s[at + 1],
        s[at + 2],
        s[at + 3],
        s[at + 4],
        s[at + 5],
        s[at + 6],
        s[at + 7],
        s[at + 8],
        s[at + 9],
        s[at + 10],
        s[at + 11],
        s[at + 12],
        s[at + 13],
        s[at + 14],
        s[at + 15],
    ];
    assert(a@ =~= s@.subrange(at as int, at + 16));
    assert(a =~= spec_array16(s@, at as int));
    Some(a)
}

/// Reads the sixty-four bytes at `at`, or nothing where they would pass the
/// end.
pub fn read_bytes64(s: &[u8], at: usize) -> (r: Option<[u8; 64]>)
    ensures
        r is Some <==> in_bounds(s@.len() as int, at as int, 64),
        r matches Some(a) ==> a@ == s@.subrange(at as int, at + 64),
{
    if s.len() < 64 || at > s.len() - 64 {
        return None;
    }
    let mut a = [0u8; 64];
    let mut i: usize = 0;
    while i < 64
        invariant
            i <= 64,
            at + 64 <= s@.len() <= usize::MAX,
            forall|j: int| 0 <= j < i ==> a@[j] == s@[at + j],
        decreases 64 - i,
    {
        a[i] = s[at + i];
        i = i + 1;
    }
    assert(a@ =~= s@.subrange(at as int, at + 64));
    Some(a)
}

/// The signed 32-bit word stored at `at`.
pub open spec fn spec_i32_at(s: Seq<u8>, at: int) -> i32 {
    spec_u32_at(s, at) as i32
}

/// The four bytes that store the signed word `x`.
pub open spec fn spec_i32_bytes(x: i32) -> Seq<u8> {
    spec_u32_bytes(x as u32)
}

/// Reads the signed 32-bit word at `at`, or nothing where it would pass the
/// end.
pub fn read_i32(s: &[u8], at: usize) -> (r: Option<i32>)
    ensures
        r == if in_bounds(s@.len() as int, at as int, 4) {
            Some(spec_i32_at(s@, at as int))
        } else {
            None
        },
{
    match read_u32(s, at) {
        Some(x) => Some(x as i32),
        None => None,
    }
}

/// Appends the bytes that store the signed word `x`.
pub fn put_i32(buf: &mut Vec<u8>, x: i32)
    ensures
        final(buf)@ == old(buf)@ + spec_i32_bytes(x),
{
    put_u32(buf, x as u32);
}

/// A signed 32-bit word reads back from the bytes that store it.
pub proof fn lemma_i32_round_trip(x: i32)
    ensures
        spec_i32_bytes(x).len() == 4,
        spec_i32_at(spec_i32_bytes(x), 0) == x,
{
    let u = x as u32;
    lemma_u32_round_trip(u);
    assert(u as i32 == x) by (bit_vector)
        requires
            u == x as u32,
    ;
}

} // verus!
