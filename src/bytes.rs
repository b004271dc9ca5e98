//! Little-endian integers inside a byte image.

use vstd::prelude::*;

verus! {

/// The little-endian `u32` at offset `at` of `s`.
pub open spec fn le_u32(s: Seq<u8>, at: int) -> u32 {
    (s[at] as u32) | ((s[at + 1] as u32) << 8u32) | ((s[at + 2] as u32) << 16u32) | ((
    s[at + 3] as u32) << 24u32)
}

/// The little-endian `u64` at offset `at` of `s`.
pub open spec fn le_u64(s: Seq<u8>, at: int) -> u64 {
    (s[at] as u64) | ((s[at + 1] as u64) << 8u64) | ((s[at + 2] as u64) << 16u64) | ((s[at
        + 3] as u64) << 24u64) | ((s[at + 4] as u64) << 32u64) | ((s[at + 5] as u64) << 40u64)
        | ((s[at + 6] as u64) << 48u64) | ((s[at + 7] as u64) << 56u64)
}

/// Byte `k` (from the low end) of `v`.
pub open spec fn byte_of_u32(v: u32, k: int) -> u8 {
    if k == 0 {
        (v & 0xff) as u8
    } else if k == 1 {
        ((v >> 8u32) & 0xff) as u8
    } else if k == 2 {
        ((v >> 16u32) & 0xff) as u8
    } else {
        ((v >> 24u32) & 0xff) as u8
    }
}

/// Byte `k` (from the low end) of `v`.
pub open spec fn byte_of_u64(v: u64, k: int) -> u8 {
    if k == 0 {
        (v & 0xff) as u8
    } else if k == 1 {
        ((v >> 8u64) & 0xff) as u8
    } else if k == 2 {
        ((v >> 16u64) & 0xff) as u8
    } else if k == 3 {
        ((v >> 24u64) & 0xff) as u8
    } else if k == 4 {
        ((v >> 32u64) & 0xff) as u8
    } else if k == 5 {
        ((v >> 40u64) & 0xff) as u8
    } else if k == 6 {
        ((v >> 48u64) & 0xff) as u8
    } else {
        ((v >> 56u64) & 0xff) as u8
    }
}

/// `s` with its four bytes at offset `at` holding `v`, little-endian.
pub open spec fn with_u32(s: Seq<u8>, at: int, v: u32) -> Seq<u8> {
    Seq::new(s.len(), |i: int| if at <= i < at + 4 { byte_of_u32(v, i - at) } else { s[i] })
}

/// `s` with its eight bytes at offset `at` holding `v`, little-endian.
pub open spec fn with_u64(s: Seq<u8>, at: int, v: u64) -> Seq<u8> {
    Seq::new(s.len(), |i: int| if at <= i < at + 8 { byte_of_u64(v, i - at) } else { s[i] })
}

pub fn read_u32(s: &[u8], at: usize) -> (r: u32)
    requires
        at + 4 <= s@.len(),
    ensures
        r == le_u32(s@, at as int),
{
    (s[at] as u32) | ((s[at + 1] as u32) << 8u32) | ((s[at + 2] as u32) << 16u32) | ((s[at
        + 3] as u32) << 24u32)
}

pub fn read_u64(s: &[u8], at: usize) -> (r: u64)
    requires
        at + 8 <= s@.len(),
    ensures
        r == le_u64(s@, at as int),
{
    (s[at] as u64) | ((s[at + 1] as u64) << 8u64) | ((s[at + 2] as u64) << 16u64) | ((s[at
        + 3] as u64) << 24u64) | ((s[at + 4] as u64) << 32u64) | ((s[at + 5] as u64) << 40u64)
        | ((s[at + 6] as u64) << 48u64) | ((s[at + 7] as u64) << 56u64)
}

pub fn write_u32(s: &mut Vec<u8>, at: usize, v: u32)
    requires
        at + 4 <= old(s)@.len(),
    ensures
        final(s)@ == with_u32(old(s)@, at as int, v),
{
    let _len = s.len();
    s[at] = (v & 0xff) as u8;
    s[at + 1] = ((v >> 8u32) & 0xff) as u8;
    s[at + 2] = ((v >> 16u32) & 0xff) as u8;
    s[at + 3] = ((v >> 24u32) & 0xff) as u8;
    assert(s@ =~= with_u32(old(s)@, at as int, v));
}

pub fn write_u64(s: &mut Vec<u8>, at: usize, v: u64)
    requires
        at + 8 <= old(s)@.len(),
    ensures
        final(s)@ == with_u64(old(s)@, at as int, v),
{
    let _len = s.len();
    s[at] = (v & 0xff) as u8;
    s[at + 1] = ((v >> 8u64) & 0xff) as u8;
    s[at + 2] = ((v >> 16u64) & 0xff) as u8;
    s[at + 3] = ((v >> 24u64) & 0xff) as u8;
    s[at + 4] = ((v >> 32u64) & 0xff) as u8;
    s[at + 5] = ((v >> 40u64) & 0xff) as u8;
    s[at + 6] = ((v >> 48u64) & 0xff) as u8;
    s[at + 7] = ((v >> 56u64) & 0xff) as u8;
    assert(s@ =~= with_u64(old(s)@, at as int, v));
}

/// Reading back the eight bytes just written gives the value written.
pub proof fn lemma_u64_round_trip(s: Seq<u8>, at: int, v: u64)
    requires
        0 <= at,
        at + 8 <= s.len(),
    ensures
        le_u64(with_u64(s, at, v), at) == v,
{
    let t = with_u64(s, at, v);
    let b0 = t[at];
    let b1 = t[at + 1];
    let b2 = t[at + 2];
    let b3 = t[at + 3];
    let b4 = t[at + 4];
    let b5 = t[at + 5];
    let b6 = t[at + 6];
    let b7 = t[at + 7];
    assert(b0 == (v & 0xff) as u8);
    assert(b1 == ((v >> 8u64) & 0xff) as u8);
    assert(b2 == ((v >> 16u64) & 0xff) as u8);
    assert(b3 == ((v >> 24u64) & 0xff) as u8);
    assert(b4 == ((v >> 32u64) & 0xff) as u8);
    assert(b5 == ((v >> 40u64) & 0xff) as u8);
    assert(b6 == ((v >> 48u64) & 0xff) as u8);
    assert(b7 == ((v >> 56u64) & 0xff) as u8);
    assert((((v & 0xff) as u8) as u64) | (((((v >> 8u64) & 0xff) as u8) as u64) << 8u64) | ((
    (((v >> 16u64) & 0xff) as u8) as u64) << 16u64) | (((((v >> 24u64) & 0xff) as u8) as u64)
        << 24u64) | (((((v >> 32u64) & 0xff) as u8) as u64) << 32u64) | (((((v >> 40u64) & 0xff)
        as u8) as u64) << 40u64) | (((((v >> 48u64) & 0xff) as u8) as u64) << 48u64) | (((((v
        >> 56u64) & 0xff) as u8) as u64) << 56u64) == v) by (bit_vector);
}

/// Reading back the four bytes just written gives the value written.
pub proof fn lemma_u32_round_trip(s: Seq<u8>, at: int, v: u32)
    requires
        0 <= at,
        at + 4 <= s.len(),
    ensures
        le_u32(with_u32(s, at, v), at) == v,
{
    let t = with_u32(s, at, v);
    assert(t[at] == (v & 0xff) as u8);
    assert(t[at + 1] == ((v >> 8u32) & 0xff) as u8);
    assert(t[at + 2] == ((v >> 16u32) & 0xff) as u8);
    assert(t[at + 3] == ((v >> 24u32) & 0xff) as u8);
    assert((((v & 0xff) as u8) as u32) | (((((v >> 8u32) & 0xff) as u8) as u32) << 8u32) | ((
    (((v >> 16u32) & 0xff) as u8) as u32) << 16u32) | (((((v >> 24u32) & 0xff) as u8) as u32)
        << 24u32) == v) by (bit_vector);
}

} // verus!
