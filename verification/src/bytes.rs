//! Byte-buffer primitives: little-endian encodings of the fixed-width header
//! fields, trusted wrappers around scroll's `Pwrite` for placing them into a
//! buffer, and verified helpers for zero-filling and block copies.

use vstd::prelude::*;
use scroll::{Pwrite, LE};

verus! {

/// A sequence of `n` zero bytes.
pub open spec fn zeros(n: nat) -> Seq<u8> {
    Seq::new(n, |i: int| 0u8)
}

/// The two little-endian bytes of `v`.
pub open spec fn u16_le(v: u16) -> Seq<u8> {
    seq![(v % 0x100) as u8, ((v / 0x100) % 0x100) as u8]
}

/// The four little-endian bytes of `v`.
pub open spec fn u32_le(v: u32) -> Seq<u8> {
    seq![
        (v % 0x100) as u8,
        ((v / 0x100) % 0x100) as u8,
        ((v / 0x10000) % 0x100) as u8,
        ((v / 0x1000000) % 0x100) as u8,
    ]
}

/// The eight little-endian bytes of `v`.
pub open spec fn u64_le(v: u64) -> Seq<u8> {
    seq![
        (v % 0x100) as u8,
        ((v / 0x100) % 0x100) as u8,
        ((v / 0x10000) % 0x100) as u8,
        ((v / 0x1000000) % 0x100) as u8,
        ((v / 0x1_0000_0000) % 0x100) as u8,
        ((v / 0x100_0000_0000) % 0x100) as u8,
        ((v / 0x1_0000_0000_0000) % 0x100) as u8,
        ((v / 0x100_0000_0000_0000) % 0x100) as u8,
    ]
}

/// The unsigned value of the four little-endian bytes of `s` at `off`.
pub open spec fn le32_at(s: Seq<u8>, off: int) -> int {
    s[off] + 0x100 * s[off + 1] + 0x10000 * s[off + 2] + 0x1000000 * s[off + 3]
}

/// The signed (two's-complement) value of the four little-endian bytes of
/// `s` at `off`.
pub open spec fn sle32_at(s: Seq<u8>, off: int) -> int {
    if le32_at(s, off) >= 0x8000_0000 {
        le32_at(s, off) - 0x1_0000_0000
    } else {
        le32_at(s, off)
    }
}

/// Reading four little-endian bytes back gives the value they encode.
pub proof fn lemma_u32_le_decode(v: u32)
    ensures
        le32_at(u32_le(v), 0) == v,
{
    let x = v as int;
    vstd::arithmetic::div_mod::lemma_fundamental_div_mod(x, 0x100);
    vstd::arithmetic::div_mod::lemma_fundamental_div_mod(x / 0x100, 0x100);
    vstd::arithmetic::div_mod::lemma_fundamental_div_mod(x / 0x10000, 0x100);
    vstd::arithmetic::div_mod::lemma_div_denominator(x, 0x100, 0x100);
    vstd::arithmetic::div_mod::lemma_div_denominator(x, 0x10000, 0x100);
    vstd::arithmetic::div_mod::lemma_mod_division_less_than_divisor(x / 0x1000000, 0x100);
    vstd::arithmetic::div_mod::lemma_basic_div(x, 0x1_0000_0000);
}

/// Relies on scroll's `Pwrite` for `[u8]` with the little-endian context:
/// with `off + 1 <= b.len()` it stores the byte `v` at `off` and leaves
/// every other byte unchanged.
#[verifier::external_body]
pub fn write_u8(b: &mut Vec<u8>, off: usize, v: u8)
    requires
        off + 1 <= old(b)@.len(),
    ensures
        final(b)@.len() == old(b)@.len(),
        final(b)@ == old(b)@.update(off as int, v),
{
    b.pwrite_with::<u8>(v, off, LE).unwrap();
}

/// Relies on scroll's `Pwrite` for `[u8]` with the little-endian context:
/// with `off + 2 <= b.len()` it stores the two little-endian bytes of `v`
/// at `off..off + 2` and leaves every other byte unchanged.
#[verifier::external_body]
pub fn write_u16(b: &mut Vec<u8>, off: usize, v: u16)
    requires
        off + 2 <= old(b)@.len(),
    ensures
        final(b)@.len() == old(b)@.len(),
        final(b)@ == old(b)@.update_subrange_with(off as int, u16_le(v)),
{
    b.pwrite_with::<u16>(v, off, LE).unwrap();
}

/// Relies on scroll's `Pwrite` for `[u8]` with the little-endian context:
/// with `off + 4 <= b.len()` it stores the four little-endian bytes of `v`
/// at `off..off + 4` and leaves every other byte unchanged.
#[verifier::external_body]
pub fn write_u32(b: &mut Vec<u8>, off: usize, v: u32)
    requires
        off + 4 <= old(b)@.len(),
    ensures
        final(b)@.len() == old(b)@.len(),
        final(b)@ == old(b)@.update_subrange_with(off as int, u32_le(v)),
{
    b.pwrite_with::<u32>(v, off, LE).unwrap();
}

/// Relies on scroll's `Pwrite` for `[u8]` with the little-endian context:
/// with `off + 8 <= b.len()` it stores the eight little-endian bytes of `v`
/// at `off..off + 8` and leaves every other byte unchanged.
#[verifier::external_body]
pub fn write_u64(b: &mut Vec<u8>, off: usize, v: u64)
    requires
        off + 8 <= old(b)@.len(),
    ensures
        final(b)@.len() == old(b)@.len(),
        final(b)@ == old(b)@.update_subrange_with(off as int, u64_le(v)),
{
    b.pwrite_with::<u64>(v, off, LE).unwrap();
}

/// A zero-filled buffer of `n` bytes.
pub fn zero_vec(n: usize) -> (v: Vec<u8>)
    ensures
        v@ == zeros(n as nat),
{
    let mut v: Vec<u8> = Vec::new();
    while v.len() < n
        invariant
            v@.len() <= n,
            forall|i: int| 0 <= i < v@.len() ==> v@[i] == 0u8,
        decreases n - v@.len(),
    {
        v.push(0u8);
    }
    proof {
        assert(v@ =~= zeros(n as nat));
    }
    v
}

/// Copies `data` into `b` at `off..off + data.len()`.
pub fn write_block(b: &mut Vec<u8>, off: usize, data: &[u8])
    requires
        off + data@.len() <= old(b)@.len(),
    ensures
        final(b)@.len() == old(b)@.len(),
        final(b)@ == old(b)@.update_subrange_with(off as int, data@),
{
    let blen: usize = b.len();
    proof {
        assert(off + data@.len() <= blen);
    }
    let mut i: usize = 0;
    while i < data.len()
        invariant
            i <= data@.len(),
            off + data@.len() <= usize::MAX,
            off + data@.len() <= b@.len(),
            b@.len() == old(b)@.len(),
            forall|j: int| off <= j < off + i ==> b@[j] == data@[j - off],
            forall|j: int| 0 <= j < b@.len() && !(off <= j < off + i) ==> b@[j] == old(b)@[j],
        decreases data@.len() - i,
    {
        b.set(off + i, data[i]);
        i = i + 1;
    }
    proof {
        assert(b@ =~= old(b)@.update_subrange_with(off as int, data@));
    }
}

} // verus!
