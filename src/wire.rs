//! Little-endian integer fields of the wire formats.
use vstd::prelude::*;

verus! {

/// The unsigned value of the four little-endian bytes of `b` starting at `at`.
pub open spec fn le_u32(b: Seq<u8>, at: int) -> int {
    b[at] + 256 * b[at + 1] + 65536 * b[at + 2] + 16777216 * b[at + 3]
}

/// Two's-complement reading of a 32-bit unsigned value.
pub open spec fn signed_of(u: int) -> int {
    if u < 0x8000_0000 {
        u
    } else {
        u - 0x1_0000_0000
    }
}

/// The 32-bit unsigned pattern of a signed value (its two's complement).
pub open spec fn unsigned_of(v: int) -> int {
    if v >= 0 {
        v
    } else {
        v + 0x1_0000_0000
    }
}

/// The four little-endian bytes of `u`.
pub open spec fn le_bytes(u: u32) -> Seq<u8> {
    seq![
        (u % 256) as u8,
        (u / 256 % 256) as u8,
        (u / 65536 % 256) as u8,
        (u / 16777216) as u8,
    ]
}

/// Reads the little-endian `u32` at offset `at`.
pub fn read_u32_le(b: &[u8], at: usize) -> (r: u32)
    requires
        at + 4 <= b@.len(),
    ensures
        r == le_u32(b@, at as int),
{
    b[at] as u32 + (b[at + 1] as u32) * 256 + (b[at + 2] as u32) * 65536 + (b[at + 3] as u32)
        * 16777216
}

/// Reads the little-endian `i32` at offset `at`.
pub fn read_i32_le(b: &[u8], at: usize) -> (r: i32)
    requires
        at + 4 <= b@.len(),
    ensures
        r == signed_of(le_u32(b@, at as int)),
{
    let u = read_u32_le(b, at);
    if u < 0x8000_0000 {
        u as i32
    } else {
        let high: u32 = u - 0x8000_0000;
        high as i32 - 0x7fff_ffff - 1
    }
}

/// The two's-complement pattern of `v`.
pub fn i32_bits(v: i32) -> (r: u32)
    ensures
        r == unsigned_of(v as int),
{
    if v >= 0 {
        v as u32
    } else {
        let shifted: i32 = v + 0x7fff_ffff + 1;
        shifted as u32 + 0x8000_0000
    }
}

/// Appends the four little-endian bytes of `u` to `out`.
pub fn push_u32_le(out: &mut Vec<u8>, u: u32)
    ensures
        final(out)@ == old(out)@ + le_bytes(u),
{
    out.push((u % 256) as u8);
    out.push((u / 256 % 256) as u8);
    out.push((u / 65536 % 256) as u8);
    out.push((u / 16777216) as u8);
    assert(final(out)@ =~= old(out)@ + le_bytes(u));
}

/// Reading back the bytes of `u` gives `u`.
pub proof fn lemma_le_bytes_read(u: u32)
    ensures
        le_bytes(u).len() == 4,
        le_u32(le_bytes(u), 0) == u,
{
    assert(u == (u % 256) + 256 * (u / 256 % 256) + 65536 * (u / 65536 % 256) + 16777216 * (u
        / 16777216)) by (bit_vector);
}

/// The two's-complement reading undoes the pattern of a signed value.
pub proof fn lemma_signed_unsigned(v: i32)
    ensures
        0 <= unsigned_of(v as int) < 0x1_0000_0000,
        signed_of(unsigned_of(v as int)) == v,
{
}

} // verus!
