//! Little-endian integers, the only multi-byte encoding on the wire.

use vstd::arithmetic::div_mod::{lemma_fundamental_div_mod, lemma_fundamental_div_mod_converse};
use vstd::prelude::*;

verus! {

/// The two bytes of `value`, least significant first.
pub open spec fn u16_le(value: u16) -> Seq<u8> {
    seq![(value % 256) as u8, (value / 256) as u8]
}

/// The four bytes of `value`, least significant first.
pub open spec fn u32_le(value: u32) -> Seq<u8> {
    seq![
        (value % 256) as u8,
        (value / 256 % 256) as u8,
        (value / 65536 % 256) as u8,
        (value / 16777216) as u8,
    ]
}

/// The number whose little-endian bytes are the first four of `bytes`.
pub open spec fn le_u32(bytes: Seq<u8>) -> u32
    recommends
        bytes.len() >= 4,
{
    (bytes[0] + 256 * bytes[1] + 65536 * bytes[2] + 16777216 * bytes[3]) as u32
}

/// The contents of a list of byte buffers.
pub open spec fn contents(buffers: Seq<Vec<u8>>) -> Seq<Seq<u8>> {
    Seq::new(buffers.len(), |i: int| buffers[i]@)
}

/// The parts joined end to end, in order.
pub open spec fn joined(parts: Seq<Seq<u8>>) -> Seq<u8>
    decreases parts.len(),
{
    if parts.len() == 0 {
        Seq::empty()
    } else {
        joined(parts.drop_last()) + parts.last()
    }
}

/// Decoding undoes encoding.
pub proof fn lemma_u32_le_decodes(value: u32)
    ensures
        u32_le(value).len() == 4,
        le_u32(u32_le(value)) == value,
{
    let high1 = value as int / 256;
    let high2 = high1 / 256;
    let high3 = high2 / 256;
    lemma_fundamental_div_mod(value as int, 256);
    lemma_fundamental_div_mod(high1, 256);
    lemma_fundamental_div_mod(high2, 256);
    assert(high2 == value as int / 65536) by {
        lemma_fundamental_div_mod_converse(
            value as int,
            65536,
            high2,
            256 * (high1 % 256) + value as int % 256,
        );
    }
    assert(high3 == value as int / 16777216) by {
        lemma_fundamental_div_mod_converse(
            value as int,
            16777216,
            high3,
            65536 * (high2 % 256) + 256 * (high1 % 256) + value as int % 256,
        );
    }
}

/// Encoding undoes decoding of any four bytes.
pub proof fn lemma_le_u32_encodes(bytes: Seq<u8>)
    requires
        bytes.len() == 4,
    ensures
        u32_le(le_u32(bytes)) == bytes,
{
    let b0 = bytes[0] as int;
    let b1 = bytes[1] as int;
    let b2 = bytes[2] as int;
    let b3 = bytes[3] as int;
    let high1 = b1 + 256 * b2 + 65536 * b3;
    let high2 = b2 + 256 * b3;
    let value = le_u32(bytes) as int;
    assert(value == b0 + 256 * b1 + 65536 * b2 + 16777216 * b3);
    lemma_fundamental_div_mod_converse(value, 256, high1, b0);
    lemma_fundamental_div_mod_converse(high1, 256, high2, b1);
    lemma_fundamental_div_mod_converse(high2, 256, b3, b2);
    assert(value / 65536 == high2) by {
        lemma_fundamental_div_mod_converse(value, 65536, high2, b0 + 256 * b1);
    }
    assert(value / 16777216 == b3) by {
        lemma_fundamental_div_mod_converse(value, 16777216, b3, b0 + 256 * b1 + 65536 * b2);
    }
    assert(u32_le(le_u32(bytes)) =~= bytes);
}

/// Appends the little-endian bytes of `value` to `out`.
pub fn push_u16_le(out: &mut Vec<u8>, value: u16)
    ensures
        final(out)@ == old(out)@ + u16_le(value),
{
    out.push((value % 256) as u8);
    out.push((value / 256) as u8);
    assert(out@ =~= old(out)@ + u16_le(value));
}

/// Appends the little-endian bytes of `value` to `out`.
pub fn push_u32_le(out: &mut Vec<u8>, value: u32)
    ensures
        final(out)@ == old(out)@ + u32_le(value),
{
    out.push((value % 256) as u8);
    out.push((value / 256 % 256) as u8);
    out.push((value / 65536 % 256) as u8);
    out.push((value / 16777216) as u8);
    assert(out@ =~= old(out)@ + u32_le(value));
}

/// Appends a copy of `bytes` to `out`.
pub fn push_bytes(out: &mut Vec<u8>, bytes: &[u8])
    ensures
        final(out)@ == old(out)@ + bytes@,
{
    let mut index: usize = 0;
    while index < bytes.len()
        invariant
            index <= bytes.len(),
            out@ == old(out)@ + bytes@.take(index as int),
        decreases bytes.len() - index,
    {
        out.push(bytes[index]);
        index += 1;
        assert(out@ =~= old(out)@ + bytes@.take(index as int));
    }
    assert(bytes@.take(index as int) =~= bytes@);
}

/// The little-endian bytes of `value` as an array.
pub fn u32_to_le_bytes(value: u32) -> (bytes: [u8; 4])
    ensures
        bytes@ == u32_le(value),
{
    let bytes: [u8; 4] = [
        (value % 256) as u8,
        (value / 256 % 256) as u8,
        (value / 65536 % 256) as u8,
        (value / 16777216) as u8,
    ];
    assert(bytes@ =~= u32_le(value));
    bytes
}

/// The number whose little-endian bytes are `bytes`.
pub fn u32_from_le_bytes(bytes: [u8; 4]) -> (value: u32)
    ensures
        value == le_u32(bytes@),
{
    let b0: u32 = bytes[0] as u32;
    let b1: u32 = bytes[1] as u32;
    let b2: u32 = bytes[2] as u32;
    let b3: u32 = bytes[3] as u32;
    b0 + 256 * b1 + 65536 * b2 + 16777216 * b3
}

/// Reads the little-endian number stored in the four bytes at `offset`.
pub fn read_u32_le(bytes: &[u8], offset: usize) -> (value: u32)
    requires
        offset + 4 <= bytes.len(),
    ensures
        value == le_u32(bytes@.subrange(offset as int, offset + 4)),
{
    let b0: u32 = bytes[offset] as u32;
    let b1: u32 = bytes[offset + 1] as u32;
    let b2: u32 = bytes[offset + 2] as u32;
    let b3: u32 = bytes[offset + 3] as u32;
    b0 + 256 * b1 + 65536 * b2 + 16777216 * b3
}

} // verus!
