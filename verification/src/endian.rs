//! Four-byte integer fields, read and written in either byte order.

use vstd::prelude::*;

verus! {

/// The number that four bytes spell when the first byte is the most significant.
pub open spec fn be_value(field: Seq<u8>) -> int
    recommends
        field.len() == 4,
{
    field[0] * 0x100_0000 + field[1] * 0x1_0000 + field[2] * 0x100 + field[3]
}

/// The number that four bytes spell when the first byte is the least significant.
pub open spec fn le_value(field: Seq<u8>) -> int
    recommends
        field.len() == 4,
{
    field[3] * 0x100_0000 + field[2] * 0x1_0000 + field[1] * 0x100 + field[0]
}

/// The four bytes of `x`, most significant first.
pub open spec fn be_bytes(x: u32) -> Seq<u8> {
    seq![
        (x / 0x100_0000) as u8,
        (x / 0x1_0000 % 0x100) as u8,
        (x / 0x100 % 0x100) as u8,
        (x % 0x100) as u8,
    ]
}

/// Reading back the big-endian bytes of a number gives the number.
pub proof fn lemma_be_bytes_value(x: u32)
    ensures
        be_bytes(x).len() == 4,
        be_value(be_bytes(x)) == x,
{
}

/// Four bytes read big-endian always fit in 32 bits, and so do they read
/// little-endian.
pub proof fn lemma_field_value_bounds(field: Seq<u8>)
    requires
        field.len() == 4,
    ensures
        0 <= be_value(field) <= u32::MAX,
        0 <= le_value(field) <= u32::MAX,
{
}

/// Reads a four-byte field with the most significant byte first.
pub fn u32_from_be(field: &[u8; 4]) -> (x: u32)
    ensures
        x == be_value(field@),
{
    let b0: u32 = field[0] as u32;
    let b1: u32 = field[1] as u32;
    let b2: u32 = field[2] as u32;
    let b3: u32 = field[3] as u32;
    b0 * 0x100_0000 + b1 * 0x1_0000 + b2 * 0x100 + b3
}

/// Reads a four-byte field with the least significant byte first.
pub fn u32_from_le(field: &[u8; 4]) -> (x: u32)
    ensures
        x == le_value(field@),
{
    let b0: u32 = field[0] as u32;
    let b1: u32 = field[1] as u32;
    let b2: u32 = field[2] as u32;
    let b3: u32 = field[3] as u32;
    b3 * 0x100_0000 + b2 * 0x1_0000 + b1 * 0x100 + b0
}

/// Writes `x` as four bytes, most significant first.
pub fn u32_to_be(x: u32) -> (field: [u8; 4])
    ensures
        field@ == be_bytes(x),
{
    let field: [u8; 4] = [
        (x / 0x100_0000) as u8,
        (x / 0x1_0000 % 0x100) as u8,
        (x / 0x100 % 0x100) as u8,
        (x % 0x100) as u8,
    ];
    assert(field@ =~= be_bytes(x));
    field
}

} // verus!
