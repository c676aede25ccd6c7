//! Little-endian primitives: reading 32-bit values out of raw byte payloads.
//!
//! All multi-byte values in a property payload are stored least significant
//! byte first. A 32-bit float is handled as its IEEE 754 bit pattern, so a
//! float read is a `u32` read.

use vstd::prelude::*;

verus! {

/// The unsigned 32-bit value stored little-endian in the four given bytes.
pub open spec fn u32_from_le(b0: u8, b1: u8, b2: u8, b3: u8) -> u32 {
    (b0 + b1 * 0x100 + b2 * 0x10000 + b3 * 0x1000000) as u32
}

/// The signed 32-bit value stored little-endian in the four given bytes
/// (two's complement reading of `u32_from_le`).
pub open spec fn i32_from_le(b0: u8, b1: u8, b2: u8, b3: u8) -> i32 {
    let u = u32_from_le(b0, b1, b2, b3);
    if u >= 0x8000_0000 {
        (u - 0x1_0000_0000) as i32
    } else {
        u as i32
    }
}

/// The little-endian bytes of an unsigned 32-bit value, least significant
/// first.
pub open spec fn le_bytes_of_u32(v: u32) -> Seq<u8> {
    seq![
        (v % 0x100) as u8,
        ((v / 0x100) % 0x100) as u8,
        ((v / 0x10000) % 0x100) as u8,
        ((v / 0x1000000) % 0x100) as u8,
    ]
}

/// Reading four bytes produced by `le_bytes_of_u32` yields the value that was
/// encoded: 32-bit values round-trip through their byte representation.
pub proof fn lemma_u32_le_round_trip(v: u32)
    ensures
        u32_from_le(
            le_bytes_of_u32(v)[0],
            le_bytes_of_u32(v)[1],
            le_bytes_of_u32(v)[2],
            le_bytes_of_u32(v)[3],
        ) == v,
{
    assert(u32_from_le(
        (v % 0x100) as u8,
        ((v / 0x100) % 0x100) as u8,
        ((v / 0x10000) % 0x100) as u8,
        ((v / 0x1000000) % 0x100) as u8,
    ) == v) by (bit_vector);
}

/// Reads the unsigned 32-bit value stored little-endian in four bytes.
pub fn read_u32_le(b0: u8, b1: u8, b2: u8, b3: u8) -> (r: u32)
    ensures
        r == u32_from_le(b0, b1, b2, b3),
{
    b0 as u32 + b1 as u32 * 0x100 + b2 as u32 * 0x10000 + b3 as u32 * 0x1000000
}

/// Reads the signed 32-bit value stored little-endian in four bytes.
pub fn read_i32_le(b0: u8, b1: u8, b2: u8, b3: u8) -> (r: i32)
    ensures
        r == i32_from_le(b0, b1, b2, b3),
{
    let u = read_u32_le(b0, b1, b2, b3);
    if u >= 0x8000_0000 {
        let d = u - 0x8000_0000;
        (-0x7FFF_FFFF - 1) + d as i32
    } else {
        u as i32
    }
}

} // verus!
