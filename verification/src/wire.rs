//! Big-endian integers as they appear on the wire.
//!
//! Every multi-byte field of the protocol is unsigned and big-endian: the
//! byte at the lowest offset carries the most significant bits.

use vstd::prelude::*;

verus! {

/// The 16-bit value whose big-endian encoding is `hi, lo`.
pub open spec fn be_u16(hi: u8, lo: u8) -> u16 {
    (hi as int * 0x100 + lo as int) as u16
}

/// The 16-bit big-endian field of `frame` that starts at offset `at`.
pub open spec fn be_u16_at(frame: Seq<u8>, at: int) -> u16
    recommends
        0 <= at,
        at + 2 <= frame.len(),
{
    be_u16(frame[at], frame[at + 1])
}

/// The 32-bit big-endian field of `frame` that starts at offset `at`.
pub open spec fn be_u32_at(frame: Seq<u8>, at: int) -> u32
    recommends
        0 <= at,
        at + 4 <= frame.len(),
{
    (be_u16_at(frame, at) as int * 0x1_0000 + be_u16_at(frame, at + 2) as int) as u32
}

/// The 64-bit big-endian field of `frame` that starts at offset `at`.
pub open spec fn be_u64_at(frame: Seq<u8>, at: int) -> u64
    recommends
        0 <= at,
        at + 8 <= frame.len(),
{
    (be_u32_at(frame, at) as int * 0x1_0000_0000 + be_u32_at(frame, at + 4) as int) as u64
}

/// The two bytes that encode `value` in big-endian order.
pub open spec fn be_bytes_of(value: u16) -> Seq<u8> {
    seq![(value as int / 0x100) as u8, (value as int % 0x100) as u8]
}

/// Reads the 16-bit big-endian field of `frame` at offset `at`.
pub fn read_u16(frame: &[u8], at: usize) -> (value: u16)
    requires
        at + 2 <= frame.len(),
    ensures
        value == be_u16_at(frame@, at as int),
{
    let hi: u16 = frame[at] as u16;
    let lo: u16 = frame[at + 1] as u16;
    hi * 0x100 + lo
}

/// Reads the 32-bit big-endian field of `frame` at offset `at`.
pub fn read_u32(frame: &[u8], at: usize) -> (value: u32)
    requires
        at + 4 <= frame.len(),
    ensures
        value == be_u32_at(frame@, at as int),
{
    let hi: u32 = read_u16(frame, at) as u32;
    let lo: u32 = read_u16(frame, at + 2) as u32;
    hi * 0x1_0000 + lo
}

/// Reads the 64-bit big-endian field of `frame` at offset `at`.
pub fn read_u64(frame: &[u8], at: usize) -> (value: u64)
    requires
        at + 8 <= frame.len(),
    ensures
        value == be_u64_at(frame@, at as int),
{
    let hi: u64 = read_u32(frame, at) as u64;
    let lo: u64 = read_u32(frame, at + 4) as u64;
    hi * 0x1_0000_0000 + lo
}

/// Encodes `value` as two big-endian bytes.
pub fn write_u16(value: u16) -> (bytes: [u8; 2])
    ensures
        bytes@ == be_bytes_of(value),
        be_u16(bytes@[0], bytes@[1]) == value,
{
    let hi: u8 = (value / 0x100) as u8;
    let lo: u8 = (value % 0x100) as u8;
    [hi, lo]
}

/// Decoding undoes encoding: the bytes of a value read back as that value.
pub proof fn lemma_be_u16_round_trip(value: u16)
    ensures
        be_bytes_of(value).len() == 2,
        be_u16_at(be_bytes_of(value), 0) == value,
{
}

} // verus!
