//! The envelope that every frame of the protocol shares.
//!
//! A frame opens with the magic number, then the length of what follows as
//! a big-endian 16-bit integer (in a response), and closes with the checksum
//! of all bytes before the checksum field itself:
//!
//! | 2 bytes      | 2 bytes      | variable | 2 bytes  |
//! |--------------|--------------|----------|----------|
//! | magic number | frame length | data     | checksum |

use vstd::prelude::*;
use vstd::slice::slice_subrange;
use crate::checksum::{
    checksum, checksum_of, flip_bit, lemma_checksum_ignores_transposition,
    lemma_checksum_sees_bit_flip, lemma_flip_bit_distance, transpose,
};
use crate::error::Error;
use crate::wire::{be_u16_at, read_u16};

verus! {

/// First byte of the magic number that opens every frame.
pub const MAGIC_0: u8 = 0x42;

/// Second byte of the magic number that opens every frame.
pub const MAGIC_1: u8 = 0x4D;

/// Bytes taken by the magic number and the length field of a response.
pub const HEADER_LEN: usize = 4;

/// Bytes taken by the trailing checksum field.
pub const CHECKSUM_LEN: usize = 2;

/// The length that a response of `total` bytes declares in its header: all
/// that follows the header, checksum included.
pub open spec fn declared_len(total: nat) -> int {
    total - HEADER_LEN
}

/// Whether `frame` can be a response at all: it has room for header and
/// checksum.
pub open spec fn frame_sized(frame: Seq<u8>) -> bool {
    HEADER_LEN + CHECKSUM_LEN <= frame.len()
}

/// The part of `frame` that the checksum covers.
pub open spec fn checked_part(frame: Seq<u8>) -> Seq<u8> {
    frame.take(frame.len() - CHECKSUM_LEN)
}

/// The checksum that `frame` carries in its last two bytes.
pub open spec fn stored_checksum(frame: Seq<u8>) -> u16 {
    be_u16_at(frame, frame.len() - CHECKSUM_LEN)
}

/// The checksum of the bytes of `frame` that precede the checksum field.
pub open spec fn computed_checksum(frame: Seq<u8>) -> u16 {
    checksum_of(checked_part(frame))
}

/// Whether the checksum field of `frame` agrees with its content.
pub open spec fn checksum_matches(frame: Seq<u8>) -> bool {
    stored_checksum(frame) == computed_checksum(frame)
}

/// Whether `frame` opens with the magic number and declares its own length.
pub open spec fn has_header(frame: Seq<u8>) -> bool {
    &&& frame[0] == MAGIC_0
    &&& frame[1] == MAGIC_1
    &&& be_u16_at(frame, 2) == declared_len(frame.len())
}

/// What is wrong with the envelope of `frame`, if anything.
///
/// The checksum is judged first: where it fails no byte can be relied on,
/// the header included.
pub open spec fn envelope_fault(frame: Seq<u8>) -> Option<Error> {
    if !checksum_matches(frame) {
        Some(
            (Error::Checksum {
                expected: stored_checksum(frame),
                actual: computed_checksum(frame),
            }),
        )
    } else if !has_header(frame) {
        Some(Error::InvalidHeader)
    } else {
        None
    }
}

/// Checks the checksum of `frame`, then its header.
pub fn check_envelope(frame: &[u8]) -> (fault: Option<Error>)
    requires
        frame_sized(frame@),
    ensures
        fault == envelope_fault(frame@),
        fault is None <==> checksum_matches(frame@) && has_header(frame@),
{
    let len: usize = frame.len();
    let expected: u16 = read_u16(frame, len - CHECKSUM_LEN);
    let actual: u16 = checksum(slice_subrange(frame, 0, len - CHECKSUM_LEN));
    if expected != actual {
        return Some(Error::Checksum { expected, actual });
    }
    let declared: u16 = read_u16(frame, 2);
    if frame[0] != MAGIC_0 || frame[1] != MAGIC_1 || declared as usize != len - HEADER_LEN {
        return Some(Error::InvalidHeader);
    }
    None
}

/// The header of a frame is fixed by its length: the magic number, then
/// the length less the four bytes of the header itself.
pub proof fn lemma_header_bytes(frame: Seq<u8>)
    requires
        frame_sized(frame),
        declared_len(frame.len()) <= u16::MAX,
    ensures
        has_header(frame) <==> frame.take(4) == seq![
            MAGIC_0,
            MAGIC_1,
            (declared_len(frame.len()) / 0x100) as u8,
            (declared_len(frame.len()) % 0x100) as u8,
        ],
{
    let header = seq![
        MAGIC_0,
        MAGIC_1,
        (declared_len(frame.len()) / 0x100) as u8,
        (declared_len(frame.len()) % 0x100) as u8,
    ];
    if has_header(frame) {
        assert(frame.take(4) =~= header);
    }
    if frame.take(4) == header {
        assert(frame[0] == frame.take(4)[0]);
        assert(frame[1] == frame.take(4)[1]);
        assert(frame[2] == frame.take(4)[2]);
        assert(frame[3] == frame.take(4)[3]);
    }
}

/// No single inverted bit passes the checksum: in a frame whose checksum
/// matches, inverting any one bit, in the content or in the checksum field
/// itself, leaves a frame whose checksum does not match. Such a frame is
/// refused with `Error::Checksum`, whatever else it holds.
pub proof fn lemma_bit_flip_breaks_checksum(frame: Seq<u8>, i: int, bit: u8)
    requires
        CHECKSUM_LEN <= frame.len(),
        checksum_matches(frame),
        0 <= i < frame.len(),
        bit < 8,
    ensures
        !checksum_matches(frame.update(i, flip_bit(frame[i], bit))),
        envelope_fault(frame.update(i, flip_bit(frame[i], bit))) matches Some(
            Error::Checksum { expected, actual },
        ) && expected != actual,
{
    let flipped = frame.update(i, flip_bit(frame[i], bit));
    let end = frame.len() - CHECKSUM_LEN;
    lemma_flip_bit_distance(frame[i], bit);
    if i < end {
        assert(checked_part(flipped) =~= checked_part(frame).update(i, flip_bit(frame[i], bit)));
        lemma_checksum_sees_bit_flip(checked_part(frame), i, bit);
    } else {
        assert(checked_part(flipped) =~= checked_part(frame));
    }
}

/// Exchanging two bytes of the checked part of a frame does not change
/// whether its checksum matches: the checksum cannot tell the two frames
/// apart, so a transposition shows only in the header or in the fields.
pub proof fn lemma_transposition_keeps_checksum(frame: Seq<u8>, i: int, j: int)
    requires
        CHECKSUM_LEN <= frame.len(),
        0 <= i < frame.len() - CHECKSUM_LEN,
        0 <= j < frame.len() - CHECKSUM_LEN,
    ensures
        stored_checksum(transpose(frame, i, j)) == stored_checksum(frame),
        computed_checksum(transpose(frame, i, j)) == computed_checksum(frame),
        checksum_matches(transpose(frame, i, j)) == checksum_matches(frame),
{
    assert(checked_part(transpose(frame, i, j)) =~= transpose(checked_part(frame), i, j));
    lemma_checksum_ignores_transposition(checked_part(frame), i, j);
}

} // verus!
