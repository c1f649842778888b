//! The additive frame checksum shared by every command and response frame.

use vstd::prelude::*;

verus! {

/// Sum of all bytes of `bytes`, as an unbounded integer.
pub open spec fn byte_sum(bytes: Seq<u8>) -> int
    decreases bytes.len(),
{
    if bytes.len() == 0 {
        0
    } else {
        byte_sum(bytes.drop_last()) + bytes.last() as int
    }
}

/// The checksum of `bytes`: the byte sum reduced modulo 2^16.
pub open spec fn checksum_of(bytes: Seq<u8>) -> u16 {
    (byte_sum(bytes) % 0x1_0000) as u16
}

/// Computes the checksum of `bytes` with wrapping 16-bit addition.
pub fn checksum(bytes: &[u8]) -> (sum: u16)
    ensures
        sum == checksum_of(bytes@),
{
    let mut sum: u16 = 0;
    let mut i: usize = 0;
    while i < bytes.len()
        invariant
            i <= bytes.len(),
            sum == checksum_of(bytes@.take(i as int)),
        decreases bytes.len() - i,
    {
        proof {
            assert(bytes@.take(i + 1).drop_last() == bytes@.take(i as int));
        }
        sum = sum.wrapping_add(bytes[i] as u16);
        i += 1;
    }
    proof {
        assert(bytes@.take(i as int) == bytes@);
    }
    sum
}

/// `byte` with the bit of index `bit` inverted.
pub open spec fn flip_bit(byte: u8, bit: u8) -> u8
    recommends
        bit < 8,
{
    byte ^ (1u8 << bit)
}

/// `bytes` with the bytes at `i` and `j` exchanged.
pub open spec fn transpose(bytes: Seq<u8>, i: int, j: int) -> Seq<u8>
    recommends
        0 <= i < bytes.len(),
        0 <= j < bytes.len(),
{
    bytes.update(i, bytes[j]).update(j, bytes[i])
}

/// Replacing one byte moves the byte sum by the difference of the two bytes.
pub proof fn lemma_byte_sum_update(bytes: Seq<u8>, i: int, byte: u8)
    requires
        0 <= i < bytes.len(),
    ensures
        byte_sum(bytes.update(i, byte)) == byte_sum(bytes) - bytes[i] + byte,
    decreases bytes.len(),
{
    let updated = bytes.update(i, byte);
    if i == bytes.len() - 1 {
        assert(updated.drop_last() =~= bytes.drop_last());
    } else {
        assert(updated.drop_last() =~= bytes.drop_last().update(i, byte));
        lemma_byte_sum_update(bytes.drop_last(), i, byte);
    }
}

/// The checksum does not see the order of the bytes: exchanging two of them
/// leaves it as it was. A transposition is therefore never caught by the
/// checksum, only by what the exchanged bytes mean.
pub proof fn lemma_checksum_ignores_transposition(bytes: Seq<u8>, i: int, j: int)
    requires
        0 <= i < bytes.len(),
        0 <= j < bytes.len(),
    ensures
        byte_sum(transpose(bytes, i, j)) == byte_sum(bytes),
        checksum_of(transpose(bytes, i, j)) == checksum_of(bytes),
{
    lemma_byte_sum_update(bytes, i, bytes[j]);
    lemma_byte_sum_update(bytes.update(i, bytes[j]), j, bytes[i]);
}

/// Inverting one bit moves a byte by the weight of that bit, up or down.
pub proof fn lemma_flip_bit_distance(byte: u8, bit: u8)
    requires
        bit < 8,
    ensures
        flip_bit(byte, bit) != byte,
        -128 <= flip_bit(byte, bit) - byte <= 128,
        flip_bit(flip_bit(byte, bit), bit) == byte,
{
    assert(bit < 8 ==> (byte ^ (1u8 << bit)) != byte && (byte ^ (1u8 << bit)) <= byte + 128
        && byte <= (byte ^ (1u8 << bit)) + 128 && ((byte ^ (1u8 << bit)) ^ (1u8 << bit)) == byte)
        by (bit_vector);
}

/// The checksum sees every single inverted bit: whichever bit of whichever
/// byte is inverted, the checksum changes.
pub proof fn lemma_checksum_sees_bit_flip(bytes: Seq<u8>, i: int, bit: u8)
    requires
        0 <= i < bytes.len(),
        bit < 8,
    ensures
        checksum_of(bytes.update(i, flip_bit(bytes[i], bit))) != checksum_of(bytes),
{
    lemma_flip_bit_distance(bytes[i], bit);
    lemma_byte_sum_update(bytes, i, flip_bit(bytes[i], bit));
}

} // verus!
