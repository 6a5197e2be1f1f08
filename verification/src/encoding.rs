//! Little-endian encoding of 128-bit nonces.

use vstd::prelude::*;

verus! {

/// Byte `index` of `value`, counting from the least significant.
pub open spec fn le_byte(value: u128, index: int) -> u8 {
    ((value >> ((8 * index) as u128)) & 0xff) as u8
}

/// The sixteen bytes of `value`, least significant first.
pub open spec fn le_bytes(value: u128) -> Seq<u8> {
    Seq::new(16, |index: int| le_byte(value, index))
}

/// Writes a nonce as sixteen bytes, least significant first.
pub fn nonce_to_le_bytes(nonce: u128) -> (bytes: [u8; 16])
    ensures
        bytes@ == le_bytes(nonce),
{
    let mut bytes = [0u8; 16];
    let mut index: usize = 0;
    while index < 16
        invariant
            index <= 16,
            forall|j: int| 0 <= j < index ==> bytes@[j] == le_byte(nonce, j),
        decreases 16 - index,
    {
        let shift: u128 = 8 * (index as u128);
        let low: u128 = (nonce >> shift) & 0xff;
        assert(low <= 0xff) by (bit_vector)
            requires
                low == (nonce >> shift) & 0xff,
        ;
        bytes[index] = low as u8;
        index += 1;
    }
    bytes
}

/// Shifting a value up by one byte and filling in `byte` moves every byte one
/// place up and puts `byte` in the lowest place.
proof fn lemma_byte_shifted_in(value: u128, byte: u128, shift: u128, below: u128)
    requires
        byte <= 0xff,
        8 <= shift <= 120,
        below + 8 == shift,
    ensures
        (((value << 8) | byte) >> shift) & 0xff == (value >> below) & 0xff,
        (((value << 8) | byte) >> 0) & 0xff == byte,
{
    assert((((value << 8) | byte) >> shift) & 0xff == (value >> below) & 0xff) by (bit_vector)
        requires
            byte <= 0xff,
            8 <= shift <= 120,
            below + 8 == shift,
    ;
    assert((((value << 8) | byte) >> 0) & 0xff == byte) by (bit_vector)
        requires
            byte <= 0xff,
    ;
}

/// Reads a nonce from sixteen bytes, least significant first.
pub fn nonce_from_le_bytes(bytes: &[u8; 16]) -> (nonce: u128)
    ensures
        le_bytes(nonce) == bytes@,
{
    let mut nonce: u128 = 0;
    let mut index: usize = 16;
    while index > 0
        invariant
            index <= 16,
            forall|j: int| index <= j < 16 ==> le_byte(nonce, j - index) == bytes@[j],
        decreases index,
    {
        index -= 1;
        let byte: u128 = bytes[index] as u128;
        let ghost before = nonce;
        nonce = (nonce << 8) | byte;
        assert forall|j: int| index <= j < 16 implies le_byte(nonce, j - index) == bytes@[j] by {
            if j == index {
                lemma_byte_shifted_in(before, byte, 8, 0);
            } else {
                lemma_byte_shifted_in(
                    before,
                    byte,
                    (8 * (j - index)) as u128,
                    (8 * (j - index - 1)) as u128,
                );
                assert(le_byte(before, j - (index + 1)) == bytes@[j]);
            }
        }
    }
    nonce
}

/// Equal bytes at `index` are equal eight-bit chunks of the two values.
proof fn lemma_same_chunk(left: u128, right: u128, index: int)
    requires
        0 <= index < 16,
        le_bytes(left) == le_bytes(right),
    ensures
        (left >> ((8 * index) as u128)) & 0xff == (right >> ((8 * index) as u128)) & 0xff,
{
    let shift = (8 * index) as u128;
    assert(le_bytes(left)[index] == le_byte(left, index));
    assert(le_bytes(right)[index] == le_byte(right, index));
    assert((left >> shift) & 0xff <= 0xff) by (bit_vector);
    assert((right >> shift) & 0xff <= 0xff) by (bit_vector);
}

/// Two nonces with the same sixteen bytes are the same nonce, so the bytes
/// that [`nonce_from_le_bytes`] is given determine what it returns, and
/// reading back what [`nonce_to_le_bytes`] wrote gives the nonce again.
pub proof fn lemma_le_bytes_injective(left: u128, right: u128)
    requires
        le_bytes(left) == le_bytes(right),
    ensures
        left == right,
{
    lemma_same_chunk(left, right, 0);
    lemma_same_chunk(left, right, 1);
    lemma_same_chunk(left, right, 2);
    lemma_same_chunk(left, right, 3);
    lemma_same_chunk(left, right, 4);
    lemma_same_chunk(left, right, 5);
    lemma_same_chunk(left, right, 6);
    lemma_same_chunk(left, right, 7);
    lemma_same_chunk(left, right, 8);
    lemma_same_chunk(left, right, 9);
    lemma_same_chunk(left, right, 10);
    lemma_same_chunk(left, right, 11);
    lemma_same_chunk(left, right, 12);
    lemma_same_chunk(left, right, 13);
    lemma_same_chunk(left, right, 14);
    lemma_same_chunk(left, right, 15);
    assert(left == right) by (bit_vector)
        requires
            (left >> 0u128) & 0xff == (right >> 0u128) & 0xff,
            (left >> 8u128) & 0xff == (right >> 8u128) & 0xff,
            (left >> 16u128) & 0xff == (right >> 16u128) & 0xff,
            (left >> 24u128) & 0xff == (right >> 24u128) & 0xff,
            (left >> 32u128) & 0xff == (right >> 32u128) & 0xff,
            (left >> 40u128) & 0xff == (right >> 40u128) & 0xff,
            (left >> 48u128) & 0xff == (right >> 48u128) & 0xff,
            (left >> 56u128) & 0xff == (right >> 56u128) & 0xff,
            (left >> 64u128) & 0xff == (right >> 64u128) & 0xff,
            (left >> 72u128) & 0xff == (right >> 72u128) & 0xff,
            (left >> 80u128) & 0xff == (right >> 80u128) & 0xff,
            (left >> 88u128) & 0xff == (right >> 88u128) & 0xff,
            (left >> 96u128) & 0xff == (right >> 96u128) & 0xff,
            (left >> 104u128) & 0xff == (right >> 104u128) & 0xff,
            (left >> 112u128) & 0xff == (right >> 112u128) & 0xff,
            (left >> 120u128) & 0xff == (right >> 120u128) & 0xff,
    ;
}

} // verus!
