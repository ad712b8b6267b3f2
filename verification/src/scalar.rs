//! Scalars as they travel through this crate: IEEE-754 single-precision bit
//! patterns. The crate stores, copies and lays them out for the GPU; the host
//! program computes with them.

use vstd::prelude::*;

verus! {

/// Bit pattern of `0.0`.
pub const ZERO: u32 = 0;

/// Bit pattern of `1.0`.
pub const ONE: u32 = 0x3F80_0000;

/// Bit pattern of `0.5`.
pub const HALF: u32 = 0x3F00_0000;

/// Bit pattern of `-0.5`.
pub const MINUS_HALF: u32 = 0xBF00_0000;

/// Bit pattern of `0.577`, a component of the unit diagonal of a cube.
pub const CORNER: u32 = 0x3F13_B646;

/// Bit pattern of `-0.577`.
pub const MINUS_CORNER: u32 = 0xBF13_B646;

/// Bit pattern of `0.1`.
pub const ONE_TENTH: u32 = 0x3DCC_CCCD;

/// Bit pattern of `0.2`.
pub const ONE_FIFTH: u32 = 0x3E4C_CCCD;

/// Bit pattern of `0.6`.
pub const THREE_FIFTHS: u32 = 0x3F19_999A;

/// Bit pattern of `0.8`.
pub const FOUR_FIFTHS: u32 = 0x3F4C_CCCD;

/// Bit pattern of `3.0`.
pub const THREE: u32 = 0x4040_0000;

/// Bit pattern of `-5.0`.
pub const MINUS_FIVE: u32 = 0xC0A0_0000;

/// Bit pattern of `70.0`.
pub const SEVENTY: u32 = 0x428C_0000;

/// Bit pattern of `100.0`.
pub const HUNDRED: u32 = 0x42C8_0000;

/// Bit pattern of `0.707`, the sine and cosine of an eighth of a turn.
pub const DIAGONAL: u32 = 0x3F34_FDF4;

/// Bit pattern of `-0.707`.
pub const MINUS_DIAGONAL: u32 = 0xBF34_FDF4;

/// A 4×4 matrix in column-major order, as the GPU reads it.
pub type Matrix = [u32; 16];

/// The translation part of a column-major matrix: the first three words of
/// its last column.
pub open spec fn translation_of(m: Matrix) -> Seq<u32> {
    seq![m@[12], m@[13], m@[14]]
}

/// The world position that a world matrix gives to its node's origin.
pub fn translation(m: &Matrix) -> (p: [u32; 3])
    ensures
        p@ == translation_of(*m),
{
    [m[12], m[13], m[14]]
}

/// Byte `k` of `word`, counted from the least significant.
pub open spec fn byte_of(word: u32, k: int) -> u8 {
    if k == 0 {
        (word % 0x100) as u8
    } else if k == 1 {
        (word / 0x100 % 0x100) as u8
    } else if k == 2 {
        (word / 0x1_0000 % 0x100) as u8
    } else {
        (word / 0x100_0000) as u8
    }
}

/// The bytes of `words` with the least significant byte of each word first.
pub open spec fn little_endian(words: Seq<u32>) -> Seq<u8> {
    Seq::new(4 * words.len(), |i: int| byte_of(words[i / 4], i % 4))
}

/// The bytes of `words` with the most significant byte of each word first.
pub open spec fn big_endian(words: Seq<u32>) -> Seq<u8> {
    Seq::new(4 * words.len(), |i: int| byte_of(words[i / 4], 3 - i % 4))
}

/// `bytes` is `words` as the memory of the machine holds them: four bytes a
/// word, in the byte order of the machine.
pub open spec fn in_memory(words: Seq<u32>, bytes: Seq<u8>) -> bool {
    bytes == little_endian(words) || bytes == big_endian(words)
}

/// `bytemuck::cast_slice` from words to bytes: the same memory read byte by
/// byte. The cast to bytes cannot fail, as bytes need no alignment and any
/// number of them is whole. The result is copied into a vector.
#[verifier::external_body]
pub(crate) fn cast_words(words: &[u32]) -> (bytes: Vec<u8>)
    ensures
        bytes@.len() == 4 * words@.len(),
        in_memory(words@, bytes@),
{
    bytemuck::cast_slice::<u32, u8>(words).to_vec()
}

/// Appends `src` to `out`, word by word.
pub fn push_words(out: &mut Vec<u32>, src: &[u32])
    ensures
        final(out)@ == old(out)@ + src@,
{
    let mut i: usize = 0;
    while i < src.len()
        invariant
            i <= src@.len(),
            out@ == old(out)@ + src@.subrange(0, i as int),
        decreases src@.len() - i,
    {
        out.push(src[i]);
        assert(out@ =~= old(out)@ + src@.subrange(0, i + 1));
        i += 1;
    }
    assert(src@.subrange(0, i as int) =~= src@);
}

/// The identity matrix.
pub fn identity_matrix() -> (m: Matrix)
    ensures
        forall|k: int| 0 <= k < 16 ==> m@[k] == (if k % 5 == 0 { ONE } else { ZERO }),
{
    [
        ONE, ZERO, ZERO, ZERO,
        ZERO, ONE, ZERO, ZERO,
        ZERO, ZERO, ONE, ZERO,
        ZERO, ZERO, ZERO, ONE,
    ]
}

} // verus!
