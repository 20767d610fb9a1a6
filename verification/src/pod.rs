//! Byte images of 32-bit words, as they are uploaded to device buffers, and
//! the IEEE-754 binary32 encodings of the reals the renderer fixes itself.
//! The library never computes with reals: it carries their encodings.

use vstd::prelude::*;

verus! {

/// Byte `k` (0 = least significant) of `word`.
pub open spec fn word_byte(word: u32, k: int) -> u8 {
    if k == 0 {
        (word % 0x100) as u8
    } else if k == 1 {
        (word / 0x100 % 0x100) as u8
    } else if k == 2 {
        (word / 0x1_0000 % 0x100) as u8
    } else {
        (word / 0x100_0000 % 0x100) as u8
    }
}

/// The words laid out one after another, least significant byte first.
pub open spec fn le_bytes(words: Seq<u32>) -> Seq<u8> {
    Seq::new(4 * words.len(), |i: int| word_byte(words[i / 4], i % 4))
}

/// The words laid out one after another, most significant byte first.
pub open spec fn be_bytes(words: Seq<u32>) -> Seq<u8> {
    Seq::new(4 * words.len(), |i: int| word_byte(words[i / 4], 3 - i % 4))
}

/// `bytes` is the in-memory image of `words` on a machine of either byte order.
pub open spec fn is_image(bytes: Seq<u8>, words: Seq<u32>) -> bool {
    bytes == le_bytes(words) || bytes == be_bytes(words)
}

/// Calls `bytemuck::cast_slice::<u32, u8>`, which reinterprets the memory of
/// the slice in place. Trusted: the result is the words' bytes in memory
/// order, which is least-significant-first or most-significant-first
/// depending on the machine; the cast from a 4-aligned to a 1-aligned element
/// of size one cannot fail.
#[verifier::external_body]
pub(crate) fn cast_words(words: &[u32]) -> (bytes: &[u8])
    ensures
        is_image(bytes@, words@),
{
    bytemuck::cast_slice::<u32, u8>(words)
}

/// The byte image of `words`, owned.
pub fn image_of(words: &Vec<u32>) -> (bytes: Vec<u8>)
    ensures
        is_image(bytes@, words@),
        bytes@.len() == 4 * words@.len(),
{
    let bytes = cast_words(words.as_slice());
    vstd::slice::slice_to_vec(bytes)
}

/// Binary32 encoding of 0.
pub const ZERO: u32 = 0x0000_0000;

/// Binary32 encoding of 1.
pub const ONE: u32 = 0x3F80_0000;

/// Binary32 encoding of -1.
pub const MINUS_ONE: u32 = 0xBF80_0000;

/// Binary32 encoding of 3.
pub const THREE: u32 = 0x4040_0000;

/// Binary32 encoding of -3.
pub const MINUS_THREE: u32 = 0xC040_0000;

/// Binary32 encoding of 4.
pub const FOUR: u32 = 0x4080_0000;

/// Binary32 encoding of 100.
pub const HUNDRED: u32 = 0x42C8_0000;

/// Binary32 encoding of the binary32 nearest to one twentieth.
pub const TWENTIETH: u32 = 0x3D4C_CCCD;

/// Binary32 encoding of the binary32 nearest to two fifths.
pub const TWO_FIFTHS: u32 = 0x3ECC_CCCD;

} // verus!
