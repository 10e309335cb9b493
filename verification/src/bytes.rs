//! Words to bytes, in the byte order of the machine.

use vstd::prelude::*;

verus! {

/// Byte `k` of `word`, counted from the least significant one.
pub open spec fn byte_of(word: u32, k: int) -> u8 {
    if k == 0 {
        (word as int % 256) as u8
    } else if k == 1 {
        (word as int / 256 % 256) as u8
    } else if k == 2 {
        (word as int / 65536 % 256) as u8
    } else {
        (word as int / 16777216 % 256) as u8
    }
}

/// The bytes of `words`, four per word, least significant byte first.
pub open spec fn little_endian(words: Seq<u32>) -> Seq<u8> {
    Seq::new(4 * words.len(), |i: int| byte_of(words[i / 4], i % 4))
}

/// The bytes of `words`, four per word, most significant byte first.
pub open spec fn big_endian(words: Seq<u32>) -> Seq<u8> {
    Seq::new(4 * words.len(), |i: int| byte_of(words[i / 4], 3 - i % 4))
}

/// `bytes` is the in-memory image of `words` on a little-endian or on a
/// big-endian machine.
pub open spec fn is_memory_image(words: Seq<u32>, bytes: Seq<u8>) -> bool {
    bytes == little_endian(words) || bytes == big_endian(words)
}

/// Calls `bytemuck::cast_slice::<u32, u8>` and copies the result.
///
/// Trusted, not proved: the cast reinterprets the memory of the slice, so the
/// result has four bytes per word, and they are the bytes of each word in the
/// machine's byte order, which is either little-endian or big-endian. The cast
/// from `u32` to `u8` cannot fail: the target needs no alignment and every
/// length divides evenly.
#[verifier::external_body]
pub(crate) fn cast_words(words: &Vec<u32>) -> (bytes: Vec<u8>)
    ensures
        is_memory_image(words@, bytes@),
{
    bytemuck::cast_slice::<u32, u8>(words.as_slice()).to_vec()
}

} // verus!
