//! Little-endian byte layout of 32-bit words.
//!
//! Each vector type serializes as the little-endian bytes of its component
//! patterns in field order; these are the word-level helpers, with the
//! round-trip facts the vector codecs rest on.

use vstd::prelude::*;

verus! {

/// Byte 0 (least significant) of a word.
pub open spec fn byte0(w: u32) -> u8 {
    (w & 0xff) as u8
}

/// Byte 1 of a word.
pub open spec fn byte1(w: u32) -> u8 {
    ((w >> 8) & 0xff) as u8
}

/// Byte 2 of a word.
pub open spec fn byte2(w: u32) -> u8 {
    ((w >> 16) & 0xff) as u8
}

/// Byte 3 (most significant) of a word.
pub open spec fn byte3(w: u32) -> u8 {
    ((w >> 24) & 0xff) as u8
}

/// The four little-endian bytes of a word, least significant first.
pub open spec fn le_bytes(w: u32) -> Seq<u8> {
    seq![byte0(w), byte1(w), byte2(w), byte3(w)]
}

/// The word with the given little-endian bytes.
pub open spec fn word_of(b0: u8, b1: u8, b2: u8, b3: u8) -> u32 {
    (b0 as u32) | ((b1 as u32) << 8) | ((b2 as u32) << 16) | ((b3 as u32) << 24)
}

/// Splitting a word into its little-endian bytes and reassembling them
/// restores the word.
pub proof fn lemma_word_round_trip(w: u32)
    ensures
        word_of(byte0(w), byte1(w), byte2(w), byte3(w)) == w,
{
    assert(word_of(byte0(w), byte1(w), byte2(w), byte3(w)) == w) by (bit_vector);
}

/// Each little-endian byte of a reassembled word is the byte it was
/// assembled from.
pub proof fn lemma_bytes_of_word(b0: u8, b1: u8, b2: u8, b3: u8)
    ensures
        byte0(word_of(b0, b1, b2, b3)) == b0,
        byte1(word_of(b0, b1, b2, b3)) == b1,
        byte2(word_of(b0, b1, b2, b3)) == b2,
        byte3(word_of(b0, b1, b2, b3)) == b3,
{
    assert(byte0(word_of(b0, b1, b2, b3)) == b0) by (bit_vector);
    assert(byte1(word_of(b0, b1, b2, b3)) == b1) by (bit_vector);
    assert(byte2(word_of(b0, b1, b2, b3)) == b2) by (bit_vector);
    assert(byte3(word_of(b0, b1, b2, b3)) == b3) by (bit_vector);
}

/// Appends the four little-endian bytes of `w` to `out`.
pub fn push_le_bytes(out: &mut Vec<u8>, w: u32)
    ensures
        final(out)@ == old(out)@ + le_bytes(w),
{
    proof {
        assert(w & 0xff < 256 && (w >> 8) & 0xff < 256 && (w >> 16) & 0xff < 256 && (w >> 24)
            & 0xff < 256) by (bit_vector);
    }
    out.push((w & 0xff) as u8);
    out.push(((w >> 8) & 0xff) as u8);
    out.push(((w >> 16) & 0xff) as u8);
    out.push(((w >> 24) & 0xff) as u8);
    proof {
        assert(out@ =~= old(out)@ + le_bytes(w));
    }
}

/// The word with the little-endian bytes `b0` (least significant)
/// through `b3`.
pub fn le_word(b0: u8, b1: u8, b2: u8, b3: u8) -> (r: u32)
    ensures
        r == word_of(b0, b1, b2, b3),
{
    (b0 as u32) | ((b1 as u32) << 8) | ((b2 as u32) << 16) | ((b3 as u32) << 24)
}

} // verus!
