use vstd::prelude::*;

verus! {

/// Byte `k` of `w` in big-endian order: byte 0 is the most significant.
pub open spec fn word_byte(w: u32, k: int) -> u8 {
    if k == 0 {
        (w / 0x1000000) as u8
    } else if k == 1 {
        (w / 0x10000 % 0x100) as u8
    } else if k == 2 {
        (w / 0x100 % 0x100) as u8
    } else {
        (w % 0x100) as u8
    }
}

/// The word whose big-endian bytes are `b0, b1, b2, b3`.
pub open spec fn word_of(b0: u8, b1: u8, b2: u8, b3: u8) -> u32 {
    (b0 * 0x1000000 + b1 * 0x10000 + b2 * 0x100 + b3) as u32
}

/// The word rotated left by one byte: `(b0, b1, b2, b3)` becomes
/// `(b1, b2, b3, b0)`.
pub open spec fn rot_word_spec(w: u32) -> u32 {
    word_of(word_byte(w, 1), word_byte(w, 2), word_byte(w, 3), word_byte(w, 0))
}

/// Splits a word into its bytes, most significant first.
pub fn word_to_bytes(word: u32) -> (r: (u8, u8, u8, u8))
    ensures
        r == (word_byte(word, 0), word_byte(word, 1), word_byte(word, 2), word_byte(word, 3)),
{
    proof {
        assert(((word & 0xff000000) >> 24) as u8 == (word / 0x1000000) as u8
            && ((word & 0x00ff0000) >> 16) as u8 == (word / 0x10000 % 0x100) as u8
            && ((word & 0x0000ff00) >> 8) as u8 == (word / 0x100 % 0x100) as u8
            && (word & 0x000000ff) as u8 == (word % 0x100) as u8) by (bit_vector);
    }
    (
        ((word & 0xff000000) >> 24) as u8,
        ((word & 0x00ff0000) >> 16) as u8,
        ((word & 0x0000ff00) >> 8) as u8,
        (word & 0x000000ff) as u8,
    )
}

/// Joins four bytes, most significant first, into a word.
pub fn bytes_to_word(bytes: (u8, u8, u8, u8)) -> (r: u32)
    ensures
        r == word_of(bytes.0, bytes.1, bytes.2, bytes.3),
{
    let (b0, b1, b2, b3) = bytes;
    proof {
        assert((b0 as u32) << 24 ^ (b1 as u32) << 16 ^ (b2 as u32) << 8 ^ (b3 as u32) == (b0
            * 0x1000000 + b1 * 0x10000 + b2 * 0x100 + b3) as u32) by (bit_vector);
    }
    (b0 as u32) << 24 ^ (b1 as u32) << 16 ^ (b2 as u32) << 8 ^ (b3 as u32)
}

/// Rotates a word left by one byte.
pub fn rot_word(word: u32) -> (r: u32)
    ensures
        r == rot_word_spec(word),
{
    let high: u8 = ((word & 0xff000000) >> 24) as u8;
    proof {
        assert((word << 8) ^ (((word & 0xff000000) >> 24) as u8 as u32) == word_of(
            word_byte(word, 1),
            word_byte(word, 2),
            word_byte(word, 3),
            word_byte(word, 0),
        )) by (bit_vector);
    }
    (word << 8) ^ (high as u32)
}

/// Splitting a word into bytes and joining them again gives the word back.
pub proof fn lemma_word_round_trip(w: u32)
    ensures
        word_of(word_byte(w, 0), word_byte(w, 1), word_byte(w, 2), word_byte(w, 3)) == w,
{
    assert(word_of(word_byte(w, 0), word_byte(w, 1), word_byte(w, 2), word_byte(w, 3)) == w)
        by (bit_vector);
}

/// Joining four bytes into a word and splitting it gives the bytes back.
pub proof fn lemma_bytes_round_trip(b0: u8, b1: u8, b2: u8, b3: u8)
    ensures
        word_byte(word_of(b0, b1, b2, b3), 0) == b0,
        word_byte(word_of(b0, b1, b2, b3), 1) == b1,
        word_byte(word_of(b0, b1, b2, b3), 2) == b2,
        word_byte(word_of(b0, b1, b2, b3), 3) == b3,
{
    assert(word_byte(word_of(b0, b1, b2, b3), 0) == b0 && word_byte(word_of(b0, b1, b2, b3), 1)
        == b1 && word_byte(word_of(b0, b1, b2, b3), 2) == b2 && word_byte(
        word_of(b0, b1, b2, b3),
        3,
    ) == b3) by (bit_vector);
}

/// Exclusive or of words acts byte by byte.
pub proof fn lemma_word_xor_bytes(b0: u8, b1: u8, b2: u8, b3: u8, k: u32)
    ensures
        word_byte(word_of(b0, b1, b2, b3) ^ k, 0) == b0 ^ word_byte(k, 0),
        word_byte(word_of(b0, b1, b2, b3) ^ k, 1) == b1 ^ word_byte(k, 1),
        word_byte(word_of(b0, b1, b2, b3) ^ k, 2) == b2 ^ word_byte(k, 2),
        word_byte(word_of(b0, b1, b2, b3) ^ k, 3) == b3 ^ word_byte(k, 3),
{
    assert(word_byte(word_of(b0, b1, b2, b3) ^ k, 0) == b0 ^ word_byte(k, 0)
        && word_byte(word_of(b0, b1, b2, b3) ^ k, 1) == b1 ^ word_byte(k, 1)
        && word_byte(word_of(b0, b1, b2, b3) ^ k, 2) == b2 ^ word_byte(k, 2)
        && word_byte(word_of(b0, b1, b2, b3) ^ k, 3) == b3 ^ word_byte(k, 3)) by (bit_vector);
}

} // verus!
