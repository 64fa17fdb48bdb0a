//! Little-endian layout of 32-bit tensor elements.
//!
//! Tensor elements are 32-bit floats. The library keeps each element as its
//! bit pattern (`u32`), so that bytes and elements convert without loss.

use vstd::prelude::*;

verus! {

/// The 32-bit word whose little-endian bytes are `b0, b1, b2, b3`.
pub open spec fn le_word(b0: u8, b1: u8, b2: u8, b3: u8) -> u32 {
    (b0 as u32) | ((b1 as u32) << 8u32) | ((b2 as u32) << 16u32) | ((b3 as u32) << 24u32)
}

/// Byte `k` (0 = least significant) of the word `w`.
pub open spec fn le_byte(w: u32, k: int) -> u8 {
    if k == 0 {
        (w & 0xffu32) as u8
    } else if k == 1 {
        ((w >> 8u32) & 0xffu32) as u8
    } else if k == 2 {
        ((w >> 16u32) & 0xffu32) as u8
    } else {
        ((w >> 24u32) & 0xffu32) as u8
    }
}

/// The words read from `b` four bytes at a time, little-endian; a trailing
/// group of fewer than four bytes is ignored.
pub open spec fn words_from_le_bytes(b: Seq<u8>) -> Seq<u32> {
    Seq::new(b.len() / 4, |i: int| le_word(b[4 * i], b[4 * i + 1], b[4 * i + 2], b[4 * i + 3]))
}

/// The bytes of the words `w`, each written little-endian, in order.
pub open spec fn le_bytes_of_words(w: Seq<u32>) -> Seq<u8> {
    Seq::new(4 * w.len(), |j: int| le_byte(w[j / 4], j % 4))
}

/// Splitting a word into bytes and joining them again gives the word.
pub proof fn lemma_word_bytes_word(w: u32)
    ensures
        le_word(le_byte(w, 0), le_byte(w, 1), le_byte(w, 2), le_byte(w, 3)) == w,
{
    assert(((w & 0xffu32) as u8 as u32) | ((((w >> 8u32) & 0xffu32) as u8 as u32) << 8u32) | ((((w
        >> 16u32) & 0xffu32) as u8 as u32) << 16u32) | ((((w >> 24u32) & 0xffu32) as u8 as u32)
        << 24u32) == w) by (bit_vector);
}

/// Joining four bytes into a word and splitting it again gives the bytes.
pub proof fn lemma_bytes_word_bytes(b0: u8, b1: u8, b2: u8, b3: u8)
    ensures
        le_byte(le_word(b0, b1, b2, b3), 0) == b0,
        le_byte(le_word(b0, b1, b2, b3), 1) == b1,
        le_byte(le_word(b0, b1, b2, b3), 2) == b2,
        le_byte(le_word(b0, b1, b2, b3), 3) == b3,
{
    assert(((((b0 as u32) | ((b1 as u32) << 8u32) | ((b2 as u32) << 16u32) | ((b3 as u32)
        << 24u32)) & 0xffu32) as u8) == b0) by (bit_vector);
    assert((((((b0 as u32) | ((b1 as u32) << 8u32) | ((b2 as u32) << 16u32) | ((b3 as u32)
        << 24u32)) >> 8u32) & 0xffu32) as u8) == b1) by (bit_vector);
    assert((((((b0 as u32) | ((b1 as u32) << 8u32) | ((b2 as u32) << 16u32) | ((b3 as u32)
        << 24u32)) >> 16u32) & 0xffu32) as u8) == b2) by (bit_vector);
    assert((((((b0 as u32) | ((b1 as u32) << 8u32) | ((b2 as u32) << 16u32) | ((b3 as u32)
        << 24u32)) >> 24u32) & 0xffu32) as u8) == b3) by (bit_vector);
}

/// Bytes whose length is a multiple of four survive the trip to words and back.
pub proof fn lemma_bytes_roundtrip(b: Seq<u8>)
    requires
        b.len() % 4 == 0,
    ensures
        le_bytes_of_words(words_from_le_bytes(b)) == b,
{
    let w = words_from_le_bytes(b);
    let r = le_bytes_of_words(w);
    assert forall|j: int| 0 <= j < b.len() implies r[j] == b[j] by {
        let i = j / 4;
        let k = j % 4;
        assert(0 <= i < w.len());
        assert(j == 4 * i + k);
        lemma_bytes_word_bytes(b[4 * i], b[4 * i + 1], b[4 * i + 2], b[4 * i + 3]);
    }
    assert(r =~= b);
}

/// Words survive the trip to bytes and back.
pub proof fn lemma_words_roundtrip(w: Seq<u32>)
    ensures
        words_from_le_bytes(le_bytes_of_words(w)) == w,
{
    let b = le_bytes_of_words(w);
    let r = words_from_le_bytes(b);
    assert(b.len() / 4 == w.len());
    assert forall|i: int| 0 <= i < w.len() implies r[i] == w[i] by {
        assert((4 * i) / 4 == i && (4 * i) % 4 == 0);
        assert((4 * i + 1) / 4 == i && (4 * i + 1) % 4 == 1);
        assert((4 * i + 2) / 4 == i && (4 * i + 2) % 4 == 2);
        assert((4 * i + 3) / 4 == i && (4 * i + 3) % 4 == 3);
        lemma_word_bytes_word(w[i]);
    }
    assert(r =~= w);
}

/// Position law of the element bytes: byte `j` of the bytes of `w` is byte `j % 4`
/// (least significant first) of element `j / 4`, for every element alike.
pub proof fn law_le_bytes_position(w: Seq<u32>, j: int)
    requires
        0 <= j < 4 * w.len(),
    ensures
        le_bytes_of_words(w).len() == 4 * w.len(),
        le_bytes_of_words(w)[j] == ((w[j / 4] >> ((8 * (j % 4)) as u32)) & 0xffu32) as u8,
{
    let x = w[j / 4];
    let k = j % 4;
    assert(x >> 0u32 == x) by (bit_vector);
    if k == 0 {
        assert(((8 * k) as u32) == 0u32);
    } else if k == 1 {
        assert(((8 * k) as u32) == 8u32);
    } else if k == 2 {
        assert(((8 * k) as u32) == 16u32);
    } else {
        assert(((8 * k) as u32) == 24u32);
    }
}

/// Position law of the element words: element `i` read from bytes `b` is the
/// little-endian value of bytes `4i .. 4i + 3`, for every element alike.
pub proof fn law_le_words_position(b: Seq<u8>, i: int)
    requires
        0 <= i < b.len() / 4,
    ensures
        words_from_le_bytes(b).len() == b.len() / 4,
        words_from_le_bytes(b)[i] as int == b[4 * i] + 256 * b[4 * i + 1] + 65536 * b[4 * i + 2]
            + 16777216 * b[4 * i + 3],
{
    let b0 = b[4 * i];
    let b1 = b[4 * i + 1];
    let b2 = b[4 * i + 2];
    let b3 = b[4 * i + 3];
    assert((b0 as u32) | ((b1 as u32) << 8u32) | ((b2 as u32) << 16u32) | ((b3 as u32) << 24u32)
        == b0 + 256 * b1 + 65536 * b2 + 16777216 * b3) by (bit_vector);
}

} // verus!
