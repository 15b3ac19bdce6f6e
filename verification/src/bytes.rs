//! Little-endian packing of bytes into the 32-bit words of the DMA buffers.

use vstd::prelude::*;

verus! {

/// Byte `k` of a word, the least significant first.
pub open spec fn word_byte(word: u32, k: int) -> u8 {
    if k == 0 {
        (word % 0x100) as u8
    } else if k == 1 {
        (word / 0x100 % 0x100) as u8
    } else if k == 2 {
        (word / 0x1_0000 % 0x100) as u8
    } else {
        (word / 0x100_0000) as u8
    }
}

/// The word whose bytes are `b0` to `b3`, the least significant first.
pub open spec fn word_of(b0: u8, b1: u8, b2: u8, b3: u8) -> u32 {
    (b0 + 0x100 * b1 + 0x1_0000 * b2 + 0x100_0000 * b3) as u32
}

/// The bytes that a sequence of words holds.
pub open spec fn bytes_of(words: Seq<u32>) -> Seq<u8> {
    Seq::new(4 * words.len(), |i: int| word_byte(words[i / 4], i % 4))
}

/// Byte `i` of a sequence, or zero past its end.
pub open spec fn byte_or_zero(bytes: Seq<u8>, i: int) -> u8 {
    if 0 <= i < bytes.len() {
        bytes[i]
    } else {
        0
    }
}

/// The words that hold a sequence of bytes; the last is filled up with zeros.
pub open spec fn words_of(bytes: Seq<u8>) -> Seq<u32> {
    Seq::new(
        (bytes.len() + 3) / 4,
        |w: int|
            word_of(
                byte_or_zero(bytes, 4 * w),
                byte_or_zero(bytes, 4 * w + 1),
                byte_or_zero(bytes, 4 * w + 2),
                byte_or_zero(bytes, 4 * w + 3),
            ),
    )
}

/// The low and the high byte of a 16-bit value.
pub open spec fn half_bytes(value: u16) -> Seq<u8> {
    seq![(value % 0x100) as u8, (value / 0x100) as u8]
}

/// Reading the words of a packed sequence gives back the sequence.
pub proof fn law_unpack_pack(bytes: Seq<u8>)
    ensures
        bytes_of(words_of(bytes)).take(bytes.len() as int) == bytes,
{
    assert forall|i: int| 0 <= i < bytes.len() implies bytes_of(words_of(bytes))[i]
        == bytes[i] by {
        let w = i / 4;
        let b0 = byte_or_zero(bytes, 4 * w);
        let b1 = byte_or_zero(bytes, 4 * w + 1);
        let b2 = byte_or_zero(bytes, 4 * w + 2);
        let b3 = byte_or_zero(bytes, 4 * w + 3);
        lemma_word_bytes(b0, b1, b2, b3);
        assert(words_of(bytes)[w] == word_of(b0, b1, b2, b3));
    }
    assert(bytes_of(words_of(bytes)).take(bytes.len() as int) =~= bytes);
}

/// Packing the bytes of a sequence of words gives back the words.
pub proof fn law_pack_unpack(words: Seq<u32>)
    ensures
        words_of(bytes_of(words)) == words,
{
    let bytes = bytes_of(words);
    assert forall|w: int| 0 <= w < words.len() implies words_of(bytes)[w] == words[w] by {
        assert(bytes[4 * w] == word_byte(words[w], 0));
        assert(bytes[4 * w + 1] == word_byte(words[w], 1));
        assert(bytes[4 * w + 2] == word_byte(words[w], 2));
        assert(bytes[4 * w + 3] == word_byte(words[w], 3));
        lemma_word_of_bytes(words[w]);
    }
    assert(words_of(bytes) =~= words);
}

/// The bytes of a word come out of it by shifting, the least significant first.
pub proof fn law_bytes_shifted(words: Seq<u32>, i: int)
    requires
        0 <= i < 4 * words.len(),
    ensures
        bytes_of(words).len() == 4 * words.len(),
        bytes_of(words)[i] == (words[i / 4] >> ((8 * (i % 4)) as u32)) & 0xff,
{
    lemma_shifted_byte(words[i / 4], i % 4);
}

/// Byte `k` of word `w` of a packed sequence is byte `4 * w + k` of the sequence,
/// or zero past its end, and there are no more words than it takes.
pub proof fn law_words_shifted(bytes: Seq<u8>, w: int, k: int)
    requires
        0 <= w < words_of(bytes).len(),
        0 <= k < 4,
    ensures
        bytes.len() <= 4 * words_of(bytes).len() < bytes.len() + 4,
        (words_of(bytes)[w] >> ((8 * k) as u32)) & 0xff == (if 4 * w + k < bytes.len() {
            bytes[4 * w + k]
        } else {
            0
        }),
{
    lemma_word_bytes(
        byte_or_zero(bytes, 4 * w),
        byte_or_zero(bytes, 4 * w + 1),
        byte_or_zero(bytes, 4 * w + 2),
        byte_or_zero(bytes, 4 * w + 3),
    );
    lemma_shifted_byte(words_of(bytes)[w], k);
}

/// The bytes of a 16-bit value are its low and then its high half.
pub proof fn law_half_bytes(value: u16)
    ensures
        half_bytes(value) == seq![(value & 0xff) as u8, (value >> 8) as u8],
{
    assert(value & 0xff == value % 0x100 && value >> 8 == value / 0x100) by (bit_vector);
}

proof fn lemma_shifted_byte(word: u32, k: int)
    requires
        0 <= k < 4,
    ensures
        word_byte(word, k) == (word >> ((8 * k) as u32)) & 0xff,
{
    assert((word >> 0u32) & 0xff == word % 0x100 && (word >> 8u32) & 0xff == word / 0x100 % 0x100
        && (word >> 16u32) & 0xff == word / 0x1_0000 % 0x100 && (word >> 24u32) & 0xff == word
        / 0x100_0000) by (bit_vector);
}

/// The bytes of a word are those it was made of.
proof fn lemma_word_bytes(b0: u8, b1: u8, b2: u8, b3: u8)
    ensures
        word_byte(word_of(b0, b1, b2, b3), 0) == b0,
        word_byte(word_of(b0, b1, b2, b3), 1) == b1,
        word_byte(word_of(b0, b1, b2, b3), 2) == b2,
        word_byte(word_of(b0, b1, b2, b3), 3) == b3,
{
    let word = word_of(b0, b1, b2, b3) as int;
    let upper3 = b1 + 0x100 * b2 + 0x1_0000 * b3;
    let upper2 = b2 + 0x100 * b3;
    assert(word == b0 + 0x100 * upper3);
    assert(word / 0x100 == upper3 && word % 0x100 == b0);
    assert(upper3 == b1 + 0x100 * upper2);
    assert(upper3 % 0x100 == b1);
    assert(word == (b0 + 0x100 * b1) + 0x1_0000 * upper2);
    assert(word / 0x1_0000 == upper2);
    assert(upper2 % 0x100 == b2);
    assert(word == (b0 + 0x100 * b1 + 0x1_0000 * b2) + 0x100_0000 * b3);
    assert(word / 0x100_0000 == b3);
}

/// A word is made of its bytes.
proof fn lemma_word_of_bytes(word: u32)
    ensures
        word_of(word_byte(word, 0), word_byte(word, 1), word_byte(word, 2), word_byte(word, 3))
            == word,
{
    let upper3 = word / 0x100;
    let upper2 = word / 0x1_0000;
    let upper1 = word / 0x100_0000;
    assert(word == word % 0x100 + 0x100 * upper3);
    assert(upper3 / 0x100 == upper2);
    assert(upper3 == upper3 % 0x100 + 0x100 * upper2);
    assert(upper2 / 0x100 == upper1);
    assert(upper2 == upper2 % 0x100 + 0x100 * upper1);
    assert(upper1 < 0x100);
}

/// Word `w` of the packing of `bytes`.
pub fn pack_word(bytes: &[u8], w: usize) -> (word: u32)
    requires
        w < words_of(bytes@).len(),
    ensures
        word == words_of(bytes@)[w as int],
{
    let len: usize = bytes.len();
    let i: usize = 4 * w;
    let rest: usize = len - i;
    let b0: u8 = bytes[i];
    let b1: u8 = if rest > 1 { bytes[i + 1] } else { 0 };
    let b2: u8 = if rest > 2 { bytes[i + 2] } else { 0 };
    let b3: u8 = if rest > 3 { bytes[i + 3] } else { 0 };
    let word: u32 = b0 as u32 | (b1 as u32) << 8 | (b2 as u32) << 16 | (b3 as u32) << 24;
    assert(word == b0 + 0x100 * b1 + 0x1_0000 * b2 + 0x100_0000 * b3) by (bit_vector)
        requires
            word == b0 as u32 | (b1 as u32) << 8 | (b2 as u32) << 16 | (b3 as u32) << 24,
    ;
    word
}

/// Byte `i` of the bytes that `words` hold.
pub fn unpack_byte(words: &[u32], i: usize) -> (byte: u8)
    requires
        i < 4 * words@.len(),
    ensures
        byte == bytes_of(words@)[i as int],
{
    let word: u32 = words[i / 4];
    let shift: u32 = 8 * (i % 4) as u32;
    let byte: u32 = (word >> shift) & 0xff;
    assert(byte == (if shift == 0 {
        word % 0x100
    } else if shift == 8 {
        word / 0x100 % 0x100
    } else if shift == 16 {
        word / 0x1_0000 % 0x100
    } else {
        word / 0x100_0000
    })) by (bit_vector)
        requires
            byte == (word >> shift) & 0xff,
            shift == 0 || shift == 8 || shift == 16 || shift == 24,
    ;
    byte as u8
}

/// Appends the low and then the high byte of `value`.
pub fn push_half(bytes: &mut Vec<u8>, value: u16)
    ensures
        final(bytes)@ == old(bytes)@ + half_bytes(value),
{
    let low: u16 = value & 0xff;
    let high: u16 = value >> 8;
    assert(low == value % 0x100 && high == value / 0x100) by (bit_vector)
        requires
            low == value & 0xff,
            high == value >> 8,
    ;
    bytes.push(low as u8);
    bytes.push(high as u8);
}

} // verus!
