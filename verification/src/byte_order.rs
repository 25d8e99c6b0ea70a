use vstd::prelude::*;
use byteorder::{BigEndian, ByteOrder};

verus! {

/// The 32-bit word whose big-endian encoding is the four given bytes,
/// most significant first.
pub open spec fn be_word(b0: u8, b1: u8, b2: u8, b3: u8) -> u32 {
    ((b0 as u32) << 24) | ((b1 as u32) << 16) | ((b2 as u32) << 8) | (b3 as u32)
}

/// Byte `i` (0 is the most significant) of the big-endian encoding of `word`.
pub open spec fn be_byte(word: u32, i: int) -> u8 {
    if i == 0 {
        (word >> 24) as u8
    } else if i == 1 {
        ((word >> 16) & 0xff) as u8
    } else if i == 2 {
        ((word >> 8) & 0xff) as u8
    } else {
        (word & 0xff) as u8
    }
}

/// The word stored big-endian in `mem` at byte offset `at`.
pub open spec fn word_at(mem: Seq<u8>, at: int) -> u32
    recommends
        0 <= at,
        at + 4 <= mem.len(),
{
    be_word(mem[at], mem[at + 1], mem[at + 2], mem[at + 3])
}

/// `mem` with `word` stored big-endian at byte offset `at`.
pub open spec fn store_word(mem: Seq<u8>, at: int, word: u32) -> Seq<u8>
    recommends
        0 <= at,
        at + 4 <= mem.len(),
{
    mem.update(at, be_byte(word, 0)).update(at + 1, be_byte(word, 1)).update(
        at + 2,
        be_byte(word, 2),
    ).update(at + 3, be_byte(word, 3))
}

/// Calls `byteorder::BigEndian::read_u32` on the bytes of `mem` that start
/// at `at`.  Trusted: the result is the big-endian value of the first four
/// of those bytes.  The outside function panics on fewer than four bytes,
/// which the precondition rules out.
#[verifier::external_body]
pub(crate) fn read_word_at(mem: &[u8], at: usize) -> (word: u32)
    requires
        at + 4 <= mem@.len(),
    ensures
        word == word_at(mem@, at as int),
{
    BigEndian::read_u32(&mem[at..])
}

/// Calls `byteorder::BigEndian::write_u32` on the bytes of `mem` that start
/// at `at`.  Trusted: exactly the first four of those bytes change, to the
/// big-endian encoding of `word`.  The outside function panics on fewer than
/// four bytes, which the precondition rules out.
#[verifier::external_body]
pub(crate) fn write_word_at(mem: &mut Vec<u8>, at: usize, word: u32)
    requires
        at + 4 <= old(mem)@.len(),
    ensures
        final(mem)@ == store_word(old(mem)@, at as int, word),
{
    BigEndian::write_u32(&mut mem[at..], word)
}

/// The four bytes of a word's encoding decode to the word.
pub proof fn lemma_be_round_trip(word: u32)
    ensures
        be_word(be_byte(word, 0), be_byte(word, 1), be_byte(word, 2), be_byte(word, 3)) == word,
{
    assert(((((word >> 24) as u8) as u32) << 24) | (((((word >> 16) & 0xff) as u8) as u32) << 16)
        | (((((word >> 8) & 0xff) as u8) as u32) << 8) | (((word & 0xff) as u8) as u32) == word)
        by (bit_vector);
}

/// A word read back from where it was stored is the word that was stored,
/// and the store keeps the memory's length.
pub proof fn lemma_store_then_read(mem: Seq<u8>, at: int, word: u32)
    requires
        0 <= at,
        at + 4 <= mem.len(),
    ensures
        store_word(mem, at, word).len() == mem.len(),
        word_at(store_word(mem, at, word), at) == word,
{
    lemma_be_round_trip(word);
}

/// A store leaves every byte outside its four untouched.
pub proof fn lemma_store_keeps_other_bytes(mem: Seq<u8>, at: int, word: u32, i: int)
    requires
        0 <= at,
        at + 4 <= mem.len(),
        0 <= i < mem.len(),
        i < at || i >= at + 4,
    ensures
        store_word(mem, at, word)[i] == mem[i],
{
}

} // verus!
