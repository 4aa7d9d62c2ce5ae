//! From a program image to its instruction words.
//!
//! The bytes at the offsets `2k` and `2k + 1` form word `k`, the first of
//! them as its high byte. The word's address is its offset plus the load
//! base. An image of odd length ends in a byte without a partner: it is
//! part of no word, and [`load`] hands it back apart from the words.

use vstd::prelude::*;

verus! {

/// The address at which a program conventionally starts.
pub const PROGRAM_BASE: usize = 0x200;

/// The big-endian word made of two bytes.
pub open spec fn word_of(high: u8, low: u8) -> u16 {
    (high as int * 0x100 + low as int) as u16
}

/// How many words an image holds: one for each full pair of bytes.
pub open spec fn word_count(bytes: Seq<u8>) -> nat {
    bytes.len() / 2
}

/// Word `k` of an image.
pub open spec fn word_at(bytes: Seq<u8>, k: int) -> u16
    recommends
        0 <= k < word_count(bytes),
{
    word_of(bytes[2 * k], bytes[2 * k + 1])
}

/// The address of word `k` of an image loaded at `base`.
pub open spec fn address_at(base: usize, k: int) -> usize
    recommends
        0 <= k,
        base + 2 * k <= usize::MAX,
{
    (base + 2 * k) as usize
}

/// The words of an image loaded at `base`, each with its address, in
/// ascending order of address.
pub open spec fn words_of(bytes: Seq<u8>, base: usize) -> Seq<(usize, u16)> {
    Seq::new(word_count(bytes), |k: int| (address_at(base, k), word_at(bytes, k)))
}

/// The last byte of an image of odd length, which belongs to no word.
pub open spec fn trailing_of(bytes: Seq<u8>) -> Option<u8> {
    if bytes.len() % 2 == 1 {
        Some(bytes.last())
    } else {
        None
    }
}

/// Pairing loses nothing: the two bytes are the two base-256 digits of the
/// word.
pub proof fn lemma_word_bytes(high: u8, low: u8)
    ensures
        word_of(high, low) / 0x100 == high,
        word_of(high, low) % 0x100 == low,
{
}

/// Every byte of an image is in exactly one word, but for the last byte of
/// an image of odd length.
pub proof fn lemma_bytes_accounted(bytes: Seq<u8>)
    ensures
        trailing_of(bytes) is None ==> bytes.len() == 2 * word_count(bytes),
        trailing_of(bytes) is Some ==> bytes.len() == 2 * word_count(bytes) + 1,
        trailing_of(bytes) is Some ==> trailing_of(bytes) == Some(bytes[bytes.len() - 1]),
{
}

/// Addresses start at the base, go up in steps of two, and so ascend.
pub proof fn lemma_addresses_ascend(bytes: Seq<u8>, base: usize, i: int, j: int)
    requires
        base + bytes.len() <= usize::MAX,
        0 <= i < j < word_count(bytes),
    ensures
        words_of(bytes, base).len() == word_count(bytes),
        words_of(bytes, base)[i].0 == base + 2 * i,
        words_of(bytes, base)[j].0 == base + 2 * j,
        words_of(bytes, base)[i].0 < words_of(bytes, base)[j].0,
{
}

/// A loaded program.
#[derive(Debug)]
pub struct Program {
    /// The words with their addresses, in ascending order of address.
    pub words: Vec<(usize, u16)>,
    /// The byte left over where the image has an odd length.
    pub trailing: Option<u8>,
}

/// Joins two bytes into a big-endian word.
pub fn join_bytes(high: u8, low: u8) -> (word: u16)
    ensures
        word == word_of(high, low),
        word == high * 0x100 + low,
{
    let h: u16 = high as u16;
    let l: u16 = low as u16;
    assert((h << 8) | l == h * 0x100 + l) by (bit_vector)
        requires
            h < 0x100,
            l < 0x100,
    ;
    (h << 8) | l
}

/// Word `k` of an image loaded at `base`, with its address; `None` from the
/// word count on.
pub fn entry(bytes: &[u8], base: usize, k: usize) -> (found: Option<(usize, u16)>)
    requires
        base + bytes@.len() <= usize::MAX,
    ensures
        found == if k < word_count(bytes@) {
            Some((address_at(base, k as int), word_at(bytes@, k as int)))
        } else {
            None
        },
{
    if k < bytes.len() / 2 {
        let word = join_bytes(bytes[2 * k], bytes[2 * k + 1]);
        Some((base + 2 * k, word))
    } else {
        None
    }
}

/// Loads an image at `base`: pairs its bytes into words, and hands back the
/// unpaired last byte of an image of odd length.
pub fn load(bytes: &[u8], base: usize) -> (program: Program)
    requires
        base + bytes@.len() <= usize::MAX,
    ensures
        program.words@ == words_of(bytes@, base),
        program.trailing == trailing_of(bytes@),
{
    let count: usize = bytes.len() / 2;
    let mut words: Vec<(usize, u16)> = Vec::new();
    let mut k: usize = 0;
    while k < count
        invariant
            count == word_count(bytes@),
            base + bytes@.len() <= usize::MAX,
            k <= count,
            words@.len() == k,
            forall|j: int|
                0 <= j < k ==> words@[j] == (address_at(base, j), word_at(bytes@, j)),
        decreases count - k,
    {
        let word = join_bytes(bytes[2 * k], bytes[2 * k + 1]);
        words.push((base + 2 * k, word));
        k += 1;
    }
    assert(words@ =~= words_of(bytes@, base));
    let trailing = if bytes.len() % 2 == 1 {
        Some(bytes[bytes.len() - 1])
    } else {
        None
    };
    Program { words, trailing }
}

} // verus!
