//! The layout of a journal: the bytes in which a proof program commits its public
//! output.
//!
//! A journal is a run of 32-bit words, each written low byte first. A number takes
//! one word, or two with the low word first. A text takes one word for its length
//! in bytes, then its UTF-8 bytes, filled up to a whole word with bytes whose
//! value does not matter.

use vstd::prelude::*;
use vstd::slice::*;
use vstd::utf8::*;

verus! {

/// The number of bytes of a word.
pub const WORD_BYTES: usize = 4;

/// Whether the bytes are a whole number of words.
pub open spec fn whole_words(journal: Seq<u8>) -> bool {
    journal.len() % 4 == 0
}

/// The value of the four bytes from `at` on, the low byte first.
pub open spec fn word_value(journal: Seq<u8>, at: int) -> int {
    journal[at] as int + journal[at + 1] as int * 0x100 + journal[at + 2] as int * 0x1_0000
        + journal[at + 3] as int * 0x100_0000
}

/// The word at `at` and the place behind it; `None` where the journal ends before
/// the word does.
pub open spec fn word(journal: Seq<u8>, at: int) -> Option<(u32, int)> {
    if 0 <= at && at + 4 <= journal.len() {
        Some((word_value(journal, at) as u32, at + 4))
    } else {
        None
    }
}

/// The 64-bit number at `at`, low word first, and the place behind it.
pub open spec fn double_word(journal: Seq<u8>, at: int) -> Option<(u64, int)> {
    match word(journal, at) {
        Some((low, middle)) => match word(journal, middle) {
            Some((high, next)) => Some(((low as int + high as int * 0x1_0000_0000) as u64, next)),
            None => None,
        },
        None => None,
    }
}

/// The number of bytes that a text of `len` bytes takes with its filling.
pub open spec fn filled(len: int) -> int {
    (len + 3) / 4 * 4
}

/// The text at `at` and the place behind its filling; `None` where the journal ends
/// before the text or its filling does, and where the bytes are not UTF-8.
pub open spec fn text(journal: Seq<u8>, at: int) -> Option<(Seq<char>, int)> {
    match word(journal, at) {
        Some((len, start)) => {
            let bytes = journal.subrange(start, start + len);
            if start + filled(len as int) <= journal.len() && valid_utf8(bytes) {
                Some((decode_utf8(bytes), start + filled(len as int)))
            } else {
                None
            }
        },
        None => None,
    }
}

/// Turns UTF-8 bytes into a text with `String::from_utf8`.
///
/// Trusted: the conversion succeeds exactly on valid UTF-8, and the text then holds
/// the characters that the bytes encode.
#[verifier::external_body]
fn text_from_utf8(bytes: Vec<u8>) -> (made: Option<String>)
    ensures
        made is Some <==> valid_utf8(bytes@),
        made matches Some(text) ==> text@ == decode_utf8(bytes@),
{
    String::from_utf8(bytes).ok()
}

/// Reads the word at `at`.
pub fn read_word(journal: &[u8], at: usize) -> (read: Option<(u32, usize)>)
    ensures
        match read {
            Some((value, next)) => word(journal@, at as int) == Some((value, next as int)),
            None => word(journal@, at as int) is None,
        },
{
    if journal.len() < WORD_BYTES || at > journal.len() - WORD_BYTES {
        return None;
    }
    let b0: u32 = journal[at] as u32;
    let b1: u32 = journal[at + 1] as u32;
    let b2: u32 = journal[at + 2] as u32;
    let b3: u32 = journal[at + 3] as u32;
    let value: u32 = b0 + b1 * 0x100 + b2 * 0x1_0000 + b3 * 0x100_0000;
    Some((value, at + WORD_BYTES))
}

/// Reads the 64-bit number at `at`.
pub fn read_double_word(journal: &[u8], at: usize) -> (read: Option<(u64, usize)>)
    ensures
        match read {
            Some((value, next)) => double_word(journal@, at as int) == Some((value, next as int)),
            None => double_word(journal@, at as int) is None,
        },
{
    match read_word(journal, at) {
        None => None,
        Some((low, middle)) => match read_word(journal, middle) {
            None => None,
            Some((high, next)) => {
                let value: u64 = low as u64 + (high as u64) * 0x1_0000_0000;
                Some((value, next))
            },
        },
    }
}

/// Reads the text at `at`.
pub fn read_text(journal: &[u8], at: usize) -> (read: Option<(String, usize)>)
    ensures
        match read {
            Some((found, next)) => text(journal@, at as int) == Some((found@, next as int)),
            None => text(journal@, at as int) is None,
        },
{
    match read_word(journal, at) {
        None => None,
        Some((len, start)) => {
            let left: u64 = (journal.len() - start) as u64;
            let taken: u64 = (len as u64 + 3) / 4 * 4;
            if taken > left {
                return None;
            }
            let end: usize = start + len as usize;
            let bytes = slice_to_vec(slice_subrange(journal, start, end));
            match text_from_utf8(bytes) {
                None => None,
                Some(found) => Some((found, start + taken as usize)),
            }
        },
    }
}

/// The four bytes of a word, the low byte first.
#[verifier::opaque]
pub open spec fn word_bytes(value: u32) -> Seq<u8> {
    seq![
        (value as int % 0x100) as u8,
        (value as int / 0x100 % 0x100) as u8,
        (value as int / 0x1_0000 % 0x100) as u8,
        (value as int / 0x100_0000) as u8,
    ]
}

/// The eight bytes of a 64-bit number, the low word first.
#[verifier::opaque]
pub open spec fn double_word_bytes(value: u64) -> Seq<u8> {
    word_bytes((value as int % 0x1_0000_0000) as u32) + word_bytes(
        (value as int / 0x1_0000_0000) as u32,
    )
}

/// The bytes of a text: the length of its UTF-8 bytes as a word, the bytes, and
/// zeros up to a whole word.
#[verifier::opaque]
pub open spec fn text_bytes(chars: Seq<char>) -> Seq<u8> {
    let utf8 = encode_utf8(chars);
    word_bytes(utf8.len() as u32) + utf8 + Seq::new(
        (filled(utf8.len() as int) - utf8.len()) as nat,
        |i: int| 0u8,
    )
}

/// Whether the text is short enough for its length to be written as a word.
pub open spec fn text_fits(chars: Seq<char>) -> bool {
    encode_utf8(chars).len() <= u32::MAX
}

/// The four bytes of a word make up the word.
proof fn lemma_word_bytes_make_the_word(value: u32)
    ensures
        word_bytes(value).len() == 4,
        word_value(word_bytes(value), 0) == value,
{
    reveal(word_bytes);
    let v = value as int;
    let b0 = v % 0x100;
    let b1 = v / 0x100 % 0x100;
    let b2 = v / 0x1_0000 % 0x100;
    let b3 = v / 0x100_0000;
    assert(b0 + b1 * 0x100 + b2 * 0x1_0000 + b3 * 0x100_0000 == v);
    assert(0 <= b3 < 0x100);
    let bytes = word_bytes(value);
    assert(bytes[0] as int == b0);
    assert(bytes[1] as int == b1);
    assert(bytes[2] as int == b2);
    assert(bytes[3] as int == b3);
}

/// A word that was written is the word that is read, wherever it stands.
pub proof fn lemma_word_reads_back(before: Seq<u8>, value: u32, after: Seq<u8>)
    ensures
        word(before + word_bytes(value) + after, before.len() as int) == Some(
            (value, before.len() as int + 4),
        ),
        word_bytes(value).len() == 4,
{
    lemma_word_bytes_make_the_word(value);
    let bytes = word_bytes(value);
    let journal = before + bytes + after;
    let at = before.len() as int;
    assert(journal.len() == before.len() + 4 + after.len());
    assert(journal[at] == bytes[0]);
    assert(journal[at + 1] == bytes[1]);
    assert(journal[at + 2] == bytes[2]);
    assert(journal[at + 3] == bytes[3]);
    assert(word_value(journal, at) == word_value(bytes, 0));
}

/// A 64-bit number that was written is the number that is read.
pub proof fn lemma_double_word_reads_back(before: Seq<u8>, value: u64, after: Seq<u8>)
    ensures
        double_word(before + double_word_bytes(value) + after, before.len() as int) == Some(
            (value, before.len() as int + 8),
        ),
        double_word_bytes(value).len() == 8,
{
    reveal(double_word_bytes);
    let low = (value as int % 0x1_0000_0000) as u32;
    let high = (value as int / 0x1_0000_0000) as u32;
    let journal = before + double_word_bytes(value) + after;
    assert(journal =~= before + word_bytes(low) + (word_bytes(high) + after));
    lemma_word_reads_back(before, low, word_bytes(high) + after);
    assert(journal =~= (before + word_bytes(low)) + word_bytes(high) + after);
    lemma_word_reads_back(before + word_bytes(low), high, after);
}

/// A text that was written is the text that is read, and takes a whole number of
/// words.
pub proof fn lemma_text_reads_back(before: Seq<u8>, chars: Seq<char>, after: Seq<u8>)
    requires
        text_fits(chars),
    ensures
        text(before + text_bytes(chars) + after, before.len() as int) == Some(
            (chars, before.len() as int + text_bytes(chars).len()),
        ),
        text_bytes(chars).len() % 4 == 0,
{
    reveal(text_bytes);
    let utf8 = encode_utf8(chars);
    let len = utf8.len() as u32;
    let filling = Seq::new((filled(utf8.len() as int) - utf8.len()) as nat, |i: int| 0u8);
    let journal = before + text_bytes(chars) + after;
    let start: int = before.len() as int + 4;
    assert(journal =~= before + word_bytes(len) + (utf8 + filling + after));
    lemma_word_reads_back(before, len, utf8 + filling + after);
    assert(journal.subrange(start, start + len) =~= utf8);
    encode_utf8_valid_utf8(chars);
    encode_utf8_decode_utf8(chars);
}

} // verus!
