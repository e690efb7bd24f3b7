//! Small helpers on text.

use vstd::prelude::*;
use vstd::string::{StringExecFns, StringSliceAdditionalSpecFns};
use vstd::utf8::{
    encode_utf8_valid_utf8, is_char_boundary, is_char_boundary_iff_not_is_continuation_byte,
    is_char_boundary_start_end_of_seq, is_continuation_byte,
};

verus! {

/// The greeting for `name`: `Hello `, the name, and an exclamation mark.
pub open spec fn greeting_spec(name: Seq<char>) -> Seq<char> {
    "Hello "@ + name + "!"@
}

/// Greets `name`.
pub fn greeting(name: &str) -> (text: String)
    ensures
        text@ == greeting_spec(name@),
{
    let mut text = "Hello ".to_owned();
    text.append(name);
    text.append("!");
    text
}

/// The byte that encodes a space.
pub const SPACE: u8 = 0x20;

/// Whether `end` is where the first word of `bytes` ends: no byte before it
/// is a space, and it is the place of a space or the end of the text.
pub open spec fn is_first_word_end(bytes: Seq<u8>, end: int) -> bool {
    &&& 0 <= end <= bytes.len()
    &&& forall|i: int| 0 <= i < end ==> bytes[i] != SPACE
    &&& end < bytes.len() ==> bytes[end] == SPACE
}

/// The number of bytes before the first space of `bytes`, or the number of
/// all its bytes if it has no space.
pub open spec fn first_word_len(bytes: Seq<u8>) -> int
    decreases bytes.len(),
{
    if bytes.len() == 0 || bytes.first() == SPACE {
        0
    } else {
        1 + first_word_len(bytes.drop_first())
    }
}

/// The first word ends where `first_word_len` says, and nowhere else.
pub proof fn lemma_first_word_end_is_unique(bytes: Seq<u8>, end: int)
    ensures
        is_first_word_end(bytes, end) <==> end == first_word_len(bytes),
    decreases bytes.len(),
{
    if bytes.len() == 0 || bytes.first() == SPACE {
        if is_first_word_end(bytes, end) && end > 0 {
            assert(bytes[0] != SPACE);
        }
    } else {
        let rest = bytes.drop_first();
        lemma_first_word_end_is_unique(rest, end - 1);
        if is_first_word_end(bytes, end) {
            assert(end >= 1);
            assert forall|i: int| 0 <= i < end - 1 implies rest[i] != SPACE by {
                assert(rest[i] == bytes[i + 1]);
            }
            assert(is_first_word_end(rest, end - 1));
        }
        if end == first_word_len(bytes) {
            assert(is_first_word_end(rest, end - 1));
            assert forall|i: int| 0 <= i < end implies bytes[i] != SPACE by {
                if i > 0 {
                    assert(rest[i - 1] == bytes[i]);
                }
            }
            if end < bytes.len() {
                assert(rest[end - 1] == bytes[end]);
            }
        }
    }
}

/// The place, in bytes, where the first word of `text` ends: that of its
/// first space, or its length if it has none.
pub fn first_word_end(text: &str) -> (end: usize)
    ensures
        end == first_word_len(text.spec_bytes()),
        is_first_word_end(text.spec_bytes(), end as int),
{
    let bytes = text.as_bytes();
    let mut i: usize = 0;
    while i < bytes.len() && bytes[i] != SPACE
        invariant
            i <= bytes.len(),
            forall|j: int| 0 <= j < i ==> bytes@[j] != SPACE,
        decreases bytes.len() - i,
    {
        i += 1;
    }
    proof {
        lemma_first_word_end_is_unique(text.spec_bytes(), i as int);
    }
    i
}

/// The first word of `text`: what stands before its first space, or all of
/// it if it has none.
pub fn first_word(text: &str) -> (word: &str)
    ensures
        word.spec_bytes() == text.spec_bytes().subrange(0, first_word_len(text.spec_bytes())),
{
    let end = first_word_end(text);
    proof {
        let bytes = text.spec_bytes();
        encode_utf8_valid_utf8(text@);
        if end < bytes.len() {
            assert(!is_continuation_byte(bytes[end as int]));
            is_char_boundary_iff_not_is_continuation_byte(bytes, end as int);
        } else {
            is_char_boundary_start_end_of_seq(bytes);
        }
        assert(is_char_boundary(bytes, end as int));
    }
    let (word, _) = text.split_at(end);
    word
}

/// The longer of two texts, by their length in bytes; the second one if
/// neither is longer.
pub fn longest<'a>(first: &'a str, second: &'a str) -> (longer: &'a str)
    ensures
        first.spec_bytes().len() > second.spec_bytes().len() ==> longer@ == first@,
        first.spec_bytes().len() <= second.spec_bytes().len() ==> longer@ == second@,
{
    if first.as_bytes().len() > second.as_bytes().len() {
        first
    } else {
        second
    }
}

} // verus!
