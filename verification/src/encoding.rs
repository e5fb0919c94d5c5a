//! Characters and bytes.
//!
//! A text is modelled as its characters, yet `String` counts and addresses
//! bytes of the UTF-8 encoding. This module relates the two: what an edit at
//! a byte position does to the characters, and how lengths compare.
use crate::std_specs::spliced;
use vstd::prelude::*;
use vstd::string::StringSliceAdditionalSpecFns;
use vstd::utf8::{
    decode_utf8, decode_utf8_encode_utf8, decode_utf8_split, encode_utf8, encode_utf8_decode_utf8,
    encode_utf8_valid_utf8, is_char_boundary, is_char_boundary_iff_not_is_continuation_byte,
    is_char_boundary_start_end_of_seq, valid_utf8, valid_utf8_split,
};

verus! {

/// The text `text` with `added` put in at byte position `idx`.
pub open spec fn inserted_at(text: Seq<char>, idx: int, added: Seq<char>) -> Seq<char> {
    head_at(text, idx) + added + tail_at(text, idx)
}

/// The characters of `text` that are encoded in the bytes `start..end`.
pub open spec fn char_range(text: Seq<char>, start: int, end: int) -> Seq<char> {
    decode_utf8(encode_utf8(text).subrange(start, end))
}

/// The characters encoded before byte position `idx` of `text`.
pub open spec fn head_at(text: Seq<char>, idx: int) -> Seq<char> {
    char_range(text, 0, idx)
}

/// The characters encoded from byte position `idx` of `text` on.
pub open spec fn tail_at(text: Seq<char>, idx: int) -> Seq<char> {
    char_range(text, idx, encode_utf8(text).len() as int)
}

/// Whether `start..end` is a range of byte positions of `text` that begins
/// and ends on character boundaries.
pub open spec fn is_char_range(text: Seq<char>, start: int, end: int) -> bool {
    &&& start <= end
    &&& is_char_boundary(encode_utf8(text), start)
    &&& is_char_boundary(encode_utf8(text), end)
}

/// The byte position at which the character of index `k` of `text` begins;
/// for `k` the number of characters, the length in bytes.
pub open spec fn byte_position(text: Seq<char>, k: int) -> int {
    encode_utf8(text.take(k)).len() as int
}

/// Whether the text `after` is at least as long as `before`, in characters
/// and in bytes.
pub open spec fn no_shorter(after: Seq<char>, before: Seq<char>) -> bool {
    &&& after.len() >= before.len()
    &&& encode_utf8(after).len() >= encode_utf8(before).len()
}

/// Encoding goes character by character: the encoding of two texts joined
/// is their encodings joined.
pub proof fn lemma_encode_concat(a: Seq<char>, b: Seq<char>)
    ensures
        encode_utf8(a + b) == encode_utf8(a) + encode_utf8(b),
    decreases a.len(),
{
    if a.len() == 0 {
        assert(a + b =~= b);
        assert(encode_utf8(a) + encode_utf8(b) =~= encode_utf8(b));
    } else {
        lemma_encode_concat(a.drop_first(), b);
        assert((a + b).drop_first() =~= a.drop_first() + b);
        assert(encode_utf8(a + b) =~= encode_utf8(a) + encode_utf8(b));
    }
}

/// Every character takes at least one byte.
pub proof fn lemma_encode_len(text: Seq<char>)
    ensures
        encode_utf8(text).len() >= text.len(),
    decreases text.len(),
{
    if text.len() > 0 {
        lemma_encode_len(text.drop_first());
    }
}

/// A byte position on a character boundary cuts a text into the characters
/// before it and those after it.
pub proof fn lemma_cut(text: Seq<char>, idx: int)
    requires
        is_char_boundary(encode_utf8(text), idx),
    ensures
        0 <= idx <= encode_utf8(text).len(),
        text == head_at(text, idx) + tail_at(text, idx),
        encode_utf8(head_at(text, idx)) == encode_utf8(text).subrange(0, idx),
        encode_utf8(tail_at(text, idx)) == encode_utf8(text).subrange(
            idx,
            encode_utf8(text).len() as int,
        ),
{
    let bytes = encode_utf8(text);
    encode_utf8_valid_utf8(text);
    encode_utf8_decode_utf8(text);
    lemma_boundary_in_range(bytes, idx);
    valid_utf8_split(bytes, idx);
    decode_utf8_split(bytes, idx);
    decode_utf8_encode_utf8(bytes.subrange(0, idx));
    decode_utf8_encode_utf8(bytes.subrange(idx, bytes.len() as int));
}

/// A character boundary lies within the bytes.
pub proof fn lemma_boundary_in_range(bytes: Seq<u8>, idx: int)
    requires
        valid_utf8(bytes),
        is_char_boundary(bytes, idx),
    ensures
        0 <= idx <= bytes.len(),
{
    reveal_with_fuel(is_char_boundary, 2);
}

/// What putting bytes in at a character boundary does to the characters:
/// a text whose encoding is that of `text` with the encoding of `added`
/// spliced in at `idx` is `text` with `added` inserted there.
pub proof fn lemma_splice(text: Seq<char>, idx: int, added: Seq<char>, result: Seq<char>)
    requires
        is_char_boundary(encode_utf8(text), idx),
        encode_utf8(result) == spliced(encode_utf8(text), idx, encode_utf8(added)),
    ensures
        result == inserted_at(text, idx, added),
        result.len() == text.len() + added.len(),
        no_shorter(result, text),
{
    let head = head_at(text, idx);
    let tail = tail_at(text, idx);
    lemma_cut(text, idx);
    lemma_encode_concat(head, added);
    lemma_encode_concat(head + added, tail);
    assert(encode_utf8(head + added + tail) == encode_utf8(result));
    encode_utf8_decode_utf8(head + added + tail);
    encode_utf8_decode_utf8(result);
}

/// The byte position of a character is a character boundary, and it cuts
/// the text before that character.
pub proof fn lemma_byte_position(text: Seq<char>, k: int)
    requires
        0 <= k <= text.len(),
    ensures
        is_char_boundary(encode_utf8(text), byte_position(text, k)),
        head_at(text, byte_position(text, k)) == text.take(k),
        tail_at(text, byte_position(text, k)) == text.skip(k),
{
    let bytes = encode_utf8(text);
    let head = encode_utf8(text.take(k));
    let tail = encode_utf8(text.skip(k));
    assert(text =~= text.take(k) + text.skip(k));
    lemma_encode_concat(text.take(k), text.skip(k));
    encode_utf8_valid_utf8(text);
    encode_utf8_valid_utf8(text.skip(k));
    if tail.len() == 0 {
        assert(bytes =~= head);
        is_char_boundary_start_end_of_seq(bytes);
    } else {
        is_char_boundary_start_end_of_seq(tail);
        is_char_boundary_iff_not_is_continuation_byte(tail, 0);
        is_char_boundary_iff_not_is_continuation_byte(bytes, head.len() as int);
    }
    assert(bytes.subrange(0, head.len() as int) =~= head);
    assert(bytes.subrange(head.len() as int, bytes.len() as int) =~= tail);
    encode_utf8_decode_utf8(text.take(k));
    encode_utf8_decode_utf8(text.skip(k));
}

/// A character boundary of some bytes is one of every prefix that ends on a
/// character boundary at or after it.
pub proof fn lemma_boundary_in_prefix(bytes: Seq<u8>, start: int, end: int)
    requires
        valid_utf8(bytes),
        start <= end,
        is_char_boundary(bytes, start),
        is_char_boundary(bytes, end),
    ensures
        0 <= start <= end <= bytes.len(),
        valid_utf8(bytes.subrange(0, end)),
        is_char_boundary(bytes.subrange(0, end), start),
{
    lemma_boundary_in_range(bytes, start);
    lemma_boundary_in_range(bytes, end);
    valid_utf8_split(bytes, end);
    let prefix = bytes.subrange(0, end);
    if start == end {
        is_char_boundary_start_end_of_seq(prefix);
    } else {
        is_char_boundary_iff_not_is_continuation_byte(bytes, start);
        is_char_boundary_iff_not_is_continuation_byte(prefix, start);
    }
}

/// The part of `text` in the bytes `start..end`, which must begin and end
/// on character boundaries.
pub fn slice<'a>(text: &'a str, start: usize, end: usize) -> (res: &'a str)
    requires
        is_char_range(text@, start as int, end as int),
    ensures
        res@ == char_range(text@, start as int, end as int),
        encode_utf8(res@) == encode_utf8(text@).subrange(start as int, end as int),
{
    proof {
        encode_utf8_valid_utf8(text@);
        lemma_boundary_in_prefix(encode_utf8(text@), start as int, end as int);
    }
    let (upto, _) = text.split_at(end);
    let (_, part) = upto.split_at(start);
    proof {
        assert(encode_utf8(text@).subrange(0, end as int).subrange(start as int, end as int)
            =~= encode_utf8(text@).subrange(start as int, end as int));
        encode_utf8_decode_utf8(part@);
    }
    part
}

} // verus!
