//! What holds of the operations of [`NonEmptyString`] taken together. Each
//! law is proved from the contracts of the functions that it names.
use crate::encoding::{
    byte_position, char_range, inserted_at, is_char_range, lemma_byte_position,
    lemma_encode_concat, no_shorter,
};
use crate::trait_impls::ordering::{
    lemma_lexicographic_equal, lemma_lexicographic_swap, lemma_lexicographic_transitive, text_order,
};
use crate::NonEmptyString;
use core::cmp::Ordering;
use vstd::prelude::*;
use vstd::std_specs::cmp::{PartialEqSpec, PartialOrdSpec};
use vstd::utf8::{encode_utf8, encode_utf8_decode_utf8, is_char_boundary};

verus! {

/// Wrapping a text that is not empty and unwrapping it again gives the text
/// back.
pub proof fn law_round_trip(text: String, made: NonEmptyString, out: String)
    requires
        text@.len() >= 1,
        call_ensures(NonEmptyString::new, (text,), Ok(made)),
        call_ensures(NonEmptyString::into_inner, (made,), out),
    ensures
        out@ == text@,
{
}

/// Unwrapping a value and wrapping what came out succeeds, and gives a
/// value equal to the first.
pub proof fn law_conversion_symmetry(
    value: NonEmptyString,
    text: String,
    back: Result<NonEmptyString, String>,
)
    requires
        value.inv(),
        call_ensures(NonEmptyString::into_inner, (value,), text),
        call_ensures(NonEmptyString::new, (text,), back),
    ensures
        back is Ok,
        back->Ok_0.eq_spec(&value),
{
}

/// Wrapping a text unchecked gives a value equal to the checked one.
pub proof fn law_unchecked_agrees(text: String, unchecked: NonEmptyString, checked: NonEmptyString)
    requires
        text@.len() >= 1,
        call_ensures(NonEmptyString::new_unchecked, (text,), unchecked),
        call_ensures(NonEmptyString::new, (text,), Ok(checked)),
    ensures
        unchecked.eq_spec(&checked),
        unchecked.inv(),
{
}

/// A text that begins with another is no shorter than it, in characters and
/// in bytes, and holds a character if the other does.
pub proof fn law_extension_no_shorter(before: Seq<char>, after: Seq<char>)
    requires
        before.is_prefix_of(after),
    ensures
        no_shorter(after, before),
        before.len() >= 1 ==> after.len() >= 1,
{
    let rest = after.subrange(before.len() as int, after.len() as int);
    assert(after =~= before + rest);
    lemma_encode_concat(before, rest);
}

/// Inserting at the byte position of a character puts the new text right
/// before that character; at the length in bytes, behind the last one.
pub proof fn law_insert_before_character(text: Seq<char>, k: int, added: Seq<char>)
    requires
        0 <= k <= text.len(),
    ensures
        is_char_boundary(encode_utf8(text), byte_position(text, k)),
        inserted_at(text, byte_position(text, k), added) == text.take(k) + added + text.skip(k),
{
    lemma_byte_position(text, k);
}

/// Slicing from the byte position of one character to that of a later one
/// gives the characters between the two.
pub proof fn law_slice_between_characters(text: Seq<char>, i: int, j: int)
    requires
        0 <= i <= j <= text.len(),
    ensures
        is_char_range(text, byte_position(text, i), byte_position(text, j)),
        char_range(text, byte_position(text, i), byte_position(text, j)) == text.subrange(i, j),
{
    let upto = text.take(j);
    let bytes = encode_utf8(text);
    lemma_byte_position(text, i);
    lemma_byte_position(text, j);
    lemma_byte_position(upto, i);
    assert(upto.take(i) =~= text.take(i));
    assert(upto.skip(i) =~= text.subrange(i, j));
    assert(upto =~= text.take(i) + text.subrange(i, j));
    lemma_encode_concat(text.take(i), text.subrange(i, j));
    assert(text =~= upto + text.skip(j));
    lemma_encode_concat(upto, text.skip(j));
    assert(bytes.subrange(byte_position(text, i), byte_position(text, j)) =~= encode_utf8(
        upto,
    ).subrange(byte_position(text, i), byte_position(text, j)));
}

/// Two values are equal exactly when their texts are, and exactly then
/// does the order put neither before the other.
pub proof fn law_order_agrees_with_equality(a: NonEmptyString, b: NonEmptyString)
    ensures
        a.eq_spec(&b) <==> a@ == b@,
        a.partial_cmp_spec(&b) == Some(Ordering::Equal) <==> a.eq_spec(&b),
        a.partial_cmp_spec(&b) == Some(text_order(a@, b@)),
{
    lemma_lexicographic_equal(encode_utf8(a@), encode_utf8(b@));
    encode_utf8_decode_utf8(a@);
    encode_utf8_decode_utf8(b@);
}

/// The order is total: of two values, one comes before the other exactly
/// when the other comes after it, and every pair is ordered.
pub proof fn law_order_total(a: NonEmptyString, b: NonEmptyString)
    ensures
        a.partial_cmp_spec(&b) is Some,
        a.partial_cmp_spec(&b) == Some(Ordering::Less) <==> b.partial_cmp_spec(&a) == Some(
            Ordering::Greater,
        ),
        a.partial_cmp_spec(&b) == Some(Ordering::Equal) <==> b.partial_cmp_spec(&a) == Some(
            Ordering::Equal,
        ),
{
    lemma_lexicographic_swap(encode_utf8(a@), encode_utf8(b@));
    lemma_lexicographic_swap(encode_utf8(b@), encode_utf8(a@));
}

/// The order is transitive.
pub proof fn law_order_transitive(a: NonEmptyString, b: NonEmptyString, c: NonEmptyString)
    requires
        a.partial_cmp_spec(&b) == Some(Ordering::Less),
        b.partial_cmp_spec(&c) == Some(Ordering::Less),
    ensures
        a.partial_cmp_spec(&c) == Some(Ordering::Less),
{
    lemma_lexicographic_transitive(encode_utf8(a@), encode_utf8(b@), encode_utf8(c@));
}

} // verus!
