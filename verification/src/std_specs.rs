//! Contracts for the parts of the standard library that this crate forwards
//! to and that vstd leaves unspecified.
//!
//! Nothing here is proved: each item states what the standard library
//! documents of the item it names. Texts are modelled by their view, a
//! `Seq<char>`, and byte positions refer to the UTF-8 encoding of that view.
use std::ops::{RangeFrom, RangeFull, RangeInclusive, RangeTo, RangeToInclusive};
use vstd::prelude::*;
use vstd::utf8::{encode_utf8, is_char_boundary};

verus! {

/// The bytes `bytes` with `added` put in at position `idx`.
pub open spec fn spliced(bytes: Seq<u8>, idx: int, added: Seq<u8>) -> Seq<u8> {
    bytes.subrange(0, idx) + added + bytes.subrange(idx, bytes.len() as int)
}

/// `std::fmt::Error`, the error of a formatting sink. It carries nothing.
#[verifier::external_type_specification]
#[verifier::external_body]
pub struct ExFmtError(std::fmt::Error);

/// `std::ops::RangeTo`, the range `..end`.
#[verifier::external_type_specification]
#[verifier::reject_recursive_types(Idx)]
pub struct ExRangeTo<Idx>(RangeTo<Idx>);

/// `std::ops::RangeFrom`, the range `start..`.
#[verifier::external_type_specification]
#[verifier::reject_recursive_types(Idx)]
pub struct ExRangeFrom<Idx>(RangeFrom<Idx>);

/// `std::ops::RangeToInclusive`, the range `..=end`.
#[verifier::external_type_specification]
#[verifier::reject_recursive_types(Idx)]
pub struct ExRangeToInclusive<Idx>(RangeToInclusive<Idx>);

/// `std::ops::RangeFull`, the range `..`.
#[verifier::external_type_specification]
pub struct ExRangeFull(RangeFull);

/// `RangeInclusive::start` is the lower bound of the range. Of a range that
/// an iteration has used up the standard library leaves it open.
pub assume_specification<Idx>[ RangeInclusive::<Idx>::start ](range: &RangeInclusive<Idx>) -> (res:
    &Idx)
    ensures
        !range@.exhausted ==> *res == range@.start,
;

/// `RangeInclusive::end` is the upper bound of the range, which belongs to
/// the range. Of a range that an iteration has used up the standard library
/// leaves it open.
pub assume_specification<Idx>[ RangeInclusive::<Idx>::end ](range: &RangeInclusive<Idx>) -> (res:
    &Idx)
    ensures
        !range@.exhausted ==> *res == range@.end,
;

/// `==` on string slices holds when both hold the same characters.
pub assume_specification[ <str as PartialEq>::eq ](a: &str, b: &str) -> (res: bool)
    ensures
        res == (a@ == b@),
;

/// `String::push` appends the given character to the end of the string.
pub assume_specification[ String::push ](s: &mut String, ch: char)
    ensures
        final(s)@ == old(s)@.push(ch),
;

/// `String::insert` puts a character in at a byte position. It panics when
/// the position is past the end or not on a character boundary, so both are
/// required here.
pub assume_specification[ String::insert ](s: &mut String, idx: usize, ch: char)
    requires
        is_char_boundary(encode_utf8(old(s)@), idx as int),
    ensures
        encode_utf8(final(s)@) == spliced(encode_utf8(old(s)@), idx as int, encode_utf8(seq![ch])),
;

/// `String::insert_str` puts a string slice in at a byte position, with the
/// same demands on the position as `String::insert`.
pub assume_specification[ String::insert_str ](s: &mut String, idx: usize, string: &str)
    requires
        is_char_boundary(encode_utf8(old(s)@), idx as int),
    ensures
        encode_utf8(final(s)@) == spliced(encode_utf8(old(s)@), idx as int, encode_utf8(string@)),
;

/// `String::capacity` is the size of the buffer in bytes; the length never
/// exceeds it. Which capacity an allocation got is not modelled.
pub assume_specification[ String::capacity ](s: &String) -> (res: usize)
    ensures
        res >= encode_utf8(s@).len(),
;

/// `String::reserve` only touches the capacity. It panics when the capacity
/// asked for overflows, which the bound rules out.
pub assume_specification[ String::reserve ](s: &mut String, additional: usize)
    requires
        encode_utf8(old(s)@).len() + additional <= isize::MAX,
    ensures
        final(s)@ == old(s)@,
;

/// `String::reserve_exact` only touches the capacity, and panics as
/// `String::reserve` does.
pub assume_specification[ String::reserve_exact ](s: &mut String, additional: usize)
    requires
        encode_utf8(old(s)@).len() + additional <= isize::MAX,
    ensures
        final(s)@ == old(s)@,
;

/// `String::try_reserve` reports a failed reservation in place of a panic,
/// and keeps the text whether or not it fails. It does nothing when the
/// capacity is already sufficient, as it is for no additional byte, the
/// length never exceeding the capacity; it fails when the capacity asked
/// for overflows. In between, the allocator decides.
pub assume_specification[ String::try_reserve ](s: &mut String, additional: usize) -> (res: Result<
    (),
    std::collections::TryReserveError,
>)
    ensures
        final(s)@ == old(s)@,
        additional == 0 ==> res is Ok,
        encode_utf8(old(s)@).len() + additional > usize::MAX ==> res is Err,
;

/// `String::try_reserve_exact`: as `String::try_reserve`.
pub assume_specification[ String::try_reserve_exact ](s: &mut String, additional: usize) -> (res:
    Result<(), std::collections::TryReserveError>)
    ensures
        final(s)@ == old(s)@,
        additional == 0 ==> res is Ok,
        encode_utf8(old(s)@).len() + additional > usize::MAX ==> res is Err,
;

/// `String::shrink_to_fit` only touches the capacity.
pub assume_specification[ String::shrink_to_fit ](s: &mut String)
    ensures
        final(s)@ == old(s)@,
;

/// `String::shrink_to` only touches the capacity.
pub assume_specification[ String::shrink_to ](s: &mut String, min_capacity: usize)
    ensures
        final(s)@ == old(s)@,
;

/// `String::into_bytes` hands out the UTF-8 encoding of the string.
pub assume_specification[ String::into_bytes ](s: String) -> (res: Vec<u8>)
    ensures
        res@ == encode_utf8(s@),
;

/// `String::into_boxed_str` keeps the text and drops the spare capacity.
pub assume_specification[ String::into_boxed_str ](s: String) -> (res: Box<str>)
    ensures
        res@ == s@,
;

} // verus!
