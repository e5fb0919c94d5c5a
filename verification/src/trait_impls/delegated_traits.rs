//! Operators of `String` that [`NonEmptyString`] takes over: joining with
//! `+` and `+=`, slicing by a range of byte positions, and being written to.
use crate::encoding::{char_range, is_char_range, lemma_boundary_in_range, no_shorter, slice};
use crate::NonEmptyString;
use std::ops::{
    Add, AddAssign, Index, Range, RangeFrom, RangeFull, RangeInclusive, RangeTo, RangeToInclusive,
};
use vstd::prelude::*;
use vstd::std_specs::ops::AddSpecImpl;
use vstd::utf8::{
    encode_utf8, encode_utf8_valid_utf8, is_char_boundary, is_char_boundary_start_end_of_seq,
};

verus! {

impl<'a> Add<&'a str> for NonEmptyString {
    type Output = NonEmptyString;

    /// The text followed by `other`.
    fn add(self, other: &'a str) -> (res: NonEmptyString)
        ensures
            res@ == self@ + other@,
            no_shorter(res@, self@),
            self.inv() ==> res.inv(),
    {
        let mut joined = self;
        joined.push_str(other);
        joined
    }
}

/// No spec function can name the sum, since a specification cannot build a
/// `String`; the `ensures` of `add` says what it gives.
impl<'a> AddSpecImpl<&'a str> for NonEmptyString {
    open spec fn obeys_add_spec() -> bool {
        false
    }

    open spec fn add_req(self, rhs: &'a str) -> bool {
        true
    }

    open spec fn add_spec(self, rhs: &'a str) -> NonEmptyString {
        self
    }
}

impl<'a> AddAssign<&'a str> for NonEmptyString {
    /// Appends `other`.
    fn add_assign(&mut self, other: &'a str)
        ensures
            final(self)@ == old(self)@ + other@,
            no_shorter(final(self)@, old(self)@),
            old(self).inv() ==> final(self).inv(),
    {
        self.push_str(other);
    }
}

impl std::fmt::Write for NonEmptyString {
    /// Appends `s`; this never fails.
    fn write_str(&mut self, s: &str) -> (res: std::fmt::Result)
        ensures
            res is Ok,
            final(self)@ == old(self)@ + s@,
            no_shorter(final(self)@, old(self)@),
            old(self).inv() ==> final(self).inv(),
    {
        self.push_str(s);
        Ok(())
    }

    /// Appends `c`; this never fails.
    fn write_char(&mut self, c: char) -> (res: std::fmt::Result)
        ensures
            res is Ok,
            final(self)@ == old(self)@.push(c),
            no_shorter(final(self)@, old(self)@),
            final(self).inv(),
    {
        self.push(c);
        Ok(())
    }
}

impl Index<Range<usize>> for NonEmptyString {
    type Output = str;

    /// The part of the text in the bytes `start..end`.
    fn index(&self, index: Range<usize>) -> (res: &str)
        ensures
            res@ == char_range(self@, index.start as int, index.end as int),
    {
        slice(self.0.as_str(), index.start, index.end)
    }
}

impl vstd::std_specs::core::IndexSpecImpl<Range<usize>> for NonEmptyString {
    open spec fn index_req(&self, index: &Range<usize>) -> bool {
        is_char_range(self@, index.start as int, index.end as int)
    }
}

impl Index<RangeTo<usize>> for NonEmptyString {
    type Output = str;

    /// The part of the text in the bytes before `end`.
    fn index(&self, index: RangeTo<usize>) -> (res: &str)
        ensures
            res@ == char_range(self@, 0, index.end as int),
    {
        proof {
            encode_utf8_valid_utf8(self@);
            lemma_boundary_in_range(encode_utf8(self@), index.end as int);
        }
        slice(self.0.as_str(), 0, index.end)
    }
}

impl vstd::std_specs::core::IndexSpecImpl<RangeTo<usize>> for NonEmptyString {
    open spec fn index_req(&self, index: &RangeTo<usize>) -> bool {
        is_char_boundary(encode_utf8(self@), index.end as int)
    }
}

impl Index<RangeFrom<usize>> for NonEmptyString {
    type Output = str;

    /// The part of the text in the bytes from `start` on.
    fn index(&self, index: RangeFrom<usize>) -> (res: &str)
        ensures
            res@ == char_range(self@, index.start as int, encode_utf8(self@).len() as int),
    {
        proof {
            encode_utf8_valid_utf8(self@);
            is_char_boundary_start_end_of_seq(encode_utf8(self@));
            lemma_boundary_in_range(encode_utf8(self@), index.start as int);
        }
        let text = self.0.as_str();
        slice(text, index.start, text.as_bytes().len())
    }
}

impl vstd::std_specs::core::IndexSpecImpl<RangeFrom<usize>> for NonEmptyString {
    open spec fn index_req(&self, index: &RangeFrom<usize>) -> bool {
        is_char_boundary(encode_utf8(self@), index.start as int)
    }
}

impl Index<RangeFull> for NonEmptyString {
    type Output = str;

    /// The whole text.
    fn index(&self, index: RangeFull) -> (res: &str)
        ensures
            res@ == self@,
    {
        self.0.as_str()
    }
}

impl vstd::std_specs::core::IndexSpecImpl<RangeFull> for NonEmptyString {
    open spec fn index_req(&self, index: &RangeFull) -> bool {
        true
    }
}

impl Index<RangeInclusive<usize>> for NonEmptyString {
    type Output = str;

    /// The part of the text in the bytes from `start` up to and including
    /// `end`.
    fn index(&self, index: RangeInclusive<usize>) -> (res: &str)
        ensures
            res@ == char_range(self@, index@.start as int, index@.end + 1),
    {
        proof {
            encode_utf8_valid_utf8(self@);
            lemma_boundary_in_range(encode_utf8(self@), index@.end + 1);
        }
        let text = self.0.as_str();
        let start: usize = *index.start();
        let end: usize = *index.end();
        let len: usize = text.as_bytes().len();
        assert(end < len);
        slice(text, start, end + 1)
    }
}

impl vstd::std_specs::core::IndexSpecImpl<RangeInclusive<usize>> for NonEmptyString {
    open spec fn index_req(&self, index: &RangeInclusive<usize>) -> bool {
        &&& !index@.exhausted
        &&& index@.start <= index@.end
        &&& is_char_range(self@, index@.start as int, index@.end + 1)
    }
}

impl Index<RangeToInclusive<usize>> for NonEmptyString {
    type Output = str;

    /// The part of the text in the bytes up to and including `end`.
    fn index(&self, index: RangeToInclusive<usize>) -> (res: &str)
        ensures
            res@ == char_range(self@, 0, index.end + 1),
    {
        proof {
            encode_utf8_valid_utf8(self@);
            lemma_boundary_in_range(encode_utf8(self@), index.end + 1);
        }
        let text = self.0.as_str();
        let len: usize = text.as_bytes().len();
        assert(index.end < len);
        slice(text, 0, index.end + 1)
    }
}

impl vstd::std_specs::core::IndexSpecImpl<RangeToInclusive<usize>> for NonEmptyString {
    open spec fn index_req(&self, index: &RangeToInclusive<usize>) -> bool {
        is_char_boundary(encode_utf8(self@), index.end + 1)
    }
}

} // verus!
