//! A text buffer that is never empty.
//!
//! [`NonEmptyString`] owns a `String` and keeps one promise about it: it
//! holds at least one character. Construction checks the promise, and every
//! operation offered afterwards can only keep the text as it is or make it
//! longer.
use vstd::prelude::*;
use vstd::string::StringExecFns;
use vstd::utf8::{encode_utf8, is_char_boundary};

use crate::encoding::{
    inserted_at, lemma_encode_concat, lemma_encode_len, lemma_splice, no_shorter,
};
use crate::std_specs::spliced;

pub mod encoding;
pub mod error;
pub mod laws;
pub mod schemars_support;
pub mod serde_support;
pub mod std_specs;
pub mod trait_impls;

pub use crate::error::EmptyString;

verus! {

/// An owned, growable text that holds at least one character.
///
/// The model of a value is its view, the `Seq<char>` of its characters.
/// [`NonEmptyString::inv`] says that the view is not empty. Every way to
/// make a value establishes it and every operation keeps it, so it holds of
/// every value that a program can get hold of; what reads a value and
/// promises a character asks for it.
#[derive(Debug, Eq, Ord, Hash)]
pub struct NonEmptyString(String);

impl View for NonEmptyString {
    type V = Seq<char>;

    closed spec fn view(&self) -> Seq<char> {
        self.0@
    }
}

impl NonEmptyString {
    /// The invariant of the type: the text holds at least one character.
    pub open spec fn inv(&self) -> bool {
        self@.len() >= 1
    }

    /// Wraps `string` when it holds at least one character. An empty
    /// `string` is rejected and handed back as it came.
    pub fn new(string: String) -> (res: Result<Self, String>)
        ensures
            string@.len() >= 1 <==> res is Ok,
            res matches Ok(v) ==> v@ == string@ && v.inv(),
            res matches Err(rejected) ==> rejected == string,
    {
        if string.as_str().is_empty() {
            Err(string)
        } else {
            Ok(NonEmptyString(string))
        }
    }

    /// Wraps `string` without looking at it. The caller answers for its
    /// not being empty.
    pub fn new_unchecked(string: String) -> (res: Self)
        requires
            string@.len() >= 1,
        ensures
            res@ == string@,
            res.inv(),
    {
        NonEmptyString(string)
    }

    /// The text, borrowed. It holds at least one character.
    pub fn get(&self) -> (res: &str)
        requires
            self.inv(),
        ensures
            res@ == self@,
            res@.len() >= 1,
    {
        self.0.as_str()
    }

    /// Gives up the guarantee and hands out the plain `String`.
    pub fn into_inner(self) -> (res: String)
        ensures
            res@ == self@,
    {
        self.0
    }

    /// Gives up the guarantee and hands out the bytes of the text, its
    /// UTF-8 encoding.
    pub fn into_bytes(self) -> (res: Vec<u8>)
        ensures
            res@ == encode_utf8(self@),
    {
        self.0.into_bytes()
    }

    /// The text, borrowed, as `String::as_str` gives it.
    pub fn as_str(&self) -> (res: &str)
        ensures
            res@ == self@,
    {
        self.0.as_str()
    }

    /// Appends `string`.
    pub fn push_str(&mut self, string: &str)
        ensures
            final(self)@ == old(self)@ + string@,
            no_shorter(final(self)@, old(self)@),
            old(self).inv() ==> final(self).inv(),
    {
        self.0.append(string);
        proof {
            lemma_encode_concat(old(self)@, string@);
        }
    }

    /// The size of the buffer in bytes, which is at least the length.
    pub fn capacity(&self) -> (res: usize)
        ensures
            res >= encode_utf8(self@).len(),
    {
        self.0.capacity()
    }

    /// Makes room for `additional` more bytes. The text stays as it is.
    pub fn reserve(&mut self, additional: usize)
        requires
            encode_utf8(old(self)@).len() + additional <= isize::MAX,
        ensures
            final(self)@ == old(self)@,
            old(self).inv() ==> final(self).inv(),
    {
        self.0.reserve(additional);
    }

    /// Makes room for `additional` more bytes and no more than needed. The
    /// text stays as it is.
    pub fn reserve_exact(&mut self, additional: usize)
        requires
            encode_utf8(old(self)@).len() + additional <= isize::MAX,
        ensures
            final(self)@ == old(self)@,
            old(self).inv() ==> final(self).inv(),
    {
        self.0.reserve_exact(additional);
    }

    /// Tries to make room for `additional` more bytes. The text stays as it
    /// is whether or not the room could be had. Room for no more bytes is
    /// always there; room that would take the length in bytes past
    /// `usize::MAX` never is.
    pub fn try_reserve(&mut self, additional: usize) -> (res: Result<
        (),
        std::collections::TryReserveError,
    >)
        ensures
            final(self)@ == old(self)@,
            old(self).inv() ==> final(self).inv(),
            additional == 0 ==> res is Ok,
            encode_utf8(old(self)@).len() + additional > usize::MAX ==> res is Err,
    {
        self.0.try_reserve(additional)
    }

    /// Tries to make room for `additional` more bytes and no more than
    /// needed. The text stays as it is whether or not the room could be had.
    /// Room for no more bytes is always there; room that would take the
    /// length in bytes past `usize::MAX` never is.
    pub fn try_reserve_exact(&mut self, additional: usize) -> (res: Result<
        (),
        std::collections::TryReserveError,
    >)
        ensures
            final(self)@ == old(self)@,
            old(self).inv() ==> final(self).inv(),
            additional == 0 ==> res is Ok,
            encode_utf8(old(self)@).len() + additional > usize::MAX ==> res is Err,
    {
        self.0.try_reserve_exact(additional)
    }

    /// Gives back spare capacity. The text stays as it is.
    pub fn shrink_to_fit(&mut self)
        ensures
            final(self)@ == old(self)@,
            old(self).inv() ==> final(self).inv(),
    {
        self.0.shrink_to_fit();
    }

    /// Gives back spare capacity down to `min_capacity`. The text stays as
    /// it is.
    pub fn shrink_to(&mut self, min_capacity: usize)
        ensures
            final(self)@ == old(self)@,
            old(self).inv() ==> final(self).inv(),
    {
        self.0.shrink_to(min_capacity);
    }

    /// Appends `ch`.
    pub fn push(&mut self, ch: char)
        ensures
            final(self)@ == old(self)@.push(ch),
            no_shorter(final(self)@, old(self)@),
            final(self).inv(),
    {
        self.0.push(ch);
        proof {
            assert(self@ =~= old(self)@ + seq![ch]);
            lemma_encode_concat(old(self)@, seq![ch]);
        }
    }

    /// The bytes of the text, its UTF-8 encoding.
    pub fn as_bytes(&self) -> (res: &[u8])
        ensures
            res@ == encode_utf8(self@),
    {
        self.0.as_str().as_bytes()
    }

    /// Puts `ch` in at byte position `idx`, which must lie on a character
    /// boundary of the text.
    pub fn insert(&mut self, idx: usize, ch: char)
        requires
            is_char_boundary(encode_utf8(old(self)@), idx as int),
        ensures
            final(self)@ == inserted_at(old(self)@, idx as int, seq![ch]),
            encode_utf8(final(self)@) == spliced(
                encode_utf8(old(self)@),
                idx as int,
                encode_utf8(seq![ch]),
            ),
            final(self)@.len() == old(self)@.len() + 1,
            no_shorter(final(self)@, old(self)@),
            final(self).inv(),
    {
        self.0.insert(idx, ch);
        proof {
            lemma_splice(old(self)@, idx as int, seq![ch], self@);
        }
    }

    /// Puts `string` in at byte position `idx`, which must lie on a
    /// character boundary of the text.
    pub fn insert_str(&mut self, idx: usize, string: &str)
        requires
            is_char_boundary(encode_utf8(old(self)@), idx as int),
        ensures
            final(self)@ == inserted_at(old(self)@, idx as int, string@),
            encode_utf8(final(self)@) == spliced(
                encode_utf8(old(self)@),
                idx as int,
                encode_utf8(string@),
            ),
            final(self)@.len() == old(self)@.len() + string@.len(),
            no_shorter(final(self)@, old(self)@),
            old(self).inv() ==> final(self).inv(),
    {
        self.0.insert_str(idx, string);
        proof {
            lemma_splice(old(self)@, idx as int, string@, self@);
        }
    }

    /// The length of the text in bytes, which is never zero.
    pub fn len(&self) -> (res: usize)
        requires
            self.inv(),
        ensures
            res == encode_utf8(self@).len(),
            res >= 1,
    {
        proof {
            lemma_encode_len(self@);
        }
        self.0.as_str().as_bytes().len()
    }

    /// A copy of the text, as formatting the value gives it.
    pub fn to_string(&self) -> (res: String)
        ensures
            res@ == self@,
    {
        self.0.clone()
    }

    /// Gives up the guarantee and hands out the text as a boxed slice.
    pub fn into_boxed_str(self) -> (res: Box<str>)
        ensures
            res@ == self@,
    {
        self.0.into_boxed_str()
    }
}

} // verus!
