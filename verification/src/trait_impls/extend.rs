//! Appending many pieces at once.
//!
//! A piece is anything that holds characters and can append them to a
//! `String`: a character, a string slice, an owned or boxed string, and so
//! on. [`NonEmptyString::extend_from_slice`] appends the pieces of a slice
//! in order, and says exactly what the text is afterwards.
//!
//! `Extend` takes an iterator in place of a slice. An iterator decides on
//! the go what it hands out, so the impls of `Extend` pass it on to
//! `String` and can only promise that nothing that was there is lost.
use crate::encoding::{lemma_encode_concat, no_shorter};
use crate::NonEmptyString;
use std::borrow::Cow;
use vstd::prelude::*;
use vstd::string::StringExecFns;

verus! {

/// A value that holds characters and can append them to a text.
pub trait TextPiece {
    /// The characters that the piece holds.
    spec fn chars(&self) -> Seq<char>;

    /// Appends the characters of the piece to `target`.
    fn append_to(&self, target: &mut String)
        ensures
            final(target)@ == old(target)@ + self.chars(),
    ;
}

impl TextPiece for char {
    open spec fn chars(&self) -> Seq<char> {
        seq![*self]
    }

    fn append_to(&self, target: &mut String) {
        target.push(*self);
        assert(target@ =~= old(target)@ + seq![*self]);
    }
}

impl<'a> TextPiece for &'a char {
    open spec fn chars(&self) -> Seq<char> {
        seq![**self]
    }

    fn append_to(&self, target: &mut String) {
        target.push(**self);
        assert(target@ =~= old(target)@ + seq![**self]);
    }
}

impl<'a> TextPiece for &'a str {
    open spec fn chars(&self) -> Seq<char> {
        self@
    }

    fn append_to(&self, target: &mut String) {
        target.append(*self);
    }
}

impl TextPiece for String {
    open spec fn chars(&self) -> Seq<char> {
        self@
    }

    fn append_to(&self, target: &mut String) {
        target.append(self.as_str());
    }
}

impl TextPiece for Box<str> {
    open spec fn chars(&self) -> Seq<char> {
        self@
    }

    fn append_to(&self, target: &mut String) {
        target.append(&**self);
    }
}

impl<'a> TextPiece for Cow<'a, str> {
    open spec fn chars(&self) -> Seq<char> {
        self@
    }

    fn append_to(&self, target: &mut String) {
        match self {
            Cow::Borrowed(borrowed) => target.append(borrowed),
            Cow::Owned(owned) => target.append(owned.as_str()),
        }
    }
}

/// The characters of `pieces`, one piece after the other.
pub open spec fn joined<T: TextPiece>(pieces: Seq<T>) -> Seq<char> {
    pieces.map_values(|piece: T| piece.chars()).flatten()
}

/// Joining one more piece appends its characters.
pub proof fn lemma_joined_push<T: TextPiece>(pieces: Seq<T>, piece: T)
    ensures
        joined(pieces.push(piece)) == joined(pieces) + piece.chars(),
{
    let texts = pieces.map_values(|piece: T| piece.chars());
    assert(pieces.push(piece).map_values(|piece: T| piece.chars()) =~= texts.push(piece.chars()));
    texts.lemma_flatten_push(piece.chars());
}

/// Appends the characters of each of `pieces` to `target`, first piece
/// first.
pub fn append_pieces<T: TextPiece>(target: &mut String, pieces: &[T])
    ensures
        final(target)@ == old(target)@ + joined(pieces@),
        final(target)@.len() >= old(target)@.len(),
{
    let mut i: usize = 0;
    assert(joined(pieces@.take(0)) =~= Seq::<char>::empty());
    assert(target@ =~= old(target)@ + joined(pieces@.take(0)));
    while i < pieces.len()
        invariant
            i <= pieces.len(),
            target@ == old(target)@ + joined(pieces@.take(i as int)),
        decreases pieces.len() - i,
    {
        pieces[i].append_to(target);
        proof {
            lemma_joined_push(pieces@.take(i as int), pieces@[i as int]);
            assert(pieces@.take(i as int).push(pieces@[i as int]) =~= pieces@.take(i + 1));
            assert(target@ =~= old(target)@ + joined(pieces@.take(i + 1)));
        }
        i += 1;
    }
    assert(pieces@.take(pieces.len() as int) =~= pieces@);
}

impl NonEmptyString {
    /// Appends the characters of each of `pieces`, first piece first.
    pub fn extend_from_slice<T: TextPiece>(&mut self, pieces: &[T])
        ensures
            final(self)@ == old(self)@ + joined(pieces@),
            no_shorter(final(self)@, old(self)@),
            old(self).inv() ==> final(self).inv(),
    {
        append_pieces(&mut self.0, pieces);
        proof {
            lemma_encode_concat(old(self)@, joined(pieces@));
        }
    }
}

impl Extend<char> for NonEmptyString {
    /// Hands `iter` to `String`'s own `Extend<char>`, which appends every
    /// character that the iterator gives. Which characters those are is up
    /// to the iterator, so all that is claimed is that the text before the
    /// call is still there, at the front.
    #[verifier::external_body]
    fn extend<I: IntoIterator<Item = char>>(&mut self, iter: I)
        ensures
            old(self)@.is_prefix_of(final(self)@),
    {
        self.0.extend(iter)
    }
}

impl<'a> Extend<&'a char> for NonEmptyString {
    /// Hands `iter` to `String`'s own `Extend<&char>`; the claim is that of
    /// `Extend<char>`.
    #[verifier::external_body]
    fn extend<I: IntoIterator<Item = &'a char>>(&mut self, iter: I)
        ensures
            old(self)@.is_prefix_of(final(self)@),
    {
        self.0.extend(iter)
    }
}

impl<'a> Extend<&'a str> for NonEmptyString {
    /// Hands `iter` to `String`'s own `Extend<&str>`, which appends every
    /// slice that the iterator gives; the claim is that of `Extend<char>`.
    #[verifier::external_body]
    fn extend<I: IntoIterator<Item = &'a str>>(&mut self, iter: I)
        ensures
            old(self)@.is_prefix_of(final(self)@),
    {
        self.0.extend(iter)
    }
}

impl Extend<Box<str>> for NonEmptyString {
    /// Hands `iter` to `String`'s own `Extend<Box<str>>`; the claim is that
    /// of `Extend<char>`.
    #[verifier::external_body]
    fn extend<I: IntoIterator<Item = Box<str>>>(&mut self, iter: I)
        ensures
            old(self)@.is_prefix_of(final(self)@),
    {
        self.0.extend(iter)
    }
}

impl Extend<String> for NonEmptyString {
    /// Hands `iter` to `String`'s own `Extend<String>`; the claim is that of
    /// `Extend<char>`.
    #[verifier::external_body]
    fn extend<I: IntoIterator<Item = String>>(&mut self, iter: I)
        ensures
            old(self)@.is_prefix_of(final(self)@),
    {
        self.0.extend(iter)
    }
}

impl<'a> Extend<Cow<'a, str>> for NonEmptyString {
    /// Hands `iter` to `String`'s own `Extend<Cow<str>>`; the claim is that
    /// of `Extend<char>`.
    #[verifier::external_body]
    fn extend<I: IntoIterator<Item = Cow<'a, str>>>(&mut self, iter: I)
        ensures
            old(self)@.is_prefix_of(final(self)@),
    {
        self.0.extend(iter)
    }
}

} // verus!
