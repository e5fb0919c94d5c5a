//! Equality of [`NonEmptyString`] with itself and with plain text: two
//! values are equal when they hold the same characters.
use crate::NonEmptyString;
use std::borrow::Cow;
use vstd::prelude::*;
use vstd::std_specs::cmp::PartialEqSpecImpl;

verus! {

/// Whether two string slices hold the same characters.
fn same_text(a: &str, b: &str) -> (res: bool)
    ensures
        res == (a@ == b@),
{
    *a == *b
}

impl Clone for NonEmptyString {
    fn clone(&self) -> (res: Self)
        ensures
            res@ == self@,
    {
        NonEmptyString(self.0.clone())
    }
}

impl PartialEq for NonEmptyString {
    fn eq(&self, other: &Self) -> (res: bool) {
        self.0 == other.0
    }
}

impl PartialEqSpecImpl for NonEmptyString {
    open spec fn obeys_eq_spec() -> bool {
        true
    }

    open spec fn eq_spec(&self, other: &Self) -> bool {
        self@ == other@
    }
}

impl PartialEq<String> for NonEmptyString {
    fn eq(&self, other: &String) -> (res: bool) {
        self.0 == *other
    }
}

impl PartialEqSpecImpl<String> for NonEmptyString {
    open spec fn obeys_eq_spec() -> bool {
        true
    }

    open spec fn eq_spec(&self, other: &String) -> bool {
        self@ == other@
    }
}

impl PartialEq<NonEmptyString> for String {
    fn eq(&self, other: &NonEmptyString) -> (res: bool) {
        *self == other.0
    }
}

impl PartialEqSpecImpl<NonEmptyString> for String {
    open spec fn obeys_eq_spec() -> bool {
        true
    }

    open spec fn eq_spec(&self, other: &NonEmptyString) -> bool {
        self@ == other@
    }
}

impl PartialEq<str> for NonEmptyString {
    fn eq(&self, other: &str) -> (res: bool) {
        same_text(self.0.as_str(), other)
    }
}

impl PartialEqSpecImpl<str> for NonEmptyString {
    open spec fn obeys_eq_spec() -> bool {
        true
    }

    open spec fn eq_spec(&self, other: &str) -> bool {
        self@ == other@
    }
}

impl PartialEq<NonEmptyString> for str {
    fn eq(&self, other: &NonEmptyString) -> (res: bool) {
        same_text(self, other.0.as_str())
    }
}

impl PartialEqSpecImpl<NonEmptyString> for str {
    open spec fn obeys_eq_spec() -> bool {
        true
    }

    open spec fn eq_spec(&self, other: &NonEmptyString) -> bool {
        self@ == other@
    }
}

impl<'a> PartialEq<&'a str> for NonEmptyString {
    fn eq(&self, other: &&'a str) -> (res: bool) {
        same_text(self.0.as_str(), *other)
    }
}

impl<'a> PartialEqSpecImpl<&'a str> for NonEmptyString {
    open spec fn obeys_eq_spec() -> bool {
        true
    }

    open spec fn eq_spec(&self, other: &&'a str) -> bool {
        self@ == other@
    }
}

impl<'a> PartialEq<NonEmptyString> for &'a str {
    fn eq(&self, other: &NonEmptyString) -> (res: bool) {
        same_text(*self, other.0.as_str())
    }
}

impl<'a> PartialEqSpecImpl<NonEmptyString> for &'a str {
    open spec fn obeys_eq_spec() -> bool {
        true
    }

    open spec fn eq_spec(&self, other: &NonEmptyString) -> bool {
        self@ == other@
    }
}

/// The text that `text` holds or borrows.
fn cow_text<'b, 'a>(text: &'b Cow<'a, str>) -> (res: &'b str)
    ensures
        res@ == text@,
{
    match text {
        Cow::Borrowed(borrowed) => borrowed,
        Cow::Owned(owned) => owned.as_str(),
    }
}

impl<'a> PartialEq<Cow<'a, str>> for NonEmptyString {
    fn eq(&self, other: &Cow<'a, str>) -> (res: bool) {
        same_text(self.0.as_str(), cow_text(other))
    }
}

impl<'a> PartialEqSpecImpl<Cow<'a, str>> for NonEmptyString {
    open spec fn obeys_eq_spec() -> bool {
        true
    }

    open spec fn eq_spec(&self, other: &Cow<'a, str>) -> bool {
        self@ == other@
    }
}

impl<'a> PartialEq<NonEmptyString> for Cow<'a, str> {
    fn eq(&self, other: &NonEmptyString) -> (res: bool) {
        same_text(cow_text(self), other.0.as_str())
    }
}

impl<'a> PartialEqSpecImpl<NonEmptyString> for Cow<'a, str> {
    open spec fn obeys_eq_spec() -> bool {
        true
    }

    open spec fn eq_spec(&self, other: &NonEmptyString) -> bool {
        self@ == other@
    }
}

} // verus!
