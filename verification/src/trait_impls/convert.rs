//! Conversions between [`NonEmptyString`] and plain text. Towards plain
//! text they always succeed; towards [`NonEmptyString`] they succeed exactly
//! on text that is not empty.
use crate::NonEmptyString;
use vstd::prelude::*;
use vstd::std_specs::convert::{FromSpecImpl, TryFromSpecImpl};

verus! {

impl AsRef<str> for NonEmptyString {
    fn as_ref(&self) -> (res: &str)
        ensures
            ({
                let text: &str = res;
                text@ == self@
            }),
    {
        self.0.as_str()
    }
}

impl AsRef<String> for NonEmptyString {
    fn as_ref(&self) -> (res: &String)
        ensures
            ({
                let text: &String = res;
                text@ == self@
            }),
    {
        &self.0
    }
}

impl<'s> TryFrom<&'s str> for NonEmptyString {
    type Error = &'s str;

    /// Copies `value` into a new [`NonEmptyString`] when it holds at least
    /// one character, and hands it back otherwise.
    fn try_from(value: &'s str) -> (res: Result<Self, &'s str>)
        ensures
            value@.len() >= 1 <==> res is Ok,
            res matches Ok(v) ==> v@ == value@ && v.inv(),
            res matches Err(rejected) ==> rejected@ == value@,
    {
        if value.is_empty() {
            return Err(value);
        }
        Ok(NonEmptyString(value.to_owned()))
    }
}

/// No spec function can name the result, since a specification cannot build
/// a `String`; the `ensures` of the conversion says what it gives.
impl<'s> TryFromSpecImpl<&'s str> for NonEmptyString {
    open spec fn obeys_try_from_spec() -> bool {
        false
    }

    open spec fn try_from_spec(v: &'s str) -> Result<Self, &'s str> {
        Err(v)
    }
}

impl TryFrom<String> for NonEmptyString {
    type Error = String;

    /// As [`NonEmptyString::new`].
    fn try_from(value: String) -> (res: Result<Self, String>)
        ensures
            value@.len() >= 1 <==> res is Ok,
            res matches Ok(v) ==> v@ == value@ && v.inv(),
            res matches Err(rejected) ==> rejected == value,
    {
        NonEmptyString::new(value)
    }
}

/// No spec function can name the result, since a specification cannot build
/// a `String`; the `ensures` of the conversion says what it gives.
impl TryFromSpecImpl<String> for NonEmptyString {
    open spec fn obeys_try_from_spec() -> bool {
        false
    }

    open spec fn try_from_spec(v: String) -> Result<Self, String> {
        Err(v)
    }
}

impl std::str::FromStr for NonEmptyString {
    type Err = String;

    /// Parses by copying `s` and handing the copy to
    /// [`NonEmptyString::new`].
    fn from_str(s: &str) -> (res: Result<Self, String>)
        ensures
            s@.len() >= 1 <==> res is Ok,
            res matches Ok(v) ==> v@ == s@ && v.inv(),
            res matches Err(rejected) ==> rejected@ == s@,
    {
        NonEmptyString::new(s.to_owned())
    }
}

impl From<NonEmptyString> for String {
    fn from(value: NonEmptyString) -> (res: String)
        ensures
            res@ == value@,
    {
        value.0
    }
}

/// No spec function can name the result, since a specification cannot build
/// a `String`; the `ensures` of the conversion says what it gives.
impl FromSpecImpl<NonEmptyString> for String {
    open spec fn obeys_from_spec() -> bool {
        false
    }

    open spec fn from_spec(v: NonEmptyString) -> String {
        arbitrary()
    }
}

} // verus!
