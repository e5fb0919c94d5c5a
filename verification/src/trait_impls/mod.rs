//! The standard traits of [`NonEmptyString`].
use crate::NonEmptyString;
use std::borrow::Borrow;
use vstd::prelude::*;
use vstd::std_specs::convert::FromSpecImpl;

pub mod convert;
pub mod delegated_traits;
pub mod equality;
pub mod extend;
pub mod ordering;

verus! {

impl From<char> for NonEmptyString {
    /// The text of the one character `c`.
    fn from(c: char) -> (res: Self)
        ensures
            res@ == seq![c],
            res.inv(),
    {
        let mut string = String::new();
        string.push(c);
        assert(string@ =~= seq![c]);
        NonEmptyString(string)
    }
}

/// No spec function can name the result, since a specification cannot build
/// a `String`; the `ensures` of the conversion says what it gives.
impl FromSpecImpl<char> for NonEmptyString {
    open spec fn obeys_from_spec() -> bool {
        false
    }

    open spec fn from_spec(v: char) -> Self {
        arbitrary()
    }
}

impl Borrow<str> for NonEmptyString {
    fn borrow(&self) -> (res: &str)
        ensures
            ({
                let text: &str = res;
                text@ == self@
            }),
    {
        self.0.as_str()
    }
}

impl Borrow<String> for NonEmptyString {
    fn borrow(&self) -> (res: &String)
        ensures
            ({
                let text: &String = res;
                text@ == self@
            }),
    {
        &self.0
    }
}

} // verus!
