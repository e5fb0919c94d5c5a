//! What a decoder of structured data needs to know to produce a
//! [`NonEmptyString`]: what to ask for, and what to do with the text it
//! found.
//!
//! On the wire a [`NonEmptyString`] is the plain text of
//! [`NonEmptyString::get`]. Coming back, any text is taken but the empty
//! one, which is reported as an invalid value.
use crate::NonEmptyString;
use vstd::prelude::*;

verus! {

/// The report of a text that was found and could not be taken: what was
/// found, and what had been expected in its place.
#[derive(Debug, Clone, Copy, PartialEq, Eq)]
pub struct InvalidValue {
    /// The text that was found.
    pub unexpected: &'static str,
    /// What a text must be to be taken.
    pub expected: &'static str,
}

/// Takes the text that a decoder found and makes a [`NonEmptyString`] of it.
#[derive(Debug, Clone, Copy)]
pub struct NonEmptyStringVisitor;

impl NonEmptyStringVisitor {
    /// What a text must be to be taken, in words.
    pub fn expecting(&self) -> (res: &'static str)
        ensures
            res@ == "a string with a length of more than 0"@,
    {
        "a string with a length of more than 0"
    }

    /// Takes a borrowed text, as [`NonEmptyStringVisitor::visit_string`]
    /// takes an owned one.
    pub fn visit_str(self, value: &str) -> (res: Result<NonEmptyString, InvalidValue>)
        ensures
            value@.len() >= 1 <==> res is Ok,
            res matches Ok(v) ==> v@ == value@ && v.inv(),
            res matches Err(e) ==> e.unexpected@ == ""@ && e.expected@
                == "a string with a length of more than 0"@,
    {
        self.visit_string(value.to_owned())
    }

    /// Takes `value` when it holds at least one character. The empty text
    /// is reported as an invalid value: an empty string was found where
    /// [`NonEmptyStringVisitor::expecting`] was asked for.
    pub fn visit_string(self, value: String) -> (res: Result<NonEmptyString, InvalidValue>)
        ensures
            value@.len() >= 1 <==> res is Ok,
            res matches Ok(v) ==> v@ == value@ && v.inv(),
            res matches Err(e) ==> e.unexpected@ == ""@ && e.expected@
                == "a string with a length of more than 0"@,
    {
        match NonEmptyString::new(value) {
            Ok(v) => Ok(v),
            Err(_) => Err(InvalidValue { unexpected: "", expected: self.expecting() }),
        }
    }
}

} // verus!
