//! The error that stands for a text without characters.
use vstd::prelude::*;

verus! {

/// Says that a text held no character where one was needed. It carries
/// nothing besides that.
#[derive(Debug, Clone, Copy, PartialEq, Eq, Structural)]
pub struct EmptyString;

impl EmptyString {
    /// The message of the error.
    pub fn to_string(&self) -> (res: String)
        ensures
            res@ == "zero-value string"@,
    {
        "zero-value string".to_owned()
    }
}

} // verus!
