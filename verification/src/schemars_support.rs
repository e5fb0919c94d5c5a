//! How a [`NonEmptyString`] is described to a generator of schemas: as a
//! string of at least one character.
use crate::NonEmptyString;
use vstd::prelude::*;

verus! {

/// The schema of a kind of text. It describes; it checks nothing.
#[derive(Debug, Clone, Copy, PartialEq, Eq)]
pub struct TextSchema {
    /// The type of the instances, by its name in a schema.
    pub instance_type: &'static str,
    /// The least number of characters that an instance holds.
    pub min_length: u64,
    /// The title of the schema.
    pub title: &'static str,
    /// What the schema asks of an instance, in words.
    pub description: &'static str,
}

impl NonEmptyString {
    /// The name under which the schema goes.
    pub fn schema_name() -> (res: &'static str)
        ensures
            res@ == "nonemtpy_string"@,
    {
        "nonemtpy_string"
    }

    /// Whether the schema is written out wherever it is used. It is.
    pub fn inline_schema() -> (res: bool)
        ensures
            res,
    {
        true
    }

    /// The name that tells the schema from every other.
    pub fn schema_id() -> (res: &'static str)
        ensures
            res@ == "nonempty_string"@,
    {
        "nonempty_string"
    }

    /// The schema: a string of at least one character.
    pub fn json_schema() -> (res: TextSchema)
        ensures
            res.instance_type@ == "string"@,
            res.min_length == 1,
            res.title@ == "Non-Empty String"@,
            res.description@ == "A string that must contain at least one character"@,
    {
        TextSchema {
            instance_type: "string",
            min_length: 1,
            title: "Non-Empty String",
            description: "A string that must contain at least one character",
        }
    }
}

} // verus!
