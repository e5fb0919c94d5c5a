use non_empty_string::schemars_support::TextSchema;
use non_empty_string::serde_support::{InvalidValue, NonEmptyStringVisitor};
use non_empty_string::NonEmptyString;
use serde::de::{Deserialize, Deserializer, Error, Unexpected, Visitor};
use serde::ser::{Serialize, Serializer};
use serde_json::{Number, Value};
use std::fmt;

/// A [`NonEmptyString`] as it goes over the wire: written as its text, read
/// through the library's visitor.
#[derive(Debug, PartialEq)]
struct Wire(NonEmptyString);

struct WireVisitor;

impl Serialize for Wire {
    fn serialize<S>(&self, serializer: S) -> Result<S::Ok, S::Error>
    where
        S: Serializer,
    {
        serializer.serialize_str(self.0.get())
    }
}

impl<'de> Deserialize<'de> for Wire {
    fn deserialize<D>(deserializer: D) -> Result<Self, D::Error>
    where
        D: Deserializer<'de>,
    {
        deserializer.deserialize_string(WireVisitor)
    }
}

impl<'de> Visitor<'de> for WireVisitor {
    type Value = Wire;

    fn expecting(&self, formatter: &mut fmt::Formatter) -> fmt::Result {
        formatter.write_str(NonEmptyStringVisitor.expecting())
    }

    fn visit_str<E>(self, value: &str) -> Result<Self::Value, E>
    where
        E: Error,
    {
        NonEmptyStringVisitor
            .visit_str(value)
            .map(Wire)
            .map_err(|e| Error::invalid_value(Unexpected::Str(e.unexpected), &self))
    }

    fn visit_string<E>(self, value: String) -> Result<Self::Value, E>
    where
        E: Error,
    {
        NonEmptyStringVisitor
            .visit_string(value)
            .map(Wire)
            .map_err(|e| Error::invalid_value(Unexpected::Str(e.unexpected), &self))
    }
}

fn text(s: &str) -> Value {
    Value::String(s.to_owned())
}

#[test]
fn serialize_non_empty_string_and_normal_string_give_the_same_result() {
    let value = Wire(NonEmptyString::new("abc".to_owned()).unwrap());
    let result = serde_json::to_string(&value);

    assert!(result.is_ok());

    let json = serde_json::to_string(&text("abc")).unwrap();
    assert_eq!(result.unwrap(), json)
}

#[test]
fn deserialize_works() {
    let e: Result<Wire, _> = serde_json::from_value(text("abc"));

    let expected = Wire(NonEmptyString::new("abc".to_owned()).unwrap());

    assert!(matches!(e, Ok(v) if v == expected))
}

fn deserialize_x_fails(value: Value, expected_error_message: &'static str) {
    let e: Result<Wire, _> = serde_json::from_value(value);
    assert!(matches!(e, Err(error) if &error.to_string() == expected_error_message))
}

#[test]
fn deserialize_empty_fails() {
    deserialize_x_fails(
        text(""),
        "invalid value: string \"\", expected a string with a length of more than 0",
    )
}

#[test]
fn deserialize_number_fails() {
    deserialize_x_fails(
        Value::Number(Number::from(8)),
        "invalid type: integer `8`, expected a string with a length of more than 0",
    )
}

#[test]
fn deserialize_object_fails() {
    deserialize_x_fails(
        Value::Object(Default::default()),
        "invalid type: map, expected a string with a length of more than 0",
    )
}

#[test]
fn deserialize_sequence_fails() {
    deserialize_x_fails(
        Value::Array(Vec::new()),
        "invalid type: sequence, expected a string with a length of more than 0",
    )
}

#[test]
fn deserialize_from_text_reads_what_serialize_wrote() {
    let value = Wire(NonEmptyString::new("a \"quoted\" é".to_owned()).unwrap());
    let written = serde_json::to_string(&value).unwrap();
    assert_eq!(written, "\"a \\\"quoted\\\" é\"");
    let read: Wire = serde_json::from_str(&written).unwrap();
    assert_eq!(read, value);
}

#[test]
fn visitor_takes_every_text_but_the_empty_one() {
    let rejected = InvalidValue {
        unexpected: "",
        expected: "a string with a length of more than 0",
    };
    assert_eq!(
        NonEmptyStringVisitor.expecting(),
        "a string with a length of more than 0"
    );
    assert_eq!(NonEmptyStringVisitor.visit_string(String::new()), Err(rejected));
    assert_eq!(NonEmptyStringVisitor.visit_str(""), Err(rejected));
    assert_eq!(
        NonEmptyStringVisitor.visit_string("abc".to_owned()),
        Ok(NonEmptyString::new("abc".to_owned()).unwrap())
    );
    assert_eq!(
        NonEmptyStringVisitor.visit_str(" "),
        Ok(NonEmptyString::new(" ".to_owned()).unwrap())
    );
}

#[test]
fn schema_describes_a_string_of_at_least_one_character() {
    assert_eq!(NonEmptyString::schema_name(), "nonemtpy_string");
    assert_eq!(NonEmptyString::schema_id(), "nonempty_string");
    assert!(NonEmptyString::inline_schema());
    assert_eq!(
        NonEmptyString::json_schema(),
        TextSchema {
            instance_type: "string",
            min_length: 1,
            title: "Non-Empty String",
            description: "A string that must contain at least one character",
        }
    );
}
