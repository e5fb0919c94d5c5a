use non_empty_string::NonEmptyString;
use std::str::FromStr;

#[test]
fn empty_string_returns_err() {
    assert_eq!(NonEmptyString::new("".to_owned()), Err("".to_owned()));
}

#[test]
fn non_empty_string_returns_ok() {
    assert!(NonEmptyString::new("string".to_owned()).is_ok())
}

#[test]
fn what_goes_in_comes_out() {
    assert_eq!(
        NonEmptyString::new("string".to_owned())
            .unwrap()
            .into_inner(),
        "string".to_owned()
    );
}

#[test]
fn as_ref_str_works() {
    let nes = NonEmptyString::new("string".to_owned()).unwrap();
    let val: &str = nes.as_ref();
    assert_eq!(val, "string");
}

#[test]
fn as_ref_string_works() {
    let nes = NonEmptyString::new("string".to_owned()).unwrap();
    let val: &String = nes.as_ref();
    assert_eq!(val, "string");
}

#[test]
fn calling_string_methods_works() {
    let nes = NonEmptyString::new("string".to_owned()).unwrap();
    // `len` is a `String` method.
    assert!(nes.len() > 0);
}

#[test]
fn from_str_works() {
    let valid_str = "string";
    let non_empty_string = NonEmptyString::from_str(valid_str).unwrap();
    let parsed: NonEmptyString = valid_str.parse().unwrap();
    assert_eq!(non_empty_string, parsed);
}

#[test]
fn into_works() {
    let non_empty_string = NonEmptyString::new("string".to_string()).unwrap();
    let _string: String = non_empty_string.into();

    let non_empty_string = NonEmptyString::new("string".to_string()).unwrap();
    let _string = String::from(non_empty_string);
}

#[test]
fn format_test() {
    let str = NonEmptyString::new("string".to_owned()).unwrap();
    println!("{}", str.to_string());
    assert_eq!(String::from("string"), str.to_string())
}

fn is_hash<T: std::hash::Hash>() {}

#[test]
fn hash_works() {
    is_hash::<NonEmptyString>();
}

const NON_EMPTY_STRING: &'static str = "non-empty-string";

#[test]
fn test_const_non_empty_string_macro_valid() {
    assert!(!NON_EMPTY_STRING.is_empty(), "String cannot be empty");
    let s = NonEmptyString::new_unchecked(NON_EMPTY_STRING.to_string());
    assert_eq!(
        s,
        NonEmptyString::try_from(NON_EMPTY_STRING).unwrap()
    );
}

#[test]
fn test_inline_non_empty_string_macro_valid() {
    assert!(!"Test String".is_empty(), "String cannot be empty");
    let s = NonEmptyString::new_unchecked("Test String".to_string());
    assert_eq!(s, NonEmptyString::try_from("Test String").unwrap());
}

#[test]
fn new_rejects_only_the_empty_text() {
    for text in ["a", " ", "\0", "é", "日本語", "two words"] {
        let made = NonEmptyString::new(text.to_owned());
        assert_eq!(made.map(NonEmptyString::into_inner), Ok(text.to_owned()));
    }
    assert_eq!(NonEmptyString::new(String::new()), Err(String::new()));
}

#[test]
fn new_hands_the_rejected_buffer_back() {
    let empty = String::with_capacity(64);
    let pointer = empty.as_ptr();
    let rejected = NonEmptyString::new(empty).unwrap_err();
    assert_eq!(rejected.as_ptr(), pointer);
    assert!(rejected.capacity() >= 64);
}

#[test]
fn try_from_slice_rejects_only_the_empty_text() {
    assert_eq!(NonEmptyString::try_from(""), Err(""));
    assert_eq!(
        NonEmptyString::try_from("abc").unwrap().into_inner(),
        "abc".to_owned()
    );
}

#[test]
fn try_from_string_is_new() {
    assert_eq!(NonEmptyString::try_from(String::new()), Err(String::new()));
    assert_eq!(
        NonEmptyString::try_from("abc".to_owned()),
        NonEmptyString::new("abc".to_owned())
    );
}

#[test]
fn from_str_rejects_the_empty_text() {
    assert_eq!(NonEmptyString::from_str(""), Err(String::new()));
    assert_eq!("".parse::<NonEmptyString>(), Err(String::new()));
}

#[test]
fn unchecked_equals_checked() {
    assert_eq!(
        NonEmptyString::new_unchecked("x".to_owned()),
        NonEmptyString::new("x".to_owned()).unwrap()
    );
}

#[test]
fn round_trip_gives_the_text_back() {
    for text in ["x", "string", "ünïcödé", "line\nbreak"] {
        let value = NonEmptyString::new(text.to_owned()).unwrap();
        assert_eq!(value.get(), text);
        assert!(value.get().len() >= 1);
        assert_eq!(value.into_inner(), text);
    }
}

#[test]
fn conversion_symmetry() {
    let value = NonEmptyString::new("abc".to_owned()).unwrap();
    let copy = value.clone();
    let text: String = value.into();
    assert_eq!(NonEmptyString::new(text).unwrap(), copy);
}

#[test]
fn from_char_holds_that_char() {
    assert_eq!(NonEmptyString::from('a').get(), "a");
    assert_eq!(NonEmptyString::from('é').into_inner(), "é");
    let value: NonEmptyString = '日'.into();
    assert_eq!(value.len(), 3);
}

#[test]
fn destructuring_forwards() {
    let value = NonEmptyString::new("héllo".to_owned()).unwrap();
    assert_eq!(value.as_str(), "héllo");
    assert_eq!(value.as_bytes(), "héllo".as_bytes());
    assert_eq!(value.len(), 6);
    assert!(value.capacity() >= 6);
    assert_eq!(value.clone().into_bytes(), vec![b'h', 0xc3, 0xa9, b'l', b'l', b'o']);
    assert_eq!(&*value.clone().into_boxed_str(), "héllo");
    assert_eq!(value.to_string(), "héllo");
}

#[test]
fn empty_string_error_message() {
    let error = non_empty_string::EmptyString;
    assert_eq!(error.to_string(), "zero-value string");
    assert_eq!(error, non_empty_string::error::EmptyString);
}
