use non_empty_string::NonEmptyString;
use std::borrow::{Borrow, Cow};
use std::cmp::Ordering;
use std::collections::hash_map::DefaultHasher;
use std::collections::{BTreeSet, HashSet};
use std::hash::{Hash, Hasher};

fn text(s: &str) -> NonEmptyString {
    NonEmptyString::new(s.to_owned()).unwrap()
}

fn hash_of<T: Hash + ?Sized>(value: &T) -> u64 {
    let mut hasher = DefaultHasher::new();
    value.hash(&mut hasher);
    hasher.finish()
}

#[test]
fn equality_is_that_of_the_texts() {
    assert_eq!(text("abc"), text("abc"));
    assert_ne!(text("abc"), text("abd"));
    assert_ne!(text("abc"), text("ab"));
    assert!(text("abc") == text("abc").clone());
}

#[test]
fn equality_with_plain_text() {
    let value = text("abc");
    assert!(value == *"abc");
    assert!(*"abc" == value);
    assert!(value == "abc");
    assert!("abc" == value);
    assert!(value == "abc".to_owned());
    assert!("abc".to_owned() == value);
    assert!(value == Cow::Borrowed("abc"));
    assert!(Cow::<str>::Owned("abc".to_owned()) == value);
    assert!(value != *"abd");
    assert!(*"abd" != value);
    assert!(value != "ab");
    assert!("ab" != value);
    assert!(value != "abcd".to_owned());
    assert!("abcd".to_owned() != value);
    assert!(value != Cow::Borrowed(""));
    assert!(Cow::Borrowed("x") != value);
}

#[test]
fn order_is_that_of_the_texts() {
    let cases = [
        ("a", "b"),
        ("a", "ab"),
        ("ab", "b"),
        ("Z", "a"),
        ("abc", "abc"),
        ("é", "z"),
        ("z", "é"),
        ("日本", "日本語"),
    ];
    for (left, right) in cases {
        assert_eq!(text(left).partial_cmp(&text(right)), Some(left.cmp(right)));
        assert_eq!(text(left).cmp(&text(right)), left.cmp(right));
        assert_eq!(text(left) < text(right), left < right);
        assert_eq!(text(left) >= text(right), left >= right);
    }
    assert_eq!(text("a").partial_cmp(&text("b")), Some(Ordering::Less));
    assert_eq!(text("b").partial_cmp(&text("a")), Some(Ordering::Greater));
    assert_eq!(text("a").partial_cmp(&text("a")), Some(Ordering::Equal));
    assert_eq!(text("a").partial_cmp(&text("ab")), Some(Ordering::Less));
}

#[test]
fn sorting_follows_the_texts() {
    let set: BTreeSet<NonEmptyString> = ["pear", "apple", "fig"].into_iter().map(text).collect();
    let sorted: Vec<&str> = set.iter().map(NonEmptyString::get).collect();
    assert_eq!(sorted, vec!["apple", "fig", "pear"]);
}

#[test]
fn equal_values_hash_alike() {
    assert_eq!(hash_of(&text("abc")), hash_of(&text("abc")));
    assert_eq!(hash_of(&text("abc")), hash_of(&"abc".to_owned()));
    assert_eq!(hash_of(&text("abc")), hash_of("abc"));
    let mut set = HashSet::new();
    assert!(set.insert(text("abc")));
    assert!(!set.insert(text("abc")));
    assert!(set.contains("abc"));
}

#[test]
fn borrows_as_plain_text() {
    let value = text("abc");
    let slice: &str = value.borrow();
    assert_eq!(slice, "abc");
    let string: &String = value.borrow();
    assert_eq!(string, "abc");
    let slice: &str = value.as_ref();
    assert_eq!(slice, "abc");
}

#[test]
fn clone_keeps_the_text() {
    let value = text("abc");
    let mut copy = value.clone();
    copy.push('d');
    assert_eq!(value.get(), "abc");
    assert_eq!(copy.get(), "abcd");
}

#[test]
fn debug_is_that_of_a_wrapper() {
    assert_eq!(format!("{:?}", text("abc")), "NonEmptyString(\"abc\")");
}

#[test]
fn indexing_by_ranges() {
    let value = text("héllo");
    assert_eq!(&value[0..1], "h");
    assert_eq!(&value[1..3], "é");
    assert_eq!(&value[3..3], "");
    assert_eq!(&value[1..6], "éllo");
    assert_eq!(&value[..3], "hé");
    assert_eq!(&value[..0], "");
    assert_eq!(&value[3..], "llo");
    assert_eq!(&value[6..], "");
    assert_eq!(&value[..], "héllo");
    assert_eq!(&value[0..=0], "h");
    assert_eq!(&value[1..=2], "é");
    assert_eq!(&value[3..=5], "llo");
    assert_eq!(&value[..=0], "h");
    assert_eq!(&value[..=2], "hé");
    assert_eq!(&value[..=5], "héllo");
}

#[test]
fn indexing_agrees_with_plain_text() {
    let plain = "a日本b";
    let value = text(plain);
    for start in [0, 1, 4, 7, 8] {
        for end in [0, 1, 4, 7, 8] {
            if start <= end {
                assert_eq!(&value[start..end], &plain[start..end]);
            }
        }
        assert_eq!(&value[start..], &plain[start..]);
        assert_eq!(&value[..start], &plain[..start]);
    }
    for end in [0, 3, 6, 7] {
        assert_eq!(&value[..=end], &plain[..=end]);
        assert_eq!(&value[0..=end], &plain[0..=end]);
    }
    assert_eq!(&value[4..=6], &plain[4..=6]);
}

#[test]
fn slice_cuts_at_byte_positions() {
    assert_eq!(non_empty_string::encoding::slice("héllo", 1, 3), "é");
    assert_eq!(non_empty_string::encoding::slice("héllo", 0, 6), "héllo");
    assert_eq!(non_empty_string::encoding::slice("héllo", 6, 6), "");
    assert_eq!(non_empty_string::encoding::slice("", 0, 0), "");
}

#[test]
fn slicing_between_the_byte_positions_of_characters() {
    let plain = "a日éb";
    let value = text(plain);
    let chars: Vec<char> = plain.chars().collect();
    for i in 0..=chars.len() {
        for j in i..=chars.len() {
            let from: usize = chars[..i].iter().map(|c| c.len_utf8()).sum();
            let to: usize = chars[..j].iter().map(|c| c.len_utf8()).sum();
            let expected: String = chars[i..j].iter().collect();
            assert_eq!(&value[from..to], expected);
        }
    }
}
