//! The order of [`NonEmptyString`]: that of the texts, which `str` orders
//! byte by byte.
use crate::NonEmptyString;
use core::cmp::Ordering;
use vstd::prelude::*;
use vstd::std_specs::cmp::PartialOrdSpecImpl;
use vstd::string::StringSliceAdditionalSpecFns;
use vstd::utf8::encode_utf8;

verus! {

/// How `a` stands to `b` in the lexicographic order of byte sequences: the
/// first byte in which they differ decides, and a proper prefix comes first.
pub open spec fn lexicographic(a: Seq<u8>, b: Seq<u8>) -> Ordering
    decreases a.len(),
{
    if a.len() == 0 {
        if b.len() == 0 {
            Ordering::Equal
        } else {
            Ordering::Less
        }
    } else if b.len() == 0 {
        Ordering::Greater
    } else if a[0] < b[0] {
        Ordering::Less
    } else if a[0] > b[0] {
        Ordering::Greater
    } else {
        lexicographic(a.drop_first(), b.drop_first())
    }
}

/// How the text `a` stands to the text `b`.
pub open spec fn text_order(a: Seq<char>, b: Seq<char>) -> Ordering {
    lexicographic(encode_utf8(a), encode_utf8(b))
}

/// Two byte sequences compare as equal exactly when they are the same.
pub proof fn lemma_lexicographic_equal(a: Seq<u8>, b: Seq<u8>)
    ensures
        lexicographic(a, b) == Ordering::Equal <==> a == b,
    decreases a.len(),
{
    if a.len() == 0 || b.len() == 0 {
        if a.len() == 0 && b.len() == 0 {
            assert(a =~= b);
        }
    } else {
        lemma_lexicographic_equal(a.drop_first(), b.drop_first());
        if a[0] == b[0] && a.drop_first() == b.drop_first() {
            assert(a =~= seq![a[0]] + a.drop_first());
            assert(b =~= seq![b[0]] + b.drop_first());
        }
    }
}

/// Swapping the two sides turns `Less` into `Greater` and back.
pub proof fn lemma_lexicographic_swap(a: Seq<u8>, b: Seq<u8>)
    ensures
        lexicographic(a, b) == Ordering::Less <==> lexicographic(b, a) == Ordering::Greater,
        lexicographic(a, b) == Ordering::Equal <==> lexicographic(b, a) == Ordering::Equal,
    decreases a.len(),
{
    if a.len() > 0 && b.len() > 0 {
        lemma_lexicographic_swap(a.drop_first(), b.drop_first());
    }
}

/// What comes before something that comes before `c` comes before `c`.
pub proof fn lemma_lexicographic_transitive(a: Seq<u8>, b: Seq<u8>, c: Seq<u8>)
    requires
        lexicographic(a, b) == Ordering::Less,
        lexicographic(b, c) == Ordering::Less,
    ensures
        lexicographic(a, c) == Ordering::Less,
    decreases a.len(),
{
    if a.len() > 0 && b.len() > 0 && c.len() > 0 {
        if a[0] == b[0] && b[0] == c[0] {
            lemma_lexicographic_transitive(a.drop_first(), b.drop_first(), c.drop_first());
        }
    }
}

/// `str::cmp` orders string slices lexicographically by their bytes.
#[verifier::external_body]
fn compare_text(a: &str, b: &str) -> (res: Ordering)
    ensures
        res == lexicographic(a.spec_bytes(), b.spec_bytes()),
{
    a.cmp(b)
}

impl PartialOrd for NonEmptyString {
    fn partial_cmp(&self, other: &Self) -> (res: Option<Ordering>) {
        Some(compare_text(self.0.as_str(), other.0.as_str()))
    }
}

impl PartialOrdSpecImpl for NonEmptyString {
    open spec fn obeys_partial_cmp_spec() -> bool {
        true
    }

    open spec fn partial_cmp_spec(&self, other: &Self) -> Option<Ordering> {
        Some(text_order(self@, other@))
    }
}

} // verus!
