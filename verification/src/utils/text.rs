//! Small helpers on optional text and on bytes.

use vstd::prelude::*;

verus! {

/// The characters of an optional string.
pub open spec fn text(value: Option<String>) -> Option<Seq<char>> {
    match value {
        Some(s) => Some(s@),
        None => None,
    }
}

/// The characters of an optional string, empty where there is none.
pub open spec fn text_or_empty(value: Option<String>) -> Seq<char> {
    match value {
        Some(s) => s@,
        None => Seq::empty(),
    }
}

/// The first of two optional strings that is present.
pub open spec fn first_text(first: Option<String>, second: Option<String>) -> Option<Seq<char>> {
    match first {
        Some(s) => Some(s@),
        None => text(second),
    }
}

/// Whether two string slices hold the same characters.
pub fn same_text(a: &str, b: &str) -> (same: bool)
    ensures
        same == (a@ == b@),
{
    a.to_owned() == b.to_owned()
}

/// A copy of an optional string.
pub fn clone_text(value: &Option<String>) -> (copy: Option<String>)
    ensures
        text(copy) == text(*value),
{
    match value {
        Some(s) => Some(s.clone()),
        None => None,
    }
}

/// The string, or the empty string where there is none.
pub fn unwrap_text(value: Option<String>) -> (s: String)
    ensures
        s@ == text_or_empty(value),
{
    match value {
        Some(s) => s,
        None => String::new(),
    }
}

/// The first of two optional strings that is present.
pub fn or_text(first: Option<String>, second: Option<String>) -> (chosen: Option<String>)
    ensures
        text(chosen) == first_text(first, second),
{
    match first {
        Some(s) => Some(s),
        None => second,
    }
}

/// The bytes of an optional byte string.
pub open spec fn bytes(value: Option<Vec<u8>>) -> Option<Seq<u8>> {
    match value {
        Some(b) => Some(b@),
        None => None,
    }
}

/// Whether two byte strings are equal.
pub fn same_bytes(a: &[u8], b: &[u8]) -> (same: bool)
    ensures
        same == (a@ == b@),
{
    if a.len() != b.len() {
        return false;
    }
    let mut i: usize = 0;
    while i < a.len()
        invariant
            a@.len() == b@.len(),
            i <= a@.len(),
            a@.subrange(0, i as int) == b@.subrange(0, i as int),
        decreases a@.len() - i,
    {
        if a[i] != b[i] {
            return false;
        }
        i += 1;
    }
    assert(a@ =~= a@.subrange(0, i as int));
    assert(b@ =~= b@.subrange(0, i as int));
    true
}

} // verus!
