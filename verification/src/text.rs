//! Nullable text columns: their mathematical value and the few
//! operations the tables need on them.

use vstd::prelude::*;

verus! {

/// The characters held by a nullable text column, or `None` for null.
pub open spec fn text_of(value: Option<String>) -> Option<Seq<char>> {
    match value {
        Some(s) => Some(s@),
        None => None,
    }
}

/// The characters of a nullable text, with null read as the empty text.
pub open spec fn or_empty(value: Option<Seq<char>>) -> Seq<char> {
    match value {
        Some(s) => s,
        None => Seq::empty(),
    }
}

/// A copy of a nullable text.
pub fn copy_text(value: &Option<String>) -> (copy: Option<String>)
    ensures
        copy == *value,
{
    match value {
        Some(s) => Some(s.clone()),
        None => None,
    }
}

/// Whether two nullable texts hold the same value: both null, or both
/// present with the same characters.
pub fn same_text(a: &Option<String>, b: &Option<String>) -> (same: bool)
    ensures
        same == (text_of(*a) == text_of(*b)),
{
    match a {
        Some(x) => match b {
            Some(y) => *x == *y,
            None => false,
        },
        None => b.is_none(),
    }
}

/// The text itself, or the empty string where it is null.
pub fn text_or_empty(value: &Option<String>) -> (s: String)
    ensures
        s@ == or_empty(text_of(*value)),
{
    match value {
        Some(x) => x.clone(),
        None => String::new(),
    }
}

} // verus!
