//! Views and comparisons of the optional strings and string lists that the
//! configuration types hold.

use vstd::prelude::*;

verus! {

/// The view of an optional string.
pub open spec fn optional_text(text: Option<String>) -> Option<Seq<char>> {
    match text {
        Some(text) => Some(text@),
        None => None,
    }
}

/// The views of a list of strings, in order.
pub open spec fn text_list(texts: Seq<String>) -> Seq<Seq<char>> {
    Seq::new(texts.len(), |i: int| texts[i]@)
}

/// Whether two optional strings are both absent or hold the same text.
pub(crate) fn same_optional_text(one: &Option<String>, other: &Option<String>) -> (same: bool)
    ensures
        same == (optional_text(*one) == optional_text(*other)),
{
    match (one, other) {
        (Some(one), Some(other)) => *one == *other,
        (None, None) => true,
        _ => false,
    }
}

/// Whether two lists hold the same texts in the same order.
pub(crate) fn same_text_list(one: &Vec<String>, other: &Vec<String>) -> (same: bool)
    ensures
        same == (text_list(one@) == text_list(other@)),
{
    if one.len() != other.len() {
        assert(text_list(one@).len() != text_list(other@).len());
        return false;
    }
    let mut i: usize = 0;
    while i < one.len()
        invariant
            i <= one@.len(),
            one@.len() == other@.len(),
            forall|j: int| 0 <= j < i ==> one@[j]@ == other@[j]@,
        decreases one@.len() - i,
    {
        if one[i] != other[i] {
            assert(text_list(one@)[i as int] != text_list(other@)[i as int]);
            return false;
        }
        i += 1;
    }
    assert(text_list(one@) =~= text_list(other@));
    true
}

} // verus!
