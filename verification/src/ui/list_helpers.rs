//! The texts that lists are searched by.

use vstd::prelude::*;

use crate::foreign;

verus! {

broadcast use vstd::string::group_string_axioms;

/// The text by which a search finds a value: the value itself where it is plain ASCII, and
/// otherwise the value without diacritics.
pub open spec fn searchable(value: Seq<char>) -> Seq<char> {
    if vstd::utf8::is_ascii_chars(value) {
        value
    } else {
        foreign::without_diacritics(value)
    }
}

/// The text by which a search finds a value.
pub fn filter_text(value: &str) -> (r: String)
    ensures
        r@ == searchable(value@),
{
    if value.is_ascii() {
        value.to_owned()
    } else {
        foreign::remove_diacritics(value)
    }
}

} // verus!
