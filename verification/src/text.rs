//! Comparisons of text.

use vstd::prelude::*;
use vstd::string::*;

verus! {

/// Whether two texts hold the same characters.
pub fn same_text(a: &str, b: &str) -> (same: bool)
    ensures
        same == (a@ == b@),
{
    a.to_owned() == b.to_owned()
}

/// Whether `text` ends in `suffix`.
pub fn ends_with(text: &str, suffix: &str) -> (found: bool)
    ensures
        found == suffix@.is_suffix_of(text@),
{
    let text_len: usize = text.unicode_len();
    let suffix_len: usize = suffix.unicode_len();
    if suffix_len > text_len {
        return false;
    }
    same_text(text.substring_char(text_len - suffix_len, text_len), suffix)
}

} // verus!
