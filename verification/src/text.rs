//! Comparison of text by its characters.

use vstd::prelude::*;
use vstd::string::*;

verus! {

/// Whether `text` and `word` hold the same characters.
///
/// The lengths are compared first, so the characters of `text` are only walked
/// when it is as long as `word`.
pub fn same_text(text: &str, word: &str) -> (same: bool)
    ensures
        same == (text@ == word@),
{
    let length: usize = word.unicode_len();
    if text.unicode_len() != length {
        return false;
    }
    let mut at: usize = 0;
    while at < length
        invariant
            text@.len() == length,
            word@.len() == length,
            at <= length,
            forall|i: int| 0 <= i < at ==> text@[i] == word@[i],
        decreases length - at,
    {
        if text.get_char(at) != word.get_char(at) {
            return false;
        }
        at += 1;
    }
    assert(text@ =~= word@);
    true
}

} // verus!
