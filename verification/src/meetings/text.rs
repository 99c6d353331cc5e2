//! Text as users type it.

use vstd::prelude::*;

verus! {

/// `text` without the white space at its start and at its end.
pub uninterp spec fn trimmed(text: Seq<char>) -> Seq<char>;

/// Calls `str::trim`, which returns the slice of `text` between its leading
/// and its trailing white space.
#[verifier::external_body]
pub(crate) fn trim(text: &str) -> (short: &str)
    ensures
        short@ == trimmed(text@),
{
    text.trim()
}

/// `trimmed` as a text of its own, unless nothing is left of it.
pub fn unless_empty(trimmed: &str) -> (kept: Option<String>)
    ensures
        kept matches Some(text) ==> text@ == trimmed@ && trimmed@.len() > 0,
        kept is None <==> trimmed@.len() == 0,
{
    if trimmed.is_empty() {
        None
    } else {
        Some(trimmed.to_owned())
    }
}

} // verus!
