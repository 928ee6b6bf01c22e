//! Two judgements on text that are left to others: the lower-case form of
//! a string, which the standard library knows, and whether a regular
//! expression is found in one, which `regex` knows.

use vstd::prelude::*;

verus! {

/// The lower-case form of `text` by the Unicode rules of `str::to_lowercase`.
pub uninterp spec fn lowercase(text: Seq<char>) -> Seq<char>;

/// Whether the regular expression `pattern` is found anywhere in `text`;
/// nothing where `regex` does not accept `pattern`.
pub uninterp spec fn regex_found(pattern: Seq<char>, text: Seq<char>) -> Option<bool>;

/// Calls `str::to_lowercase`.
#[verifier::external_body]
pub(crate) fn to_lowercase(text: &str) -> (lowered: String)
    ensures
        lowered@ == lowercase(text@),
{
    text.to_lowercase()
}

/// Compiles `pattern` with `regex::Regex::new` and asks `Regex::is_match`
/// for `text`.
#[verifier::external_body]
pub(crate) fn is_match(pattern: &str, text: &str) -> (found: Option<bool>)
    ensures
        found == regex_found(pattern@, text@),
{
    regex::Regex::new(pattern).ok().map(|re| re.is_match(text))
}

} // verus!
