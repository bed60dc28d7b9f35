//! Trusted items for the few std string operations that vstd does not specify.

use vstd::prelude::*;

verus! {

/// What `str::to_lowercase` returns for a string: the lowercase form defined by
/// the Unicode Derived Core Property `Lowercase`. Unicode's tables decide it, so
/// it is only named here; it depends on the characters of the string alone.
pub uninterp spec fn spec_to_lowercase(text: Seq<char>) -> Seq<char>;

/// Calls `str::to_lowercase`. Claimed: the result is `spec_to_lowercase` of the
/// argument's characters, and nothing more.
#[verifier::external_body]
pub(crate) fn to_lowercase(text: &str) -> (lowered: String)
    ensures
        lowered@ == spec_to_lowercase(text@),
{
    text.to_lowercase()
}

/// Calls `String::from_iter` (through `collect`) on the characters of a vector.
/// Claimed: the string holds those characters, in order, as std documents for
/// collecting an iterator of `char` into a `String`.
#[verifier::external_body]
pub(crate) fn string_from_chars(chars: &Vec<char>) -> (s: String)
    ensures
        s@ == chars@,
{
    chars.iter().collect()
}

} // verus!
