//! Nation names as text: case folding, prefixes, and the order names are listed in.

use vstd::prelude::*;

verus! {

/// The lower-case form of a text, as Unicode defines it without regard to a locale.
pub uninterp spec fn lowercase(text: Seq<char>) -> Seq<char>;

/// `str::to_lowercase` returns the Unicode lower-case form of its argument. The form is
/// named here, not spelled out: the contract says only that the same text always has the
/// same lower-case form.
pub assume_specification[ str::to_lowercase ](text: &str) -> (lower: String)
    ensures
        lower@ == lowercase(text@),
;

/// `str::starts_with`, given a string as its pattern, tells whether the pattern's
/// characters are the first characters of the text.
#[verifier::external_body]
pub(crate) fn starts_with(text: &str, prefix: &str) -> (starts: bool)
    ensures
        starts == prefix@.is_prefix_of(text@),
{
    text.starts_with(prefix)
}

/// Whether a nation called `name` is meant by what a player typed: upper and lower case
/// aside, the name begins with `typed`.
pub open spec fn name_matches(name: Seq<char>, typed: Seq<char>) -> bool {
    lowercase(typed).is_prefix_of(lowercase(name))
}

/// Tells whether `name` begins with `typed_lower`, which the caller has already
/// lower-cased.
pub fn matches_lowered(name: &str, typed_lower: &str) -> (matches: bool)
    ensures
        matches == typed_lower@.is_prefix_of(lowercase(name@)),
{
    let lower = name.to_lowercase();
    starts_with(lower.as_str(), typed_lower)
}

} // verus!
