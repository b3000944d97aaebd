//! Text predicates shared by the classifier and the scene tables.

use vstd::prelude::*;

verus! {

/// `pattern` stands in `title` at the position `at`, character for character.
pub open spec fn occurs_at(pattern: Seq<char>, title: Seq<char>, at: int) -> bool {
    &&& 0 <= at
    &&& at + pattern.len() <= title.len()
    &&& title.subrange(at, at + pattern.len()) == pattern
}

/// `pattern` occurs in `title` as a contiguous run of characters: a substring
/// anywhere in it, compared exactly and with regard to case.
///
/// The empty pattern occurs in every title.
pub open spec fn occurs_in(pattern: Seq<char>, title: Seq<char>) -> bool {
    exists|at: int| #[trigger] occurs_at(pattern, title, at)
}

/// Trusted: `str::contains` with a string pattern. The standard library
/// documents that it returns `true` exactly when the pattern matches a
/// sub-slice of the string; a match between two valid UTF-8 strings always
/// covers whole characters, so the claim is stated over characters.
#[verifier::external_body]
pub(crate) fn title_contains(title: &str, pattern: &str) -> (found: bool)
    ensures
        found == occurs_in(pattern@, title@),
{
    title.contains(pattern)
}

/// Trusted: `==` on `str`, which the standard library documents as equality of
/// the two strings' contents.
#[verifier::external_body]
pub(crate) fn same_text(a: &str, b: &str) -> (same: bool)
    ensures
        same == (a@ == b@),
{
    a == b
}

/// The text that `bytes` decode to as UTF-8 when every malformed sequence is
/// replaced by U+FFFD, the replacement character.
pub uninterp spec fn lossy_text(bytes: Seq<u8>) -> Seq<char>;

/// Trusted: `String::from_utf8_lossy`, made into an owned `String`. The
/// standard library documents the conversion as a function of the bytes alone;
/// the contract names its result and claims nothing else of it.
#[verifier::external_body]
pub(crate) fn lossy_string(bytes: &[u8]) -> (text: String)
    ensures
        text@ == lossy_text(bytes@),
{
    String::from_utf8_lossy(bytes).into_owned()
}

} // verus!
