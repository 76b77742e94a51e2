use vstd::prelude::*;

use crate::board::MOVE_FORMAT;

verus! {

/// regex::Error, the reason a pattern does not compile; carried as an opaque value.
#[verifier::external_type_specification]
#[verifier::external_body]
pub struct ExRegexError(regex::Error);

/// Whether the regular expression `pattern`, as the `regex` crate reads it,
/// matches somewhere in `haystack`.
pub uninterp spec fn regex_finds(pattern: Seq<char>, haystack: Seq<char>) -> bool;

/// Relies on regex::Regex::new to compile `pattern` (or report why it cannot)
/// and on Regex::is_match to tell whether it matches somewhere in `haystack`.
/// The move pattern is valid syntax and small, so it always compiles.
#[verifier::external_body]
pub(crate) fn regex_is_match(pattern: &str, haystack: &str) -> (r: Result<bool, regex::Error>)
    ensures
        r matches Ok(found) ==> found == regex_finds(pattern@, haystack@),
        pattern@ == MOVE_FORMAT@ ==> r is Ok,
{
    match regex::Regex::new(pattern) {
        Ok(re) => Ok(re.is_match(haystack)),
        Err(e) => Err(e),
    }
}

} // verus!
