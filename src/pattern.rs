//! The compiled regular expression behind every match specification, and
//! the calls into the `regex` crate that the matching strategies make.
use vstd::prelude::*;

verus! {

#[verifier::external_type_specification]
#[verifier::external_body]
pub struct ExRegex(regex::Regex);

#[verifier::external_type_specification]
#[verifier::external_body]
pub struct ExRegexError(regex::Error);

/// Whether `Regex::new` accepts the pattern text: it is well formed and the
/// compiled program stays under the default size limit.
pub uninterp spec fn regex_compiles(pattern: Seq<char>) -> bool;

/// The pattern text a regex was compiled from, as `Regex::as_str` gives it.
pub uninterp spec fn regex_source(re: regex::Regex) -> Seq<char>;

/// Whether the regex finds at least one match anywhere in `haystack`.
pub uninterp spec fn regex_finds(re: regex::Regex, haystack: Seq<char>) -> bool;

/// `haystack` with every leftmost-first, non-overlapping match of the regex
/// replaced by `replacement`, in which `$name` and `$n` expand to groups.
pub uninterp spec fn regex_replaced(
    re: regex::Regex,
    haystack: Seq<char>,
    replacement: Seq<char>,
) -> Seq<char>;

/// Relies on `regex::Regex::new`: it fails exactly on the patterns it
/// rejects, and the regex it returns keeps its source text.
#[verifier::external_body]
pub(crate) fn compile_regex(pattern: &str) -> (r: Result<regex::Regex, regex::Error>)
    ensures
        r is Ok <==> regex_compiles(pattern@),
        r matches Ok(re) ==> regex_source(re) == pattern@,
{
    regex::Regex::new(pattern)
}

/// Relies on `regex::Regex::is_match`: true iff there is a match anywhere.
#[verifier::external_body]
pub(crate) fn regex_is_match(re: &regex::Regex, haystack: &str) -> (r: bool)
    ensures
        r == regex_finds(*re, haystack@),
{
    re.is_match(haystack)
}

/// Relies on `regex::Regex::replace_all`: every non-overlapping match is
/// replaced, with group references in `replacement` expanded.
#[verifier::external_body]
pub(crate) fn regex_replace_all(re: &regex::Regex, haystack: &str, replacement: &str) -> (r: String)
    ensures
        r@ == regex_replaced(*re, haystack@, replacement@),
{
    re.replace_all(haystack, replacement).into_owned()
}

} // verus!
