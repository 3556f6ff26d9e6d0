//! Content patterns: regular expressions compiled and run by the `regex` crate.

use regex::Regex;
use vstd::prelude::*;

verus! {

/// `regex::Regex`, a compiled regular expression.
#[verifier::external_type_specification]
#[verifier::external_body]
pub struct ExRegex(regex::Regex);

/// `regex::Error`, the reason why a pattern did not compile.
#[verifier::external_type_specification]
#[verifier::external_body]
pub struct ExRegexError(regex::Error);

/// The pattern text that a compiled expression was built from.
pub uninterp spec fn pattern_of(re: Regex) -> Seq<char>;

/// Whether a compiled expression matches anywhere in `text`.
pub uninterp spec fn regex_matches(re: Regex, text: Seq<char>) -> bool;

/// `Regex::new` compiles a pattern. Whether it succeeds is left open here (it
/// depends on the syntax and on a size limit); when it does, the compiled
/// expression remembers the text it was given.
pub assume_specification[ Regex::new ](re: &str) -> (compiled: Result<Regex, regex::Error>)
    ensures
        compiled matches Ok(r) ==> pattern_of(r) == re@,
;

/// `Regex::is_match` says whether the expression matches anywhere in the
/// haystack. The answer depends on the expression and the haystack alone.
pub assume_specification[ Regex::is_match ](re: &Regex, haystack: &str) -> (found: bool)
    ensures
        found == regex_matches(*re, haystack@),
;

/// `Regex::as_str` returns the text that the expression was compiled from.
pub assume_specification<'a>[ Regex::as_str ](re: &'a Regex) -> (text: &'a str)
    ensures
        text@ == pattern_of(*re),
;

/// The message that a `regex::Error` displays as.
pub uninterp spec fn message_of(error: regex::Error) -> Seq<char>;

/// Compiles `pattern`. What comes back is what `Regex::new` made of it: the
/// compiled expression, which remembers the pattern, or else the message of
/// the error that it gave. Whether a pattern compiles is for the `regex`
/// crate to say: it depends on the syntax and on a size limit that is
/// measured on the machine.
pub fn compile(pattern: &str) -> (compiled: Result<Regex, String>)
    ensures
        compiled matches Ok(r) ==> pattern_of(r) == pattern@,
        compiled matches Err(text) ==> exists|error: regex::Error| text@ == message_of(error),
{
    with_message(Regex::new(pattern))
}

/// `ToString::to_string` on a `regex::Error`: the text that the error
/// displays as, which depends on the error alone.
#[verifier::external_body]
pub(crate) fn error_text(error: &regex::Error) -> (text: String)
    ensures
        text@ == message_of(*error),
{
    error.to_string()
}

/// Turns the outcome of a compilation into what the library hands on: the
/// compiled expression as it is, an error as its message.
pub fn with_message(outcome: Result<Regex, regex::Error>) -> (compiled: Result<Regex, String>)
    ensures
        outcome matches Ok(r) ==> compiled == Ok::<Regex, String>(r),
        outcome matches Err(error) ==> compiled is Err && compiled->Err_0@ == message_of(error),
{
    match outcome {
        Ok(r) => Ok(r),
        Err(e) => Err(error_text(&e)),
    }
}

} // verus!
