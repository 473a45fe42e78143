//! The pattern engine. Patterns are compiled and run by the `regex` crate;
//! what is said here of its answers is taken on trust from that crate.

use regex::Regex;
use vstd::prelude::*;

verus! {

/// A compiled pattern of the `regex` crate. Nothing is known of what is
/// inside it; it is only handed on to the engine.
#[verifier::external_type_specification]
#[verifier::external_body]
pub struct ExRegex(regex::Regex);

/// The reason for which the `regex` crate refuses a pattern. Nothing is
/// known of what is inside it.
#[verifier::external_type_specification]
#[verifier::external_body]
pub struct ExRegexError(regex::Error);

/// Whether `Regex::new` compiles a pattern text: whether the text is a
/// pattern in the syntax of the engine and stays within the size that the
/// engine, as it is built, allows a compiled pattern.
pub uninterp spec fn regex_compiles(pattern: Seq<char>) -> bool;

/// The pattern text that `Regex::as_str` gives back for a compiled pattern.
pub uninterp spec fn regex_source(re: Regex) -> Seq<char>;

/// The answer of `Regex::is_match` for a compiled pattern and a text.
pub uninterp spec fn regex_is_match(re: Regex, text: Seq<char>) -> bool;

/// What `Regex::captures` finds for a compiled pattern in a text: nothing
/// where the pattern does not match, else one entry for each group of the
/// pattern, the whole match first, holding the part of the text that the
/// group matched, if it took part in the match.
pub uninterp spec fn regex_captures(re: Regex, text: Seq<char>) -> Option<Seq<Option<Seq<char>>>>;

/// `Regex::new` compiles a pattern or refuses it. Which of the two depends
/// on the text of the pattern alone. A compiled pattern remembers the text
/// that it was compiled from.
pub assume_specification[ Regex::new ](re: &str) -> (r: Result<Regex, regex::Error>)
    ensures
        r is Ok == regex_compiles(re@),
        r matches Ok(compiled) ==> regex_source(compiled) == re@,
;

/// `Regex::as_str` gives the text that the pattern was compiled from.
pub assume_specification[ Regex::as_str ](re: &Regex) -> (source: &str)
    ensures
        source@ == regex_source(*re),
;

/// `Regex::is_match` says whether the pattern matches anywhere in the text.
/// The answer depends on the pattern and the text alone.
pub assume_specification[ Regex::is_match ](re: &Regex, haystack: &str) -> (found: bool)
    ensures
        found == regex_is_match(*re, haystack@),
;

/// The groups of a match as texts.
pub open spec fn groups_view(groups: Seq<Option<String>>) -> Seq<Option<Seq<char>>> {
    Seq::new(
        groups.len(),
        |i: int|
            match groups[i] {
                Some(part) => Some(part@),
                None => None,
            },
    )
}

/// `Regex::captures` on the text, with each group of the first match copied
/// out as a text of its own. What is found depends on the pattern and the
/// text alone.
#[verifier::external_body]
pub(crate) fn captures(re: &Regex, text: &str) -> (found: Option<Vec<Option<String>>>)
    ensures
        match found {
            Some(groups) => regex_captures(*re, text@) == Some(groups_view(groups@)),
            None => regex_captures(*re, text@) is None,
        },
{
    re.captures(text).map(|c| c.iter().map(|g| g.map(|m| m.as_str().to_string())).collect())
}

} // verus!
