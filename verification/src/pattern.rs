//! Regular expressions, by their pattern text.
//!
//! Matching and capture substitution are the `regex` crate's. A pattern is
//! kept as text and compiled where it is used, so what a call returns depends
//! on the texts it is given and on nothing else.

use regex::Regex;
use vstd::prelude::*;

verus! {

/// Whether the pattern compiles.
pub uninterp spec fn pattern_is_valid(pattern: Seq<char>) -> bool;

/// Whether the pattern, once compiled, matches somewhere in the text.
pub uninterp spec fn pattern_matches(pattern: Seq<char>, text: Seq<char>) -> bool;

/// The text with its first match of the pattern replaced by the template,
/// after the template's group references (`$1`, `$name`) are filled in from
/// that match.
pub uninterp spec fn pattern_replaced(
    pattern: Seq<char>,
    text: Seq<char>,
    template: Seq<char>,
) -> Seq<char>;

/// `Regex::new`: whether it accepts the pattern.
#[verifier::external_body]
pub(crate) fn regex_compiles(pattern: &str) -> (b: bool)
    ensures
        b == pattern_is_valid(pattern@),
{
    Regex::new(pattern).is_ok()
}

/// `Regex::is_match` of the compiled pattern on the text.
#[verifier::external_body]
pub(crate) fn regex_is_match(pattern: &str, text: &str) -> (b: bool)
    requires
        pattern_is_valid(pattern@),
    ensures
        b == pattern_matches(pattern@, text@),
{
    Regex::new(pattern).unwrap().is_match(text)
}

/// `Regex::replace` of the compiled pattern on the text, with the template as
/// the replacement.
#[verifier::external_body]
pub(crate) fn regex_replace(pattern: &str, text: &str, template: &str) -> (s: String)
    requires
        pattern_is_valid(pattern@),
    ensures
        s@ == pattern_replaced(pattern@, text@, template@),
{
    Regex::new(pattern).unwrap().replace(text, template).into_owned()
}

} // verus!
