//! Text out of bytes and matches out of text, as the `regex` crate and std find
//! them. Nothing in this file is proved: it states what those two are taken to do.

use regex::Regex;
use vstd::prelude::*;
use vstd::utf8::*;

verus! {

/// The error of the `regex` crate.
#[verifier::external_type_specification]
#[verifier::external_body]
pub struct ExRegexError(regex::Error);

/// Whether the `regex` crate accepts `pattern` as a regular expression.
pub uninterp spec fn regex_compiles(pattern: Seq<char>) -> bool;

/// What the leftmost match of `pattern` in `haystack` captured, group by
/// group, the whole match first; `None` where there is no match. A group that
/// took no part in the match is `None`.
pub uninterp spec fn regex_captures(pattern: Seq<char>, haystack: Seq<char>) -> Option<
    Seq<Option<Seq<char>>>,
>;

/// The text that `bytes` stand for when every ill-formed part is replaced by
/// the replacement character.
pub uninterp spec fn utf8_lossy(bytes: Seq<u8>) -> Seq<char>;

/// `Regex::new` on `pattern`, then `Regex::captures` on `haystack`, of the
/// `regex` crate. The error is that of `Regex::new`. The groups of the match
/// are handed out as owned strings, in the order of `Captures::iter`.
#[verifier::external_body]
pub(crate) fn captures(pattern: &str, haystack: &str) -> (groups: Result<
    Option<Vec<Option<String>>>,
    regex::Error,
>)
    ensures
        groups is Ok <==> regex_compiles(pattern@),
        groups matches Ok(found) ==> found.deep_view() == regex_captures(pattern@, haystack@),
{
    let re = Regex::new(pattern)?;
    let found = re.captures(haystack);
    Ok(found.map(|caps| caps.iter().map(|group| group.map(|m| m.as_str().to_string())).collect()))
}

/// `String::from_utf8_lossy` of std. Bytes that are well-formed UTF-8 give the
/// text they encode.
#[verifier::external_body]
pub(crate) fn from_utf8_lossy(bytes: &[u8]) -> (text: String)
    ensures
        text@ == utf8_lossy(bytes@),
        valid_utf8(bytes@) ==> text@ == decode_utf8(bytes@),
{
    String::from_utf8_lossy(bytes).into_owned()
}

} // verus!
