//! The calls this library makes into other crates and into parts of the
//! standard library that come without a specification. Nothing in this file
//! is proved: each contract is taken on trust from the documentation or the
//! source of the function it speaks of.

use std::fmt::Write;
use vstd::prelude::*;

verus! {

/// What `str::to_lowercase` makes of a text: its lowercase form by the
/// Unicode rules, which depend on no locale.
pub uninterp spec fn lowercased(s: Seq<char>) -> Seq<char>;

/// Calls `str::to_lowercase`. The contract claims only that the result is the
/// function `lowercased` of the argument.
#[verifier::external_body]
pub(crate) fn lowercase(s: &str) -> (r: String)
    ensures
        r@ == lowercased(s@),
{
    s.to_lowercase()
}

/// The characters that `sanitize_filename::sanitize` takes out of every name:
/// those that separate or mark parts of a path or a pattern, and the control
/// characters.
pub open spec fn refused_in_names(c: char) -> bool {
    c == '/' || c == '?' || c == '<' || c == '>' || c == '\\' || c == ':' || c == '*' || c == '|'
        || c == '"' || c <= '\u{1f}' || ('\u{80}' <= c && c <= '\u{9f}')
}

/// What `sanitize_filename::sanitize` makes of a name: the name without the
/// characters that a file system refuses, cut to the length that one accepts.
/// The rules are those of the platform the library was built for.
pub uninterp spec fn sanitized(s: Seq<char>) -> Seq<char>;

/// Calls `sanitize_filename::sanitize`. The contract claims that the result
/// is the function `sanitized` of the argument, and that none of the
/// characters that `sanitize` replaces by nothing, whatever the platform, is
/// left in it.
#[verifier::external_body]
pub(crate) fn sanitize(s: &str) -> (r: String)
    ensures
        r@ == sanitized(s@),
        forall|i: int| 0 <= i < r@.len() ==> !refused_in_names(#[trigger] r@[i]),
{
    sanitize_filename::sanitize(s)
}

/// An RFC 3339 timestamp written anew in the layout `layout`, in the time
/// zone the timestamp itself names, as `chrono` formats it; `None` where
/// `chrono` does not accept the text as such a timestamp or cannot write it
/// in that layout.
pub uninterp spec fn rfc3339_formatted(s: Seq<char>, layout: Seq<char>) -> Option<Seq<char>>;

/// Calls `chrono::DateTime::parse_from_rfc3339` and writes what it parsed
/// with `DateTime::format`. The contract claims only that the result is the
/// function `rfc3339_formatted` of the arguments.
#[verifier::external_body]
pub(crate) fn format_rfc3339(s: &str, layout: &str) -> (r: Option<String>)
    ensures
        match r {
            Some(text) => rfc3339_formatted(s@, layout@) == Some(text@),
            None => rfc3339_formatted(s@, layout@).is_none(),
        },
{
    let parsed = chrono::DateTime::parse_from_rfc3339(s).ok()?;
    let mut text = String::new();
    write!(text, "{}", parsed.format(layout)).ok()?;
    Some(text)
}

/// What the group `group` of the regular expression `pattern` holds at the
/// first match of the pattern in `text`, by the rules of the `regex` crate;
/// `None` where the pattern does not compile, matches nowhere, or matches
/// without that group.
pub uninterp spec fn first_capture(pattern: Seq<char>, group: Seq<char>, text: Seq<char>) -> Option<
    Seq<char>,
>;

/// Calls `regex::Regex::new`, then `Regex::captures` and `Captures::name`.
/// The contract claims only that the result is the function `first_capture`
/// of the arguments.
#[verifier::external_body]
pub(crate) fn capture(pattern: &str, group: &str, text: &str) -> (r: Option<String>)
    ensures
        match r {
            Some(found) => first_capture(pattern@, group@, text@) == Some(found@),
            None => first_capture(pattern@, group@, text@).is_none(),
        },
{
    let re = regex::Regex::new(pattern).ok()?;
    let found = re.captures(text)?;
    found.name(group).map(|m| m.as_str().to_owned())
}

/// An HTTP status as `reqwest::StatusCode` shows it: the number and the
/// phrase that goes with it; `None` for a number that is no status.
pub uninterp spec fn status_shown(code: u16) -> Option<Seq<char>>;

/// Calls `reqwest::StatusCode::from_u16` and writes the status it made with
/// its `Display`. The contract claims that the result is the function
/// `status_shown` of the argument, and that there is one exactly for the
/// numbers from 100 to 999.
#[verifier::external_body]
pub(crate) fn show_status(code: u16) -> (r: Option<String>)
    ensures
        match r {
            Some(text) => status_shown(code) == Some(text@),
            None => status_shown(code).is_none(),
        },
        r.is_some() <==> 100 <= code < 1000,
{
    match reqwest::StatusCode::from_u16(code) {
        Ok(status) => Some(status.to_string()),
        Err(_) => None,
    }
}

} // verus!
