//! Character classes and string escaping, as the standard library gives them.

use vstd::prelude::*;

verus! {

/// Whether `c` has the Unicode `Alphabetic` property, as `char::is_alphabetic` says.
pub uninterp spec fn alphabetic(c: char) -> bool;

/// Whether `c` is alphabetic or numeric, as `char::is_alphanumeric` says.
pub uninterp spec fn alphanumeric(c: char) -> bool;

/// The text that `{:?}` gives for a string: the string in double quotes,
/// with quotes, backslashes and unprintable characters escaped.
pub uninterp spec fn debug_quoted(s: Seq<char>) -> Seq<char>;

/// Calls `char::is_alphabetic`; its result is named `alphabetic`.
#[verifier::external_body]
fn is_alphabetic(c: char) -> (b: bool)
    ensures
        b == alphabetic(c),
{
    c.is_alphabetic()
}

/// Calls `char::is_alphanumeric`; its result is named `alphanumeric`.
#[verifier::external_body]
fn is_alphanumeric(c: char) -> (b: bool)
    ensures
        b == alphanumeric(c),
{
    c.is_alphanumeric()
}

/// Formats `s` with `{:?}` (the `Debug` impl of `str`); the result is named
/// `debug_quoted`, and it holds no raw line feed, since that `Debug` impl
/// writes a line feed as the escape `\n`.
#[verifier::external_body]
pub(crate) fn debug_text(s: &String) -> (t: String)
    ensures
        t@ == debug_quoted(s@),
        forall|i: int| 0 <= i < t@.len() ==> t@[i] != '\n',
{
    format!("{:?}", s)
}

/// A character that may begin an identifier.
pub open spec fn identifier_start(c: char) -> bool {
    alphabetic(c) || c == '_' || c == '$'
}

/// A character that may continue an identifier.
pub open spec fn identifier_part(c: char) -> bool {
    alphanumeric(c) || c == '_' || c == '$'
}

/// Whether `s` is a non-empty identifier: a start character, then part characters.
pub open spec fn identifier_text(s: Seq<char>) -> bool {
    &&& s.len() > 0
    &&& identifier_start(s[0])
    &&& forall|i: int| 1 <= i < s.len() ==> identifier_part(#[trigger] s[i])
}

/// Whether a non-empty label can stand as an object key without quotes.
pub fn is_identifier(label: &String) -> (r: bool)
    requires
        label@.len() > 0,
    ensures
        r == identifier_text(label@),
{
    let mut first = true;
    for ch in it: label.as_str().chars()
        invariant
            first == (it.index() == 0),
            it.seq() == label@,
            !first ==> identifier_start(label@[0]),
            forall|i: int| 1 <= i < it.index() ==> identifier_part(#[trigger] label@[i]),
    {
        if first {
            if !is_alphabetic(ch) && ch != '_' && ch != '$' {
                return false;
            }
        } else {
            if !is_alphanumeric(ch) && ch != '_' && ch != '$' {
                return false;
            }
        }
        first = false;
    }
    true
}

} // verus!
