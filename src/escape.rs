//! Quoting text for use as a literal inside a pattern.
use vstd::prelude::*;

verus! {

/// The characters that have a meaning in a pattern.
pub open spec fn is_meta(c: char) -> bool {
    c == '\\' || c == '.' || c == '+' || c == '*' || c == '?' || c == '(' || c == ')' || c == '|'
        || c == '[' || c == ']' || c == '{' || c == '}' || c == '^' || c == '$' || c == '#' || c
        == '&' || c == '-' || c == '~'
}

/// `s` with a backslash before each meta character.
pub open spec fn escaped(s: Seq<char>) -> Seq<char>
    decreases s.len(),
{
    if s.len() == 0 {
        Seq::empty()
    } else {
        let prev = escaped(s.drop_last());
        let c = s.last();
        if is_meta(c) {
            prev.push('\\').push(c)
        } else {
            prev.push(c)
        }
    }
}

/// Relies on `regex::escape`: each character of `text` in order, preceded by
/// a backslash when it is one of the meta characters.
#[verifier::external_body]
fn raw_escape(text: &str) -> (r: String)
    ensures
        r@ == escaped(text@),
{
    regex::escape(text)
}

/// `text` with every meta character escaped, so that it can stand in a
/// pattern as a literal.
pub fn escape(text: &str) -> (r: String)
    ensures
        r@ == escaped(text@),
{
    raw_escape(text)
}

} // verus!
