//! Several regular expressions matched in one scan, which reports every one
//! of them that matches.
use vstd::prelude::*;

use crate::rregex::Error;

verus! {

#[verifier::external_type_specification]
#[verifier::external_body]
pub struct ExRegexSet(regex::RegexSet);

/// Why `patterns` do not compile together, as the message of the parser or
/// compiler; `None` when they do. Besides the patterns, this depends on the
/// target's pointer width, given as the largest `usize`: the compiled size
/// that is checked against a limit is counted in bytes.
pub uninterp spec fn set_compile_error_of(patterns: Seq<Seq<char>>, usize_max: nat) -> Option<
    Seq<char>,
>;

/// The positions of the patterns that match somewhere in `text`, ascending.
pub uninterp spec fn set_matches_of(patterns: Seq<Seq<char>>, text: Seq<char>) -> Seq<nat>;

/// A set of compiled regular expressions. `regexes` is compiled from
/// `patterns`, in that order: only `compile_set` builds one.
pub struct RRegexSet {
    regexes: regex::RegexSet,
    patterns: Ghost<Seq<Seq<char>>>,
}

impl View for RRegexSet {
    type V = Seq<Seq<char>>;

    /// The patterns, in the order they were given.
    closed spec fn view(&self) -> Seq<Seq<char>> {
        self.patterns@
    }
}

pub open spec fn texts(v: Seq<String>) -> Seq<Seq<char>> {
    v.map_values(|s: String| s@)
}

/// Relies on `regex::RegexSet::new`: compiles all of the patterns, or says why
/// not.
#[verifier::external_body]
fn compile_set(patterns: &Vec<String>) -> (r: Result<RRegexSet, String>)
    ensures
        r is Ok <==> set_compile_error_of(texts(patterns@), usize::MAX as nat) is None,
        r is Err ==> set_compile_error_of(texts(patterns@), usize::MAX as nat) == Some(r->Err_0@),
        r is Ok ==> r->Ok_0@ == texts(patterns@),
{
    match regex::RegexSet::new(patterns.iter()) {
        Ok(regexes) => Ok(RRegexSet { regexes, patterns: Ghost(texts(patterns@)) }),
        Err(e) => Err(e.to_string()),
    }
}

/// Relies on `regex::RegexSet::is_match`: whether any of the patterns matches.
#[verifier::external_body]
fn raw_set_is_match(set: &RRegexSet, text: &str) -> (r: bool)
    ensures
        r == (set_matches_of(set@, text@).len() > 0),
{
    set.regexes.is_match(text)
}

/// Relies on `regex::RegexSet::matches`: the positions of the patterns that
/// match, in ascending order.
#[verifier::external_body]
fn raw_set_matches(set: &RRegexSet, text: &str) -> (r: Vec<usize>)
    ensures
        r@.map_values(|i: usize| i as nat) == set_matches_of(set@, text@),
        forall|i: int| 0 <= i < r@.len() ==> #[trigger] r@[i] < set@.len(),
{
    set.regexes.matches(text).iter().collect()
}

impl RRegexSet {
    /// Compiles the patterns together, or returns the reason they do not
    /// compile.
    pub fn new(list: &Vec<String>) -> (r: Result<RRegexSet, Error>)
        ensures
            r is Ok <==> set_compile_error_of(texts(list@), usize::MAX as nat) is None,
            r is Err ==> set_compile_error_of(texts(list@), usize::MAX as nat) == Some(
                r->Err_0.message@,
            ),
            r is Ok ==> r->Ok_0@ == texts(list@),
    {
        match compile_set(list) {
            Ok(set) => Ok(set),
            Err(message) => Err(Error { message }),
        }
    }

    /// Whether any of the patterns matches somewhere in `text`.
    pub fn is_match(&self, text: &str) -> (r: bool)
        ensures
            r == (set_matches_of(self@, text@).len() > 0),
    {
        raw_set_is_match(self, text)
    }

    /// The positions of the patterns that match somewhere in `text`,
    /// ascending.
    pub fn matches(&self, text: &str) -> (r: Vec<usize>)
        ensures
            r@.map_values(|i: usize| i as nat) == set_matches_of(self@, text@),
            forall|i: int| 0 <= i < r@.len() ==> #[trigger] r@[i] < self@.len(),
    {
        raw_set_matches(self, text)
    }
}

} // verus!
