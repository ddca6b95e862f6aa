//! A compiled regular expression for searching, splitting and replacing in
//! text. The search itself is the work of the `regex` crate; what it returns
//! is a function of the pattern and the arguments alone, and is named below.
use vstd::prelude::*;

use crate::captures::{
    align, distinct_names, groups_within, lemma_slots_within, match_in, opt_match, opt_match_in, opt_name, slot_models,
    span_within, Captures, Match,
};

verus! {

#[verifier::external_type_specification]
#[verifier::external_body]
pub struct ExRegex(regex::Regex);

/// Why `pattern` does not compile, as the message of the parser or
/// compiler; `None` when it compiles. Besides the pattern, this depends on
/// the target's pointer width, given as the largest `usize`: the compiled
/// size that is checked against a limit is counted in bytes.
pub uninterp spec fn compile_error_of(pattern: Seq<char>, usize_max: nat) -> Option<Seq<char>>;

/// The byte span of the leftmost-first match of `pattern` in `text` that
/// starts at or after the byte offset `start`.
pub uninterp spec fn find_at_of(pattern: Seq<char>, text: Seq<char>, start: nat) -> Option<(nat, nat)>;

/// The byte spans of the successive non-overlapping matches.
pub uninterp spec fn find_all_of(pattern: Seq<char>, text: Seq<char>) -> Seq<(nat, nat)>;

/// The names of the groups of `pattern`, in the order of the groups.
pub uninterp spec fn names_of(pattern: Seq<char>) -> Seq<Option<Seq<char>>>;

/// The spans of the groups of the leftmost-first match.
pub uninterp spec fn captures_of(pattern: Seq<char>, text: Seq<char>) -> Option<Seq<Option<(nat, nat)>>>;

/// The spans of the groups of each successive non-overlapping match.
pub uninterp spec fn captures_all_of(pattern: Seq<char>, text: Seq<char>) -> Seq<Seq<Option<(nat, nat)>>>;

/// `text` with at most `limit` matches (all when `limit` is 0) replaced by
/// the expansion of `rep`.
pub uninterp spec fn replacen_of(pattern: Seq<char>, text: Seq<char>, limit: nat, rep: Seq<char>) -> Seq<char>;

/// The parts of `text` between the matches.
pub uninterp spec fn split_of(pattern: Seq<char>, text: Seq<char>) -> Seq<Seq<char>>;

/// At most `limit` parts of `text` between the matches, the last one holding
/// the rest.
pub uninterp spec fn splitn_of(pattern: Seq<char>, text: Seq<char>, limit: nat) -> Seq<Seq<char>>;

/// An error: the message of the parser or compiler that refused a pattern.
#[derive(Clone, Debug, PartialEq)]
pub struct Error {
    pub message: String,
}

/// A compiled regular expression. `regex` is compiled from `pattern` and
/// from nothing else: only `compile` builds one, and the wrappers below state
/// what the `regex` crate returns in terms of `pattern`.
pub struct RRegex {
    regex: regex::Regex,
    pattern: Ghost<Seq<char>>,
}

impl View for RRegex {
    type V = Seq<char>;

    /// The pattern this expression was compiled from.
    closed spec fn view(&self) -> Seq<char> {
        self.pattern@
    }
}

/// The named groups alone, in order.
pub open spec fn names_only(ns: Seq<Option<Seq<char>>>) -> Seq<Seq<char>>
    decreases ns.len(),
{
    if ns.len() == 0 {
        Seq::empty()
    } else {
        let prev = names_only(ns.drop_last());
        match ns.last() {
            Some(n) => prev.push(n),
            None => prev,
        }
    }
}

/// Relies on `regex::Regex::new`: compiles the pattern, or gives the text of
/// its error.
#[verifier::external_body]
fn compile(pattern: &str) -> (r: Result<RRegex, String>)
    ensures
        r is Ok <==> compile_error_of(pattern@, usize::MAX as nat) is None,
        r is Ok ==> r->Ok_0@ == pattern@,
        r is Err ==> compile_error_of(pattern@, usize::MAX as nat) == Some(r->Err_0@),
{
    match regex::Regex::new(pattern) {
        Ok(regex) => Ok(RRegex { regex, pattern: Ghost(pattern@) }),
        Err(e) => Err(e.to_string()),
    }
}

/// Relies on `regex::Regex::as_str`: the pattern it was compiled from.
#[verifier::external_body]
fn pattern_text(re: &RRegex) -> (r: String)
    ensures
        r@ == re@,
{
    re.regex.as_str().to_string()
}

/// Relies on `regex::Regex::is_match_at`: whether there is a match at or after
/// `start`; it panics when `start` is past the end.
#[verifier::external_body]
fn raw_is_match_at(re: &RRegex, text: &str, start: usize) -> (r: bool)
    requires
        start <= text.len(),
    ensures
        r == find_at_of(re@, text@, start as nat) is Some,
{
    re.regex.is_match_at(text, start)
}

/// Relies on `regex::Regex::find_at`: the leftmost-first match at or after
/// `start`, with its byte offsets and the text it covers; it panics when
/// `start` is past the end.
#[verifier::external_body]
fn raw_find_at(re: &RRegex, text: &str, start: usize) -> (r: Option<Match>)
    requires
        start <= text.len(),
    ensures
        opt_match(r) == opt_match_in(text@, find_at_of(re@, text@, start as nat)),
        r is Some ==> span_within(text@, (r->0.start as nat, r->0.end as nat), start as nat),
{
    re.regex.find_at(text, start).map(
        |m| Match { start: m.start(), end: m.end(), value: m.as_str().to_string() },
    )
}

/// Relies on `regex::Regex::find_iter`: the successive non-overlapping
/// matches, in order, each with the text it covers.
#[verifier::external_body]
fn raw_find_all(re: &RRegex, text: &str) -> (r: Vec<Match>)
    ensures
        r@.len() == find_all_of(re@, text@).len(),
        forall|i: int|
            0 <= i < r@.len() ==> #[trigger] r@[i]@ == match_in(text@, find_all_of(re@, text@)[i])
                && span_within(text@, find_all_of(re@, text@)[i], 0),
{
    re.regex.find_iter(text).map(
        |m| Match { start: m.start(), end: m.end(), value: m.as_str().to_string() },
    ).collect()
}

/// Relies on `regex::Regex::capture_names`: the name of each group, in the
/// order of the groups; group 0, the whole match, is never named.
#[verifier::external_body]
fn raw_capture_names(re: &RRegex) -> (r: Vec<Option<String>>)
    ensures
        r@.map_values(|o: Option<String>| opt_name(o)) == names_of(re@),
        r@.len() > 0,
        r@[0] is None,
        distinct_names(r@.map_values(|o: Option<String>| opt_name(o))),
{
    re.regex.capture_names().map(|n| n.map(|s| s.to_string())).collect()
}

/// Relies on `regex::Regex::captures_len`: the number of groups, group 0
/// included, so never 0.
#[verifier::external_body]
fn raw_captures_len(re: &RRegex) -> (r: usize)
    ensures
        r == names_of(re@).len(),
        r > 0,
{
    re.regex.captures_len()
}

/// Relies on `regex::Regex::captures`: the groups of the leftmost-first match,
/// one slot for every group of the pattern, group 0 being that match itself.
#[verifier::external_body]
fn raw_captures(re: &RRegex, text: &str) -> (r: Option<Vec<Option<Match>>>)
    ensures
        r is Some <==> captures_of(re@, text@) is Some,
        r is Some <==> find_at_of(re@, text@, 0) is Some,
        r is Some ==> {
            let spans = captures_of(re@, text@)->0;
            &&& r->0@.map_values(|o: Option<Match>| opt_match(o)) == slot_models(text@, spans)
            &&& spans.len() == names_of(re@).len()
            &&& spans[0] == find_at_of(re@, text@, 0)
            &&& forall|i: int|
                0 <= i < spans.len() && #[trigger] spans[i] is Some ==> span_within(
                    text@,
                    spans[i]->0,
                    0,
                )
        },
{
    re.regex.captures(text).map(
        |c|
            c.iter().map(
                |o| o.map(|m| Match { start: m.start(), end: m.end(), value: m.as_str().to_string() }),
            ).collect(),
    )
}

/// Relies on `regex::Regex::captures_iter`: the groups of each successive
/// non-overlapping match that `find_iter` gives, as `raw_captures` gives them
/// for one.
#[verifier::external_body]
fn raw_captures_all(re: &RRegex, text: &str) -> (r: Vec<Vec<Option<Match>>>)
    ensures
        r@.len() == captures_all_of(re@, text@).len(),
        r@.len() == find_all_of(re@, text@).len(),
        forall|i: int|
            0 <= i < r@.len() ==> {
                let spans = #[trigger] captures_all_of(re@, text@)[i];
                &&& r@[i]@.map_values(|o: Option<Match>| opt_match(o)) == slot_models(text@, spans)
                &&& spans.len() == names_of(re@).len()
                &&& spans[0] == Some(find_all_of(re@, text@)[i])
                &&& forall|k: int|
                    0 <= k < spans.len() && #[trigger] spans[k] is Some ==> span_within(
                        text@,
                        spans[k]->0,
                        0,
                    )
            },
{
    re.regex.captures_iter(text).map(
        |c|
            c.iter().map(
                |o| o.map(|m| Match { start: m.start(), end: m.end(), value: m.as_str().to_string() }),
            ).collect(),
    ).collect()
}

/// Relies on `regex::Regex::replacen`: at most `limit` matches replaced, all
/// when `limit` is 0, and `text` unchanged when nothing matches.
#[verifier::external_body]
fn raw_replacen(re: &RRegex, text: &str, limit: usize, rep: &str) -> (r: String)
    ensures
        r@ == replacen_of(re@, text@, limit as nat, rep@),
        find_at_of(re@, text@, 0) is None ==> r@ == text@,
{
    re.regex.replacen(text, limit, rep).into_owned()
}

/// Relies on `regex::Regex::split`: the parts of `text` between the matches.
#[verifier::external_body]
fn raw_split(re: &RRegex, text: &str) -> (r: Vec<String>)
    ensures
        r@.map_values(|s: String| s@) == split_of(re@, text@),
{
    re.regex.split(text).map(|s| s.to_string()).collect()
}

/// Relies on `regex::Regex::splitn`: at most `limit` parts, none when `limit`
/// is 0.
#[verifier::external_body]
fn raw_splitn(re: &RRegex, text: &str, limit: usize) -> (r: Vec<String>)
    ensures
        r@.map_values(|s: String| s@) == splitn_of(re@, text@, limit as nat),
        r@.len() <= limit,
{
    re.regex.splitn(text, limit).map(|s| s.to_string()).collect()
}

/// Relies on `regex::Regex::shortest_match_at`: some offset, within the text
/// and from `start` on, at which the search knows of a match, when there is
/// one; which offset depends on the search engine and its history, so it is
/// not named. It panics when `start` is past the end.
#[verifier::external_body]
fn raw_shortest_match_at(re: &RRegex, text: &str, start: usize) -> (r: Option<usize>)
    requires
        start <= text.len(),
    ensures
        r is Some <==> find_at_of(re@, text@, start as nat) is Some,
        r is Some ==> start <= r->0 <= text.len(),
{
    re.regex.shortest_match_at(text, start)
}

impl RRegex {
    /// Compiles `re`, or returns the reason it does not compile.
    pub fn new(re: &str) -> (r: Result<RRegex, Error>)
        ensures
            r is Ok <==> compile_error_of(re@, usize::MAX as nat) is None,
            r is Ok ==> r->Ok_0@ == re@,
            r is Err ==> compile_error_of(re@, usize::MAX as nat) == Some(r->Err_0.message@),
    {
        match compile(re) {
            Ok(regex) => Ok(regex),
            Err(message) => Err(Error { message }),
        }
    }

    /// Whether there is a match anywhere in `text`.
    pub fn is_match(&self, text: &str) -> (r: bool)
        ensures
            r == find_at_of(self@, text@, 0) is Some,
    {
        raw_is_match_at(self, text, 0)
    }

    /// Whether there is a match at or after the byte offset `start`; false
    /// when `start` is past the end of `text`.
    pub fn is_match_at(&self, text: &str, start: usize) -> (r: bool)
        ensures
            r == (start <= text.len() && find_at_of(self@, text@, start as nat) is Some),
    {
        if text.len() < start {
            false
        } else {
            raw_is_match_at(self, text, start)
        }
    }

    /// The leftmost-first match in `text`.
    pub fn find(&self, text: &str) -> (r: Option<Match>)
        ensures
            opt_match(r) == opt_match_in(text@, find_at_of(self@, text@, 0)),
            r is Some ==> span_within(text@, (r->0.start as nat, r->0.end as nat), 0),
    {
        self.find_at(text, 0)
    }

    /// The leftmost-first match at or after the byte offset `start`; none
    /// when `start` is past the end of `text`.
    pub fn find_at(&self, text: &str, start: usize) -> (r: Option<Match>)
        ensures
            start > text.len() ==> r is None,
            start <= text.len() ==> opt_match(r) == opt_match_in(
                text@,
                find_at_of(self@, text@, start as nat),
            ),
            r is Some ==> span_within(text@, (r->0.start as nat, r->0.end as nat), start as nat),
    {
        if start > text.len() {
            return None;
        }
        raw_find_at(self, text, start)
    }

    /// Every successive non-overlapping match, in order.
    pub fn find_all(&self, text: &str) -> (r: Vec<Match>)
        ensures
            r@.len() == find_all_of(self@, text@).len(),
            forall|i: int|
                0 <= i < r@.len() ==> #[trigger] r@[i]@ == match_in(
                    text@,
                    find_all_of(self@, text@)[i],
                ) && span_within(text@, find_all_of(self@, text@)[i], 0),
    {
        raw_find_all(self, text)
    }

    /// The names of the named groups, in the order of the groups.
    pub fn capture_names(&self) -> (r: Vec<String>)
        ensures
            r@.map_values(|s: String| s@) == names_only(names_of(self@)),
    {
        let names = raw_capture_names(self);
        let ghost ns = names@.map_values(|o: Option<String>| opt_name(o));
        let mut out: Vec<String> = Vec::new();
        let mut i: usize = 0;
        while i < names.len()
            invariant
                i <= names@.len(),
                ns == names@.map_values(|o: Option<String>| opt_name(o)),
                out@.map_values(|s: String| s@) == names_only(ns.take(i as int)),
            decreases names@.len() - i,
        {
            let ghost before = out@;
            if let Some(n) = &names[i] {
                out.push(n.clone());
            }
            assert(ns.take(i + 1).drop_last() =~= ns.take(i as int));
            assert(out@.map_values(|s: String| s@) =~= names_only(ns.take(i + 1))) by {
                assert(before.map_values(|s: String| s@) == names_only(ns.take(i as int)));
            }
            i += 1;
        }
        assert(ns.take(names@.len() as int) =~= ns);
        out
    }

    /// The capture groups of the leftmost-first match: every group by index,
    /// and the named groups that took part, by name.
    pub fn captures(&self, text: &str) -> (r: Option<Captures>)
        ensures
            r is Some <==> captures_of(self@, text@) is Some,
            r is Some <==> find_at_of(self@, text@, 0) is Some,
            r is Some ==> align(
                slot_models(text@, captures_of(self@, text@)->0),
                names_of(self@),
            ) is Some,
            r is Some ==> r->0@ == align(
                slot_models(text@, captures_of(self@, text@)->0),
                names_of(self@),
            )->0,
            r is Some ==> r->0@.by_index.len() == names_of(self@).len(),
            r is Some ==> r->0@.by_index[0] == opt_match_in(text@, find_at_of(self@, text@, 0)),
            r is Some ==> groups_within(text@, r->0@.by_index),
    {
        match raw_captures(self, text) {
            Some(slots) => {
                proof {
                    lemma_slots_within(text@, captures_of(self@, text@)->0);
                }
                let names = raw_capture_names(self);
                Match::captures(&slots, &names)
            },
            None => None,
        }
    }

    /// The capture groups of each successive non-overlapping match.
    pub fn captures_all(&self, text: &str) -> (r: Vec<Captures>)
        ensures
            r@.len() == captures_all_of(self@, text@).len(),
            forall|i: int|
                0 <= i < r@.len() ==> #[trigger] r@[i]@ == align(
                    slot_models(text@, captures_all_of(self@, text@)[i]),
                    names_of(self@),
                )->0,
            forall|i: int|
                0 <= i < r@.len() ==> align(
                    slot_models(text@, #[trigger] captures_all_of(self@, text@)[i]),
                    names_of(self@),
                ) is Some,
            forall|i: int| 0 <= i < r@.len() ==> (#[trigger] r@[i])@.by_index.len() == names_of(self@).len(),
            r@.len() == find_all_of(self@, text@).len(),
            forall|i: int|
                0 <= i < r@.len() ==> (#[trigger] r@[i])@.by_index[0] == Some(
                    match_in(text@, find_all_of(self@, text@)[i]),
                ),
            forall|i: int| 0 <= i < r@.len() ==> groups_within(text@, (#[trigger] r@[i])@.by_index),
    {
        let names = raw_capture_names(self);
        let all = raw_captures_all(self, text);
        assert(names@.len() > 0);
        let mut out: Vec<Captures> = Vec::new();
        let mut i: usize = 0;
        while i < all.len()
            invariant
                i <= all@.len(),
                out@.len() == i,
                all@.len() == captures_all_of(self@, text@).len(),
                names@.len() > 0,
                names@.map_values(|o: Option<String>| opt_name(o)) == names_of(self@),
                all@.len() == find_all_of(self@, text@).len(),
                distinct_names(names_of(self@)),
                forall|j: int|
                    0 <= j < all@.len() ==> {
                        let spans = #[trigger] captures_all_of(self@, text@)[j];
                        &&& all@[j]@.map_values(|o: Option<Match>| opt_match(o)) == slot_models(text@, spans)
                        &&& spans.len() == names_of(self@).len()
                        &&& spans[0] == Some(find_all_of(self@, text@)[j])
                        &&& forall|k: int|
                            0 <= k < spans.len() && #[trigger] spans[k] is Some ==> span_within(
                                text@,
                                spans[k]->0,
                                0,
                            )
                    },
                forall|j: int|
                    0 <= j < i ==> #[trigger] out@[j]@ == align(
                        slot_models(text@, captures_all_of(self@, text@)[j]),
                        names_of(self@),
                    )->0 && align(
                        slot_models(text@, captures_all_of(self@, text@)[j]),
                        names_of(self@),
                    ) is Some && out@[j]@.by_index.len() == names_of(self@).len()
                        && out@[j]@.by_index[0] == Some(
                        match_in(text@, find_all_of(self@, text@)[j]),
                    ) && groups_within(text@, out@[j]@.by_index),
            decreases all@.len() - i,
        {
            let ghost spans = captures_all_of(self@, text@)[i as int];
            let ghost slots = all@[i as int]@.map_values(|o: Option<Match>| opt_match(o));
            assert(names@.len() == names_of(self@).len());
            assert(slots.len() == spans.len());
            assert(slots[0] == slot_models(text@, spans)[0]);
            assert(slots[0] is Some);
            proof {
                lemma_slots_within(text@, spans);
            }
            let c = Match::captures(&all[i], &names);
            match c {
                Some(c) => out.push(c),
                None => {
                    assert(false);
                    return out;
                },
            }
            i += 1;
        }
        out
    }

    /// The number of groups, the whole match included.
    pub fn captures_len(&self) -> (r: usize)
        ensures
            r == names_of(self@).len(),
            r > 0,
    {
        raw_captures_len(self)
    }

    /// `text` with its leftmost-first match replaced by the expansion of
    /// `rep` (`$1`, `$name`, `${name}`, `$$`).
    pub fn replace(&self, text: &str, rep: &str) -> (r: String)
        ensures
            r@ == replacen_of(self@, text@, 1, rep@),
            find_at_of(self@, text@, 0) is None ==> r@ == text@,
    {
        raw_replacen(self, text, 1, rep)
    }

    /// `text` with at most `limit` matches replaced, all when `limit` is 0.
    pub fn replacen(&self, text: &str, limit: usize, rep: &str) -> (r: String)
        ensures
            r@ == replacen_of(self@, text@, limit as nat, rep@),
            find_at_of(self@, text@, 0) is None ==> r@ == text@,
    {
        raw_replacen(self, text, limit, rep)
    }

    /// `text` with every non-overlapping match replaced.
    pub fn replace_all(&self, text: &str, rep: &str) -> (r: String)
        ensures
            r@ == replacen_of(self@, text@, 0, rep@),
            find_at_of(self@, text@, 0) is None ==> r@ == text@,
    {
        raw_replacen(self, text, 0, rep)
    }

    /// The parts of `text` between the matches.
    pub fn split(&self, text: &str) -> (r: Vec<String>)
        ensures
            r@.map_values(|s: String| s@) == split_of(self@, text@),
    {
        raw_split(self, text)
    }

    /// At most `limit` parts of `text` between the matches.
    pub fn splitn(&self, text: &str, limit: usize) -> (r: Vec<String>)
        ensures
            r@.map_values(|s: String| s@) == splitn_of(self@, text@, limit as nat),
            r@.len() <= limit,
    {
        raw_splitn(self, text, limit)
    }

    /// The end of a match as soon as the search knows of one: present
    /// exactly when there is a match.
    pub fn shortest_match(&self, text: &str) -> (r: Option<usize>)
        ensures
            r is Some <==> find_at_of(self@, text@, 0) is Some,
            r is Some ==> r->0 <= text.len(),
    {
        raw_shortest_match_at(self, text, 0)
    }

    /// As `shortest_match`, from the byte offset `start`; none when `start` is
    /// past the end of `text`.
    pub fn shortest_match_at(&self, text: &str, start: usize) -> (r: Option<usize>)
        ensures
            start > text.len() ==> r is None,
            r is Some <==> (start <= text.len() && find_at_of(self@, text@, start as nat) is Some),
            r is Some ==> start <= r->0 <= text.len(),
    {
        if text.len() < start {
            None
        } else {
            raw_shortest_match_at(self, text, start)
        }
    }

    /// The pattern, as it was given.
    pub fn as_string(&self) -> (r: String)
        ensures
            r@ == self@,
    {
        pattern_text(self)
    }
}

} // verus!
