//! Capture groups of one match, by index and by name.
use vstd::prelude::*;
use vstd::utf8::{decode_utf8, encode_utf8, is_char_boundary};

verus! {

/// The mathematical form of a [`Match`].
pub struct MatchModel {
    pub start: nat,
    pub end: nat,
    pub value: Seq<char>,
}

/// One match in a haystack: the byte offsets of its start and end, and the
/// text between them. `start == end` is an empty match, which is a match.
#[derive(Clone, Debug, PartialEq)]
pub struct Match {
    pub start: usize,
    pub end: usize,
    pub value: String,
}

impl View for Match {
    type V = MatchModel;

    open spec fn view(&self) -> MatchModel {
        MatchModel { start: self.start as nat, end: self.end as nat, value: self.value@ }
    }
}

/// The match of the bytes `span.0 .. span.1` of `text`, whose value is the
/// text those bytes encode.
pub open spec fn match_in(text: Seq<char>, span: (nat, nat)) -> MatchModel {
    MatchModel {
        start: span.0,
        end: span.1,
        value: decode_utf8(encode_utf8(text).subrange(span.0 as int, span.1 as int)),
    }
}

/// A span that lies within the bytes of `text`, from `from` on, and starts
/// and ends between two characters.
pub open spec fn span_within(text: Seq<char>, span: (nat, nat), from: nat) -> bool {
    &&& from <= span.0 <= span.1 <= encode_utf8(text).len()
    &&& is_char_boundary(encode_utf8(text), span.0 as int)
    &&& is_char_boundary(encode_utf8(text), span.1 as int)
}

/// Every group that took part lies within `text` and starts and ends
/// between two characters.
pub open spec fn groups_within(text: Seq<char>, groups: Seq<Option<MatchModel>>) -> bool {
    forall|i: int|
        0 <= i < groups.len() && #[trigger] groups[i] is Some ==> span_within(
            text,
            (groups[i]->0.start, groups[i]->0.end),
            0,
        )
}

/// The groups made from spans that each lie within `text` lie within it.
pub proof fn lemma_slots_within(text: Seq<char>, spans: Seq<Option<(nat, nat)>>)
    requires
        forall|i: int|
            0 <= i < spans.len() && #[trigger] spans[i] is Some ==> span_within(
                text,
                spans[i]->0,
                0,
            ),
    ensures
        groups_within(text, slot_models(text, spans)),
{
    let g = slot_models(text, spans);
    assert forall|i: int| 0 <= i < g.len() && #[trigger] g[i] is Some implies span_within(
        text,
        (g[i]->0.start, g[i]->0.end),
        0,
    ) by {
        assert(g[i] == opt_match_in(text, spans[i]));
        assert(spans[i] is Some);
    }
}

/// No two groups share a name.
pub open spec fn distinct_names(names: Seq<Option<Seq<char>>>) -> bool {
    forall|i: int, j: int|
        0 <= i < names.len() && 0 <= j < names.len() && i != j && #[trigger] names[i] is Some
            ==> names[i] != #[trigger] names[j]
}

pub open spec fn opt_match_in(text: Seq<char>, o: Option<(nat, nat)>) -> Option<MatchModel> {
    match o {
        Some(span) => Some(match_in(text, span)),
        None => None,
    }
}

/// The groups of one match in `text`, from their spans.
pub open spec fn slot_models(text: Seq<char>, spans: Seq<Option<(nat, nat)>>) -> Seq<
    Option<MatchModel>,
> {
    spans.map_values(|o: Option<(nat, nat)>| opt_match_in(text, o))
}

pub open spec fn opt_match(o: Option<Match>) -> Option<MatchModel> {
    match o {
        Some(m) => Some(m@),
        None => None,
    }
}

pub open spec fn opt_name(o: Option<String>) -> Option<Seq<char>> {
    match o {
        Some(s) => Some(s@),
        None => None,
    }
}

/// A named group's match.
#[derive(Clone, Debug, PartialEq)]
pub struct NamedMatch {
    pub name: String,
    pub m: Match,
}

/// The capture groups of one match: every group by index, present or absent,
/// and the named groups that took part, by name.
#[derive(Clone, Debug, PartialEq)]
pub struct Captures {
    pub get: Vec<Option<Match>>,
    pub name: Vec<NamedMatch>,
}

/// The mathematical form of [`Captures`].
pub struct CapturesModel {
    pub by_index: Seq<Option<MatchModel>>,
    pub by_name: Seq<(Seq<char>, MatchModel)>,
}

impl View for Captures {
    type V = CapturesModel;

    open spec fn view(&self) -> CapturesModel {
        CapturesModel {
            by_index: self.get@.map_values(|o: Option<Match>| opt_match(o)),
            by_name: self.name@.map_values(|n: NamedMatch| (n.name@, n.m@)),
        }
    }
}

/// The entries by name among the first `n` groups, in the order of the
/// groups: one for each group that has a name and took part.
pub open spec fn named_entries(
    slots: Seq<Option<MatchModel>>,
    names: Seq<Option<Seq<char>>>,
    n: int,
) -> Seq<(Seq<char>, MatchModel)>
    decreases n,
{
    if n <= 0 {
        Seq::empty()
    } else {
        let prev = named_entries(slots, names, n - 1);
        match (names[n - 1], slots[n - 1]) {
            (Some(k), Some(m)) => prev.push((k, m)),
            _ => prev,
        }
    }
}

/// The captures of one match: `None` when the whole match (group 0) is
/// absent; else every group by index, and the named groups that took part.
pub open spec fn align(
    slots: Seq<Option<MatchModel>>,
    names: Seq<Option<Seq<char>>>,
) -> Option<CapturesModel> {
    if slots.len() == 0 || slots[0] is None {
        None
    } else {
        Some(
            CapturesModel {
                by_index: slots,
                by_name: named_entries(slots, names, slots.len() as int),
            },
        )
    }
}

/// Every group has a place by index, whichever groups took part: there are
/// as many as the pattern has groups.
pub proof fn lemma_index_count(slots: Seq<Option<MatchModel>>, names: Seq<Option<Seq<char>>>)
    requires
        slots.len() == names.len(),
    ensures
        align(slots, names) is Some ==> align(slots, names)->0.by_index.len() == names.len(),
{
}

/// Each entry by name comes from a group that has that name and took part
/// with that match.
pub proof fn lemma_named_entries_sound(
    slots: Seq<Option<MatchModel>>,
    names: Seq<Option<Seq<char>>>,
    n: int,
)
    requires
        0 <= n <= slots.len(),
        slots.len() == names.len(),
    ensures
        forall|j: int|
            0 <= j < named_entries(slots, names, n).len() ==> exists|i: int|
                0 <= i < n && names[i] == Some(#[trigger] named_entries(slots, names, n)[j].0)
                    && slots[i] == Some(named_entries(slots, names, n)[j].1),
    decreases n,
{
    if n > 0 {
        lemma_named_entries_sound(slots, names, n - 1);
        let prev = named_entries(slots, names, n - 1);
        let cur = named_entries(slots, names, n);
        assert forall|j: int| 0 <= j < cur.len() implies exists|i: int|
            0 <= i < n && names[i] == Some(#[trigger] cur[j].0) && slots[i] == Some(cur[j].1) by {
            if j < prev.len() {
                assert(cur[j] == prev[j]);
                let i = choose|i: int|
                    0 <= i < n - 1 && names[i] == Some(#[trigger] prev[j].0) && slots[i] == Some(
                        prev[j].1,
                    );
                assert(0 <= i < n && names[i] == Some(cur[j].0) && slots[i] == Some(cur[j].1));
            } else {
                assert(names[n - 1] == Some(cur[j].0) && slots[n - 1] == Some(cur[j].1));
            }
        }
    }
}

/// The entries by name hold no group without a name and no group that did
/// not take part.
pub proof fn lemma_named_disjoint(slots: Seq<Option<MatchModel>>, names: Seq<Option<Seq<char>>>)
    requires
        slots.len() == names.len(),
    ensures
        align(slots, names) is Some ==> forall|j: int|
            0 <= j < align(slots, names)->0.by_name.len() ==> exists|i: int|
                0 <= i < slots.len() && names[i] == Some(
                    #[trigger] align(slots, names)->0.by_name[j].0,
                ) && slots[i] == Some(align(slots, names)->0.by_name[j].1),
{
    lemma_named_entries_sound(slots, names, slots.len() as int);
}

/// A group that did not take part stays absent, and an empty match stays a
/// match: the two are told apart.
pub proof fn lemma_empty_not_absent(
    slots: Seq<Option<MatchModel>>,
    names: Seq<Option<Seq<char>>>,
    i: int,
)
    requires
        slots.len() == names.len(),
        align(slots, names) is Some,
        0 <= i < slots.len(),
    ensures
        slots[i] is None ==> align(slots, names)->0.by_index[i] is None,
        slots[i] is Some && slots[i]->0.start == 0 && slots[i]->0.end == 0 ==> align(
            slots,
            names,
        )->0.by_index[i] == slots[i] && align(slots, names)->0.by_index[i] is Some,
{
}

/// A named group that did not take part has no entry by name, when no two
/// groups share a name.
pub proof fn lemma_absent_unnamed(
    slots: Seq<Option<MatchModel>>,
    names: Seq<Option<Seq<char>>>,
    i: int,
)
    requires
        slots.len() == names.len(),
        distinct_names(names),
        align(slots, names) is Some,
        0 <= i < slots.len(),
        names[i] is Some,
        slots[i] is None,
    ensures
        forall|j: int|
            0 <= j < align(slots, names)->0.by_name.len() ==> (#[trigger] align(
                slots,
                names,
            )->0.by_name[j]).0 != names[i]->0,
{
    lemma_named_disjoint(slots, names);
    let by_name = align(slots, names)->0.by_name;
    assert forall|j: int| 0 <= j < by_name.len() implies (#[trigger] by_name[j]).0
        != names[i]->0 by {
        let k = choose|k: int|
            0 <= k < slots.len() && names[k] == Some(#[trigger] by_name[j].0) && slots[k] == Some(
                by_name[j].1,
            );
        if by_name[j].0 == names[i]->0 {
            assert(names[k] == names[i]);
            assert(k != i);
        }
    }
}

impl Match {
    /// A copy of this match.
    pub fn copy(&self) -> (r: Match)
        ensures
            r@ == self@,
    {
        Match { start: self.start, end: self.end, value: self.value.clone() }
    }

    /// Aligns the groups of one match with the pattern's names of groups,
    /// given in the order of the groups (index 0 first, never named).
    pub fn captures(slots: &Vec<Option<Match>>, names: &Vec<Option<String>>) -> (r: Option<
        Captures,
    >)
        requires
            slots@.len() == names@.len(),
            distinct_names(names@.map_values(|o: Option<String>| opt_name(o))),
        ensures
            r is Some ==> r->0@ == align(
                slots@.map_values(|o: Option<Match>| opt_match(o)),
                names@.map_values(|o: Option<String>| opt_name(o)),
            )->0,
            r is Some <==> align(
                slots@.map_values(|o: Option<Match>| opt_match(o)),
                names@.map_values(|o: Option<String>| opt_name(o)),
            ) is Some,
    {
        let ghost ms = slots@.map_values(|o: Option<Match>| opt_match(o));
        let ghost ns = names@.map_values(|o: Option<String>| opt_name(o));
        if slots.len() == 0 || slots[0].is_none() {
            return None;
        }
        let mut get: Vec<Option<Match>> = Vec::new();
        let mut named: Vec<NamedMatch> = Vec::new();
        let mut i: usize = 0;
        while i < slots.len()
            invariant
                slots@.len() == names@.len(),
                ms == slots@.map_values(|o: Option<Match>| opt_match(o)),
                ns == names@.map_values(|o: Option<String>| opt_name(o)),
                i <= slots@.len(),
                get@.map_values(|o: Option<Match>| opt_match(o)) =~= ms.take(i as int),
                named@.map_values(|n: NamedMatch| (n.name@, n.m@)) =~= named_entries(
                    ms,
                    ns,
                    i as int,
                ),
            decreases slots@.len() - i,
        {
            let slot = match &slots[i] {
                Some(m) => Some(m.copy()),
                None => None,
            };
            if let (Some(k), Some(m)) = (&names[i], &slots[i]) {
                named.push(NamedMatch { name: k.clone(), m: m.copy() });
            }
            get.push(slot);
            i += 1;
            assert(ms.take(i as int) =~= ms.take(i - 1).push(ms[i - 1]));
        }
        assert(ms.take(slots@.len() as int) =~= ms);
        Some(Captures { get, name: named })
    }
}

} // verus!
