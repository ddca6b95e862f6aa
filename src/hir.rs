//! The structure of a parsed regular expression: its nodes, the
//! mathematical form of a tree of them, and the zero-width assertions.
use vstd::prelude::*;

use crate::captures::opt_name;
use crate::encode::{encode_bytes_range, encode_unicode_range};
use crate::tagged::{field, field_models_of, group_tagged_models, make_struct, TaggedValue};

verus! {

broadcast use group_tagged_models;


/// An inclusive range of Unicode scalar values, with `start <= end`.
#[derive(Clone, Copy, Debug, PartialEq, Eq)]
pub struct ClassUnicodeRange {
    start: char,
    end: char,
}

/// An inclusive range of bytes, with `start <= end`.
#[derive(Clone, Copy, Debug, PartialEq, Eq)]
pub struct ClassBytesRange {
    start: u8,
    end: u8,
}

impl ClassUnicodeRange {
    #[verifier::type_invariant]
    spec fn ordered(self) -> bool {
        self.start <= self.end
    }

    /// The pair `(start, end)`.
    pub closed spec fn view(self) -> (char, char) {
        (self.start, self.end)
    }

    /// The range between two scalar values, given in either order.
    pub fn new(a: char, b: char) -> (r: Self)
        ensures
            r.view() == (if a <= b { (a, b) } else { (b, a) }),
    {
        if a <= b {
            ClassUnicodeRange { start: a, end: b }
        } else {
            ClassUnicodeRange { start: b, end: a }
        }
    }

    pub fn start(&self) -> (r: char)
        ensures
            r == self.view().0,
    {
        self.start
    }

    pub fn end(&self) -> (r: char)
        ensures
            r == self.view().1,
    {
        self.end
    }
}

impl ClassBytesRange {
    #[verifier::type_invariant]
    spec fn ordered(self) -> bool {
        self.start <= self.end
    }

    /// The pair `(start, end)`.
    pub closed spec fn view(self) -> (u8, u8) {
        (self.start, self.end)
    }

    /// The range between two bytes, given in either order.
    pub fn new(a: u8, b: u8) -> (r: Self)
        ensures
            r.view() == (if a <= b { (a, b) } else { (b, a) }),
    {
        if a <= b {
            ClassBytesRange { start: a, end: b }
        } else {
            ClassBytesRange { start: b, end: a }
        }
    }

    pub fn start(&self) -> (r: u8)
        ensures
            r == self.view().0,
    {
        self.start
    }

    pub fn end(&self) -> (r: u8)
        ensures
            r == self.view().1,
    {
        self.end
    }
}

/// A class of Unicode scalar values, as ordered ranges.
#[derive(Clone, Debug, PartialEq)]
pub struct ClassUnicode {
    pub ranges: Vec<ClassUnicodeRange>,
}

/// A class of bytes, as ordered ranges.
#[derive(Clone, Debug, PartialEq)]
pub struct ClassBytes {
    pub ranges: Vec<ClassBytesRange>,
}

/// A character class, over Unicode scalar values or over bytes.
#[derive(Clone, Debug, PartialEq)]
pub enum Class {
    Unicode(ClassUnicode),
    Bytes(ClassBytes),
}

/// A literal: the exact bytes to match.
#[derive(Clone, Debug, PartialEq)]
pub struct Literal(pub Vec<u8>);

/// A repetition of a sub-expression, `max` absent when unbounded.
#[derive(Debug, PartialEq)]
pub struct Repetition {
    pub min: u32,
    pub max: Option<u32>,
    pub greedy: bool,
    pub sub: Box<Hir>,
}

/// A capturing group with its index and, for a named group, its name.
#[derive(Debug, PartialEq)]
pub struct Capture {
    pub index: u32,
    pub name: Option<String>,
    pub sub: Box<Hir>,
}

/// The kind of a node, one of eight.
#[derive(Debug, PartialEq)]
pub enum HirKind {
    Empty,
    Literal(Literal),
    Class(Class),
    Look(Look),
    Repetition(Repetition),
    Capture(Capture),
    Concat(Vec<Hir>),
    Alternation(Vec<Hir>),
}

/// One node of the structure of a regular expression; it owns its
/// sub-trees.
#[derive(Debug, PartialEq)]
pub struct Hir {
    pub kind: HirKind,
}

/// The mathematical form of a [`Class`].
pub enum ClassModel {
    Unicode(Seq<(char, char)>),
    Bytes(Seq<(u8, u8)>),
}

/// The mathematical form of a [`Hir`] tree.
pub enum HirModel {
    Empty,
    Literal(Seq<u8>),
    Class(ClassModel),
    Look(Look),
    Repetition { min: nat, max: Option<nat>, greedy: bool, sub: Box<HirModel> },
    Capture { index: nat, name: Option<Seq<char>>, sub: Box<HirModel> },
    Concat(Seq<HirModel>),
    Alternation(Seq<HirModel>),
}

pub open spec fn class_model(c: Class) -> ClassModel {
    match c {
        Class::Unicode(u) => ClassModel::Unicode(u.ranges@.map_values(|r: ClassUnicodeRange| r.view())),
        Class::Bytes(b) => ClassModel::Bytes(b.ranges@.map_values(|r: ClassBytesRange| r.view())),
    }
}

pub open spec fn opt_nat(o: Option<u32>) -> Option<nat> {
    match o {
        Some(v) => Some(v as nat),
        None => None,
    }
}

pub open spec fn hir_model(h: Hir) -> HirModel
    decreases h,
{
    match h.kind {
        HirKind::Empty => HirModel::Empty,
        HirKind::Literal(l) => HirModel::Literal(l.0@),
        HirKind::Class(c) => HirModel::Class(class_model(c)),
        HirKind::Look(l) => HirModel::Look(l),
        HirKind::Repetition(r) => HirModel::Repetition {
            min: r.min as nat,
            max: opt_nat(r.max),
            greedy: r.greedy,
            sub: Box::new(hir_model(*r.sub)),
        },
        HirKind::Capture(c) => HirModel::Capture {
            index: c.index as nat,
            name: opt_name(c.name),
            sub: Box::new(hir_model(*c.sub)),
        },
        HirKind::Concat(cs) => HirModel::Concat(hir_models(cs@)),
        HirKind::Alternation(cs) => HirModel::Alternation(hir_models(cs@)),
    }
}

pub open spec fn hir_models(s: Seq<Hir>) -> Seq<HirModel>
    decreases s,
{
    if s.len() == 0 {
        Seq::empty()
    } else {
        hir_models(s.drop_last()).push(hir_model(s[s.len() - 1]))
    }
}

impl View for Hir {
    type V = HirModel;

    open spec fn view(&self) -> HirModel {
        hir_model(*self)
    }
}


/// Each node of a sequence keeps its place in the model of the sequence.
pub broadcast proof fn lemma_hir_models(s: Seq<Hir>)
    ensures
        (#[trigger] hir_models(s)).len() == s.len(),
        forall|i: int| 0 <= i < s.len() ==> #[trigger] hir_models(s)[i] == hir_model(s[i]),
    decreases s.len(),
{
    if s.len() > 0 {
        lemma_hir_models(s.drop_last());
    }
}

/// Relies on `char::to_string`: the text of one character.
#[verifier::external_body]
fn char_text(c: char) -> (r: String)
    ensures
        r@ == seq![c],
{
    c.to_string()
}

impl ClassUnicodeRange {
    pub fn encode(&self) -> (r: TaggedValue)
        ensures
            r@ == encode_unicode_range(self.view()),
    {
        proof {
            use_type_invariant(self);
        }
        let len = (self.end as u32 - self.start as u32 + 1) as u64;
        let fields = vec![
            field("start", TaggedValue::Text(char_text(self.start))),
            field("end", TaggedValue::Text(char_text(self.end))),
            field("len", TaggedValue::Number(len)),
        ];
        let r = make_struct("regex_syntax::hir::ClassUnicodeRange", fields);
        assert(field_models_of(fields@) =~= encode_unicode_range(self.view())->Struct_fields);
        r
    }
}

impl ClassBytesRange {
    pub fn encode(&self) -> (r: TaggedValue)
        ensures
            r@ == encode_bytes_range(self.view()),
    {
        proof {
            use_type_invariant(self);
        }
        let len = (self.end - self.start) as u64 + 1;
        let fields = vec![
            field("start", TaggedValue::Number(self.start as u64)),
            field("end", TaggedValue::Number(self.end as u64)),
            field("len", TaggedValue::Number(len)),
        ];
        let r = make_struct("regex_syntax::hir::ClassBytesRange", fields);
        assert(field_models_of(fields@) =~= encode_bytes_range(self.view())->Struct_fields);
        r
    }
}

/// A zero-width assertion.
#[derive(PartialEq, Eq, Structural, Clone, Copy, Debug)]
pub enum Look {
    Start,
    End,
    StartLF,
    EndLF,
    StartCRLF,
    EndCRLF,
    WordAscii,
    WordAsciiNegate,
    WordUnicode,
    WordUnicodeNegate,
    WordStartAscii,
    WordEndAscii,
    WordStartUnicode,
    WordEndUnicode,
    WordStartHalfAscii,
    WordEndHalfAscii,
    WordStartHalfUnicode,
    WordEndHalfUnicode,
}

/// The variant name under which an assertion is encoded.
pub open spec fn look_name(l: Look) -> Seq<char> {
    match l {
        Look::Start => "Start"@,
        Look::End => "End"@,
        Look::StartLF => "StartLF"@,
        Look::EndLF => "EndLF"@,
        Look::StartCRLF => "StartCRLF"@,
        Look::EndCRLF => "EndCRLF"@,
        Look::WordAscii => "WordAscii"@,
        Look::WordAsciiNegate => "WordAsciiNegate"@,
        Look::WordUnicode => "WordUnicode"@,
        Look::WordUnicodeNegate => "WordUnicodeNegate"@,
        Look::WordStartAscii => "WordStartAscii"@,
        Look::WordEndAscii => "WordEndAscii"@,
        Look::WordStartUnicode => "WordStartUnicode"@,
        Look::WordEndUnicode => "WordEndUnicode"@,
        Look::WordStartHalfAscii => "WordStartHalfAscii"@,
        Look::WordEndHalfAscii => "WordEndHalfAscii"@,
        Look::WordStartHalfUnicode => "WordStartHalfUnicode"@,
        Look::WordEndHalfUnicode => "WordEndHalfUnicode"@,
    }
}


pub proof fn lemma_look_name_injective(a: Look, b: Look)
    ensures
        look_name(a) == look_name(b) ==> a == b,
{
    reveal_strlit("Start");
    reveal_strlit("End");
    reveal_strlit("StartLF");
    reveal_strlit("EndLF");
    reveal_strlit("StartCRLF");
    reveal_strlit("EndCRLF");
    reveal_strlit("WordAscii");
    reveal_strlit("WordAsciiNegate");
    reveal_strlit("WordUnicode");
    reveal_strlit("WordUnicodeNegate");
    reveal_strlit("WordStartAscii");
    reveal_strlit("WordEndAscii");
    reveal_strlit("WordStartUnicode");
    reveal_strlit("WordEndUnicode");
    reveal_strlit("WordStartHalfAscii");
    reveal_strlit("WordEndHalfAscii");
    reveal_strlit("WordStartHalfUnicode");
    reveal_strlit("WordEndHalfUnicode");
    if look_name(a) == look_name(b) {
        assert(look_name(a).len() == look_name(b).len());
        assert(look_name(a)[0] == look_name(b)[0]);
        if look_name(a).len() > 4 {
            assert(look_name(a)[4] == look_name(b)[4]);
        }
    }
}


} // verus!
