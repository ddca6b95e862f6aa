//! The encoding of a node tree as a tagged value tree: every struct and
//! variant carries its category and type name, and every variant its name.
use vstd::prelude::*;

use crate::hir::{
    class_model, hir_models, lemma_hir_models, look_name, Class, ClassBytesRange,
    ClassModel, ClassUnicodeRange, Hir, HirKind, HirModel, Literal, Look,
};
use crate::tagged::{
    field, field_models_of, group_tagged_models, make_struct, make_variant, models_of,
    TaggedModel, TaggedValue,
};

verus! {

broadcast use group_tagged_models;

/// The encoding of a byte range: its bounds as numbers, and its length.
pub open spec fn encode_bytes_range(r: (u8, u8)) -> TaggedModel {
    TaggedModel::Struct {
        name: "regex_syntax::hir::ClassBytesRange"@,
        fields: seq![
            ("start"@, TaggedModel::Number(r.0 as int)),
            ("end"@, TaggedModel::Number(r.1 as int)),
            ("len"@, TaggedModel::Number(r.1 - r.0 + 1)),
        ],
    }
}

/// The encoding of a range of scalar values: its bounds as one-character
/// texts, and its length.
pub open spec fn encode_unicode_range(r: (char, char)) -> TaggedModel {
    TaggedModel::Struct {
        name: "regex_syntax::hir::ClassUnicodeRange"@,
        fields: seq![
            ("start"@, TaggedModel::Text(seq![r.0])),
            ("end"@, TaggedModel::Text(seq![r.1])),
            ("len"@, TaggedModel::Number(r.1 as int - r.0 as int + 1)),
        ],
    }
}

pub open spec fn encode_class(c: ClassModel) -> TaggedModel {
    match c {
        ClassModel::Unicode(rs) => TaggedModel::Variant {
            name: "regex_syntax::hir::Class"@,
            variant: "Unicode"@,
            values: seq![
                TaggedModel::Struct {
                    name: "regex_syntax::hir::ClassUnicode"@,
                    fields: seq![
                        ("ranges"@, TaggedModel::List(rs.map_values(|r: (char, char)| encode_unicode_range(r)))),
                    ],
                },
            ],
        },
        ClassModel::Bytes(rs) => TaggedModel::Variant {
            name: "regex_syntax::hir::Class"@,
            variant: "Bytes"@,
            values: seq![
                TaggedModel::Struct {
                    name: "regex_syntax::hir::ClassBytes"@,
                    fields: seq![
                        ("ranges"@, TaggedModel::List(rs.map_values(|r: (u8, u8)| encode_bytes_range(r)))),
                    ],
                },
            ],
        },
    }
}

pub open spec fn encode_literal(b: Seq<u8>) -> TaggedModel {
    TaggedModel::Struct {
        name: "regex_syntax::hir::Literal"@,
        fields: seq![("@values"@, TaggedModel::List(seq![TaggedModel::Bytes(b)]))],
    }
}

pub open spec fn encode_look(l: Look) -> TaggedModel {
    TaggedModel::Variant { name: "regex_syntax::hir::Look"@, variant: look_name(l), values: seq![] }
}

/// A number, or the absent marker.
pub open spec fn encode_opt_nat(o: Option<nat>) -> TaggedModel {
    match o {
        Some(n) => TaggedModel::Number(n as int),
        None => TaggedModel::Absent,
    }
}

/// A text, or the absent marker.
pub open spec fn encode_opt_text(o: Option<Seq<char>>) -> TaggedModel {
    match o {
        Some(t) => TaggedModel::Text(t),
        None => TaggedModel::Absent,
    }
}

/// The variant name of each kind of node.
pub open spec fn kind_name(h: HirModel) -> Seq<char> {
    match h {
        HirModel::Empty => "Empty"@,
        HirModel::Literal(_) => "Literal"@,
        HirModel::Class(_) => "Class"@,
        HirModel::Look(_) => "Look"@,
        HirModel::Repetition { .. } => "Repetition"@,
        HirModel::Capture { .. } => "Capture"@,
        HirModel::Concat(_) => "Concat"@,
        HirModel::Alternation(_) => "Alternation"@,
    }
}

/// The position of a node's kind among the eight.
pub open spec fn kind_index(h: HirModel) -> int {
    match h {
        HirModel::Empty => 0,
        HirModel::Literal(_) => 1,
        HirModel::Class(_) => 2,
        HirModel::Look(_) => 3,
        HirModel::Repetition { .. } => 4,
        HirModel::Capture { .. } => 5,
        HirModel::Concat(_) => 6,
        HirModel::Alternation(_) => 7,
    }
}

/// The encoding of a node: a struct of one field, `kind`.
pub open spec fn encode_hir(h: HirModel) -> TaggedModel
    decreases h, 1int,
{
    TaggedModel::Struct { name: "regex_syntax::hir::Hir"@, fields: seq![("kind"@, encode_kind(h))] }
}

/// The encoding of a node's kind: a variant whose positional values are the
/// node's payload.
pub open spec fn encode_kind(h: HirModel) -> TaggedModel
    decreases h, 0int,
{
    TaggedModel::Variant {
        name: "regex_syntax::hir::HirKind"@,
        variant: kind_name(h),
        values: match h {
            HirModel::Empty => seq![],
            HirModel::Literal(b) => seq![encode_literal(b)],
            HirModel::Class(c) => seq![encode_class(c)],
            HirModel::Look(l) => seq![encode_look(l)],
            HirModel::Repetition { min, max, greedy, sub } => seq![
                TaggedModel::Struct {
                    name: "regex_syntax::hir::Repetition"@,
                    fields: seq![
                        ("min"@, TaggedModel::Number(min as int)),
                        ("max"@, encode_opt_nat(max)),
                        ("greedy"@, TaggedModel::Bool(greedy)),
                        ("sub"@, encode_hir(*sub)),
                    ],
                },
            ],
            HirModel::Capture { index, name, sub } => seq![
                TaggedModel::Struct {
                    name: "regex_syntax::hir::Capture"@,
                    fields: seq![
                        ("index"@, TaggedModel::Number(index as int)),
                        ("name"@, encode_opt_text(name)),
                        ("sub"@, encode_hir(*sub)),
                    ],
                },
            ],
            HirModel::Concat(cs) => seq![TaggedModel::List(encode_all(cs))],
            HirModel::Alternation(cs) => seq![TaggedModel::List(encode_all(cs))],
        },
    }
}

/// The encodings of a sequence of nodes, in order.
pub open spec fn encode_all(s: Seq<HirModel>) -> Seq<TaggedModel>
    decreases s, 2int,
{
    if s.len() == 0 {
        Seq::empty()
    } else {
        encode_all(s.drop_last()).push(encode_hir(s[s.len() - 1]))
    }
}


/// Each node of a sequence keeps its place among the encodings.
pub broadcast proof fn lemma_encode_all(s: Seq<HirModel>)
    ensures
        (#[trigger] encode_all(s)).len() == s.len(),
        forall|i: int| 0 <= i < s.len() ==> #[trigger] encode_all(s)[i] == encode_hir(s[i]),
    decreases s.len(),
{
    if s.len() > 0 {
        lemma_encode_all(s.drop_last());
    }
}

impl Class {
    pub fn encode(&self) -> (r: TaggedValue)
        ensures
            r@ == encode_class(class_model(*self)),
    {
        match self {
            Class::Unicode(u) => {
                let mut items: Vec<TaggedValue> = Vec::new();
                let mut i: usize = 0;
                while i < u.ranges.len()
                    invariant
                        i <= u.ranges@.len(),
                        items@.len() == i,
                        forall|j: int|
                            0 <= j < i ==> #[trigger] items@[j]@ == encode_unicode_range(
                                u.ranges@[j].view(),
                            ),
                    decreases u.ranges@.len() - i,
                {
                    items.push(u.ranges[i].encode());
                    i += 1;
                }
                let ghost rs = u.ranges@.map_values(|r: ClassUnicodeRange| r.view());
                assert forall|j: int| 0 <= j < items@.len() implies #[trigger] models_of(items@)[j]
                    == rs.map_values(|r: (char, char)| encode_unicode_range(r))[j] by {
                    assert(items@[j]@ == encode_unicode_range(rs[j]));
                }
                assert(models_of(items@) =~= rs.map_values(|r: (char, char)| encode_unicode_range(r)));
                let ghost list = TaggedModel::List(rs.map_values(|r: (char, char)| encode_unicode_range(r)));
                let f = field("ranges", TaggedValue::List(items));
                let fields = vec![f];
                assert(field_models_of(fields@) =~= seq![("ranges"@, list)]);
                let ranges = make_struct("regex_syntax::hir::ClassUnicode", fields);
                let values = vec![ranges];
                let r = make_variant("regex_syntax::hir::Class", "Unicode", values);
                assert(models_of(values@) =~= encode_class(class_model(*self))->Variant_values);
                r
            },
            Class::Bytes(b) => {
                let mut items: Vec<TaggedValue> = Vec::new();
                let mut i: usize = 0;
                while i < b.ranges.len()
                    invariant
                        i <= b.ranges@.len(),
                        items@.len() == i,
                        forall|j: int|
                            0 <= j < i ==> #[trigger] items@[j]@ == encode_bytes_range(
                                b.ranges@[j].view(),
                            ),
                    decreases b.ranges@.len() - i,
                {
                    items.push(b.ranges[i].encode());
                    i += 1;
                }
                let ghost rs = b.ranges@.map_values(|r: ClassBytesRange| r.view());
                assert forall|j: int| 0 <= j < items@.len() implies #[trigger] models_of(items@)[j]
                    == rs.map_values(|r: (u8, u8)| encode_bytes_range(r))[j] by {
                    assert(items@[j]@ == encode_bytes_range(rs[j]));
                }
                assert(models_of(items@) =~= rs.map_values(|r: (u8, u8)| encode_bytes_range(r)));
                let ghost list = TaggedModel::List(rs.map_values(|r: (u8, u8)| encode_bytes_range(r)));
                let f = field("ranges", TaggedValue::List(items));
                let fields = vec![f];
                assert(field_models_of(fields@) =~= seq![("ranges"@, list)]);
                let ranges = make_struct("regex_syntax::hir::ClassBytes", fields);
                let values = vec![ranges];
                let r = make_variant("regex_syntax::hir::Class", "Bytes", values);
                assert(models_of(values@) =~= encode_class(class_model(*self))->Variant_values);
                r
            },
        }
    }
}

impl Literal {
    pub fn encode(&self) -> (r: TaggedValue)
        ensures
            r@ == encode_literal(self.0@),
    {
        let b = self.0.clone();
        assert(b@ =~= self.0@);
        let bytes = TaggedValue::Bytes(b);
        let items = vec![bytes];
        assert(models_of(items@) =~= seq![TaggedModel::Bytes(self.0@)]);
        let fields = vec![field("@values", TaggedValue::List(items))];
        assert(field_models_of(fields@) =~= encode_literal(self.0@)->Struct_fields);
        make_struct("regex_syntax::hir::Literal", fields)
    }
}

impl Look {
    /// The variant name of the assertion.
    pub fn name(&self) -> (r: &'static str)
        ensures
            r@ == look_name(*self),
    {
        match self {
            Look::Start => "Start",
            Look::End => "End",
            Look::StartLF => "StartLF",
            Look::EndLF => "EndLF",
            Look::StartCRLF => "StartCRLF",
            Look::EndCRLF => "EndCRLF",
            Look::WordAscii => "WordAscii",
            Look::WordAsciiNegate => "WordAsciiNegate",
            Look::WordUnicode => "WordUnicode",
            Look::WordUnicodeNegate => "WordUnicodeNegate",
            Look::WordStartAscii => "WordStartAscii",
            Look::WordEndAscii => "WordEndAscii",
            Look::WordStartUnicode => "WordStartUnicode",
            Look::WordEndUnicode => "WordEndUnicode",
            Look::WordStartHalfAscii => "WordStartHalfAscii",
            Look::WordEndHalfAscii => "WordEndHalfAscii",
            Look::WordStartHalfUnicode => "WordStartHalfUnicode",
            Look::WordEndHalfUnicode => "WordEndHalfUnicode",
        }
    }

    pub fn encode(&self) -> (r: TaggedValue)
        ensures
            r@ == encode_look(*self),
    {
        let r = make_variant("regex_syntax::hir::Look", self.name(), Vec::new());
        assert(models_of(Seq::<TaggedValue>::empty()) =~= Seq::<TaggedModel>::empty());
        r
    }
}

/// The tagged encodings of `cs`, in order.
fn encode_list(cs: &Vec<Hir>) -> (r: Vec<TaggedValue>)
    ensures
        models_of(r@) == encode_all(hir_models(cs@)),
    decreases cs,
{
    let mut items: Vec<TaggedValue> = Vec::new();
    let mut i: usize = 0;
    while i < cs.len()
        invariant
            i <= cs@.len(),
            items@.len() == i,
            forall|j: int| 0 <= j < i ==> #[trigger] items@[j]@ == encode_hir(cs@[j]@),
        decreases cs@.len() - i,
    {
        proof {
            assert(decreases_to!(*cs => cs@));
            assert(decreases_to!(cs@ => cs@[i as int]));
        }
        items.push(cs[i].encode());
        i += 1;
    }
    proof {
        lemma_hir_models(cs@);
        lemma_encode_all(hir_models(cs@));
        assert forall|j: int| 0 <= j < items@.len() implies #[trigger] models_of(items@)[j]
            == encode_all(hir_models(cs@))[j] by {
            assert(hir_models(cs@)[j] == cs@[j]@);
            assert(items@[j]@ == encode_hir(cs@[j]@));
            assert(models_of(items@)[j] == items@[j]@);
        }
    }
    assert(models_of(items@) =~= encode_all(hir_models(cs@)));
    items
}

impl Hir {
    /// The tagged encoding of this node and of all of its sub-trees.
    pub fn encode(&self) -> (r: TaggedValue)
        ensures
            r@ == encode_hir(self@),
        decreases self,
    {
        let ghost m = self@;
        let ghost want = encode_kind(m)->Variant_values;
        let (variant, values): (&str, Vec<TaggedValue>) = match &self.kind {
            HirKind::Empty => {
                let values: Vec<TaggedValue> = Vec::new();
                assert(models_of(values@) =~= want);
                ("Empty", values)
            },
            HirKind::Literal(l) => {
                let values = vec![l.encode()];
                assert(models_of(values@) =~= want);
                ("Literal", values)
            },
            HirKind::Class(c) => {
                let values = vec![c.encode()];
                assert(models_of(values@) =~= want);
                ("Class", values)
            },
            HirKind::Look(l) => {
                let values = vec![l.encode()];
                assert(models_of(values@) =~= want);
                ("Look", values)
            },
            HirKind::Repetition(rep) => {
                let max = match rep.max {
                    Some(v) => TaggedValue::Number(v as u64),
                    None => TaggedValue::Absent,
                };
                let sub = rep.sub.encode();
                let fields = vec![
                    field("min", TaggedValue::Number(rep.min as u64)),
                    field("max", max),
                    field("greedy", TaggedValue::Bool(rep.greedy)),
                    field("sub", sub),
                ];
                assert(field_models_of(fields@) =~= want[0]->Struct_fields);
                let values = vec![make_struct("regex_syntax::hir::Repetition", fields)];
                assert(models_of(values@) =~= want);
                ("Repetition", values)
            },
            HirKind::Capture(cap) => {
                let name = match &cap.name {
                    Some(n) => TaggedValue::Text(n.clone()),
                    None => TaggedValue::Absent,
                };
                let sub = cap.sub.encode();
                let fields = vec![
                    field("index", TaggedValue::Number(cap.index as u64)),
                    field("name", name),
                    field("sub", sub),
                ];
                assert(field_models_of(fields@) =~= want[0]->Struct_fields);
                let values = vec![make_struct("regex_syntax::hir::Capture", fields)];
                assert(models_of(values@) =~= want);
                ("Capture", values)
            },
            HirKind::Concat(cs) => {
                proof {
                    assert(decreases_to!(self.kind => *cs));
                }
                let values = vec![TaggedValue::List(encode_list(cs))];
                assert(models_of(values@) =~= want);
                ("Concat", values)
            },
            HirKind::Alternation(cs) => {
                proof {
                    assert(decreases_to!(self.kind => *cs));
                }
                let values = vec![TaggedValue::List(encode_list(cs))];
                assert(models_of(values@) =~= want);
                ("Alternation", values)
            },
        };
        proof {
            reveal_strlit("Empty");
        }
        assert(variant@ == kind_name(m));
        let kind = make_variant("regex_syntax::hir::HirKind", variant, values);
        let fields = vec![field("kind", kind)];
        assert(field_models_of(fields@) =~= encode_hir(m)->Struct_fields);
        make_struct("regex_syntax::hir::Hir", fields)
    }
}

} // verus!
