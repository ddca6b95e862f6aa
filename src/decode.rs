//! A consumer's reading of encoded trees, and the laws that tie it to the
//! encoding: decoding recovers every node, and distinct variants carry
//! distinct tags.
use vstd::prelude::*;

use crate::encode::{
    encode_all, encode_bytes_range, encode_class, encode_hir, encode_kind, encode_look,
    encode_unicode_range, kind_index,
};
use crate::hir::{lemma_look_name_injective, look_name, ClassModel, HirModel, Look};
use crate::tagged::{tag_of, TaggedModel};

verus! {

/// A consumer's reading of a non-negative number.
pub open spec fn decode_nat(t: TaggedModel) -> Option<nat> {
    match t {
        TaggedModel::Number(n) => if n >= 0 { Some(n as nat) } else { None },
        _ => None,
    }
}

/// A consumer's reading of a number or of the absent marker.
pub open spec fn decode_opt_nat(t: TaggedModel) -> Option<Option<nat>> {
    match t {
        TaggedModel::Number(n) => if n >= 0 { Some(Some(n as nat)) } else { None },
        TaggedModel::Absent => Some(None),
        _ => None,
    }
}

/// A consumer's reading of a text or of the absent marker.
pub open spec fn decode_opt_text(t: TaggedModel) -> Option<Option<Seq<char>>> {
    match t {
        TaggedModel::Text(s) => Some(Some(s)),
        TaggedModel::Absent => Some(None),
        _ => None,
    }
}

/// A consumer's reading of a one-character text.
pub open spec fn decode_char(t: TaggedModel) -> Option<char> {
    match t {
        TaggedModel::Text(s) => if s.len() == 1 { Some(s[0]) } else { None },
        _ => None,
    }
}

/// A consumer's reading of a byte.
pub open spec fn decode_byte(t: TaggedModel) -> Option<u8> {
    match t {
        TaggedModel::Number(n) => if 0 <= n < 256 { Some(n as u8) } else { None },
        _ => None,
    }
}

/// The three keys of an encoded range.
pub open spec fn has_range_keys(fields: Seq<(Seq<char>, TaggedModel)>) -> bool {
    &&& fields.len() == 3
    &&& fields[0].0 == "start"@
    &&& fields[1].0 == "end"@
    &&& fields[2].0 == "len"@
}

pub open spec fn decode_unicode_range(t: TaggedModel) -> Option<(char, char)> {
    match t {
        TaggedModel::Struct { name, fields } => if name == "regex_syntax::hir::ClassUnicodeRange"@
            && has_range_keys(fields) {
            match (decode_char(fields[0].1), decode_char(fields[1].1)) {
                (Some(s), Some(e)) => Some((s, e)),
                _ => None,
            }
        } else {
            None
        },
        _ => None,
    }
}

pub open spec fn decode_bytes_range(t: TaggedModel) -> Option<(u8, u8)> {
    match t {
        TaggedModel::Struct { name, fields } => if name == "regex_syntax::hir::ClassBytesRange"@
            && has_range_keys(fields) {
            match (decode_byte(fields[0].1), decode_byte(fields[1].1)) {
                (Some(s), Some(e)) => Some((s, e)),
                _ => None,
            }
        } else {
            None
        },
        _ => None,
    }
}

/// The list held by a struct of one field, `ranges`, named `name`.
pub open spec fn ranges_of(t: TaggedModel, name: Seq<char>) -> Option<Seq<TaggedModel>> {
    match t {
        TaggedModel::Struct { name: n, fields } => if n == name && fields.len() == 1 && fields[0].0
            == "ranges"@ {
            match fields[0].1 {
                TaggedModel::List(items) => Some(items),
                _ => None,
            }
        } else {
            None
        },
        _ => None,
    }
}

pub open spec fn decode_class(t: TaggedModel) -> Option<ClassModel> {
    match t {
        TaggedModel::Variant { name, variant, values } => if name == "regex_syntax::hir::Class"@
            && values.len() == 1 {
            if variant == "Unicode"@ {
                match ranges_of(values[0], "regex_syntax::hir::ClassUnicode"@) {
                    Some(items) => if forall|i: int|
                        0 <= i < items.len() ==> #[trigger] decode_unicode_range(items[i]) is Some {
                        Some(
                            ClassModel::Unicode(
                                items.map_values(|x: TaggedModel| decode_unicode_range(x)->0),
                            ),
                        )
                    } else {
                        None
                    },
                    None => None,
                }
            } else if variant == "Bytes"@ {
                match ranges_of(values[0], "regex_syntax::hir::ClassBytes"@) {
                    Some(items) => if forall|i: int|
                        0 <= i < items.len() ==> #[trigger] decode_bytes_range(items[i]) is Some {
                        Some(
                            ClassModel::Bytes(
                                items.map_values(|x: TaggedModel| decode_bytes_range(x)->0),
                            ),
                        )
                    } else {
                        None
                    },
                    None => None,
                }
            } else {
                None
            }
        } else {
            None
        },
        _ => None,
    }
}

pub open spec fn decode_literal(t: TaggedModel) -> Option<Seq<u8>> {
    match t {
        TaggedModel::Struct { name, fields } => if name == "regex_syntax::hir::Literal"@
            && fields.len() == 1 && fields[0].0 == "@values"@ {
            match fields[0].1 {
                TaggedModel::List(items) => if items.len() == 1 {
                    match items[0] {
                        TaggedModel::Bytes(b) => Some(b),
                        _ => None,
                    }
                } else {
                    None
                },
                _ => None,
            }
        } else {
            None
        },
        _ => None,
    }
}

/// The assertion whose variant name is `s`, if there is one.
pub open spec fn look_from_name(s: Seq<char>) -> Option<Look> {
    if exists|l: Look| look_name(l) == s {
        Some(choose|l: Look| look_name(l) == s)
    } else {
        None
    }
}

pub open spec fn decode_look(t: TaggedModel) -> Option<Look> {
    match t {
        TaggedModel::Variant { name, variant, values } => if name == "regex_syntax::hir::Look"@
            && values.len() == 0 {
            look_from_name(variant)
        } else {
            None
        },
        _ => None,
    }
}

/// A consumer's reading of an encoded node: the inverse of [`encode_hir`].
pub open spec fn decode_hir(t: TaggedModel) -> Option<HirModel>
    decreases t,
{
    match t {
        TaggedModel::Struct { name, fields } => if name == "regex_syntax::hir::Hir"@ && fields.len()
            == 1 && fields[0].0 == "kind"@ {
            decode_kind(fields[0].1)
        } else {
            None
        },
        _ => None,
    }
}

/// A consumer's reading of an encoded kind: the inverse of [`encode_kind`].
pub open spec fn decode_kind(t: TaggedModel) -> Option<HirModel>
    decreases t,
{
    match t {
        TaggedModel::Variant { name, variant, values } => {
            if name != "regex_syntax::hir::HirKind"@ {
                None
            } else if variant == "Empty"@ {
                if values.len() == 0 {
                    Some(HirModel::Empty)
                } else {
                    None
                }
            } else if values.len() != 1 {
                None
            } else if variant == "Literal"@ {
                match decode_literal(values[0]) {
                    Some(b) => Some(HirModel::Literal(b)),
                    None => None,
                }
            } else if variant == "Class"@ {
                match decode_class(values[0]) {
                    Some(c) => Some(HirModel::Class(c)),
                    None => None,
                }
            } else if variant == "Look"@ {
                match decode_look(values[0]) {
                    Some(l) => Some(HirModel::Look(l)),
                    None => None,
                }
            } else if variant == "Repetition"@ {
                match values[0] {
                    TaggedModel::Struct { name: n, fields: f } => if n
                        == "regex_syntax::hir::Repetition"@ && f.len() == 4 && f[0].0 == "min"@
                        && f[1].0 == "max"@ && f[2].0 == "greedy"@ && f[3].0 == "sub"@ {
                        match (decode_nat(f[0].1), decode_opt_nat(f[1].1), f[2].1, decode_hir(f[3].1)) {
                            (Some(min), Some(max), TaggedModel::Bool(greedy), Some(sub)) => Some(
                                HirModel::Repetition { min, max, greedy, sub: Box::new(sub) },
                            ),
                            _ => None,
                        }
                    } else {
                        None
                    },
                    _ => None,
                }
            } else if variant == "Capture"@ {
                match values[0] {
                    TaggedModel::Struct { name: n, fields: f } => if n
                        == "regex_syntax::hir::Capture"@ && f.len() == 3 && f[0].0 == "index"@
                        && f[1].0 == "name"@ && f[2].0 == "sub"@ {
                        match (decode_nat(f[0].1), decode_opt_text(f[1].1), decode_hir(f[2].1)) {
                            (Some(index), Some(name), Some(sub)) => Some(
                                HirModel::Capture { index, name, sub: Box::new(sub) },
                            ),
                            _ => None,
                        }
                    } else {
                        None
                    },
                    _ => None,
                }
            } else if variant == "Concat"@ {
                match values[0] {
                    TaggedModel::List(items) => match decode_all(items) {
                        Some(cs) => Some(HirModel::Concat(cs)),
                        None => None,
                    },
                    _ => None,
                }
            } else if variant == "Alternation"@ {
                match values[0] {
                    TaggedModel::List(items) => match decode_all(items) {
                        Some(cs) => Some(HirModel::Alternation(cs)),
                        None => None,
                    },
                    _ => None,
                }
            } else {
                None
            }
        },
        _ => None,
    }
}

/// A consumer's reading of a list of encoded nodes, in order.
pub open spec fn decode_all(s: Seq<TaggedModel>) -> Option<Seq<HirModel>>
    decreases s,
{
    if s.len() == 0 {
        Some(Seq::empty())
    } else {
        match (decode_all(s.drop_last()), decode_hir(s[s.len() - 1])) {
            (Some(a), Some(b)) => Some(a.push(b)),
            _ => None,
        }
    }
}

/// The eight variant names of a node's kind differ pairwise.
pub proof fn lemma_kind_names_distinct()
    ensures
        "Empty"@ != "Literal"@,
        "Empty"@ != "Class"@,
        "Empty"@ != "Look"@,
        "Empty"@ != "Repetition"@,
        "Empty"@ != "Capture"@,
        "Empty"@ != "Concat"@,
        "Empty"@ != "Alternation"@,
        "Literal"@ != "Class"@,
        "Literal"@ != "Look"@,
        "Literal"@ != "Repetition"@,
        "Literal"@ != "Capture"@,
        "Literal"@ != "Concat"@,
        "Literal"@ != "Alternation"@,
        "Class"@ != "Look"@,
        "Class"@ != "Repetition"@,
        "Class"@ != "Capture"@,
        "Class"@ != "Concat"@,
        "Class"@ != "Alternation"@,
        "Look"@ != "Repetition"@,
        "Look"@ != "Capture"@,
        "Look"@ != "Concat"@,
        "Look"@ != "Alternation"@,
        "Repetition"@ != "Capture"@,
        "Repetition"@ != "Concat"@,
        "Repetition"@ != "Alternation"@,
        "Capture"@ != "Concat"@,
        "Capture"@ != "Alternation"@,
        "Concat"@ != "Alternation"@,
{
    reveal_strlit("Empty");
    reveal_strlit("Literal");
    reveal_strlit("Class");
    reveal_strlit("Look");
    reveal_strlit("Repetition");
    reveal_strlit("Capture");
    reveal_strlit("Concat");
    reveal_strlit("Alternation");
    assert("Empty"@.len() == 5);
    assert("Literal"@.len() == 7);
    assert("Class"@.len() == 5);
    assert("Look"@.len() == 4);
    assert("Repetition"@.len() == 10);
    assert("Capture"@.len() == 7);
    assert("Concat"@.len() == 6);
    assert("Alternation"@.len() == 11);
    assert("Empty"@[0] == 'E');
    assert("Literal"@[0] == 'L');
    assert("Class"@[0] == 'C');
    assert("Look"@[0] == 'L');
    assert("Repetition"@[0] == 'R');
    assert("Capture"@[0] == 'C');
    assert("Concat"@[0] == 'C');
    assert("Alternation"@[0] == 'A');
}

proof fn lemma_decode_encode_class(c: ClassModel)
    ensures
        decode_class(encode_class(c)) == Some(c),
{
    reveal_strlit("Unicode");
    reveal_strlit("Bytes");
    assert("Unicode"@.len() != "Bytes"@.len());
    match c {
        ClassModel::Unicode(rs) => {
            let items = rs.map_values(|r: (char, char)| encode_unicode_range(r));
            assert forall|i: int| 0 <= i < items.len() implies #[trigger] decode_unicode_range(items[i])
                == Some(rs[i]) by {
                assert(seq![rs[i].0][0] == rs[i].0);
                assert(seq![rs[i].1][0] == rs[i].1);
            }
            assert(items.map_values(|x: TaggedModel| decode_unicode_range(x)->0) =~= rs);
            assert(ranges_of(encode_class(c)->Variant_values[0], "regex_syntax::hir::ClassUnicode"@) == Some(items));
        },
        ClassModel::Bytes(rs) => {
            let items = rs.map_values(|r: (u8, u8)| encode_bytes_range(r));
            assert forall|i: int| 0 <= i < items.len() implies #[trigger] decode_bytes_range(items[i])
                == Some(rs[i]) by {}
            assert(items.map_values(|x: TaggedModel| decode_bytes_range(x)->0) =~= rs);
            assert(ranges_of(encode_class(c)->Variant_values[0], "regex_syntax::hir::ClassBytes"@) == Some(items));
        },
    }
}

proof fn lemma_decode_encode_look(l: Look)
    ensures
        decode_look(encode_look(l)) == Some(l),
{
    assert(look_name(l) == look_name(l));
    let c = choose|x: Look| look_name(x) == look_name(l);
    lemma_look_name_injective(c, l);
}

/// Decoding an encoded node gives back the node, kind and payload alike.
pub proof fn lemma_decode_encode(h: HirModel)
    ensures
        decode_hir(encode_hir(h)) == Some(h),
    decreases h,
{
    lemma_kind_names_distinct();
    let k = encode_kind(h);
    assert(encode_hir(h)->Struct_fields[0].1 == k);
    assert(decode_hir(encode_hir(h)) == decode_kind(k));
    match h {
        HirModel::Empty => {},
        HirModel::Literal(b) => {
        },
        HirModel::Class(c) => {
            lemma_decode_encode_class(c);
        },
        HirModel::Look(l) => {
            lemma_decode_encode_look(l);
        },
        HirModel::Repetition { min, max, greedy, sub } => {
            lemma_decode_encode(*sub);
        },
        HirModel::Capture { index, name, sub } => {
            lemma_decode_encode(*sub);
        },
        HirModel::Concat(cs) => {
            lemma_decode_encode_all(cs);
        },
        HirModel::Alternation(cs) => {
            lemma_decode_encode_all(cs);
        },
    }
}

/// Decoding a list of encoded nodes gives back the nodes, in order.
pub proof fn lemma_decode_encode_all(s: Seq<HirModel>)
    ensures
        decode_all(encode_all(s)) == Some(s),
    decreases s,
{
    if s.len() > 0 {
        let e = encode_all(s);
        assert(e.drop_last() =~= encode_all(s.drop_last()));
        lemma_decode_encode_all(s.drop_last());
        lemma_decode_encode(s[s.len() - 1]);
        assert(s.drop_last().push(s[s.len() - 1]) =~= s);
    }
}

/// Distinct variants are encoded under distinct tags: two nodes of different
/// kinds, two different assertions, and a node kind and an assertion.
pub proof fn lemma_tags_distinct(a: HirModel, b: HirModel, x: Look, y: Look)
    ensures
        kind_index(a) != kind_index(b) ==> tag_of(encode_kind(a)) != tag_of(encode_kind(b)),
        x != y ==> tag_of(encode_look(x)) != tag_of(encode_look(y)),
        tag_of(encode_kind(a)) != tag_of(encode_look(x)),
{
    lemma_kind_names_distinct();
    lemma_look_name_injective(x, y);
    reveal_strlit("regex_syntax::hir::HirKind");
    reveal_strlit("regex_syntax::hir::Look");
    assert("regex_syntax::hir::HirKind"@.len() != "regex_syntax::hir::Look"@.len());
}

} // verus!
