use rregex::{
    Capture, Class, ClassBytes, ClassBytesRange, ClassUnicode, ClassUnicodeRange, Field, Hir,
    HirKind, Literal, Look, Repetition, TaggedValue,
};

fn text(s: &str) -> TaggedValue {
    TaggedValue::Text(s.to_string())
}

fn field(k: &str, v: TaggedValue) -> Field {
    Field { key: k.to_string(), value: v }
}

fn strukt(name: &str, fields: Vec<Field>) -> TaggedValue {
    TaggedValue::Struct { name: name.to_string(), fields }
}

fn variant(name: &str, v: &str, values: Vec<TaggedValue>) -> TaggedValue {
    TaggedValue::Variant { name: name.to_string(), variant: v.to_string(), values }
}

fn hir(kind: HirKind) -> Hir {
    Hir { kind }
}

fn lit(s: &str) -> Hir {
    hir(HirKind::Literal(Literal(s.as_bytes().to_vec())))
}

fn encoded_literal(s: &str) -> TaggedValue {
    strukt(
        "regex_syntax::hir::Literal",
        vec![field("@values", TaggedValue::List(vec![TaggedValue::Bytes(s.as_bytes().to_vec())]))],
    )
}

fn encoded_kind(v: &str, values: Vec<TaggedValue>) -> TaggedValue {
    variant("regex_syntax::hir::HirKind", v, values)
}

fn encoded_hir(kind: TaggedValue) -> TaggedValue {
    strukt("regex_syntax::hir::Hir", vec![field("kind", kind)])
}

fn kind_of(t: &TaggedValue) -> &TaggedValue {
    match t {
        TaggedValue::Struct { name, fields } => {
            assert_eq!(name, "regex_syntax::hir::Hir");
            assert_eq!(fields.len(), 1);
            assert_eq!(fields[0].key, "kind");
            &fields[0].value
        }
        other => panic!("not a node: {:?}", other),
    }
}

#[test]
fn empty_is_a_tagged_variant_without_values() {
    let t = hir(HirKind::Empty).encode();
    assert_eq!(t, encoded_hir(encoded_kind("Empty", vec![])));
    assert_eq!(kind_of(&t).type_kind(), Some("enum"));
    assert_eq!(t.type_kind(), Some("struct"));
}

#[test]
fn literal_keeps_its_bytes() {
    let t = hir(HirKind::Literal(Literal(vec![0xff, b'a']))).encode();
    let want = strukt(
        "regex_syntax::hir::Literal",
        vec![field("@values", TaggedValue::List(vec![TaggedValue::Bytes(vec![0xff, b'a'])]))],
    );
    assert_eq!(t, encoded_hir(encoded_kind("Literal", vec![want])));
}

#[test]
fn repetition_plus_has_no_maximum() {
    let h = hir(HirKind::Repetition(Repetition {
        min: 1,
        max: None,
        greedy: true,
        sub: Box::new(lit("a")),
    }));
    let rep = strukt(
        "regex_syntax::hir::Repetition",
        vec![
            field("min", TaggedValue::Number(1)),
            field("max", TaggedValue::Absent),
            field("greedy", TaggedValue::Bool(true)),
            field("sub", encoded_hir(encoded_kind("Literal", vec![encoded_literal("a")]))),
        ],
    );
    assert_eq!(h.encode(), encoded_hir(encoded_kind("Repetition", vec![rep])));
}

#[test]
fn repetition_bounded_keeps_zero_apart_from_absent() {
    let h = hir(HirKind::Repetition(Repetition {
        min: 0,
        max: Some(0),
        greedy: false,
        sub: Box::new(hir(HirKind::Empty)),
    }));
    let t = h.encode();
    match kind_of(&t) {
        TaggedValue::Variant { values, .. } => match &values[0] {
            TaggedValue::Struct { fields, .. } => {
                assert_eq!(fields[0].value, TaggedValue::Number(0));
                assert_eq!(fields[1].value, TaggedValue::Number(0));
                assert_eq!(fields[2].value, TaggedValue::Bool(false));
            }
            other => panic!("{:?}", other),
        },
        other => panic!("{:?}", other),
    }
}

#[test]
fn alternation_of_two_literals() {
    let h = hir(HirKind::Alternation(vec![lit("cat"), lit("dog")]));
    let children = vec![
        encoded_hir(encoded_kind("Literal", vec![encoded_literal("cat")])),
        encoded_hir(encoded_kind("Literal", vec![encoded_literal("dog")])),
    ];
    let t = h.encode();
    assert_eq!(kind_of(&t), &encoded_kind("Alternation", vec![TaggedValue::List(children)]));
}

#[test]
fn concat_keeps_child_order() {
    let h = hir(HirKind::Concat(vec![lit("x"), hir(HirKind::Look(Look::End))]));
    let look = variant("regex_syntax::hir::Look", "End", vec![]);
    let children = vec![
        encoded_hir(encoded_kind("Literal", vec![encoded_literal("x")])),
        encoded_hir(encoded_kind("Look", vec![look])),
    ];
    assert_eq!(h.encode(), encoded_hir(encoded_kind("Concat", vec![TaggedValue::List(children)])));
}

#[test]
fn capture_named_and_unnamed() {
    let named = hir(HirKind::Capture(Capture {
        index: 1,
        name: Some("first".to_string()),
        sub: Box::new(hir(HirKind::Empty)),
    }));
    let unnamed = hir(HirKind::Capture(Capture { index: 2, name: None, sub: Box::new(hir(HirKind::Empty)) }));
    let cap = |i: u64, n: TaggedValue| {
        strukt(
            "regex_syntax::hir::Capture",
            vec![
                field("index", TaggedValue::Number(i)),
                field("name", n),
                field("sub", encoded_hir(encoded_kind("Empty", vec![]))),
            ],
        )
    };
    assert_eq!(named.encode(), encoded_hir(encoded_kind("Capture", vec![cap(1, text("first"))])));
    assert_eq!(unnamed.encode(), encoded_hir(encoded_kind("Capture", vec![cap(2, TaggedValue::Absent)])));
}

#[test]
fn unicode_class_bounds_are_text() {
    let class = Class::Unicode(ClassUnicode {
        ranges: vec![ClassUnicodeRange::new('a', 'z'), ClassUnicodeRange::new('α', 'α')],
    });
    let range = |s: &str, e: &str, len: u64| {
        strukt(
            "regex_syntax::hir::ClassUnicodeRange",
            vec![field("start", text(s)), field("end", text(e)), field("len", TaggedValue::Number(len))],
        )
    };
    let want = variant(
        "regex_syntax::hir::Class",
        "Unicode",
        vec![strukt(
            "regex_syntax::hir::ClassUnicode",
            vec![field("ranges", TaggedValue::List(vec![range("a", "z", 26), range("α", "α", 1)]))],
        )],
    );
    assert_eq!(hir(HirKind::Class(class)).encode(), encoded_hir(encoded_kind("Class", vec![want])));
}

#[test]
fn bytes_class_bounds_are_numbers() {
    let class = Class::Bytes(ClassBytes { ranges: vec![ClassBytesRange::new(0, 255)] });
    let want = variant(
        "regex_syntax::hir::Class",
        "Bytes",
        vec![strukt(
            "regex_syntax::hir::ClassBytes",
            vec![field(
                "ranges",
                TaggedValue::List(vec![strukt(
                    "regex_syntax::hir::ClassBytesRange",
                    vec![
                        field("start", TaggedValue::Number(0)),
                        field("end", TaggedValue::Number(255)),
                        field("len", TaggedValue::Number(256)),
                    ],
                )]),
            )],
        )],
    );
    assert_eq!(class.encode(), want);
}

#[test]
fn range_bounds_are_ordered() {
    let r = ClassBytesRange::new(9, 3);
    assert_eq!((r.start(), r.end()), (3, 9));
    let u = ClassUnicodeRange::new('z', 'a');
    assert_eq!((u.start(), u.end()), ('a', 'z'));
}

#[test]
fn look_variants_have_distinct_tags() {
    let all = [
        Look::Start,
        Look::End,
        Look::StartLF,
        Look::EndLF,
        Look::StartCRLF,
        Look::EndCRLF,
        Look::WordAscii,
        Look::WordAsciiNegate,
        Look::WordUnicode,
        Look::WordUnicodeNegate,
        Look::WordStartAscii,
        Look::WordEndAscii,
        Look::WordStartUnicode,
        Look::WordEndUnicode,
        Look::WordStartHalfAscii,
        Look::WordEndHalfAscii,
        Look::WordStartHalfUnicode,
        Look::WordEndHalfUnicode,
    ];
    let tags: Vec<TaggedValue> = all.iter().map(|l| l.encode()).collect();
    for (i, a) in tags.iter().enumerate() {
        for (j, b) in tags.iter().enumerate() {
            assert_eq!(i == j, a == b);
        }
    }
    assert_eq!(Look::WordStartHalfUnicode.name(), "WordStartHalfUnicode");
    assert_eq!(
        Look::Start.encode(),
        variant("regex_syntax::hir::Look", "Start", vec![])
    );
}

#[test]
fn empty_and_start_are_told_apart() {
    let empty = hir(HirKind::Empty).encode();
    let start = hir(HirKind::Look(Look::Start)).encode();
    assert_ne!(kind_of(&empty), kind_of(&start));
    assert_ne!(kind_of(&empty), &Look::Start.encode());
}

fn get<'a>(fields: &'a [Field], key: &str) -> &'a TaggedValue {
    &fields.iter().find(|f| f.key == key).unwrap().value
}

fn num(t: &TaggedValue) -> u64 {
    match t {
        TaggedValue::Number(n) => *n,
        other => panic!("not a number: {:?}", other),
    }
}

fn one_char(t: &TaggedValue) -> char {
    match t {
        TaggedValue::Text(s) if s.chars().count() == 1 => s.chars().next().unwrap(),
        other => panic!("not one character: {:?}", other),
    }
}

fn decode_look(v: &str) -> Look {
    let all = [
        Look::Start,
        Look::End,
        Look::StartLF,
        Look::EndLF,
        Look::StartCRLF,
        Look::EndCRLF,
        Look::WordAscii,
        Look::WordAsciiNegate,
        Look::WordUnicode,
        Look::WordUnicodeNegate,
        Look::WordStartAscii,
        Look::WordEndAscii,
        Look::WordStartUnicode,
        Look::WordEndUnicode,
        Look::WordStartHalfAscii,
        Look::WordEndHalfAscii,
        Look::WordStartHalfUnicode,
        Look::WordEndHalfUnicode,
    ];
    *all.iter().find(|l| l.name() == v).unwrap()
}

fn bounds(r: &TaggedValue) -> (&TaggedValue, &TaggedValue) {
    match r {
        TaggedValue::Struct { fields, .. } => (get(fields, "start"), get(fields, "end")),
        other => panic!("{:?}", other),
    }
}

/// A consumer's reading of an encoded node, written against the tags alone.
fn decode(t: &TaggedValue) -> Hir {
    let (variant, values) = match kind_of(t) {
        TaggedValue::Variant { name, variant, values } if name == "regex_syntax::hir::HirKind" => {
            (variant.as_str(), values)
        }
        other => panic!("not a kind: {:?}", other),
    };
    let payload = |name: &str| match &values[0] {
        TaggedValue::Struct { name: n, fields } if n == name => fields,
        other => panic!("not a {}: {:?}", name, other),
    };
    let kind = match variant {
        "Empty" => HirKind::Empty,
        "Literal" => match get(payload("regex_syntax::hir::Literal"), "@values") {
            TaggedValue::List(items) => match &items[0] {
                TaggedValue::Bytes(b) => HirKind::Literal(Literal(b.clone())),
                other => panic!("{:?}", other),
            },
            other => panic!("{:?}", other),
        },
        "Class" => match &values[0] {
            TaggedValue::Variant { variant, values, .. } => {
                let ranges = match &values[0] {
                    TaggedValue::Struct { fields, .. } => match get(fields, "ranges") {
                        TaggedValue::List(items) => items,
                        other => panic!("{:?}", other),
                    },
                    other => panic!("{:?}", other),
                };
                if variant == "Unicode" {
                    HirKind::Class(Class::Unicode(ClassUnicode {
                        ranges: ranges
                            .iter()
                            .map(|r| {
                                let (s, e) = bounds(r);
                                ClassUnicodeRange::new(one_char(s), one_char(e))
                            })
                            .collect(),
                    }))
                } else {
                    HirKind::Class(Class::Bytes(ClassBytes {
                        ranges: ranges
                            .iter()
                            .map(|r| {
                                let (s, e) = bounds(r);
                                ClassBytesRange::new(num(s) as u8, num(e) as u8)
                            })
                            .collect(),
                    }))
                }
            }
            other => panic!("{:?}", other),
        },
        "Look" => match &values[0] {
            TaggedValue::Variant { variant, .. } => HirKind::Look(decode_look(variant)),
            other => panic!("{:?}", other),
        },
        "Repetition" => {
            let f = payload("regex_syntax::hir::Repetition");
            HirKind::Repetition(Repetition {
                min: num(get(f, "min")) as u32,
                max: match get(f, "max") {
                    TaggedValue::Absent => None,
                    n => Some(num(n) as u32),
                },
                greedy: matches!(get(f, "greedy"), TaggedValue::Bool(true)),
                sub: Box::new(decode(get(f, "sub"))),
            })
        }
        "Capture" => {
            let f = payload("regex_syntax::hir::Capture");
            HirKind::Capture(Capture {
                index: num(get(f, "index")) as u32,
                name: match get(f, "name") {
                    TaggedValue::Absent => None,
                    TaggedValue::Text(s) => Some(s.clone()),
                    other => panic!("{:?}", other),
                },
                sub: Box::new(decode(get(f, "sub"))),
            })
        }
        "Concat" | "Alternation" => {
            let children = match &values[0] {
                TaggedValue::List(items) => items.iter().map(decode).collect(),
                other => panic!("{:?}", other),
            };
            if variant == "Concat" {
                HirKind::Concat(children)
            } else {
                HirKind::Alternation(children)
            }
        }
        other => panic!("unknown kind {}", other),
    };
    hir(kind)
}

fn sample() -> Hir {
    hir(HirKind::Concat(vec![
        hir(HirKind::Look(Look::WordStartHalfAscii)),
        hir(HirKind::Capture(Capture {
            index: 1,
            name: Some("word".to_string()),
            sub: Box::new(hir(HirKind::Repetition(Repetition {
                min: 2,
                max: Some(7),
                greedy: false,
                sub: Box::new(hir(HirKind::Class(Class::Unicode(ClassUnicode {
                    ranges: vec![ClassUnicodeRange::new('0', '9'), ClassUnicodeRange::new('é', 'ë')],
                })))),
            }))),
        })),
        hir(HirKind::Alternation(vec![
            lit("cat"),
            hir(HirKind::Empty),
            hir(HirKind::Class(Class::Bytes(ClassBytes { ranges: vec![ClassBytesRange::new(0x80, 0xff)] }))),
            hir(HirKind::Capture(Capture { index: 2, name: None, sub: Box::new(lit("x")) })),
        ])),
        hir(HirKind::Repetition(Repetition { min: 0, max: None, greedy: true, sub: Box::new(lit("\u{1}")) })),
    ]))
}

#[test]
fn decoding_the_encoding_gives_the_tree_back() {
    let h = sample();
    assert_eq!(decode(&h.encode()), h);
    let empty = hir(HirKind::Empty);
    assert_eq!(decode(&empty.encode()), empty);
}
