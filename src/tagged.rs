//! A dynamically typed value tree in which every compound value names its
//! own category and type, so that a consumer without sum types can tell
//! variants apart by their tags rather than by their shape.
use vstd::prelude::*;

verus! {

/// The mathematical form of a [`TaggedValue`].
pub enum TaggedModel {
    Text(Seq<char>),
    Number(int),
    Bool(bool),
    Bytes(Seq<u8>),
    Absent,
    List(Seq<TaggedModel>),
    Struct { name: Seq<char>, fields: Seq<(Seq<char>, TaggedModel)> },
    Variant { name: Seq<char>, variant: Seq<char>, values: Seq<TaggedModel> },
}

/// One named field of a tagged struct.
#[derive(Debug, PartialEq)]
pub struct Field {
    pub key: String,
    pub value: TaggedValue,
}

/// A dynamically typed value: a primitive, a list, a tagged struct or a
/// tagged enum variant.
#[derive(Debug, PartialEq)]
pub enum TaggedValue {
    Text(String),
    Number(u64),
    Bool(bool),
    Bytes(Vec<u8>),
    /// The marker for a value that is not there (an unbounded maximum, an
    /// unnamed group), distinct from zero and from the empty string.
    Absent,
    List(Vec<TaggedValue>),
    Struct { name: String, fields: Vec<Field> },
    Variant { name: String, variant: String, values: Vec<TaggedValue> },
}

pub open spec fn model_of(t: TaggedValue) -> TaggedModel
    decreases t,
{
    match t {
        TaggedValue::Text(s) => TaggedModel::Text(s@),
        TaggedValue::Number(n) => TaggedModel::Number(n as int),
        TaggedValue::Bool(b) => TaggedModel::Bool(b),
        TaggedValue::Bytes(b) => TaggedModel::Bytes(b@),
        TaggedValue::Absent => TaggedModel::Absent,
        TaggedValue::List(items) => TaggedModel::List(models_of(items@)),
        TaggedValue::Struct { name, fields } => TaggedModel::Struct {
            name: name@,
            fields: field_models_of(fields@),
        },
        TaggedValue::Variant { name, variant, values } => TaggedModel::Variant {
            name: name@,
            variant: variant@,
            values: models_of(values@),
        },
    }
}

pub open spec fn models_of(s: Seq<TaggedValue>) -> Seq<TaggedModel>
    decreases s,
{
    if s.len() == 0 {
        Seq::empty()
    } else {
        models_of(s.drop_last()).push(model_of(s.last()))
    }
}

pub open spec fn field_models_of(s: Seq<Field>) -> Seq<(Seq<char>, TaggedModel)>
    decreases s,
{
    if s.len() == 0 {
        Seq::empty()
    } else {
        field_models_of(s.drop_last()).push((s.last().key@, model_of(s.last().value)))
    }
}

impl View for TaggedValue {
    type V = TaggedModel;

    open spec fn view(&self) -> TaggedModel {
        model_of(*self)
    }
}


/// Each item of a list keeps its place in the model of the list.
pub broadcast proof fn lemma_models_of(s: Seq<TaggedValue>)
    ensures
        (#[trigger] models_of(s)).len() == s.len(),
        forall|i: int| 0 <= i < s.len() ==> #[trigger] models_of(s)[i] == model_of(s[i]),
    decreases s.len(),
{
    if s.len() > 0 {
        lemma_models_of(s.drop_last());
    }
}

/// Each field of a struct keeps its place and its key in the model.
pub broadcast proof fn lemma_field_models_of(s: Seq<Field>)
    ensures
        (#[trigger] field_models_of(s)).len() == s.len(),
        forall|i: int|
            0 <= i < s.len() ==> #[trigger] field_models_of(s)[i] == (
            s[i].key@,
            model_of(s[i].value),
        ),
    decreases s.len(),
{
    if s.len() > 0 {
        lemma_field_models_of(s.drop_last());
    }
}

pub broadcast group group_tagged_models {
    lemma_models_of,
    lemma_field_models_of,
}

/// A field named `key` holding `value`.
pub fn field(key: &str, value: TaggedValue) -> (r: Field)
    ensures
        r.key@ == key@,
        r.value@ == value@,
{
    Field { key: String::from_str(key), value }
}

/// A struct tagged with its type name.
pub fn make_struct(name: &str, fields: Vec<Field>) -> (r: TaggedValue)
    ensures
        r@ == (TaggedModel::Struct { name: name@, fields: field_models_of(fields@) }),
{
    TaggedValue::Struct { name: String::from_str(name), fields }
}

/// An enum variant tagged with its type name and its variant name.
pub fn make_variant(name: &str, variant: &str, values: Vec<TaggedValue>) -> (r: TaggedValue)
    ensures
        r@ == (TaggedModel::Variant { name: name@, variant: variant@, values: models_of(values@) }),
{
    TaggedValue::Variant {
        name: String::from_str(name),
        variant: String::from_str(variant),
        values,
    }
}

/// The tag a consumer switches on: the category (`"struct"` or `"enum"`),
/// the type name and the variant name (empty for a struct); all three empty
/// for a primitive or a list.
pub open spec fn tag_of(t: TaggedModel) -> (Seq<char>, Seq<char>, Seq<char>) {
    match t {
        TaggedModel::Struct { name, .. } => ("struct"@, name, Seq::empty()),
        TaggedModel::Variant { name, variant, .. } => ("enum"@, name, variant),
        _ => (Seq::empty(), Seq::empty(), Seq::empty()),
    }
}

/// A text primitive.
pub fn text(s: &str) -> (r: TaggedValue)
    ensures
        r@ == TaggedModel::Text(s@),
{
    TaggedValue::Text(String::from_str(s))
}

impl TaggedValue {
    /// The category of a compound value: `"struct"` or `"enum"`; `None` for a
    /// primitive or a list.
    pub fn type_kind(&self) -> (r: Option<&'static str>)
        ensures
            r is Some <==> (self@ is Struct || self@ is Variant),
            self@ is Struct ==> r->0@ == "struct"@,
            self@ is Variant ==> r->0@ == "enum"@,
    {
        match self {
            TaggedValue::Struct { .. } => Some("struct"),
            TaggedValue::Variant { .. } => Some("enum"),
            _ => None,
        }
    }
}

} // verus!
