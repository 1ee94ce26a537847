//! The value tree shared by the parser, the differ and the renderers.

use vstd::prelude::*;

use crate::text::str_eq;

verus! {

/// A printed value: a leaf, a sequence, or a named object with fields.
#[derive(Debug, PartialEq, Eq, Hash)]
pub enum ValueKind<'a> {
    /// The text `null`.
    Null,
    /// Any other text, kept as it was printed.
    String(&'a str),
    /// The elements between square brackets, in order.
    Array(Vec<ValueKind<'a>>),
    /// The entries between braces, in order. An entry is most often a field.
    Mapping(Vec<ValueKind<'a>>),
    /// A named object.
    Dto(Dto<'a>),
    /// A `name=value` pair that stands on its own.
    Field(Box<DtoField<'a>>),
}

/// A named object, printed as `Name(field=value, ...)`.
#[derive(Debug, PartialEq, Eq, Hash)]
pub struct Dto<'a> {
    /// The class name.
    pub name: &'a str,
    /// The fields, in the order in which they were printed.
    pub fields: Vec<DtoField<'a>>,
}

/// A `name=value` pair.
#[derive(Debug, PartialEq, Eq, Hash)]
pub struct DtoField<'a> {
    /// The field's name.
    pub name: &'a str,
    /// The field's value.
    pub value: ValueKind<'a>,
}

/// The mathematical content of a [`ValueKind`]: text as character sequences,
/// children as sequences of values.
pub enum Value {
    Null,
    Text(Seq<char>),
    Array(Seq<Value>),
    Mapping(Seq<Value>),
    /// The class name and the fields.
    Dto(Seq<char>, Seq<FieldValue>),
    Field(Box<FieldValue>),
}

/// The mathematical content of a [`DtoField`].
pub struct FieldValue {
    pub name: Seq<char>,
    pub value: Value,
}

/// The content of a value, children first.
pub open spec fn value_model(v: ValueKind<'_>) -> Value
    decreases v,
{
    match v {
        ValueKind::Null => Value::Null,
        ValueKind::String(s) => Value::Text(s@),
        ValueKind::Array(items) => Value::Array(values_model(items@)),
        ValueKind::Mapping(items) => Value::Mapping(values_model(items@)),
        ValueKind::Dto(dto) => dto_model(dto),
        ValueKind::Field(field) => Value::Field(Box::new(field_model(*field))),
    }
}

/// The content of an object: its class name and the contents of its fields.
pub open spec fn dto_model(dto: Dto<'_>) -> Value
    decreases dto,
{
    Value::Dto(dto.name@, fields_model(dto.fields@))
}

/// The content of a field: its name and the content of its value.
pub open spec fn field_model(f: DtoField<'_>) -> FieldValue
    decreases f,
{
    FieldValue { name: f.name@, value: value_model(f.value) }
}

/// The contents of a run of values, in order.
pub open spec fn values_model(items: Seq<ValueKind<'_>>) -> Seq<Value>
    decreases items,
{
    Seq::new(
        items.len(),
        |i: int|
            if 0 <= i < items.len() {
                value_model(items[i])
            } else {
                Value::Null
            },
    )
}

/// The contents of a run of fields, in order.
pub open spec fn fields_model(fields: Seq<DtoField<'_>>) -> Seq<FieldValue>
    decreases fields,
{
    Seq::new(
        fields.len(),
        |i: int|
            if 0 <= i < fields.len() {
                field_model(fields[i])
            } else {
                FieldValue { name: Seq::empty(), value: Value::Null }
            },
    )
}

impl<'a> View for ValueKind<'a> {
    type V = Value;

    open spec fn view(&self) -> Value {
        value_model(*self)
    }
}

impl<'a> View for Dto<'a> {
    type V = Value;

    open spec fn view(&self) -> Value {
        dto_model(*self)
    }
}

impl<'a> View for DtoField<'a> {
    type V = FieldValue;

    open spec fn view(&self) -> FieldValue {
        field_model(*self)
    }
}

/// Whether two values have the same content, all the way down.
pub fn value_eq(a: &ValueKind<'_>, b: &ValueKind<'_>) -> (same: bool)
    ensures
        same == (a@ == b@),
    decreases a,
{
    match (a, b) {
        (ValueKind::Null, ValueKind::Null) => true,
        (ValueKind::String(x), ValueKind::String(y)) => str_eq(x, y),
        (ValueKind::Array(x), ValueKind::Array(y)) => values_eq(x, y),
        (ValueKind::Mapping(x), ValueKind::Mapping(y)) => values_eq(x, y),
        (ValueKind::Dto(x), ValueKind::Dto(y)) => dto_eq(x, y),
        (ValueKind::Field(x), ValueKind::Field(y)) => field_eq(x, y),
        _ => false,
    }
}

/// Whether two fields have the same name and the same value.
pub fn field_eq(a: &DtoField<'_>, b: &DtoField<'_>) -> (same: bool)
    ensures
        same == (a@ == b@),
    decreases a,
{
    str_eq(a.name, b.name) && value_eq(&a.value, &b.value)
}

/// Whether two objects have the same class name and the same fields in the
/// same order.
pub fn dto_eq(a: &Dto<'_>, b: &Dto<'_>) -> (same: bool)
    ensures
        same == (a@ == b@),
    decreases a,
{
    str_eq(a.name, b.name) && fields_eq(&a.fields, &b.fields)
}

/// Whether two runs of values have the same length and agree at every index.
pub fn values_eq(a: &Vec<ValueKind<'_>>, b: &Vec<ValueKind<'_>>) -> (same: bool)
    ensures
        same == (values_model(a@) == values_model(b@)),
    decreases a,
{
    if a.len() != b.len() {
        assert(values_model(a@).len() != values_model(b@).len());
        return false;
    }
    let mut i: usize = 0;
    while i < a.len()
        invariant
            i <= a.len(),
            a.len() == b.len(),
            forall|k: int| 0 <= k < i ==> value_model(a@[k]) == value_model(b@[k]),
        decreases a.len() - i,
    {
        if !value_eq(&a[i], &b[i]) {
            assert(values_model(a@)[i as int] != values_model(b@)[i as int]);
            return false;
        }
        i += 1;
    }
    assert(values_model(a@) =~= values_model(b@));
    true
}

/// Whether two runs of fields have the same length and agree at every index.
pub fn fields_eq(a: &Vec<DtoField<'_>>, b: &Vec<DtoField<'_>>) -> (same: bool)
    ensures
        same == (fields_model(a@) == fields_model(b@)),
    decreases a,
{
    if a.len() != b.len() {
        assert(fields_model(a@).len() != fields_model(b@).len());
        return false;
    }
    let mut i: usize = 0;
    while i < a.len()
        invariant
            i <= a.len(),
            a.len() == b.len(),
            forall|k: int| 0 <= k < i ==> field_model(a@[k]) == field_model(b@[k]),
        decreases a.len() - i,
    {
        if !field_eq(&a[i], &b[i]) {
            assert(fields_model(a@)[i as int] != fields_model(b@)[i as int]);
            return false;
        }
        i += 1;
    }
    assert(fields_model(a@) =~= fields_model(b@));
    true
}

} // verus!
