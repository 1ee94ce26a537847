//! Comparison of two value trees, position by position.

use vstd::prelude::*;

use crate::align::aligned;
use crate::align::zip_longest;
use crate::align::Aligned;
use crate::text::str_eq;
use crate::value::field_eq;
use crate::value::fields_eq;
use crate::value::fields_model;
use crate::value::value_model;
use crate::value::values_eq;
use crate::value::values_model;
use crate::value::Dto;
use crate::value::DtoField;
use crate::value::FieldValue;
use crate::value::Value;
use crate::value::ValueKind;

verus! {

/// How one value differs from another.
#[derive(Debug, PartialEq)]
pub enum Difference<'a> {
    /// Nothing differs.
    Equal,
    /// The two values are of different kinds; the kinds' labels, left then right.
    Type(&'a str, &'a str),
    /// A run of parts, such as the segments of a character-level comparison.
    Child(Vec<Difference<'a>>),
    /// Two sequences compared index by index.
    ArrayChange(Vec<Difference<'a>>),
    /// Two objects of one class compared field by field.
    DtoChange((&'a str, Vec<Difference<'a>>)),
    /// Characters that both texts have.
    CharsEqual(String),
    /// Characters that only the left text has.
    CharsRemove(String),
    /// Characters that only the right text has.
    CharsAdd(String),
    /// An element that only the right sequence has.
    UndefinedLeft(Option<ValueKind<'a>>),
    /// An element that only the left sequence has.
    UndefinedRight(Option<ValueKind<'a>>),
    /// Two objects of different classes; holds the comparison of the names.
    ClassChange(Box<Difference<'a>>),
    /// Two fields of different names; the left name and the comparison of the names.
    FieldNameChange((&'a str, Box<Difference<'a>>)),
    /// Two fields of one name and different values; the name and the comparison of the values.
    FieldValueChange((&'a str, Box<Difference<'a>>)),
}

/// The mathematical content of a [`Difference`].
pub enum Delta {
    Equal,
    Type(Seq<char>, Seq<char>),
    Child(Seq<Delta>),
    ArrayChange(Seq<Delta>),
    DtoChange(Seq<char>, Seq<Delta>),
    CharsEqual(Seq<char>),
    CharsRemove(Seq<char>),
    CharsAdd(Seq<char>),
    UndefinedLeft(Option<Value>),
    UndefinedRight(Option<Value>),
    ClassChange(Box<Delta>),
    FieldNameChange(Seq<char>, Box<Delta>),
    FieldValueChange(Seq<char>, Box<Delta>),
}

/// The content of an optional value.
pub open spec fn optional_model(v: Option<ValueKind<'_>>) -> Option<Value> {
    match v {
        Some(v) => Some(value_model(v)),
        None => None,
    }
}

/// The content of a difference, children first.
pub open spec fn delta_of(d: Difference<'_>) -> Delta
    decreases d,
{
    match d {
        Difference::Equal => Delta::Equal,
        Difference::Type(a, b) => Delta::Type(a@, b@),
        Difference::Child(parts) => Delta::Child(deltas_of(parts@)),
        Difference::ArrayChange(parts) => Delta::ArrayChange(deltas_of(parts@)),
        Difference::DtoChange((name, parts)) => Delta::DtoChange(name@, deltas_of(parts@)),
        Difference::CharsEqual(s) => Delta::CharsEqual(s@),
        Difference::CharsRemove(s) => Delta::CharsRemove(s@),
        Difference::CharsAdd(s) => Delta::CharsAdd(s@),
        Difference::UndefinedLeft(v) => Delta::UndefinedLeft(optional_model(v)),
        Difference::UndefinedRight(v) => Delta::UndefinedRight(optional_model(v)),
        Difference::ClassChange(inner) => Delta::ClassChange(Box::new(delta_of(*inner))),
        Difference::FieldNameChange((name, inner)) => Delta::FieldNameChange(
            name@,
            Box::new(delta_of(*inner)),
        ),
        Difference::FieldValueChange((name, inner)) => Delta::FieldValueChange(
            name@,
            Box::new(delta_of(*inner)),
        ),
    }
}

/// The contents of a run of differences, in order.
pub open spec fn deltas_of(parts: Seq<Difference<'_>>) -> Seq<Delta>
    decreases parts,
{
    Seq::new(
        parts.len(),
        |i: int|
            if 0 <= i < parts.len() {
                delta_of(parts[i])
            } else {
                Delta::Equal
            },
    )
}

impl<'a> View for Difference<'a> {
    type V = Delta;

    open spec fn view(&self) -> Delta {
        delta_of(*self)
    }
}

/// The label under which a value's kind is reported: the class name for an
/// object, a fixed word for every other kind.
pub open spec fn kind_label(v: Value) -> Seq<char> {
    match v {
        Value::Null => "null"@,
        Value::Text(_) => "String"@,
        Value::Array(_) => "Array"@,
        Value::Mapping(_) => "Map"@,
        Value::Dto(name, _) => name,
        Value::Field(_) => "Field"@,
    }
}

/// Whether two values are of one kind. Two objects are of one kind whatever
/// their class names.
pub open spec fn same_kind(a: Value, b: Value) -> bool {
    match (a, b) {
        (Value::Null, Value::Null) => true,
        (Value::Text(_), Value::Text(_)) => true,
        (Value::Array(_), Value::Array(_)) => true,
        (Value::Mapping(_), Value::Mapping(_)) => true,
        (Value::Dto(_, _), Value::Dto(_, _)) => true,
        (Value::Field(_), Value::Field(_)) => true,
        _ => false,
    }
}

/// The longer of two lengths.
pub open spec fn longer(n: nat, m: nat) -> nat {
    if n >= m {
        n
    } else {
        m
    }
}

/// The segments that the character-level comparison of two texts yields:
/// each a `CharsEqual`, `CharsRemove` or `CharsAdd`, in the order of the text.
pub uninterp spec fn edit_script(a: Seq<char>, b: Seq<char>) -> Seq<Delta>;

/// The difference of two texts: none if they are the same, else their
/// character-level comparison.
pub open spec fn text_delta(a: Seq<char>, b: Seq<char>) -> Delta {
    if a == b {
        Delta::Equal
    } else {
        Delta::Child(edit_script(a, b))
    }
}

/// The difference of two values.
///
/// Values of different kinds differ in type. Equal values do not differ.
/// Texts are compared character by character, sequences index by index,
/// objects by class name and then field by field, fields by name and then
/// by value.
pub open spec fn value_delta(a: Value, b: Value) -> Delta
    decreases a,
{
    match (a, b) {
        (Value::Null, Value::Null) => Delta::Equal,
        (Value::Text(x), Value::Text(y)) => text_delta(x, y),
        (Value::Array(x), Value::Array(y)) => sequence_delta(x, y),
        (Value::Mapping(x), Value::Mapping(y)) => sequence_delta(x, y),
        (Value::Dto(n, x), Value::Dto(m, y)) => dto_delta(n, x, m, y),
        (Value::Field(f), Value::Field(g)) => field_delta(*f, *g),
        _ => Delta::Type(kind_label(a), kind_label(b)),
    }
}

/// The difference of two sequences: none if they are the same, else what
/// stands at each index up to the longer length.
pub open spec fn sequence_delta(x: Seq<Value>, y: Seq<Value>) -> Delta
    decreases x, 1nat,
{
    if x == y {
        Delta::Equal
    } else {
        Delta::ArrayChange(element_deltas(x, y))
    }
}

/// Index by index: the difference of the two elements where both sequences
/// reach, else the element that one of them lacks.
pub open spec fn element_deltas(x: Seq<Value>, y: Seq<Value>) -> Seq<Delta>
    decreases x, 0nat,
{
    Seq::new(
        longer(x.len(), y.len()),
        |i: int|
            if 0 <= i < x.len() && i < y.len() {
                value_delta(x[i], y[i])
            } else if 0 <= i < x.len() {
                Delta::UndefinedRight(Some(x[i]))
            } else if 0 <= i < y.len() {
                Delta::UndefinedLeft(Some(y[i]))
            } else {
                Delta::Equal
            },
    )
}

/// The difference of two objects: none if they are the same; the comparison
/// of the class names if those differ; else the fields compared by position.
pub open spec fn dto_delta(n: Seq<char>, x: Seq<FieldValue>, m: Seq<char>, y: Seq<FieldValue>) -> Delta
    decreases x, 1nat,
{
    if n == m && x == y {
        Delta::Equal
    } else if n != m {
        Delta::ClassChange(Box::new(text_delta(n, m)))
    } else {
        Delta::DtoChange(n, field_deltas(x, y))
    }
}

/// Index by index: the difference of the two fields where both lists reach,
/// and no difference where only one does.
pub open spec fn field_deltas(x: Seq<FieldValue>, y: Seq<FieldValue>) -> Seq<Delta>
    decreases x, 0nat,
{
    Seq::new(
        longer(x.len(), y.len()),
        |i: int|
            if 0 <= i < x.len() && i < y.len() {
                field_delta(x[i], y[i])
            } else {
                Delta::Equal
            },
    )
}

/// The difference of two fields: none if they are the same; a renaming if
/// the names differ, whatever the values; else the difference of the values.
pub open spec fn field_delta(f: FieldValue, g: FieldValue) -> Delta
    decreases f,
{
    if f == g {
        Delta::Equal
    } else if f.name != g.name {
        Delta::FieldNameChange(f.name, Box::new(text_delta(f.name, g.name)))
    } else {
        Delta::FieldValueChange(f.name, Box::new(value_delta(f.value, g.value)))
    }
}

/// Calls `difference::Changeset::new` with the empty split, which compares
/// character by character, and hands out its `diffs` with each variant under
/// this library's name for it. The contract claims only that the segments are
/// a function of the two texts.
#[verifier::external_body]
fn changeset<'a>(a: &str, b: &str) -> (segments: Vec<Difference<'a>>)
    ensures
        deltas_of(segments@) == edit_script(a@, b@),
{
    difference::Changeset::new(a, b, "").diffs.into_iter().map(|d| match d {
        difference::Difference::Same(s) => Difference::CharsEqual(s),
        difference::Difference::Add(s) => Difference::CharsAdd(s),
        difference::Difference::Rem(s) => Difference::CharsRemove(s),
    }).collect()
}

/// Whether a difference says that nothing differs.
pub fn is_equal(d: &Difference<'_>) -> (equal: bool)
    ensures
        equal == (d@ == Delta::Equal),
{
    match d {
        Difference::Equal => true,
        _ => false,
    }
}

/// Wraps the segments of a character-level comparison into one difference.
pub fn segments_change<'a>(segments: Vec<Difference<'a>>) -> (d: Difference<'a>)
    ensures
        d@ == Delta::Child(deltas_of(segments@)),
{
    Difference::Child(segments)
}

/// Compares two texts character by character.
pub fn diff_string<'a>(a: &'a str, b: &'a str) -> (d: Difference<'a>)
    ensures
        d@ == text_delta(a@, b@),
{
    if str_eq(a, b) {
        return Difference::Equal;
    }
    segments_change(changeset(a, b))
}

/// Two values differ in nothing exactly when they are the same value.
pub proof fn lemma_no_difference_iff_same(a: Value, b: Value)
    ensures
        value_delta(a, b) == Delta::Equal <==> a == b,
{
}

/// Compares two values.
pub fn diff<'a>(a: ValueKind<'a>, b: ValueKind<'a>) -> (d: Difference<'a>)
    ensures
        d@ == value_delta(a@, b@),
    decreases a, 2nat,
{
    match (a, b) {
        (ValueKind::Null, ValueKind::Null) => Difference::Equal,
        (ValueKind::Null, ValueKind::String(_)) => Difference::Type("null", "String"),
        (ValueKind::Null, ValueKind::Array(_)) => Difference::Type("null", "Array"),
        (ValueKind::Null, ValueKind::Mapping(_)) => Difference::Type("null", "Map"),
        (ValueKind::Null, ValueKind::Dto(dto)) => Difference::Type("null", dto.name),
        (ValueKind::Null, ValueKind::Field(_)) => Difference::Type("null", "Field"),
        (ValueKind::String(_), ValueKind::Null) => Difference::Type("String", "null"),
        (ValueKind::String(a), ValueKind::String(b)) => diff_string(a, b),
        (ValueKind::String(_), ValueKind::Array(_)) => Difference::Type("String", "Array"),
        (ValueKind::String(_), ValueKind::Mapping(_)) => Difference::Type("String", "Map"),
        (ValueKind::String(_), ValueKind::Dto(dto)) => Difference::Type("String", dto.name),
        (ValueKind::String(_), ValueKind::Field(_)) => Difference::Type("String", "Field"),
        (ValueKind::Array(_), ValueKind::Null) => Difference::Type("Array", "null"),
        (ValueKind::Array(_), ValueKind::String(_)) => Difference::Type("Array", "String"),
        (ValueKind::Array(a), ValueKind::Array(b)) => diff_array(a, b),
        (ValueKind::Array(_), ValueKind::Mapping(_)) => Difference::Type("Array", "Map"),
        (ValueKind::Array(_), ValueKind::Dto(dto)) => Difference::Type("Array", dto.name),
        (ValueKind::Array(_), ValueKind::Field(_)) => Difference::Type("Array", "Field"),
        (ValueKind::Mapping(_), ValueKind::Null) => Difference::Type("Map", "null"),
        (ValueKind::Mapping(_), ValueKind::String(_)) => Difference::Type("Map", "String"),
        (ValueKind::Mapping(_), ValueKind::Array(_)) => Difference::Type("Map", "Array"),
        (ValueKind::Mapping(a), ValueKind::Mapping(b)) => diff_array(a, b),
        (ValueKind::Mapping(_), ValueKind::Dto(dto)) => Difference::Type("Map", dto.name),
        (ValueKind::Mapping(_), ValueKind::Field(_)) => Difference::Type("Map", "Field"),
        (ValueKind::Dto(dto), ValueKind::Null) => Difference::Type(dto.name, "null"),
        (ValueKind::Dto(dto), ValueKind::String(_)) => Difference::Type(dto.name, "String"),
        (ValueKind::Dto(dto), ValueKind::Array(_)) => Difference::Type(dto.name, "Array"),
        (ValueKind::Dto(dto), ValueKind::Mapping(_)) => Difference::Type(dto.name, "Map"),
        (ValueKind::Dto(a), ValueKind::Dto(b)) => diff_dto(a, b),
        (ValueKind::Dto(dto), ValueKind::Field(_)) => Difference::Type(dto.name, "Field"),
        (ValueKind::Field(_), ValueKind::Null) => Difference::Type("Field", "null"),
        (ValueKind::Field(_), ValueKind::String(_)) => Difference::Type("Field", "String"),
        (ValueKind::Field(_), ValueKind::Array(_)) => Difference::Type("Field", "Array"),
        (ValueKind::Field(_), ValueKind::Mapping(_)) => Difference::Type("Field", "Map"),
        (ValueKind::Field(_), ValueKind::Dto(dto)) => Difference::Type("Field", dto.name),
        (ValueKind::Field(a), ValueKind::Field(b)) => diff_field(a, b),
    }
}

/// Compares two lists of fields by position. Where only one list reaches an
/// index, that index counts as equal.
pub fn diff_fields<'a>(a: Vec<DtoField<'a>>, b: Vec<DtoField<'a>>) -> (d: Difference<'a>)
    ensures
        d@ == (if fields_model(a@) == fields_model(b@) {
            Delta::Equal
        } else {
            Delta::Child(field_deltas(fields_model(a@), fields_model(b@)))
        }),
    decreases a, 1nat,
{
    if fields_eq(&a, &b) {
        return Difference::Equal;
    }
    let ghost x = fields_model(a@);
    let ghost y = fields_model(b@);
    let ghost a0 = a@;
    let ghost b0 = b@;
    let pairs = zip_longest(a, b);
    let mut out: Vec<Difference<'a>> = Vec::new();
    for pair in it: pairs
        invariant
            it.seq() == aligned(a0, b0),
            x == fields_model(a0),
            y == fields_model(b0),
            a0 == a@,
            out.len() == it.index(),
            forall|k: int| 0 <= k < out.len() ==> delta_of(#[trigger] out@[k]) == field_deltas(x, y)[k],
    {
        let part = match pair {
            Aligned::Both(f, g) => diff_field(Box::new(f), Box::new(g)),
            _ => Difference::Equal,
        };
        out.push(part);
    }
    assert(deltas_of(out@) =~= field_deltas(x, y));
    Difference::Child(out)
}

/// Compares two fields: by name, and if the names agree, by value.
pub fn diff_field<'a>(a: Box<DtoField<'a>>, b: Box<DtoField<'a>>) -> (d: Difference<'a>)
    ensures
        d@ == field_delta(a@, b@),
    decreases a, 0nat,
{
    if field_eq(&a, &b) {
        return Difference::Equal;
    }
    let a = *a;
    let b = *b;
    let name = a.name;
    let name_diff = diff_string(name, b.name);
    if !is_equal(&name_diff) {
        return Difference::FieldNameChange((name, Box::new(name_diff)));
    }
    let value_diff = diff(a.value, b.value);
    proof {
        lemma_no_difference_iff_same(a.value@, b.value@);
    }
    if !is_equal(&value_diff) {
        return Difference::FieldValueChange((name, Box::new(value_diff)));
    }
    Difference::Equal
}

/// Compares two objects: by class name, and if the names agree, field by field.
pub fn diff_dto<'a>(a: Dto<'a>, b: Dto<'a>) -> (d: Difference<'a>)
    ensures
        d@ == value_delta(a@, b@),
    decreases a, 2nat,
{
    let same_name = str_eq(a.name, b.name);
    if same_name && fields_eq(&a.fields, &b.fields) {
        return Difference::Equal;
    }
    if !same_name {
        return Difference::ClassChange(Box::new(diff_string(a.name, b.name)));
    }
    let name = a.name;
    let fields_change = diff_fields(a.fields, b.fields);
    match fields_change {
        Difference::Child(parts) => Difference::DtoChange((name, parts)),
        other => other,
    }
}

/// Compares two sequences by position. An element that only one of them has
/// is reported as missing on the other side.
pub fn diff_array<'a>(a: Vec<ValueKind<'a>>, b: Vec<ValueKind<'a>>) -> (d: Difference<'a>)
    ensures
        d@ == sequence_delta(values_model(a@), values_model(b@)),
    decreases a, 1nat,
{
    if values_eq(&a, &b) {
        return Difference::Equal;
    }
    let ghost x = values_model(a@);
    let ghost y = values_model(b@);
    let ghost a0 = a@;
    let ghost b0 = b@;
    let pairs = zip_longest(a, b);
    let mut out: Vec<Difference<'a>> = Vec::new();
    for pair in it: pairs
        invariant
            it.seq() == aligned(a0, b0),
            x == values_model(a0),
            y == values_model(b0),
            a0 == a@,
            out.len() == it.index(),
            forall|k: int| 0 <= k < out.len() ==> delta_of(#[trigger] out@[k]) == element_deltas(x, y)[k],
    {
        let part = match pair {
            Aligned::Both(v, w) => diff(v, w),
            Aligned::Left(v) => Difference::UndefinedRight(Some(v)),
            Aligned::Right(w) => Difference::UndefinedLeft(Some(w)),
        };
        out.push(part);
    }
    assert(deltas_of(out@) =~= element_deltas(x, y));
    Difference::ArrayChange(out)
}

/// A value does not differ from itself.
pub proof fn law_identity(v: Value)
    ensures
        value_delta(v, v) == Delta::Equal,
{
}

/// Values of different kinds differ in type, and the difference names the
/// kind of the left value first and that of the right value second.
pub proof fn law_kind_mismatch(a: Value, b: Value)
    requires
        !same_kind(a, b),
    ensures
        value_delta(a, b) == Delta::Type(kind_label(a), kind_label(b)),
{
}

/// Comparing a sequence with itself plus one more element reports that
/// element as missing on the left at the last index, and every index before
/// it as equal. Nothing is reordered.
pub proof fn law_append_right(x: Seq<Value>, v: Value)
    ensures
        value_delta(Value::Array(x), Value::Array(x.push(v))) == Delta::ArrayChange(
            element_deltas(x, x.push(v)),
        ),
        value_delta(Value::Mapping(x), Value::Mapping(x.push(v))) == Delta::ArrayChange(
            element_deltas(x, x.push(v)),
        ),
        element_deltas(x, x.push(v)).len() == x.len() + 1,
        forall|i: int| 0 <= i < x.len() ==> element_deltas(x, x.push(v))[i] == Delta::Equal,
        element_deltas(x, x.push(v))[x.len() as int] == Delta::UndefinedLeft(Some(v)),
{
    let y = x.push(v);
    assert(x.len() != y.len());
    assert forall|i: int| 0 <= i < x.len() implies element_deltas(x, y)[i] == Delta::Equal by {
        assert(y[i] == x[i]);
        law_identity(x[i]);
    }
}

/// Comparing a sequence plus one more element with the sequence itself
/// reports that element as missing on the right at the last index, and every
/// index before it as equal.
pub proof fn law_append_left(x: Seq<Value>, v: Value)
    ensures
        value_delta(Value::Array(x.push(v)), Value::Array(x)) == Delta::ArrayChange(
            element_deltas(x.push(v), x),
        ),
        value_delta(Value::Mapping(x.push(v)), Value::Mapping(x)) == Delta::ArrayChange(
            element_deltas(x.push(v), x),
        ),
        element_deltas(x.push(v), x).len() == x.len() + 1,
        forall|i: int| 0 <= i < x.len() ==> element_deltas(x.push(v), x)[i] == Delta::Equal,
        element_deltas(x.push(v), x)[x.len() as int] == Delta::UndefinedRight(Some(v)),
{
    let y = x.push(v);
    assert(x.len() != y.len());
    assert forall|i: int| 0 <= i < x.len() implies element_deltas(y, x)[i] == Delta::Equal by {
        assert(y[i] == x[i]);
        law_identity(x[i]);
    }
}

/// Two objects of one class whose field lists agree everywhere but in the
/// value of the field at index `k` differ as objects of that class: the
/// field at `k` is reported with its name and the difference of the two
/// values, every other field as equal.
pub proof fn law_single_field_change(name: Seq<char>, x: Seq<FieldValue>, y: Seq<FieldValue>, k: int)
    requires
        x.len() == y.len(),
        0 <= k < x.len(),
        forall|i: int| 0 <= i < x.len() && i != k ==> x[i] == y[i],
        x[k].name == y[k].name,
        x[k].value != y[k].value,
    ensures
        value_delta(Value::Dto(name, x), Value::Dto(name, y)) == Delta::DtoChange(
            name,
            field_deltas(x, y),
        ),
        field_deltas(x, y).len() == x.len(),
        forall|i: int| 0 <= i < x.len() && i != k ==> field_deltas(x, y)[i] == Delta::Equal,
        field_deltas(x, y)[k] == Delta::FieldValueChange(
            x[k].name,
            Box::new(value_delta(x[k].value, y[k].value)),
        ),
        value_delta(x[k].value, y[k].value) != Delta::Equal,
{
    assert(x[k] != y[k]);
    lemma_no_difference_iff_same(x[k].value, y[k].value);
}

} // verus!
