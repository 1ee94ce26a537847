//! Rendering of a difference as a one-line hint.

use colored::Colorize;
use vstd::prelude::*;
use vstd::string::StringExecFns;

use crate::diff::delta_of;
use crate::diff::deltas_of;
use crate::diff::lemma_no_difference_iff_same;
use crate::diff::value_delta;
use crate::diff::Delta;
use crate::diff::Difference;
use crate::text::join;
use crate::text::joined;
use crate::text::texts;
use crate::value::field_model;
use crate::value::fields_model;
use crate::value::value_model;
use crate::value::values_model;
use crate::value::DtoField;
use crate::value::FieldValue;
use crate::value::Value;
use crate::value::ValueKind;

verus! {

/// A value written back in the notation it was printed in: text in double
/// quotes, elements and fields separated by commas, an object as its class
/// name and its fields in parentheses.
pub open spec fn value_text(v: Value) -> Seq<char>
    decreases v,
{
    match v {
        Value::Null => "null"@,
        Value::Text(s) => "\""@ + s + "\""@,
        Value::Array(items) => joined(value_texts(items), ","@),
        Value::Mapping(items) => joined(value_texts(items), ","@),
        Value::Dto(name, fields) => name + "("@ + joined(field_texts(fields), ","@) + ")"@,
        Value::Field(f) => field_text(*f),
    }
}

/// A field written as `name=value`.
pub open spec fn field_text(f: FieldValue) -> Seq<char>
    decreases f,
{
    f.name + "="@ + value_text(f.value)
}

/// Each value of a run, written out.
pub open spec fn value_texts(items: Seq<Value>) -> Seq<Seq<char>>
    decreases items,
{
    Seq::new(
        items.len(),
        |i: int|
            if 0 <= i < items.len() {
                value_text(items[i])
            } else {
                Seq::empty()
            },
    )
}

/// Each field of a run, written out.
pub open spec fn field_texts(fields: Seq<FieldValue>) -> Seq<Seq<char>>
    decreases fields,
{
    Seq::new(
        fields.len(),
        |i: int|
            if 0 <= i < fields.len() {
                field_text(fields[i])
            } else {
                Seq::empty()
            },
    )
}

/// An optional value written out; nothing where there is none.
pub open spec fn optional_text(v: Option<Value>) -> Seq<char> {
    match v {
        Some(v) => value_text(v),
        None => Seq::empty(),
    }
}

/// Writes a value back in the notation it was printed in.
pub fn write_value(v: &ValueKind<'_>) -> (out: String)
    ensures
        out@ == value_text(v@),
    decreases v,
{
    match v {
        ValueKind::Null => String::from_str("null"),
        ValueKind::String(s) => {
            let mut out = String::from_str("\"");
            out.append(s);
            out.append("\"");
            out
        },
        ValueKind::Array(items) => write_values(items),
        ValueKind::Mapping(items) => write_values(items),
        ValueKind::Dto(dto) => {
            let mut out = String::from_str(dto.name);
            out.append("(");
            let fields = write_fields(&dto.fields);
            out.append(fields.as_str());
            out.append(")");
            out
        },
        ValueKind::Field(field) => write_field(field),
    }
}

/// Writes a field as `name=value`.
pub fn write_field(field: &DtoField<'_>) -> (out: String)
    ensures
        out@ == field_text(field@),
    decreases field,
{
    let mut out = String::from_str(field.name);
    out.append("=");
    let value = write_value(&field.value);
    out.append(value.as_str());
    out
}

/// Writes the values of a run, separated by commas.
pub fn write_values(items: &Vec<ValueKind<'_>>) -> (out: String)
    ensures
        out@ == joined(value_texts(values_model(items@)), ","@),
    decreases items,
{
    let mut parts: Vec<String> = Vec::new();
    let mut i: usize = 0;
    while i < items.len()
        invariant
            i <= items.len(),
            parts.len() == i,
            forall|k: int| 0 <= k < i ==> (#[trigger] parts@[k])@ == value_text(value_model(items@[k])),
        decreases items.len() - i,
    {
        parts.push(write_value(&items[i]));
        i += 1;
    }
    assert(texts(parts@) =~= value_texts(values_model(items@)));
    join(&parts, ",")
}

/// Writes the fields of a run, separated by commas.
pub fn write_fields(fields: &Vec<DtoField<'_>>) -> (out: String)
    ensures
        out@ == joined(field_texts(fields_model(fields@)), ","@),
    decreases fields,
{
    let mut parts: Vec<String> = Vec::new();
    let mut i: usize = 0;
    while i < fields.len()
        invariant
            i <= fields.len(),
            parts.len() == i,
            forall|k: int| 0 <= k < i ==> (#[trigger] parts@[k])@ == field_text(field_model(fields@[k])),
        decreases fields.len() - i,
    {
        parts.push(write_field(&fields[i]));
        i += 1;
    }
    assert(texts(parts@) =~= field_texts(fields_model(fields@)));
    join(&parts, ",")
}

/// Writes out the element that one side of a comparison lacks; nothing where
/// none is recorded. The text is never coloured.
pub fn message_value(v: Option<ValueKind<'_>>, color: bool) -> (out: String)
    ensures
        out@ == optional_text(crate::diff::optional_model(v)),
{
    match v {
        Some(v) => write_value(&v),
        None => String::new(),
    }
}

/// Writes out a field as `name=value`. The text is never coloured.
pub fn message_field(field: DtoField<'_>, color: bool) -> (out: String)
    ensures
        out@ == field_text(field@),
{
    write_field(&field)
}

/// The hint for a difference, as the concatenation of its parts in tree
/// order. A plain hint leaves out the characters that only the left text has;
/// a coloured hint shows every text of the difference as it stands.
pub open spec fn hint(d: Delta, color: bool) -> Seq<char>
    decreases d,
{
    match d {
        Delta::Equal => Seq::empty(),
        Delta::Type(a, b) => " \""@ + a + "\" and \""@ + b + "\" are not the same Type"@,
        Delta::Child(parts) => " -> "@ + joined(hints(parts, color), Seq::empty()),
        Delta::ArrayChange(parts) => " -> ["@ + joined(hints(parts, color), Seq::empty())
            + "]"@,
        Delta::DtoChange(name, parts) => " -> "@ + name + "("@ + joined(
            hints(parts, color),
            Seq::empty(),
        ) + ")"@,
        Delta::CharsEqual(s) => s,
        Delta::CharsRemove(s) => if color {
            s
        } else {
            Seq::empty()
        },
        Delta::CharsAdd(s) => s,
        Delta::UndefinedLeft(v) => " additional "@ + optional_text(v),
        Delta::UndefinedRight(v) => " missing "@ + optional_text(v),
        Delta::ClassChange(inner) => hint(*inner, color),
        Delta::FieldNameChange(name, inner) => "."@ + name + " was "@ + hint(*inner, color),
        Delta::FieldValueChange(name, inner) => "."@ + name + hint(*inner, color),
    }
}

/// The hint for each difference of a run.
pub open spec fn hints(parts: Seq<Delta>, color: bool) -> Seq<Seq<char>>
    decreases parts,
{
    Seq::new(
        parts.len(),
        |i: int|
            if 0 <= i < parts.len() {
                hint(parts[i], color)
            } else {
                Seq::empty()
            },
    )
}

/// Whether `styled` is `plain` with nothing changed but the text that
/// colouring touches: the two labels of a type mismatch, removed characters
/// and added characters. The shape, the names and every other text agree.
pub open spec fn restyled(plain: Delta, styled: Delta) -> bool
    decreases plain,
{
    match plain {
        Delta::Type(_, _) => styled is Type,
        Delta::CharsRemove(_) => styled is CharsRemove,
        Delta::CharsAdd(_) => styled is CharsAdd,
        Delta::Child(parts) => styled matches Delta::Child(others) && all_restyled(parts, others),
        Delta::ArrayChange(parts) => styled matches Delta::ArrayChange(others) && all_restyled(
            parts,
            others,
        ),
        Delta::DtoChange(name, parts) => styled matches Delta::DtoChange(other_name, others)
            && other_name == name && all_restyled(parts, others),
        Delta::ClassChange(inner) => styled matches Delta::ClassChange(other) && restyled(
            *inner,
            *other,
        ),
        Delta::FieldNameChange(name, inner) => styled matches Delta::FieldNameChange(
            other_name,
            other,
        ) && other_name == name && restyled(*inner, *other),
        Delta::FieldValueChange(name, inner) => styled matches Delta::FieldValueChange(
            other_name,
            other,
        ) && other_name == name && restyled(*inner, *other),
        _ => styled == plain,
    }
}

/// Whether two runs have one length and each part of the second is the
/// restyled part of the first at its index.
pub open spec fn all_restyled(plain: Seq<Delta>, styled: Seq<Delta>) -> bool
    decreases plain,
{
    &&& plain.len() == styled.len()
    &&& forall|i: int| 0 <= i < plain.len() ==> restyled(plain[i], #[trigger] styled[i])
}

/// Formats `Colorize::yellow` of the text. Whether and how `colored` marks
/// the text depends on the terminal and the environment, so the contract
/// claims nothing of the result.
#[verifier::external_body]
fn yellow(text: &str) -> (painted: String) {
    format!("{}", text.yellow())
}

/// Formats `Colorize::red` of the text. Whether and how `colored` marks the
/// text depends on the terminal and the environment, so the contract claims
/// nothing of the result.
#[verifier::external_body]
fn red(text: &str) -> (painted: String) {
    format!("{}", text.red())
}

/// Formats `Colorize::green` of the text. Whether and how `colored` marks
/// the text depends on the terminal and the environment, so the contract
/// claims nothing of the result.
#[verifier::external_body]
fn green(text: &str) -> (painted: String) {
    format!("{}", text.green())
}

/// The sentence for two values of different kinds, given the two labels as
/// they are to be shown.
pub fn type_message(left: &str, right: &str) -> (out: String)
    ensures
        out@ == " \""@ + left@ + "\" and \""@ + right@ + "\" are not the same Type"@,
{
    let mut out = String::from_str(" \"");
    out.append(left);
    out.append("\" and \"");
    out.append(right);
    out.append("\" are not the same Type");
    out
}

/// The strings of a run, one after the other.
pub fn glue(parts: &Vec<String>) -> (out: String)
    ensures
        out@ == joined(texts(parts@), Seq::empty()),
{
    proof {
        reveal_strlit("");
        assert(""@ =~= Seq::<char>::empty());
    }
    join(parts, "")
}

/// Renders a difference, and says which restyled difference the text is the
/// hint of: the difference itself unless `color` is set.
fn render(diff: &Difference<'_>, color: bool) -> (r: (String, Ghost<Delta>))
    ensures
        restyled(diff@, r.1@),
        r.0@ == hint(r.1@, color),
        !color ==> r.1@ == diff@,
    decreases diff,
{
    match diff {
        Difference::Equal => (String::new(), Ghost(Delta::Equal)),
        Difference::Type(a, b) => {
            if color {
                let left = yellow(a);
                let right = yellow(b);
                (type_message(left.as_str(), right.as_str()), Ghost(Delta::Type(left@, right@)))
            } else {
                (type_message(a, b), Ghost(Delta::Type(a@, b@)))
            }
        },
        Difference::Child(parts) => {
            let (pieces, styled) = render_all(parts, color);
            let mut out = String::from_str(" -> ");
            out.append(glue(&pieces).as_str());
            (out, Ghost(Delta::Child(styled@)))
        },
        Difference::ArrayChange(parts) => {
            let (pieces, styled) = render_all(parts, color);
            let mut out = String::from_str(" -> [");
            out.append(glue(&pieces).as_str());
            out.append("]");
            (out, Ghost(Delta::ArrayChange(styled@)))
        },
        Difference::DtoChange((name, parts)) => {
            let (pieces, styled) = render_all(parts, color);
            let mut out = String::from_str(" -> ");
            out.append(name);
            out.append("(");
            out.append(glue(&pieces).as_str());
            out.append(")");
            (out, Ghost(Delta::DtoChange(name@, styled@)))
        },
        Difference::CharsEqual(s) => (s.clone(), Ghost(Delta::CharsEqual(s@))),
        Difference::CharsRemove(s) => {
            if color {
                let painted = red(s.as_str());
                (painted, Ghost(Delta::CharsRemove(painted@)))
            } else {
                (String::new(), Ghost(Delta::CharsRemove(s@)))
            }
        },
        Difference::CharsAdd(s) => {
            if color {
                let painted = green(s.as_str());
                (painted, Ghost(Delta::CharsAdd(painted@)))
            } else {
                (s.clone(), Ghost(Delta::CharsAdd(s@)))
            }
        },
        Difference::UndefinedLeft(v) => {
            let mut out = String::from_str(" additional ");
            let value = optional_value(v);
            out.append(value.as_str());
            (out, Ghost(diff@))
        },
        Difference::UndefinedRight(v) => {
            let mut out = String::from_str(" missing ");
            let value = optional_value(v);
            out.append(value.as_str());
            (out, Ghost(diff@))
        },
        Difference::ClassChange(inner) => {
            let (out, styled) = render(inner, color);
            (out, Ghost(Delta::ClassChange(Box::new(styled@))))
        },
        Difference::FieldNameChange((name, inner)) => {
            let (rest, styled) = render(inner, color);
            let mut out = String::from_str(".");
            out.append(name);
            out.append(" was ");
            out.append(rest.as_str());
            (out, Ghost(Delta::FieldNameChange(name@, Box::new(styled@))))
        },
        Difference::FieldValueChange((name, inner)) => {
            let (rest, styled) = render(inner, color);
            let mut out = String::from_str(".");
            out.append(name);
            out.append(rest.as_str());
            (out, Ghost(Delta::FieldValueChange(name@, Box::new(styled@))))
        },
    }
}

/// Renders each difference of a run.
fn render_all(parts: &Vec<Difference<'_>>, color: bool) -> (r: (Vec<String>, Ghost<Seq<Delta>>))
    ensures
        all_restyled(deltas_of(parts@), r.1@),
        texts(r.0@) == hints(r.1@, color),
        !color ==> r.1@ == deltas_of(parts@),
    decreases parts,
{
    let mut out: Vec<String> = Vec::new();
    let ghost mut styled: Seq<Delta> = Seq::empty();
    let mut i: usize = 0;
    while i < parts.len()
        invariant
            i <= parts.len(),
            out.len() == i,
            styled.len() == i,
            forall|k: int| 0 <= k < i ==> restyled(delta_of(parts@[k]), #[trigger] styled[k]),
            forall|k: int| 0 <= k < i ==> (#[trigger] out@[k])@ == hint(styled[k], color),
            !color ==> forall|k: int| 0 <= k < i ==> #[trigger] styled[k] == delta_of(parts@[k]),
        decreases parts.len() - i,
    {
        let (text, part) = render(&parts[i], color);
        out.push(text);
        proof {
            styled = styled.push(part@);
        }
        i += 1;
    }
    proof {
        assert(texts(out@) =~= hints(styled, color));
        if !color {
            assert(styled =~= deltas_of(parts@));
        }
    }
    (out, Ghost(styled))
}

/// Writes out the element that one side of a comparison lacks; nothing where
/// none is recorded.
fn optional_value(v: &Option<ValueKind<'_>>) -> (out: String)
    ensures
        out@ == optional_text(crate::diff::optional_model(*v)),
{
    match v {
        Some(v) => write_value(v),
        None => String::new(),
    }
}

/// Renders a difference as a hint.
///
/// Without colour the hint is exactly [`hint`] of the difference. With colour
/// it is the hint of the difference restyled: each label of a type mismatch
/// and each run of removed or added characters stands as the terminal
/// styling returned it.
pub fn message(diff: Difference<'_>, color: bool) -> (out: String)
    ensures
        !color ==> out@ == hint(diff@, false),
        color ==> exists|styled: Delta| restyled(diff@, styled) && out@ == hint(styled, true),
{
    let (out, styled) = render(&diff, color);
    out
}

/// The plain hint for two values is empty exactly when they are the same
/// value: every difference shows.
pub proof fn law_hint_empty_iff_same(a: Value, b: Value)
    ensures
        hint(value_delta(a, b), false).len() == 0 <==> a == b,
{
    reveal_strlit(" \"");
    reveal_strlit(" -> ");
    reveal_strlit(" -> [");
    reveal_strlit(".");
    lemma_no_difference_iff_same(a, b);
    let d = value_delta(a, b);
    match d {
        Delta::Equal => {},
        Delta::Type(x, y) => {
            assert(hint(d, false).len() >= " \""@.len());
        },
        Delta::Child(parts) => {
            assert(hint(d, false).len() >= " -> "@.len());
        },
        Delta::ArrayChange(parts) => {
            assert(hint(d, false).len() >= " -> ["@.len());
        },
        Delta::DtoChange(name, parts) => {
            assert(hint(d, false).len() >= " -> "@.len());
        },
        Delta::ClassChange(inner) => {
            assert(*inner is Child);
            assert(hint(*inner, false).len() >= " -> "@.len());
        },
        Delta::FieldNameChange(name, inner) => {
            assert(hint(d, false).len() >= "."@.len());
        },
        Delta::FieldValueChange(name, inner) => {
            assert(hint(d, false).len() >= "."@.len());
        },
        _ => {},
    }
}

} // verus!
