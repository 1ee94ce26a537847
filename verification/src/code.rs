//! Rendering of a value as builder source code.

use vstd::prelude::*;
use vstd::string::StringExecFns;

use crate::text::join;
use crate::text::joined;
use crate::text::texts;
use crate::value::field_model;
use crate::value::fields_model;
use crate::value::value_model;
use crate::value::values_model;
use crate::value::Dto;
use crate::value::DtoField;
use crate::value::FieldValue;
use crate::value::Value;
use crate::value::ValueKind;

verus! {

/// A run of `n` spaces.
pub open spec fn spaces(n: nat) -> Seq<char> {
    Seq::new(n, |i: int| ' ')
}

/// The source code that builds a value, where `pad` is the indentation of
/// the lines that the value itself opens. Each nesting level indents by two
/// more spaces.
///
/// `null` stands for itself and text is quoted. A sequence becomes a call of
/// `List.of` or `Map.of` with one element per line. An object becomes a call
/// of its builder with one line per field, closed by `.build()`. A field on
/// its own becomes its name and its value, separated by a comma.
pub open spec fn code_text(v: Value, pad: Seq<char>) -> Seq<char>
    decreases v,
{
    match v {
        Value::Null => "null"@,
        Value::Text(s) => "\""@ + s + "\""@,
        Value::Array(items) => "List.of(\n"@ + joined(element_lines(items, pad), ",\n"@) + "\n"@
            + pad + ")"@,
        Value::Mapping(items) => "Map.of(\n"@ + joined(element_lines(items, pad), ",\n"@) + "\n"@
            + pad + ")"@,
        Value::Dto(name, fields) => name + ".builder()\n"@ + joined(
            field_lines(fields, pad),
            Seq::empty(),
        ) + pad + ".build()"@,
        Value::Field(f) => f.name + ", "@ + code_text(f.value, pad),
    }
}

/// One line per element: the indentation, then the element's code.
pub open spec fn element_lines(items: Seq<Value>, pad: Seq<char>) -> Seq<Seq<char>>
    decreases items,
{
    Seq::new(
        items.len(),
        |i: int|
            if 0 <= i < items.len() {
                pad + code_text(items[i], pad + "  "@)
            } else {
                Seq::empty()
            },
    )
}

/// The builder call that sets one field, on a line of its own.
pub open spec fn field_line(f: FieldValue, pad: Seq<char>) -> Seq<char>
    decreases f,
{
    pad + "."@ + f.name + "("@ + code_text(f.value, pad + "  "@) + ")\n"@
}

/// One builder call per field.
pub open spec fn field_lines(fields: Seq<FieldValue>, pad: Seq<char>) -> Seq<Seq<char>>
    decreases fields,
{
    Seq::new(
        fields.len(),
        |i: int|
            if 0 <= i < fields.len() {
                field_line(fields[i], pad)
            } else {
                Seq::empty()
            },
    )
}

/// The code for a value whose own lines are indented by `pad`.
pub fn value_code_at(value: &ValueKind<'_>, pad: &str) -> (out: String)
    ensures
        out@ == code_text(value@, pad@),
    decreases value,
{
    match value {
        ValueKind::Null => String::from_str("null"),
        ValueKind::String(s) => {
            let mut out = String::from_str("\"");
            out.append(s);
            out.append("\"");
            out
        },
        ValueKind::Array(a) => array_code(a, pad),
        ValueKind::Mapping(m) => map_code(m, pad),
        ValueKind::Dto(d) => dto_code(d, pad),
        ValueKind::Field(f) => field_code(f, pad),
    }
}

/// The builder call for an object.
pub fn dto_code(dto: &Dto<'_>, pad: &str) -> (out: String)
    ensures
        out@ == code_text(dto@, pad@),
    decreases dto,
{
    let mut out = String::from_str(dto.name);
    out.append(".builder()\n");
    let calls = fields_code(&dto.fields, pad);
    out.append(calls.as_str());
    out.append(pad);
    out.append(".build()");
    out
}

/// The builder calls that set the fields, one per line.
pub fn fields_code(fields: &Vec<DtoField<'_>>, pad: &str) -> (out: String)
    ensures
        out@ == joined(field_lines(fields_model(fields@), pad@), Seq::empty()),
    decreases fields,
{
    let mut deeper = String::from_str(pad);
    deeper.append("  ");
    let mut lines: Vec<String> = Vec::new();
    let mut i: usize = 0;
    while i < fields.len()
        invariant
            i <= fields.len(),
            lines.len() == i,
            deeper@ == pad@ + "  "@,
            forall|k: int| 0 <= k < i ==> (#[trigger] lines@[k])@ == field_line(field_model(fields@[k]), pad@),
        decreases fields.len() - i,
    {
        let f = &fields[i];
        let mut line = String::from_str(pad);
        line.append(".");
        line.append(f.name);
        line.append("(");
        let value = value_code_at(&f.value, deeper.as_str());
        line.append(value.as_str());
        line.append(")\n");
        lines.push(line);
        i += 1;
    }
    proof {
        reveal_strlit("");
        assert(""@ =~= Seq::<char>::empty());
        assert(texts(lines@) =~= field_lines(fields_model(fields@), pad@));
    }
    join(&lines, "")
}

/// The code for a field that stands on its own: its name, a comma, its value.
pub fn field_code(field: &DtoField<'_>, pad: &str) -> (out: String)
    ensures
        out@ == code_text(Value::Field(Box::new(field@)), pad@),
    decreases field,
{
    let mut out = String::from_str(field.name);
    out.append(", ");
    let value = value_code_at(&field.value, pad);
    out.append(value.as_str());
    out
}

/// The elements of a sequence, one per line, separated by commas.
fn element_code(items: &Vec<ValueKind<'_>>, pad: &str) -> (out: String)
    ensures
        out@ == joined(element_lines(values_model(items@), pad@), ",\n"@),
    decreases items, 0nat,
{
    let mut deeper = String::from_str(pad);
    deeper.append("  ");
    let mut lines: Vec<String> = Vec::new();
    let mut i: usize = 0;
    while i < items.len()
        invariant
            i <= items.len(),
            lines.len() == i,
            deeper@ == pad@ + "  "@,
            forall|k: int| 0 <= k < i ==> (#[trigger] lines@[k])@ == pad@ + code_text(value_model(items@[k]), pad@ + "  "@),
        decreases items.len() - i,
    {
        let mut line = String::from_str(pad);
        let value = value_code_at(&items[i], deeper.as_str());
        line.append(value.as_str());
        lines.push(line);
        i += 1;
    }
    assert(texts(lines@) =~= element_lines(values_model(items@), pad@));
    join(&lines, ",\n")
}

/// The `Map.of` call for a map.
pub fn map_code(map: &Vec<ValueKind<'_>>, pad: &str) -> (out: String)
    ensures
        out@ == code_text(Value::Mapping(values_model(map@)), pad@),
    decreases map, 1nat,
{
    let values = element_code(map, pad);
    let mut out = String::from_str("Map.of(\n");
    out.append(values.as_str());
    out.append("\n");
    out.append(pad);
    out.append(")");
    out
}

/// The `List.of` call for an array.
pub fn array_code(array: &Vec<ValueKind<'_>>, pad: &str) -> (out: String)
    ensures
        out@ == code_text(Value::Array(values_model(array@)), pad@),
    decreases array, 1nat,
{
    let values = element_code(array, pad);
    let mut out = String::from_str("List.of(\n");
    out.append(values.as_str());
    out.append("\n");
    out.append(pad);
    out.append(")");
    out
}

/// A string of `n` spaces.
pub fn indentation(n: usize) -> (pad: String)
    ensures
        pad@ == spaces(n as nat),
{
    let mut pad = String::new();
    let mut i: usize = 0;
    while i < n
        invariant
            i <= n,
            pad@ == spaces(i as nat),
        decreases n - i,
    {
        proof {
            reveal_strlit(" ");
            assert(spaces(i as nat) + " "@ =~= spaces((i + 1) as nat));
        }
        pad.append(" ");
        i += 1;
    }
    proof {
        assert(spaces(0) =~= Seq::<char>::empty());
    }
    pad
}

/// The source code that builds a value, its own lines indented by `indent`
/// spaces.
pub fn value_code(value: ValueKind<'_>, indent: usize) -> (out: String)
    ensures
        out@ == code_text(value@, spaces(indent as nat)),
{
    let pad = indentation(indent);
    value_code_at(&value, pad.as_str())
}

} // verus!
