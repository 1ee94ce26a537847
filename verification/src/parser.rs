//! Reading of printed values and failed assertions.

use vstd::prelude::*;
use vstd::string::StrSliceExecFns;

use crate::grammar::assertion_at;
use crate::grammar::at;
use crate::grammar::dto_at;
use crate::grammar::elements_at;
use crate::grammar::field_at;
use crate::grammar::fields_at;
use crate::grammar::find;
use crate::grammar::in_class;
use crate::grammar::is_alphabetic;
use crate::grammar::law_assertion;
use crate::grammar::law_value;
use crate::grammar::quoted_at;
use crate::grammar::run_end;
use crate::grammar::tag_at;
use crate::grammar::text_at;
use crate::grammar::value_at;
use crate::grammar::values_at;
use crate::grammar::well_formed;
use crate::grammar::CharClass;
use crate::text::str_eq;
use crate::value::fields_model;
use crate::value::values_model;
use crate::value::Dto;
use crate::value::DtoField;
use crate::value::FieldValue;
use crate::value::Value;
use crate::value::ValueKind;

verus! {

/// The two values of a failed equality assertion.
#[derive(Debug, PartialEq)]
pub struct AssertionFailedError<'a> {
    /// The value that the test expected.
    pub expected: ValueKind<'a>,
    /// The value that the test got.
    pub real: ValueKind<'a>,
}

/// The one way in which reading fails: at some position the text does not
/// go on as the notation asks.
#[derive(Clone, Copy, Debug, PartialEq, Eq)]
pub struct ParseFailure {
    /// How many characters of the text precede the place of the failure.
    pub position: usize,
}

/// The characters of a string, one by one.
pub fn to_chars(input: &str) -> (chars: Vec<char>)
    ensures
        chars@ == input@,
{
    let mut chars: Vec<char> = Vec::new();
    for c in it: input.chars()
        invariant
            it.seq() == input@,
            chars@ == input@.take(it.index() as int),
    {
        chars.push(c);
        assert(chars@ =~= input@.take(it.index() + 1));
    }
    assert(chars@ =~= input@);
    chars
}

/// Whether a character belongs to a class.
pub fn belongs(c: char, class: CharClass) -> (yes: bool)
    ensures
        yes == in_class(c, class),
{
    match class {
        CharClass::Letter => ('a' <= c && c <= 'z') || ('A' <= c && c <= 'Z'),
        CharClass::Alphabetic => is_alphabetic(c),
        CharClass::Space => c == ' ' || c == '\t' || c == '\r' || c == '\n',
        CharClass::Text => !(c == ',' || c == ')' || c == ']' || c == '}' || c == '>'),
    }
}

/// Where the run of characters of a class that starts at `pos` ends.
pub fn scan(chars: &Vec<char>, pos: usize, class: CharClass) -> (end: usize)
    ensures
        end == run_end(chars@, pos as int, class),
        pos <= end,
        pos <= chars.len() ==> end <= chars.len(),
{
    let mut end = pos;
    while end < chars.len() && belongs(chars[end], class)
        invariant
            pos <= end,
            pos <= chars.len() ==> end <= chars.len(),
            run_end(chars@, pos as int, class) == run_end(chars@, end as int, class),
        decreases chars.len() - end,
    {
        end += 1;
    }
    end
}

/// Whether the character `c` stands at `pos`.
pub fn has_char(chars: &Vec<char>, pos: usize, c: char) -> (yes: bool)
    ensures
        yes == at(chars@, pos as int, c),
{
    pos < chars.len() && chars[pos] == c
}

/// Whether `tag` stands at `pos`.
pub fn has_tag(chars: &Vec<char>, pos: usize, tag: &Vec<char>) -> (yes: bool)
    ensures
        yes == tag_at(chars@, pos as int, tag@),
{
    if tag.len() > chars.len() || pos > chars.len() - tag.len() {
        return false;
    }
    let mut i: usize = 0;
    while i < tag.len()
        invariant
            i <= tag.len(),
            pos + tag.len() <= chars.len(),
            forall|k: int| 0 <= k < i ==> chars@[pos + k] == tag@[k],
        decreases tag.len() - i,
    {
        if chars[pos + i] != tag[i] {
            assert(chars@.subrange(pos as int, pos + tag.len())[i as int] != tag@[i as int]);
            return false;
        }
        i += 1;
    }
    assert(chars@.subrange(pos as int, pos + tag.len()) =~= tag@);
    true
}

/// The first position at or after `pos` where `tag` stands, if there is one.
pub fn find_tag(chars: &Vec<char>, pos: usize, tag: &Vec<char>) -> (found: Option<usize>)
    ensures
        found matches Some(p) ==> find(chars@, pos as int, tag@) == Some(p as int) && p
            + tag.len() <= chars.len(),
        found is None ==> find(chars@, pos as int, tag@) is None,
{
    if pos > chars.len() {
        return None;
    }
    let mut p = pos;
    loop
        invariant
            pos <= p <= chars.len(),
            find(chars@, pos as int, tag@) == find(chars@, p as int, tag@),
        decreases chars.len() - p,
    {
        if has_tag(chars, p, tag) {
            return Some(p);
        }
        if p >= chars.len() {
            return None;
        }
        p += 1;
    }
}

/// Reads the value that stands at `pos`; gives it and the position where it
/// ends. `chars` holds the characters of `input`.
fn value_from<'a>(input: &'a str, chars: &Vec<char>, pos: usize) -> (r: (ValueKind<'a>, usize))
    requires
        chars@ == input@,
        pos <= chars.len(),
    ensures
        (r.0@, r.1 as int) == value_at(input@, pos as int),
        pos <= r.1 <= chars.len(),
    decreases chars.len() - pos, 3nat,
{
    match elements_from(input, chars, pos, '[', ']') {
        Some((items, end)) => { return (ValueKind::Array(items), end); },
        None => {},
    }
    match elements_from(input, chars, pos, '{', '}') {
        Some((items, end)) => { return (ValueKind::Mapping(items), end); },
        None => {},
    }
    match field_from(input, chars, pos) {
        Ok((field, end)) => { return (ValueKind::Field(Box::new(field)), end); },
        Err(_) => {},
    }
    match dto_from(input, chars, pos) {
        Ok((dto, end)) => { return (ValueKind::Dto(dto), end); },
        Err(_) => {},
    }
    text_from(input, chars, pos)
}

/// Reads the text that stands at `pos`.
fn text_from<'a>(input: &'a str, chars: &Vec<char>, pos: usize) -> (r: (ValueKind<'a>, usize))
    requires
        chars@ == input@,
        pos <= chars.len(),
    ensures
        (r.0@, r.1 as int) == text_at(input@, pos as int),
        pos <= r.1 <= chars.len(),
{
    let end = scan(chars, pos, CharClass::Text);
    let run = input.substring_char(pos, end);
    if str_eq(run, "null") {
        (ValueKind::Null, end)
    } else {
        (ValueKind::String(run), end)
    }
}

/// Reads the elements between the bracket `open` at `pos` and its `close`;
/// gives them and the position after `close`, or nothing where a bracket is
/// missing.
fn elements_from<'a>(input: &'a str, chars: &Vec<char>, pos: usize, open: char, close: char) -> (r: Option<(Vec<ValueKind<'a>>, usize)>)
    requires
        chars@ == input@,
        pos <= chars.len(),
    ensures
        match r {
            Some((items, end)) => elements_at(input@, pos as int, open, close) == Ok::<(Seq<Value>, int), int>(
                (values_model(items@), end as int),
            ) && pos <= end <= chars.len(),
            None => elements_at(input@, pos as int, open, close) is Err,
        },
    decreases chars.len() - pos, 2nat,
{
    if !has_char(chars, pos, open) {
        return None;
    }
    let mut items: Vec<ValueKind<'a>> = Vec::new();
    assert(values_model(items@) =~= Seq::empty());
    if has_char(chars, pos + 1, close) {
        return Some((items, pos + 2));
    }
    let end = values_into(input, chars, pos + 1, &mut items);
    if has_char(chars, end, close) {
        Some((items, end + 1))
    } else {
        None
    }
}

/// Reads the values that stand at `pos`, separated by commas, onto the end of
/// `items`; gives the position where the last of them ends.
fn values_into<'a>(input: &'a str, chars: &Vec<char>, pos: usize, items: &mut Vec<ValueKind<'a>>) -> (last: usize)
    requires
        chars@ == input@,
        pos <= chars.len(),
    ensures
        values_model(final(items)@) == values_model(old(items)@) + values_at(input@, pos as int).0,
        last == values_at(input@, pos as int).1,
        pos <= last <= chars.len(),
    decreases chars.len() - pos, 4nat,
{
    let (first, end) = value_from(input, chars, pos);
    let ghost before = items@;
    items.push(first);
    assert(values_model(items@) =~= values_model(before) + seq![first@]);
    if has_char(chars, end, ',') {
        let next = scan(chars, end + 1, CharClass::Space);
        let last = values_into(input, chars, next, items);
        assert(values_model(items@) =~= values_model(before) + (seq![first@] + values_at(
            input@,
            next as int,
        ).0));
        last
    } else {
        end
    }
}

/// Reads the field that stands at `pos`; gives it and the position where it
/// ends, or the position where `=` or the name before it is missing.
fn field_from<'a>(input: &'a str, chars: &Vec<char>, pos: usize) -> (r: Result<(DtoField<'a>, usize), usize>)
    requires
        chars@ == input@,
        pos <= chars.len(),
    ensures
        match r {
            Ok((field, end)) => field_at(input@, pos as int) == Ok::<(FieldValue, int), int>(
                (field@, end as int),
            ) && pos <= end <= chars.len(),
            Err(stop) => field_at(input@, pos as int) == Err::<(FieldValue, int), int>(
                stop as int,
            ),
        },
    decreases chars.len() - pos, 2nat,
{
    let name_end = scan(chars, pos, CharClass::Letter);
    if pos < name_end && has_char(chars, name_end, '=') {
        let name = input.substring_char(pos, name_end);
        let (value, end) = value_from(input, chars, name_end + 1);
        Ok((DtoField { name, value }, end))
    } else {
        Err(name_end)
    }
}

/// Reads the fields that stand at `pos`, separated by commas, onto the end of
/// `fields`; gives the position where the last of them ends, which is `pos`
/// where there is none.
fn fields_into<'a>(input: &'a str, chars: &Vec<char>, pos: usize, fields: &mut Vec<DtoField<'a>>) -> (last: usize)
    requires
        chars@ == input@,
        pos <= chars.len(),
    ensures
        fields_model(final(fields)@) == fields_model(old(fields)@) + fields_at(input@, pos as int).0,
        final(fields)@.len() == old(fields)@.len() + fields_at(input@, pos as int).0.len(),
        last == fields_at(input@, pos as int).1,
        pos <= last <= chars.len(),
    decreases chars.len() - pos, 4nat,
{
    let ghost before = fields@;
    match field_from(input, chars, pos) {
        Err(_) => {
            assert(fields_model(fields@) =~= fields_model(before) + Seq::empty());
            pos
        },
        Ok((first, end)) => {
            fields.push(first);
            assert(fields_model(fields@) =~= fields_model(before) + seq![first@]);
            if has_char(chars, end, ',') {
                let next = scan(chars, end + 1, CharClass::Space);
                let count = fields.len();
                let last = fields_into(input, chars, next, fields);
                assert(fields_model(fields@) =~= fields_model(before) + (seq![first@] + fields_at(
                    input@,
                    next as int,
                ).0));
                if fields.len() > count {
                    last
                } else {
                    end
                }
            } else {
                end
            }
        },
    }
}

/// Reads the object that stands at `pos`; gives it and the position where it
/// ends, or the position where a parenthesis or the class name is missing.
fn dto_from<'a>(input: &'a str, chars: &Vec<char>, pos: usize) -> (r: Result<(Dto<'a>, usize), usize>)
    requires
        chars@ == input@,
        pos <= chars.len(),
    ensures
        match r {
            Ok((dto, end)) => dto_at(input@, pos as int) == Ok::<(Value, int), int>(
                (dto@, end as int),
            ) && pos <= end <= chars.len(),
            Err(stop) => dto_at(input@, pos as int) == Err::<(Value, int), int>(
                stop as int,
            ),
        },
    decreases chars.len() - pos, 2nat,
{
    let name_end = scan(chars, pos, CharClass::Alphabetic);
    if pos < name_end && has_char(chars, name_end, '(') {
        let name = input.substring_char(pos, name_end);
        let mut fields: Vec<DtoField<'a>> = Vec::new();
        assert(fields_model(fields@) =~= Seq::empty());
        let end = fields_into(input, chars, name_end + 1, &mut fields);
        if has_char(chars, end, ')') {
            let after = scan(chars, end + 1, CharClass::Space);
            Ok((Dto { name, fields }, after))
        } else {
            Err(end)
        }
    } else {
        Err(name_end)
    }
}

/// Reads the value that stands between `<` at `pos` and `>`; gives it and
/// the position after `>`, or the position where one of the two is missing.
fn quoted_from<'a>(input: &'a str, chars: &Vec<char>, pos: usize) -> (r: Result<(ValueKind<'a>, usize), usize>)
    requires
        chars@ == input@,
        pos <= chars.len(),
    ensures
        match r {
            Ok((value, end)) => quoted_at(input@, pos as int) == Ok::<(Value, int), int>(
                (value@, end as int),
            ) && pos <= end <= chars.len(),
            Err(stop) => quoted_at(input@, pos as int) == Err::<(Value, int), int>(stop as int),
        },
{
    if !has_char(chars, pos, '<') {
        return Err(pos);
    }
    let (value, end) = value_from(input, chars, pos + 1);
    if has_char(chars, end, '>') {
        Ok((value, end + 1))
    } else {
        Err(end)
    }
}

/// What is left of the text from `pos` on.
fn rest_from<'a>(input: &'a str, chars: &Vec<char>, pos: usize) -> (rest: &'a str)
    requires
        chars@ == input@,
        pos <= chars.len(),
    ensures
        rest@ == input@.skip(pos as int),
{
    input.substring_char(pos, chars.len())
}

/// Reads a text up to the next of `,` `)` `]` `}` `>`; gives what is left and
/// the null value for `null`, else the text as it stands. Never fails.
pub fn parse_field_string_value<'a>(input: &'a str) -> (r: Result<(&'a str, ValueKind<'a>), ParseFailure>)
    ensures
        r matches Ok((rest, value)) && value@ == text_at(input@, 0).0 && rest@ == input@.skip(
            text_at(input@, 0).1,
        ),
{
    let chars = to_chars(input);
    let (value, end) = text_from(input, &chars, 0);
    Ok((rest_from(input, &chars, end), value))
}

/// Reads values separated by commas, as they stand between square brackets;
/// gives what is left and the array of them. Never fails.
pub fn parse_array<'a>(input: &'a str) -> (r: Result<(&'a str, ValueKind<'a>), ParseFailure>)
    ensures
        r matches Ok((rest, value)) && value@ == Value::Array(values_at(input@, 0).0) && rest@
            == input@.skip(values_at(input@, 0).1),
{
    let chars = to_chars(input);
    let mut items: Vec<ValueKind<'a>> = Vec::new();
    assert(values_model(items@) =~= Seq::empty());
    let end = values_into(input, &chars, 0, &mut items);
    Ok((rest_from(input, &chars, end), ValueKind::Array(items)))
}

/// Reads values separated by commas, as they stand between braces; gives
/// what is left and the map of them. Never fails.
pub fn parse_map<'a>(input: &'a str) -> (r: Result<(&'a str, ValueKind<'a>), ParseFailure>)
    ensures
        r matches Ok((rest, value)) && value@ == Value::Mapping(values_at(input@, 0).0) && rest@
            == input@.skip(values_at(input@, 0).1),
{
    let chars = to_chars(input);
    let mut items: Vec<ValueKind<'a>> = Vec::new();
    assert(values_model(items@) =~= Seq::empty());
    let end = values_into(input, &chars, 0, &mut items);
    Ok((rest_from(input, &chars, end), ValueKind::Mapping(items)))
}

/// Reads a field as a value; gives what is left and the field, or fails
/// where `=` or the name before it is missing.
pub fn parse_field_value_kind<'a>(input: &'a str) -> (r: Result<(&'a str, ValueKind<'a>), ParseFailure>)
    ensures
        match field_at(input@, 0) {
            Ok((field, end)) => r matches Ok((rest, value)) && value@ == Value::Field(
                Box::new(field),
            ) && rest@ == input@.skip(end),
            Err(stop) => r matches Err(e) && e.position == stop,
        },
{
    let chars = to_chars(input);
    match field_from(input, &chars, 0) {
        Ok((field, end)) => Ok((rest_from(input, &chars, end), ValueKind::Field(Box::new(field)))),
        Err(position) => Err(ParseFailure { position }),
    }
}

/// Reads a value: an array, a map, a field, an object or a text, the first
/// of these that the text allows; gives what is left and the value. Never
/// fails.
pub fn parse_value_kind<'a>(input: &'a str) -> (r: Result<(&'a str, ValueKind<'a>), ParseFailure>)
    ensures
        r matches Ok((rest, value)) && value@ == value_at(input@, 0).0 && rest@ == input@.skip(
            value_at(input@, 0).1,
        ) && well_formed(value@),
{
    proof {
        law_value(input@, 0);
    }
    let chars = to_chars(input);
    let (value, end) = value_from(input, &chars, 0);
    Ok((rest_from(input, &chars, end), value))
}

/// Reads a field; gives what is left and the field, or fails where `=` or
/// the name before it is missing.
pub fn parse_field<'a>(input: &'a str) -> (r: Result<(&'a str, DtoField<'a>), ParseFailure>)
    ensures
        match field_at(input@, 0) {
            Ok((field, end)) => r matches Ok((rest, found)) && found@ == field && rest@
                == input@.skip(end),
            Err(stop) => r matches Err(e) && e.position == stop,
        },
{
    let chars = to_chars(input);
    match field_from(input, &chars, 0) {
        Ok((field, end)) => Ok((rest_from(input, &chars, end), field)),
        Err(position) => Err(ParseFailure { position }),
    }
}

/// Reads fields separated by commas; gives what is left and the fields, of
/// which there may be none. Never fails.
pub fn parse_field_list<'a>(input: &'a str) -> (r: Result<(&'a str, Vec<DtoField<'a>>), ParseFailure>)
    ensures
        r matches Ok((rest, fields)) && fields_model(fields@) == fields_at(input@, 0).0 && rest@
            == input@.skip(fields_at(input@, 0).1),
{
    let chars = to_chars(input);
    let mut fields: Vec<DtoField<'a>> = Vec::new();
    assert(fields_model(fields@) =~= Seq::empty());
    let end = fields_into(input, &chars, 0, &mut fields);
    Ok((rest_from(input, &chars, end), fields))
}

/// Reads an object; gives what is left and the object, or fails where a
/// parenthesis or the class name is missing.
pub fn parse_dto<'a>(input: &'a str) -> (r: Result<(&'a str, ValueKind<'a>), ParseFailure>)
    ensures
        match dto_at(input@, 0) {
            Ok((dto, end)) => r matches Ok((rest, value)) && value@ == dto && rest@ == input@.skip(
                end,
            ),
            Err(stop) => r matches Err(e) && e.position == stop,
        },
{
    let chars = to_chars(input);
    match dto_from(input, &chars, 0) {
        Ok((dto, end)) => Ok((rest_from(input, &chars, end), ValueKind::Dto(dto))),
        Err(position) => Err(ParseFailure { position }),
    }
}

/// Reads a failed assertion: skips to the first `expected: `, then reads
/// `<`, the expected value, `> but was: <`, the actual value and `>`. Gives
/// what is left of the text and the two values, or fails at the position
/// where the text stops being an assertion.
pub fn parse<'a>(input: &'a str) -> (r: Result<(&'a str, AssertionFailedError<'a>), ParseFailure>)
    ensures
        match assertion_at(input@) {
            Ok((expected, actual, end)) => r matches Ok((rest, found)) && found.expected@
                == expected && found.real@ == actual && rest@ == input@.skip(end),
            Err(stop) => r matches Err(e) && e.position == stop,
        },
        r matches Ok((_, found)) ==> well_formed(found.expected@) && well_formed(found.real@),
{
    proof {
        law_assertion(input@);
    }
    let chars = to_chars(input);
    let lead = to_chars("expected: ");
    let link = to_chars(" but was: ");
    let start = match find_tag(&chars, 0, &lead) {
        Some(start) => start,
        None => { return Err(ParseFailure { position: 0 }); },
    };
    let (expected, middle) = match quoted_from(input, &chars, start + lead.len()) {
        Ok(found) => found,
        Err(position) => { return Err(ParseFailure { position }); },
    };
    if !has_tag(&chars, middle, &link) {
        return Err(ParseFailure { position: middle });
    }
    let (actual, end) = match quoted_from(input, &chars, middle + link.len()) {
        Ok(found) => found,
        Err(position) => { return Err(ParseFailure { position }); },
    };
    Ok((rest_from(input, &chars, end), AssertionFailedError { expected, real: actual }))
}

} // verus!
