//! The notation that values are printed in, as functions from a text and a
//! position in it to what stands there.
//!
//! ```text
//! assertion := anything "expected: " "<" value ">" " but was: " "<" value ">"
//! value     := "[" elements "]" | "{" elements "}" | field | dto | text
//! elements  := nothing, before the closing bracket | value ("," spaces value)*
//! field     := letters "=" value
//! dto       := name "(" fields ")" spaces
//! fields    := nothing | field ("," spaces field)*
//! text      := every character up to the next of , ) ] } >
//! ```
//!
//! The alternatives of `value` are tried in the order written and the first
//! that matches wins. A repetition takes as many items as it can; a separator
//! that no item follows is not taken.

use vstd::prelude::*;

use crate::value::FieldValue;
use crate::value::Value;

verus! {

/// The kinds of character that a run can be made of.
#[derive(Clone, Copy, Debug, PartialEq, Eq)]
pub enum CharClass {
    /// An ASCII letter: what a field's name is made of.
    Letter,
    /// An alphabetic character of any script: what a class name is made of.
    Alphabetic,
    /// A space, a tab, a carriage return or a line feed.
    Space,
    /// Anything but the five characters that end a text: `,` `)` `]` `}` `>`.
    Text,
}

/// Whether `char::is_alphabetic` holds of the character: whether Unicode
/// gives it the property `Alphabetic`.
pub uninterp spec fn alphabetic(c: char) -> bool;

/// Calls `char::is_alphabetic`. The contract only gives the answer its name.
#[verifier::external_body]
pub(crate) fn is_alphabetic(c: char) -> (yes: bool)
    ensures
        yes == alphabetic(c),
{
    c.is_alphabetic()
}

/// Whether the character is an ASCII letter.
pub open spec fn is_letter(c: char) -> bool {
    ('a' <= c && c <= 'z') || ('A' <= c && c <= 'Z')
}

/// Whether the character is a space, a tab, a carriage return or a line feed.
pub open spec fn is_space(c: char) -> bool {
    c == ' ' || c == '\t' || c == '\r' || c == '\n'
}

/// Whether the character ends a text.
pub open spec fn is_delimiter(c: char) -> bool {
    c == ',' || c == ')' || c == ']' || c == '}' || c == '>'
}

/// Whether the character belongs to the class.
pub open spec fn in_class(c: char, class: CharClass) -> bool {
    match class {
        CharClass::Letter => is_letter(c),
        CharClass::Alphabetic => alphabetic(c),
        CharClass::Space => is_space(c),
        CharClass::Text => !is_delimiter(c),
    }
}

/// Whether the character `c` stands at `pos`.
pub open spec fn at(s: Seq<char>, pos: int, c: char) -> bool {
    0 <= pos < s.len() && s[pos] == c
}

/// Whether `tag` stands at `pos`.
pub open spec fn tag_at(s: Seq<char>, pos: int, tag: Seq<char>) -> bool {
    0 <= pos && pos + tag.len() <= s.len() && s.subrange(pos, pos + tag.len()) == tag
}

/// The first position at or after `pos` where `tag` stands, if there is one.
pub open spec fn find(s: Seq<char>, pos: int, tag: Seq<char>) -> Option<int>
    decreases s.len() - pos,
{
    if tag_at(s, pos, tag) {
        Some(pos)
    } else if 0 <= pos < s.len() {
        find(s, pos + 1, tag)
    } else {
        None
    }
}

/// Where the longest run of characters of the class that starts at `pos`
/// ends: the first position at or after `pos` that holds no such character.
pub open spec fn run_end(s: Seq<char>, pos: int, class: CharClass) -> int
    decreases s.len() - pos,
{
    if 0 <= pos < s.len() && in_class(s[pos], class) {
        run_end(s, pos + 1, class)
    } else {
        pos
    }
}

/// The value that stands at `pos` and where it ends. Every position holds a
/// value, since a text may be empty.
pub open spec fn value_at(s: Seq<char>, pos: int) -> (Value, int)
    decreases s.len() - pos, 3nat,
{
    match elements_at(s, pos, '[', ']') {
        Ok((items, end)) => (Value::Array(items), end),
        Err(_) => match elements_at(s, pos, '{', '}') {
            Ok((items, end)) => (Value::Mapping(items), end),
            Err(_) => match field_at(s, pos) {
                Ok((field, end)) => (Value::Field(Box::new(field)), end),
                Err(_) => match dto_at(s, pos) {
                    Ok(found) => found,
                    Err(_) => text_at(s, pos),
                },
            },
        },
    }
}

/// The text that stands at `pos` and where it ends. The text `null` is the
/// null value; any other text, the empty one too, is kept as it stands.
pub open spec fn text_at(s: Seq<char>, pos: int) -> (Value, int) {
    let end = run_end(s, pos, CharClass::Text);
    let run = s.subrange(pos, end);
    if run == "null"@ {
        (Value::Null, end)
    } else {
        (Value::Text(run), end)
    }
}

/// The elements between the bracket `open` at `pos` and its `close`, and the
/// position after `close`; or the position where a bracket is missing.
/// Nothing between the brackets is no element.
pub open spec fn elements_at(s: Seq<char>, pos: int, open: char, close: char) -> Result<
    (Seq<Value>, int),
    int,
>
    decreases s.len() - pos, 2nat,
{
    if !at(s, pos, open) {
        Err(pos)
    } else if at(s, pos + 1, close) {
        Ok((Seq::empty(), pos + 2))
    } else {
        let (items, end) = values_at(s, pos + 1);
        if at(s, end, close) {
            Ok((items, end + 1))
        } else {
            Err(end)
        }
    }
}

/// The values that stand at `pos`, separated by a comma and any spaces, and
/// where the last of them ends. There is at least one.
pub open spec fn values_at(s: Seq<char>, pos: int) -> (Seq<Value>, int)
    decreases s.len() - pos, 4nat,
{
    let (first, end) = value_at(s, pos);
    let next = run_end(s, end + 1, CharClass::Space);
    // The bounds on `next` hold wherever a comma stands at `end`; they are
    // written out because the definition has to end.
    if at(s, end, ',') && pos < next <= s.len() {
        let (rest, last) = values_at(s, next);
        (seq![first] + rest, last)
    } else {
        (seq![first], end)
    }
}

/// The field that stands at `pos` and where it ends, or the position where
/// `=` or the name before it is missing.
pub open spec fn field_at(s: Seq<char>, pos: int) -> Result<(FieldValue, int), int>
    decreases s.len() - pos, 2nat,
{
    let name_end = run_end(s, pos, CharClass::Letter);
    if 0 <= pos < name_end && at(s, name_end, '=') {
        let (value, end) = value_at(s, name_end + 1);
        Ok((FieldValue { name: s.subrange(pos, name_end), value }, end))
    } else {
        Err(name_end)
    }
}

/// The fields that stand at `pos`, separated by a comma and any spaces, and
/// where the last of them ends. There may be none.
pub open spec fn fields_at(s: Seq<char>, pos: int) -> (Seq<FieldValue>, int)
    decreases s.len() - pos, 4nat,
{
    match field_at(s, pos) {
        Err(_) => (Seq::empty(), pos),
        Ok((first, end)) => {
            let next = run_end(s, end + 1, CharClass::Space);
            // As in `values_at`, the bounds on `next` are there for the
            // definition to end.
            if at(s, end, ',') && pos < next <= s.len() {
                let (rest, last) = fields_at(s, next);
                if rest.len() > 0 {
                    (seq![first] + rest, last)
                } else {
                    (seq![first], end)
                }
            } else {
                (seq![first], end)
            }
        },
    }
}

/// The object that stands at `pos` and where it ends, spaces after its
/// closing parenthesis included; or the position where a parenthesis or the
/// class name is missing.
pub open spec fn dto_at(s: Seq<char>, pos: int) -> Result<(Value, int), int>
    decreases s.len() - pos, 2nat,
{
    let name_end = run_end(s, pos, CharClass::Alphabetic);
    if 0 <= pos < name_end && at(s, name_end, '(') {
        let (fields, end) = fields_at(s, name_end + 1);
        if at(s, end, ')') {
            Ok(
                (
                    Value::Dto(s.subrange(pos, name_end), fields),
                    run_end(s, end + 1, CharClass::Space),
                ),
            )
        } else {
            Err(end)
        }
    } else {
        Err(name_end)
    }
}

/// The value that stands between `<` at `pos` and `>`, and the position
/// after `>`; or the position where one of the two is missing.
pub open spec fn quoted_at(s: Seq<char>, pos: int) -> Result<(Value, int), int> {
    if !at(s, pos, '<') {
        Err(pos)
    } else {
        let (value, end) = value_at(s, pos + 1);
        if at(s, end, '>') {
            Ok((value, end + 1))
        } else {
            Err(end)
        }
    }
}

/// The two values of a failed assertion, expected and actual, and where the
/// assertion ends; or the position where the text stops being one. What
/// stands before the first `expected: ` is skipped; a text without it fails
/// at its start.
pub open spec fn assertion_at(s: Seq<char>) -> Result<(Value, Value, int), int> {
    match find(s, 0, "expected: "@) {
        None => Err(0),
        Some(start) => match quoted_at(s, start + "expected: "@.len()) {
            Err(stop) => Err(stop),
            Ok((expected, middle)) => if !tag_at(s, middle, " but was: "@) {
                Err(middle)
            } else {
                match quoted_at(s, middle + " but was: "@.len()) {
                    Err(stop) => Err(stop),
                    Ok((actual, end)) => Ok((expected, actual, end)),
                }
            },
        },
    }
}

/// Whether every name in a value is as the notation has it: a class name is
/// one or more alphabetic characters, a field's name one or more ASCII
/// letters.
pub open spec fn well_formed(v: Value) -> bool
    decreases v,
{
    match v {
        Value::Null => true,
        Value::Text(_) => true,
        Value::Array(items) => forall|i: int| 0 <= i < items.len() ==> well_formed(#[trigger] items[i]),
        Value::Mapping(items) => forall|i: int|
            0 <= i < items.len() ==> well_formed(#[trigger] items[i]),
        Value::Dto(name, fields) => is_name(name, CharClass::Alphabetic) && forall|i: int|
            0 <= i < fields.len() ==> field_well_formed(#[trigger] fields[i]),
        Value::Field(f) => field_well_formed(*f),
    }
}

/// Whether a field's name and every name in its value are as the notation
/// has them.
pub open spec fn field_well_formed(f: FieldValue) -> bool
    decreases f,
{
    is_name(f.name, CharClass::Letter) && well_formed(f.value)
}

/// Whether a name is one or more characters of the class.
pub open spec fn is_name(name: Seq<char>, class: CharClass) -> bool {
    name.len() > 0 && forall|i: int| 0 <= i < name.len() ==> in_class(#[trigger] name[i], class)
}

/// A run ends at or after its start and within the text, holds only
/// characters of its class, and is followed by none.
pub proof fn lemma_run(s: Seq<char>, pos: int, class: CharClass)
    requires
        0 <= pos <= s.len(),
    ensures
        pos <= run_end(s, pos, class) <= s.len(),
        forall|i: int| pos <= i < run_end(s, pos, class) ==> in_class(#[trigger] s[i], class),
        run_end(s, pos, class) < s.len() ==> !in_class(s[run_end(s, pos, class)], class),
    decreases s.len() - pos,
{
    if pos < s.len() && in_class(s[pos], class) {
        lemma_run(s, pos + 1, class);
    }
}

/// The value at a position ends at or after it and within the text, and
/// every name in it is well formed.
pub proof fn law_value(s: Seq<char>, pos: int)
    requires
        0 <= pos <= s.len(),
    ensures
        pos <= value_at(s, pos).1 <= s.len(),
        well_formed(value_at(s, pos).0),
    decreases s.len() - pos, 3nat,
{
    law_elements(s, pos, '[', ']');
    law_elements(s, pos, '{', '}');
    law_field(s, pos);
    law_dto(s, pos);
    lemma_run(s, pos, CharClass::Text);
}

/// Bracketed elements end after their opening bracket and within the text,
/// and every name in them is well formed.
pub proof fn law_elements(s: Seq<char>, pos: int, open: char, close: char)
    requires
        0 <= pos <= s.len(),
    ensures
        elements_at(s, pos, open, close) matches Ok((items, end)) ==> pos < end <= s.len()
            && forall|i: int| 0 <= i < items.len() ==> well_formed(#[trigger] items[i]),
    decreases s.len() - pos, 2nat,
{
    if at(s, pos, open) && !at(s, pos + 1, close) {
        law_values(s, pos + 1);
    }
}

/// Separated values end at or after their start and within the text; there
/// is at least one, and every name in them is well formed.
pub proof fn law_values(s: Seq<char>, pos: int)
    requires
        0 <= pos <= s.len(),
    ensures
        pos <= values_at(s, pos).1 <= s.len(),
        values_at(s, pos).0.len() > 0,
        forall|i: int|
            0 <= i < values_at(s, pos).0.len() ==> well_formed(#[trigger] values_at(s, pos).0[i]),
    decreases s.len() - pos, 4nat,
{
    law_value(s, pos);
    let (first, end) = value_at(s, pos);
    if at(s, end, ',') {
        lemma_run(s, end + 1, CharClass::Space);
        let next = run_end(s, end + 1, CharClass::Space);
        law_values(s, next);
    }
}

/// A field ends after its start and within the text, and every name in it
/// is well formed.
pub proof fn law_field(s: Seq<char>, pos: int)
    requires
        0 <= pos <= s.len(),
    ensures
        field_at(s, pos) matches Ok((field, end)) ==> pos < end <= s.len() && field_well_formed(
            field,
        ),
    decreases s.len() - pos, 2nat,
{
    lemma_run(s, pos, CharClass::Letter);
    let name_end = run_end(s, pos, CharClass::Letter);
    if pos < name_end && at(s, name_end, '=') {
        law_value(s, name_end + 1);
    }
}

/// Separated fields end at or after their start and within the text, and
/// every name in them is well formed.
pub proof fn law_fields(s: Seq<char>, pos: int)
    requires
        0 <= pos <= s.len(),
    ensures
        pos <= fields_at(s, pos).1 <= s.len(),
        forall|i: int|
            0 <= i < fields_at(s, pos).0.len() ==> field_well_formed(
                #[trigger] fields_at(s, pos).0[i],
            ),
    decreases s.len() - pos, 4nat,
{
    law_field(s, pos);
    if let Ok((first, end)) = field_at(s, pos) {
        if at(s, end, ',') {
            lemma_run(s, end + 1, CharClass::Space);
            let next = run_end(s, end + 1, CharClass::Space);
            law_fields(s, next);
        }
    }
}

/// An object ends after its start and within the text, and every name in it
/// is well formed.
pub proof fn law_dto(s: Seq<char>, pos: int)
    requires
        0 <= pos <= s.len(),
    ensures
        dto_at(s, pos) matches Ok((dto, end)) ==> pos < end <= s.len() && well_formed(dto),
    decreases s.len() - pos, 2nat,
{
    lemma_run(s, pos, CharClass::Alphabetic);
    let name_end = run_end(s, pos, CharClass::Alphabetic);
    if pos < name_end && at(s, name_end, '(') {
        law_fields(s, name_end + 1);
        let end = fields_at(s, name_end + 1).1;
        if at(s, end, ')') {
            lemma_run(s, end + 1, CharClass::Space);
        }
    }
}

/// What `find` gives is the first place at or after `pos` where the tag
/// stands; it gives nothing only where the tag stands nowhere from `pos` on.
pub proof fn lemma_find(s: Seq<char>, pos: int, tag: Seq<char>)
    requires
        0 <= pos,
    ensures
        match find(s, pos, tag) {
            Some(p) => pos <= p && tag_at(s, p, tag) && forall|q: int|
                pos <= q < p ==> !tag_at(s, q, tag),
            None => forall|q: int| pos <= q ==> !tag_at(s, q, tag),
        },
    decreases s.len() - pos,
{
    if !tag_at(s, pos, tag) && pos < s.len() {
        lemma_find(s, pos + 1, tag);
    }
}

/// The two values of an assertion are well formed, and the assertion ends
/// within the text.
pub proof fn law_assertion(s: Seq<char>)
    ensures
        assertion_at(s) matches Ok((expected, actual, end)) ==> well_formed(expected)
            && well_formed(actual) && 0 <= end <= s.len(),
{
    lemma_find(s, 0, "expected: "@);
    if let Some(start) = find(s, 0, "expected: "@) {
        let open = start + "expected: "@.len();
        if at(s, open, '<') {
            law_value(s, open + 1);
            let middle = value_at(s, open + 1).1 + 1;
            if tag_at(s, middle, " but was: "@) {
                let open = middle + " but was: "@.len();
                if at(s, open, '<') {
                    law_value(s, open + 1);
                }
            }
        }
    }
}

} // verus!
