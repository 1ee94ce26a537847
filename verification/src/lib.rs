//! Turns the text of a failed equality assertion into a short hint that
//! points at the nested field or character that differs, or turns a printed
//! value into the builder source code that makes it.

use vstd::prelude::*;

pub mod align;
pub mod code;
pub mod diff;
pub mod grammar;
pub mod message;
pub mod parser;
pub mod text;
pub mod value;

use crate::code::code_text;
use crate::code::spaces;
use crate::diff::value_delta;
use crate::diff::Delta;
use crate::grammar::assertion_at;
use crate::grammar::value_at;
use crate::message::hint;
use crate::message::restyled;

verus! {

/// The hint for the failed assertion that the text holds, or nothing where
/// it holds none.
///
/// The text is read as an assertion, its two values are compared, and the
/// difference is rendered. Without colour the hint is pinned character by
/// character; with colour it is the hint of the same difference restyled by
/// the terminal styling.
pub fn get_hint(text: &str, color: bool) -> (found: Option<String>)
    ensures
        match assertion_at(text@) {
            Ok((expected, actual, _)) => found matches Some(out) && (!color ==> out@ == hint(
                value_delta(expected, actual),
                false,
            )) && (color ==> exists|styled: Delta|
                restyled(value_delta(expected, actual), styled) && out@ == hint(styled, true)),
            Err(_) => found is None,
        },
{
    match parser::parse(text) {
        Ok((_, data)) => {
            let difference = diff::diff(data.expected, data.real);
            Some(message::message(difference, color))
        },
        Err(_) => None,
    }
}

/// The builder source code for the value that the text holds. Every text
/// holds a value, so there always is code.
pub fn to_code(text: &str) -> (found: Option<String>)
    ensures
        found matches Some(out) && out@ == code_text(value_at(text@, 0).0, spaces(0)),
{
    match parser::parse_value_kind(text) {
        Ok((_, value)) => Some(code::value_code(value, 0)),
        Err(_) => None,
    }
}

} // verus!
