use coffee_stain::diff::Difference;
use coffee_stain::get_hint;
use coffee_stain::message::glue;
use coffee_stain::message::message;
use coffee_stain::message::message_field;
use coffee_stain::message::message_value;
use coffee_stain::message::type_message;
use coffee_stain::message::write_field;
use coffee_stain::message::write_fields;
use coffee_stain::message::write_value;
use coffee_stain::message::write_values;
use coffee_stain::value::Dto;
use coffee_stain::value::DtoField;
use coffee_stain::value::ValueKind;

#[test]
fn string() {
    assert_eq!(get_hint("", false), None);
    assert_eq!(
        get_hint(
            "org.opentest4j.AssertionFailedError: expected: <1> but was: <2>",
            false
        ),
        Some(" -> 2".to_string())
    );
}

#[test]
fn basic() {
    assert_eq!(
        get_hint(
            "org.opentest4j.AssertionFailedError: expected: <User(firstName=null, lastname=asd)> but was: <User(firstName=null, lastname=aaa)>",
            false
        ),
        Some(" -> User(.lastname -> aaa)".to_string())
    );
}

#[test]
fn nested() {
    assert_eq!(
        get_hint(
            "org.opentest4j.AssertionFailedError: expected: <User(name=1, other=User(name=2, other=null))> but was: <User(name=1, other=null)>",
            false
        ),
        Some(" -> User(.other \"User\" and \"null\" are not the same Type)".to_string())
    );
}

#[test]
fn list() {
    assert_eq!(
        get_hint(
            "org.opentest4j.AssertionFailedError: expected: <[User(name=first, other=null)]> but was: <[User(name=first, other=null), User(name=second, other=null)]>",
            false
        ),
        Some(" -> [ additional User(name=\"second\",other=null)]".to_string())
    );
}

#[test]
fn lib_complicated() {
    assert_eq!(
        get_hint(
            "org.opentest4j.AssertionFailedError: expected: <Complicated(a=hey, b=2, c=500, d=600, e={eee=Complicated(a=a, b=2, c=500, d=600, e={}, f=[], g=[])}, f=[Complicated(a=thing, b=2, c=500, d=600, e={}, f=[], g=[])], g=[Complicated(a=hehe, b=2, c=500, d=600, e={}, f=[], g=[])])> but was: <Complicated(a=hey, b=2, c=500, d=600, e={eee=Complicated(a=b, b=2, c=500, d=600, e={}, f=[], g=[])}, f=[Complicated(a=thing, b=2, c=500, d=600, e={}, f=[], g=[])], g=[Complicated(a=hehe, b=2, c=500, d=600, e={}, f=[], g=[])])>",
            false
        ),
        Some(" -> Complicated(.e -> [.eee -> Complicated(.a -> b)])".to_string())
    );
}

#[test]
fn equal_values_give_an_empty_hint() {
    assert_eq!(
        get_hint("expected: <User(a=1)> but was: <User(a=1)>", false),
        Some(String::new())
    );
    assert_eq!(message(Difference::Equal, false), "");
    assert_eq!(message(Difference::Equal, true), "");
}

#[test]
fn text_that_is_no_assertion_gives_no_hint() {
    assert_eq!(get_hint("expected: <1> but was <2>", false), None);
    assert_eq!(get_hint("expected: 1 but was: 2", true), None);
    assert_eq!(get_hint("expected: <1> but was: <2", false), None);
}

#[test]
fn a_type_mismatch_at_the_top_names_both_kinds() {
    assert_eq!(
        get_hint("expected: <abc> but was: <null>", false),
        Some(" \"String\" and \"null\" are not the same Type".to_string())
    );
    assert_eq!(
        get_hint("expected: <[1]> but was: <{1}>", false),
        Some(" \"Array\" and \"Map\" are not the same Type".to_string())
    );
}

#[test]
fn a_missing_element_is_written_out() {
    assert_eq!(
        get_hint("expected: <[1, 2]> but was: <[1]>", false),
        Some(" -> [ missing \"2\"]".to_string())
    );
    assert_eq!(
        get_hint("expected: <[]> but was: <[k=[a, b]]>", false),
        Some(" -> [ additional k=\"a\",\"b\"]".to_string())
    );
}

#[test]
fn each_difference_renders_as_its_formula_says() {
    let parts = || {
        vec![
            Difference::CharsEqual("ab".to_string()),
            Difference::CharsRemove("c".to_string()),
            Difference::CharsAdd("d".to_string()),
        ]
    };
    assert_eq!(message(Difference::Type("a", "b"), false), " \"a\" and \"b\" are not the same Type");
    assert_eq!(message(Difference::Child(parts()), false), " -> abd");
    assert_eq!(message(Difference::ArrayChange(parts()), false), " -> [abd]");
    assert_eq!(message(Difference::DtoChange(("User", parts())), false), " -> User(abd)");
    assert_eq!(message(Difference::CharsEqual("x".to_string()), false), "x");
    assert_eq!(message(Difference::CharsRemove("x".to_string()), false), "");
    assert_eq!(message(Difference::CharsAdd("x".to_string()), false), "x");
    assert_eq!(
        message(Difference::UndefinedLeft(Some(ValueKind::Null)), false),
        " additional null"
    );
    assert_eq!(
        message(Difference::UndefinedRight(Some(ValueKind::String("x"))), false),
        " missing \"x\""
    );
    assert_eq!(message(Difference::UndefinedLeft(None), false), " additional ");
    assert_eq!(message(Difference::UndefinedRight(None), false), " missing ");
    assert_eq!(
        message(Difference::ClassChange(Box::new(Difference::Child(parts()))), false),
        " -> abd"
    );
    assert_eq!(
        message(
            Difference::FieldNameChange(("size", Box::new(Difference::Child(parts())))),
            false
        ),
        ".size was  -> abd"
    );
    assert_eq!(
        message(
            Difference::FieldValueChange(("size", Box::new(Difference::Child(parts())))),
            false
        ),
        ".size -> abd"
    );
    assert_eq!(message(Difference::Child(vec![]), false), " -> ");
}

#[test]
fn a_missing_value_is_written_in_the_notation_of_the_input() {
    let value = || {
        ValueKind::Dto(Dto {
            name: "User",
            fields: vec![
                DtoField { name: "name", value: ValueKind::String("second") },
                DtoField { name: "other", value: ValueKind::Null },
                DtoField {
                    name: "tags",
                    value: ValueKind::Array(vec![
                        ValueKind::String("a"),
                        ValueKind::Mapping(vec![ValueKind::Field(Box::new(DtoField {
                            name: "k",
                            value: ValueKind::String("v"),
                        }))]),
                        ValueKind::Array(vec![]),
                    ]),
                },
            ],
        })
    };
    let text = "User(name=\"second\",other=null,tags=\"a\",k=\"v\",)";
    assert_eq!(message_value(Some(value()), false), text);
    assert_eq!(message_value(Some(value()), true), text);
    assert_eq!(write_value(&value()), text);
    assert_eq!(message_value(None, false), "");
    assert_eq!(
        message_field(DtoField { name: "n", value: value() }, false),
        format!("n={}", text)
    );
    assert_eq!(
        write_field(&DtoField { name: "n", value: ValueKind::Null }),
        "n=null"
    );
    assert_eq!(
        write_values(&vec![ValueKind::Null, ValueKind::String(""), ValueKind::Null]),
        "null,\"\",null"
    );
    assert_eq!(write_values(&vec![]), "");
    assert_eq!(
        write_fields(&vec![
            DtoField { name: "a", value: ValueKind::Null },
            DtoField { name: "b", value: ValueKind::String("x") },
        ]),
        "a=null,b=\"x\""
    );
}

#[test]
fn the_parts_of_a_sentence_are_put_together_in_order() {
    assert_eq!(type_message("l", "r"), " \"l\" and \"r\" are not the same Type");
    assert_eq!(glue(&vec!["a".to_string(), "".to_string(), "bc".to_string()]), "abc");
    assert_eq!(glue(&vec![]), "");
}

#[test]
fn colour_marks_labels_and_changed_characters() {
    colored::control::set_override(true);
    assert_eq!(
        message(Difference::Type("a", "b"), true),
        " \"\u{1b}[33ma\u{1b}[0m\" and \"\u{1b}[33mb\u{1b}[0m\" are not the same Type"
    );
    assert_eq!(
        message(
            Difference::Child(vec![
                Difference::CharsEqual("ab".to_string()),
                Difference::CharsRemove("c".to_string()),
                Difference::CharsAdd("d".to_string()),
            ]),
            true
        ),
        " -> ab\u{1b}[31mc\u{1b}[0m\u{1b}[32md\u{1b}[0m"
    );
    assert_eq!(
        get_hint("expected: <User(a=1)> but was: <User(a=2)>", true),
        Some(" -> User(.a -> \u{1b}[31m1\u{1b}[0m\u{1b}[32m2\u{1b}[0m)".to_string())
    );
    assert_eq!(
        message(Difference::UndefinedLeft(Some(ValueKind::String("x"))), true),
        " additional \"x\""
    );
}

#[test]
fn colour_switched_off_by_the_terminal_still_shows_removed_characters() {
    colored::control::set_override(false);
    assert_eq!(
        message(
            Difference::Child(vec![
                Difference::CharsEqual("ab".to_string()),
                Difference::CharsRemove("c".to_string()),
                Difference::CharsAdd("d".to_string()),
            ]),
            true
        ),
        " -> abcd"
    );
    assert_eq!(
        message(Difference::Type("a", "b"), true),
        " \"a\" and \"b\" are not the same Type"
    );
}
