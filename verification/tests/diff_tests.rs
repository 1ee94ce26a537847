use coffee_stain::diff::diff;
use coffee_stain::diff::diff_dto;
use coffee_stain::diff::diff_field;
use coffee_stain::diff::diff_fields;
use coffee_stain::diff::diff_string;
use coffee_stain::diff::is_equal;
use coffee_stain::diff::segments_change;
use coffee_stain::diff::Difference;
use coffee_stain::parser::AssertionFailedError;
use coffee_stain::text::str_eq;
use coffee_stain::value::value_eq;
use coffee_stain::value::Dto;
use coffee_stain::value::DtoField;
use coffee_stain::value::ValueKind;

fn get_complicated_expected() -> AssertionFailedError<'static> {
    AssertionFailedError {
        expected: ValueKind::Dto(Dto {
            name: "Complicated",
            fields: vec![
                DtoField {
                    name: "a",
                    value: ValueKind::String("hey"),
                },
                DtoField {
                    name: "b",
                    value: ValueKind::String("2"),
                },
                DtoField {
                    name: "c",
                    value: ValueKind::String("500"),
                },
                DtoField {
                    name: "d",
                    value: ValueKind::String("600"),
                },
                DtoField {
                    name: "e",
                    value: ValueKind::Mapping(vec![ValueKind::Field(Box::new(DtoField {
                        name: "eee",
                        value: ValueKind::Dto(Dto {
                            name: "Complicated",
                            fields: vec![
                                DtoField {
                                    name: "a",
                                    value: ValueKind::String("a"),
                                },
                                DtoField {
                                    name: "b",
                                    value: ValueKind::String("2"),
                                },
                                DtoField {
                                    name: "c",
                                    value: ValueKind::String("500"),
                                },
                                DtoField {
                                    name: "d",
                                    value: ValueKind::String("600"),
                                },
                                DtoField {
                                    name: "e",
                                    value: ValueKind::Mapping(vec![ValueKind::String("")]),
                                },
                                DtoField {
                                    name: "f",
                                    value: ValueKind::Array(vec![ValueKind::String("")]),
                                },
                                DtoField {
                                    name: "g",
                                    value: ValueKind::Array(vec![ValueKind::String("")]),
                                },
                            ],
                        }),
                    }))]),
                },
                DtoField {
                    name: "f",
                    value: ValueKind::Array(vec![ValueKind::Dto(Dto {
                        name: "Complicated",
                        fields: vec![
                            DtoField {
                                name: "a",
                                value: ValueKind::String("thing"),
                            },
                            DtoField {
                                name: "b",
                                value: ValueKind::String("2"),
                            },
                            DtoField {
                                name: "c",
                                value: ValueKind::String("500"),
                            },
                            DtoField {
                                name: "d",
                                value: ValueKind::String("600"),
                            },
                            DtoField {
                                name: "e",
                                value: ValueKind::Mapping(vec![ValueKind::String("")]),
                            },
                            DtoField {
                                name: "f",
                                value: ValueKind::Array(vec![ValueKind::String("")]),
                            },
                            DtoField {
                                name: "g",
                                value: ValueKind::Array(vec![ValueKind::String("")]),
                            },
                        ],
                    })]),
                },
                DtoField {
                    name: "g",
                    value: ValueKind::Array(vec![ValueKind::Dto(Dto {
                        name: "Complicated",
                        fields: vec![
                            DtoField {
                                name: "a",
                                value: ValueKind::String("hehe"),
                            },
                            DtoField {
                                name: "b",
                                value: ValueKind::String("2"),
                            },
                            DtoField {
                                name: "c",
                                value: ValueKind::String("500"),
                            },
                            DtoField {
                                name: "d",
                                value: ValueKind::String("600"),
                            },
                            DtoField {
                                name: "e",
                                value: ValueKind::Mapping(vec![ValueKind::String("")]),
                            },
                            DtoField {
                                name: "f",
                                value: ValueKind::Array(vec![ValueKind::String("")]),
                            },
                            DtoField {
                                name: "g",
                                value: ValueKind::Array(vec![ValueKind::String("")]),
                            },
                        ],
                    })]),
                },
            ],
        }),
        real: ValueKind::Dto(Dto {
            name: "Complicated",
            fields: vec![
                DtoField {
                    name: "a",
                    value: ValueKind::String("hey"),
                },
                DtoField {
                    name: "b",
                    value: ValueKind::String("2"),
                },
                DtoField {
                    name: "c",
                    value: ValueKind::String("500"),
                },
                DtoField {
                    name: "d",
                    value: ValueKind::String("600"),
                },
                DtoField {
                    name: "e",
                    value: ValueKind::Mapping(vec![ValueKind::Field(Box::new(DtoField {
                        name: "eee",
                        value: ValueKind::Dto(Dto {
                            name: "Complicated",
                            fields: vec![
                                DtoField {
                                    name: "a",
                                    value: ValueKind::String("b"),
                                },
                                DtoField {
                                    name: "b",
                                    value: ValueKind::String("2"),
                                },
                                DtoField {
                                    name: "c",
                                    value: ValueKind::String("500"),
                                },
                                DtoField {
                                    name: "d",
                                    value: ValueKind::String("600"),
                                },
                                DtoField {
                                    name: "e",
                                    value: ValueKind::Mapping(vec![ValueKind::String("")]),
                                },
                                DtoField {
                                    name: "f",
                                    value: ValueKind::Array(vec![ValueKind::String("")]),
                                },
                                DtoField {
                                    name: "g",
                                    value: ValueKind::Array(vec![ValueKind::String("")]),
                                },
                            ],
                        }),
                    }))]),
                },
                DtoField {
                    name: "f",
                    value: ValueKind::Array(vec![ValueKind::Dto(Dto {
                        name: "Complicated",
                        fields: vec![
                            DtoField {
                                name: "a",
                                value: ValueKind::String("thing"),
                            },
                            DtoField {
                                name: "b",
                                value: ValueKind::String("2"),
                            },
                            DtoField {
                                name: "c",
                                value: ValueKind::String("500"),
                            },
                            DtoField {
                                name: "d",
                                value: ValueKind::String("600"),
                            },
                            DtoField {
                                name: "e",
                                value: ValueKind::Mapping(vec![ValueKind::String("")]),
                            },
                            DtoField {
                                name: "f",
                                value: ValueKind::Array(vec![ValueKind::String("")]),
                            },
                            DtoField {
                                name: "g",
                                value: ValueKind::Array(vec![ValueKind::String("")]),
                            },
                        ],
                    })]),
                },
                DtoField {
                    name: "g",
                    value: ValueKind::Array(vec![ValueKind::Dto(Dto {
                        name: "Complicated",
                        fields: vec![
                            DtoField {
                                name: "a",
                                value: ValueKind::String("hehe"),
                            },
                            DtoField {
                                name: "b",
                                value: ValueKind::String("2"),
                            },
                            DtoField {
                                name: "c",
                                value: ValueKind::String("500"),
                            },
                            DtoField {
                                name: "d",
                                value: ValueKind::String("600"),
                            },
                            DtoField {
                                name: "e",
                                value: ValueKind::Mapping(vec![ValueKind::String("")]),
                            },
                            DtoField {
                                name: "f",
                                value: ValueKind::Array(vec![ValueKind::String("")]),
                            },
                            DtoField {
                                name: "g",
                                value: ValueKind::Array(vec![ValueKind::String("")]),
                            },
                        ],
                    })]),
                },
            ],
        }),
    }
}

#[test]
fn string_test() {
    let out = diff_string("hey ", "hey there");

    assert_eq!(
        out,
        Difference::Child(vec![
            Difference::CharsEqual("hey ".to_string()),
            Difference::CharsAdd("there".to_string())
        ])
    );
}

#[test]
fn diff_complicated() {
    let complicated = get_complicated_expected();
    let out = diff(complicated.expected, complicated.real);

    assert_eq!(
        out,
        Difference::DtoChange((
            "Complicated",
            vec![
                Difference::Equal,
                Difference::Equal,
                Difference::Equal,
                Difference::Equal,
                Difference::FieldValueChange((
                    "e",
                    Box::new(Difference::ArrayChange(vec![Difference::FieldValueChange(
                        (
                            "eee",
                            Box::new(Difference::DtoChange((
                                "Complicated",
                                vec![
                                    Difference::FieldValueChange((
                                        "a",
                                        Box::new(Difference::Child(vec![
                                            Difference::CharsRemove("a".to_string()),
                                            Difference::CharsAdd("b".to_string())
                                        ]))
                                    )),
                                    Difference::Equal,
                                    Difference::Equal,
                                    Difference::Equal,
                                    Difference::Equal,
                                    Difference::Equal,
                                    Difference::Equal
                                ]
                            )))
                        )
                    )]))
                )),
                Difference::Equal,
                Difference::Equal
            ]
        ))
    );
}

fn user<'a>(name: &'a str, other: ValueKind<'a>) -> ValueKind<'a> {
    ValueKind::Dto(Dto {
        name: "User",
        fields: vec![
            DtoField {
                name: "name",
                value: ValueKind::String(name),
            },
            DtoField {
                name: "other",
                value: other,
            },
        ],
    })
}

fn one_of_each<'a>() -> Vec<ValueKind<'a>> {
    vec![
        ValueKind::Null,
        ValueKind::String("text"),
        ValueKind::Array(vec![ValueKind::String("1")]),
        ValueKind::Mapping(vec![ValueKind::String("1")]),
        user("first", ValueKind::Null),
        ValueKind::Field(Box::new(DtoField {
            name: "key",
            value: ValueKind::String("1"),
        })),
    ]
}

#[test]
fn a_value_does_not_differ_from_itself() {
    for (left, right) in one_of_each().into_iter().zip(one_of_each()) {
        assert_eq!(diff(left, right), Difference::Equal);
    }
    let complicated = get_complicated_expected();
    let again = get_complicated_expected();
    assert_eq!(diff(complicated.expected, again.expected), Difference::Equal);
}

#[test]
fn values_of_different_kinds_differ_in_type_left_label_first() {
    let labels = ["null", "String", "Array", "Map", "User", "Field"];
    for i in 0..labels.len() {
        for j in 0..labels.len() {
            if i != j {
                let left = one_of_each().swap_remove(i);
                let right = one_of_each().swap_remove(j);
                assert_eq!(diff(left, right), Difference::Type(labels[i], labels[j]));
            }
        }
    }
}

#[test]
fn text_against_null_names_both_kinds() {
    assert_eq!(
        diff(ValueKind::String("a"), ValueKind::Null),
        Difference::Type("String", "null")
    );
    assert_eq!(
        diff(ValueKind::Null, ValueKind::String("a")),
        Difference::Type("null", "String")
    );
}

#[test]
fn an_appended_element_is_the_only_one_reported() {
    let short = vec![ValueKind::String("a"), ValueKind::Null, user("x", ValueKind::Null)];
    let long = vec![
        ValueKind::String("a"),
        ValueKind::Null,
        user("x", ValueKind::Null),
        ValueKind::String("new"),
    ];
    assert_eq!(
        diff(ValueKind::Array(short), ValueKind::Array(long)),
        Difference::ArrayChange(vec![
            Difference::Equal,
            Difference::Equal,
            Difference::Equal,
            Difference::UndefinedLeft(Some(ValueKind::String("new"))),
        ])
    );
    let short = vec![ValueKind::String("a")];
    let long = vec![ValueKind::String("a"), ValueKind::String("new")];
    assert_eq!(
        diff(ValueKind::Mapping(long), ValueKind::Mapping(short)),
        Difference::ArrayChange(vec![
            Difference::Equal,
            Difference::UndefinedRight(Some(ValueKind::String("new"))),
        ])
    );
    assert_eq!(
        diff(ValueKind::Array(vec![]), ValueKind::Array(vec![ValueKind::Null])),
        Difference::ArrayChange(vec![Difference::UndefinedLeft(Some(ValueKind::Null))])
    );
}

#[test]
fn sequences_are_compared_by_position() {
    let left = vec![ValueKind::String("a"), ValueKind::String("b")];
    let right = vec![
        ValueKind::String("x"),
        ValueKind::String("a"),
        ValueKind::String("b"),
    ];
    assert_eq!(
        diff(ValueKind::Array(left), ValueKind::Array(right)),
        Difference::ArrayChange(vec![
            Difference::Child(vec![
                Difference::CharsRemove("a".to_string()),
                Difference::CharsAdd("x".to_string()),
            ]),
            Difference::Child(vec![
                Difference::CharsRemove("b".to_string()),
                Difference::CharsAdd("a".to_string()),
            ]),
            Difference::UndefinedLeft(Some(ValueKind::String("b"))),
        ])
    );
}

#[test]
fn one_changed_field_is_reported_at_its_position() {
    let left = ValueKind::Dto(Dto {
        name: "Point",
        fields: vec![
            DtoField { name: "x", value: ValueKind::String("1") },
            DtoField { name: "y", value: ValueKind::String("2") },
            DtoField { name: "z", value: ValueKind::String("3") },
        ],
    });
    let right = ValueKind::Dto(Dto {
        name: "Point",
        fields: vec![
            DtoField { name: "x", value: ValueKind::String("1") },
            DtoField { name: "y", value: ValueKind::Null },
            DtoField { name: "z", value: ValueKind::String("3") },
        ],
    });
    assert_eq!(
        diff(left, right),
        Difference::DtoChange((
            "Point",
            vec![
                Difference::Equal,
                Difference::FieldValueChange((
                    "y",
                    Box::new(Difference::Type("String", "null"))
                )),
                Difference::Equal,
            ]
        ))
    );
}

#[test]
fn objects_of_different_classes_differ_in_class() {
    let left = ValueKind::Dto(Dto { name: "Cat", fields: vec![] });
    let right = ValueKind::Dto(Dto {
        name: "Car",
        fields: vec![DtoField { name: "x", value: ValueKind::Null }],
    });
    assert_eq!(
        diff(left, right),
        Difference::ClassChange(Box::new(Difference::Child(vec![
            Difference::CharsEqual("Ca".to_string()),
            Difference::CharsRemove("t".to_string()),
            Difference::CharsAdd("r".to_string()),
        ])))
    );
}

#[test]
fn a_field_that_only_one_object_has_counts_as_equal() {
    let left = vec![
        DtoField { name: "x", value: ValueKind::String("1") },
        DtoField { name: "y", value: ValueKind::String("2") },
    ];
    let right = vec![DtoField { name: "x", value: ValueKind::String("1") }];
    assert_eq!(
        diff_fields(left, right),
        Difference::Child(vec![Difference::Equal, Difference::Equal])
    );
    let left = ValueKind::Dto(Dto {
        name: "P",
        fields: vec![DtoField { name: "x", value: ValueKind::String("1") }],
    });
    let right = ValueKind::Dto(Dto {
        name: "P",
        fields: vec![
            DtoField { name: "x", value: ValueKind::String("2") },
            DtoField { name: "y", value: ValueKind::String("2") },
        ],
    });
    assert_eq!(
        diff_dto_of(left, right),
        Difference::DtoChange((
            "P",
            vec![
                Difference::FieldValueChange((
                    "x",
                    Box::new(Difference::Child(vec![
                        Difference::CharsRemove("1".to_string()),
                        Difference::CharsAdd("2".to_string()),
                    ]))
                )),
                Difference::Equal,
            ]
        ))
    );
    assert_eq!(diff_fields(vec![], vec![]), Difference::Equal);
}

fn diff_dto_of<'a>(left: ValueKind<'a>, right: ValueKind<'a>) -> Difference<'a> {
    match (left, right) {
        (ValueKind::Dto(a), ValueKind::Dto(b)) => diff_dto(a, b),
        _ => unreachable!(),
    }
}

#[test]
fn a_renamed_field_is_not_compared_by_value() {
    let left = Box::new(DtoField { name: "size", value: ValueKind::String("1") });
    let right = Box::new(DtoField { name: "sizes", value: ValueKind::Null });
    assert_eq!(
        diff_field(left, right),
        Difference::FieldNameChange((
            "size",
            Box::new(Difference::Child(vec![
                Difference::CharsEqual("size".to_string()),
                Difference::CharsAdd("s".to_string()),
            ]))
        ))
    );
    let left = Box::new(DtoField { name: "size", value: ValueKind::String("1") });
    let right = Box::new(DtoField { name: "size", value: ValueKind::String("1") });
    assert_eq!(diff_field(left, right), Difference::Equal);
}

#[test]
fn texts_are_compared_by_their_longest_common_subsequence() {
    assert_eq!(diff_string("same", "same"), Difference::Equal);
    assert_eq!(diff_string("", ""), Difference::Equal);
    assert_eq!(
        diff_string("test", "tent"),
        Difference::Child(vec![
            Difference::CharsEqual("te".to_string()),
            Difference::CharsRemove("s".to_string()),
            Difference::CharsAdd("n".to_string()),
            Difference::CharsEqual("t".to_string()),
        ])
    );
    assert_eq!(
        diff_string("", "a"),
        Difference::Child(vec![Difference::CharsAdd("a".to_string())])
    );
    assert_eq!(
        diff_string("a", ""),
        Difference::Child(vec![Difference::CharsRemove("a".to_string())])
    );
    assert_eq!(
        diff_string("gr\u{fc}n", "gr\u{f6}n"),
        Difference::Child(vec![
            Difference::CharsEqual("gr".to_string()),
            Difference::CharsRemove("\u{fc}".to_string()),
            Difference::CharsAdd("\u{f6}".to_string()),
            Difference::CharsEqual("n".to_string()),
        ])
    );
}

#[test]
fn only_equal_says_that_nothing_differs() {
    assert!(is_equal(&Difference::Equal));
    assert!(!is_equal(&Difference::Child(vec![])));
    assert!(!is_equal(&Difference::Type("a", "a")));
    assert_eq!(
        segments_change(vec![Difference::CharsAdd("a".to_string())]),
        Difference::Child(vec![Difference::CharsAdd("a".to_string())])
    );
}

#[test]
fn values_are_equal_by_content() {
    let text = String::from("first");
    assert!(value_eq(&user(&text, ValueKind::Null), &user("first", ValueKind::Null)));
    assert!(!value_eq(&user("first", ValueKind::Null), &user("second", ValueKind::Null)));
    assert!(!value_eq(
        &ValueKind::Array(vec![ValueKind::Null]),
        &ValueKind::Mapping(vec![ValueKind::Null])
    ));
    assert!(!value_eq(
        &ValueKind::Array(vec![ValueKind::Null]),
        &ValueKind::Array(vec![ValueKind::Null, ValueKind::Null])
    ));
    assert!(str_eq("gr\u{fc}n", "gr\u{fc}n"));
    assert!(!str_eq("gr\u{fc}n", "grun"));
    assert!(!str_eq("a", "ab"));
}
