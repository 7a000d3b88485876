use arma3_wiki::since::Since;
use arma3_wiki::value::{OneOfValue, Value};
use arma3_wiki::value_parser::{
    try_array_of_simple, try_extract_simple_blocks, try_number_range, try_simple_type,
};

#[test]
fn test_try_simple_type() {
    assert_eq!(try_simple_type("[[Number]]"), Ok(Some(Value::Number)));
    assert_eq!(try_simple_type("  [[String]]  "), Ok(Some(Value::String)));
    assert_eq!(
        try_simple_type("[[UnknownType]]"),
        Err("Unknown simple type: unknowntype".to_string())
    );
}

#[test]
fn test_try_number_range() {
    assert_eq!(
        try_number_range("[[Number]] in range -1..+1"),
        Ok(Some(Value::NumberRange(-1, 1)))
    );
    assert_eq!(
        try_number_range("  [[Number]] in range 0..10  "),
        Ok(Some(Value::NumberRange(0, 10)))
    );
    assert_eq!(try_number_range("[[Number]] between 0 and 10"), Ok(None));
    assert_eq!(
        try_number_range("[[Number]] in range 0.1 .. 120"),
        Ok(Some(Value::NumberRange(0, 120))) // Note: floats get ceiled or floored to integers
    );
}

#[test]
fn test_try_array_of_simple() {
    assert_eq!(
        try_array_of_simple("[[Array]] of [[Number]]s"),
        Ok(Some(Value::ArrayUnsized {
            value: Box::new(Value::Number)
        }))
    );
    assert_eq!(
        try_array_of_simple("[[Array]] of [[String]]s or [[Boolean]]"),
        Ok(Some(Value::ArrayUnsized {
            value: Box::new(Value::OneOf(vec![
                OneOfValue {
                    typ: Value::String,
                    desc: None,
                    since: None
                },
                OneOfValue {
                    typ: Value::Boolean,
                    desc: None,
                    since: None
                },
            ]))
        }))
    );
    assert_eq!(try_array_of_simple("Not an array type"), Ok(None));
}

#[test]
fn test_try_extract_simple_blocks() {
    let source = "[[Number]]";
    let blocks = try_extract_simple_blocks(source);
    assert_eq!(blocks, vec![("[[Number]]", None)]);
    assert_eq!(Value::parse(source, 0).expect("parsed"), Value::Number);

    let source = "[[Number]] or [[String]]";
    let blocks = try_extract_simple_blocks(source);
    assert_eq!(blocks, vec![("[[Number]]", None), ("[[String]]", None)]);
    assert_eq!(
        Value::parse(source, 0).expect("parsed"),
        Value::OneOf(vec![
            OneOfValue {
                typ: Value::Number,
                desc: None,
                since: None
            },
            OneOfValue {
                typ: Value::String,
                desc: None,
                since: None
            },
        ])
    );

    let source = "[[Number]], [[Boolean]] or [[String]]";
    let blocks = try_extract_simple_blocks(source);
    assert_eq!(
        blocks,
        vec![
            ("[[Number]]", None),
            ("[[Boolean]]", None),
            ("[[String]]", None)
        ]
    );
    assert_eq!(
        Value::parse(source, 0).expect("parsed"),
        Value::OneOf(vec![
            OneOfValue {
                typ: Value::Number,
                desc: None,
                since: None
            },
            OneOfValue {
                typ: Value::Boolean,
                desc: None,
                since: None
            },
            OneOfValue {
                typ: Value::String,
                desc: None,
                since: None
            },
        ])
    );

    let source = "[[Object]], [[Position#PositionAGL|PositionAGL]] or [[Position#Introduction|Position2D]]";
    let blocks = try_extract_simple_blocks(source);
    assert_eq!(
        blocks,
        vec![
            ("[[Object]]", None),
            ("[[Position#PositionAGL|PositionAGL]]", None),
            ("[[Position#Introduction|Position2D]]", None)
        ]
    );
    assert_eq!(
        Value::parse(source, 0).expect("parsed"),
        Value::OneOf(vec![
            OneOfValue {
                typ: Value::Object,
                desc: None,
                since: None
            },
            OneOfValue {
                typ: Value::Position3dAGL,
                desc: None,
                since: None
            },
            OneOfValue {
                typ: Value::Position2d,
                desc: None,
                since: None
            },
        ])
    );

    let source = "[[Number]], [[Boolean]], or [[String]]";
    let blocks = try_extract_simple_blocks(source);
    assert_eq!(
        blocks,
        vec![
            ("[[Number]]", None),
            ("[[Boolean]]", None),
            ("[[String]]", None)
        ]
    );
    assert_eq!(
        Value::parse(source, 0).expect("parsed"),
        Value::OneOf(vec![
            OneOfValue {
                typ: Value::Number,
                desc: None,
                since: None
            },
            OneOfValue {
                typ: Value::Boolean,
                desc: None,
                since: None
            },
            OneOfValue {
                typ: Value::String,
                desc: None,
                since: None
            },
        ])
    );

    let source = "[[String]] or [[Array]] of [[Number]]s";
    let blocks = try_extract_simple_blocks(source);
    assert_eq!(
        blocks,
        vec![("[[String]]", None), ("[[Array]] of [[Number]]s", None)]
    );
    assert_eq!(
        Value::parse(source, 0).expect("parsed"),
        Value::ArrayUnsized {
            value: Box::new(Value::OneOf(vec![
                OneOfValue {
                    typ: Value::String,
                    desc: None,
                    since: None
                },
                OneOfValue {
                    typ: Value::ArrayUnsized {
                        value: Box::new(Value::Number)
                    },
                    desc: None,
                    since: None
                },
            ]))
        }
    );

    let source = "[[String]] or [[Array]] of [[Number]]s or [[Boolean]]";
    let blocks = try_extract_simple_blocks(source);
    assert_eq!(
        blocks,
        vec![
            ("[[String]]", None),
            ("[[Array]] of [[Number]]s or [[Boolean]]", None)
        ]
    );
    assert_eq!(
        Value::parse(source, 0).expect("parsed"),
        Value::ArrayUnsized {
            value: Box::new(Value::OneOf(vec![
                OneOfValue {
                    typ: Value::String,
                    desc: None,
                    since: None
                },
                OneOfValue {
                    typ: Value::ArrayUnsized {
                        value: Box::new(Value::OneOf(vec![
                            OneOfValue {
                                typ: Value::Number,
                                desc: None,
                                since: None
                            },
                            OneOfValue {
                                typ: Value::Boolean,
                                desc: None,
                                since: None
                            },
                        ]))
                    },
                    desc: None,
                    since: None
                },
            ]))
        }
    );

    let source = "[[String]], [[Number]] or [[Array]] of [[Number]]s or [[Boolean]]";
    let blocks = try_extract_simple_blocks(source);
    assert_eq!(
        blocks,
        vec![
            ("[[String]]", None),
            ("[[Number]]", None),
            ("[[Array]] of [[Number]]s or [[Boolean]]", None)
        ]
    );
    assert_eq!(
        Value::parse(source, 0).expect("parsed"),
        Value::ArrayUnsized {
            value: Box::new(Value::OneOf(vec![
                OneOfValue {
                    typ: Value::String,
                    desc: None,
                    since: None
                },
                OneOfValue {
                    typ: Value::Number,
                    desc: None,
                    since: None
                },
                OneOfValue {
                    typ: Value::ArrayUnsized {
                        value: Box::new(Value::OneOf(vec![
                            OneOfValue {
                                typ: Value::Number,
                                desc: None,
                                since: None
                            },
                            OneOfValue {
                                typ: Value::Boolean,
                                desc: None,
                                since: None
                            },
                        ]))
                    },
                    desc: None,
                    since: None
                },
            ]))
        }
    );
}

#[test]
fn or_since() {
    let line = "[[Object]] or {{GVI|arma3|2.12|size= 0.75}} [[Group]]";
    let blocks = try_extract_simple_blocks(line);
    assert_eq!(
        blocks,
        vec![
            ("[[Object]]", None),
            ("[[Group]]", Some(Since::arma3("2.12"))),
        ]
    );
}
