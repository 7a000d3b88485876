use arma3_wiki::param_parser::{
    extract_string_enum_value, parse_enum_lines, strip_wiki_markup, try_number_enum, try_optional, try_simple_line,
    try_string_enum,
};
use arma3_wiki::since::Since;
use arma3_wiki::value::{NumberEnumValue, StringEnumValue, Value};

#[test]
fn test_strip_wiki_markup() {
    assert_eq!(strip_wiki_markup("[[link|text]]"), "text");
    assert_eq!(strip_wiki_markup("[[text]]"), "text");
    assert_eq!(
        strip_wiki_markup("before [[link|inner]] after"),
        "before inner after"
    );
    assert_eq!(
        strip_wiki_markup("multiple [[a|one]] and [[b|two]]"),
        "multiple one and two"
    );
}

#[test]
fn helpers_test_try_optional() {
    let line_with_default = "(Optional, default 10) The number of items.";
    let optional_value =
        try_optional(line_with_default).expect("Failed to parse optional with default");
    assert_eq!(
        optional_value,
        (Some("10".to_string()), "The number of items.".to_string())
    );

    let line_without_default = "(Optional) The name of the item.";
    let optional_value =
        try_optional(line_without_default).expect("Failed to parse optional without default");
    assert_eq!(optional_value, (None, "The name of the item.".to_string()));

    let non_optional_line = "The item's class name.";
    let optional_value = try_optional(non_optional_line);
    assert_eq!(optional_value, None);
}

#[test]
fn test_extract_string_enum_value() {
    assert_eq!(
        extract_string_enum_value(r#"{{hl|"ICON"}}"#),
        Some("ICON".to_string())
    );
    assert_eq!(
        extract_string_enum_value(r#"{{hl|"VALUE"}}"#),
        Some("VALUE".to_string())
    );
    assert_eq!(extract_string_enum_value("no match"), None);
}

#[test]
fn parsers_test_try_simple_line() {
    let line = "speed: [[Number]] - The speed of the vehicle.";
    let result = try_simple_line(line).expect("Failed to parse simple line");
    let param_item = result.expect("Expected Some");
    assert_eq!(param_item.name, "speed");
    assert_eq!(
        param_item.desc.as_deref(),
        Some("The speed of the vehicle.")
    );
}

#[test]
fn test_simple_line_with_range() {
    let line = "x: [[Number]] in range -1..+1 - any other value returns [[NaN]]";
    let result = try_simple_line(line).expect("Failed to parse simple line with range");
    let param_item = result.expect("Expected Some");
    assert_eq!(param_item.name, "x");
    assert_eq!(
        param_item.desc.as_deref(),
        Some("any other value returns [[NaN]]")
    );
}

#[test]
fn test_number_enum() {
    let line = "return: [[Number]] - admin state of given client:
* 0 - client is not an admin
* 1 - client is admin that is [[Arma 3: Server Config File#Voted_In_Admin|voted in]]
* 2 - client is admin that is [[Arma 3: Server Config File#Logged_In_Admin|logged in]]";
    let result = try_number_enum(line).expect("Failed to parse number enum");
    let param_item = result.expect("Expected Some");
    assert_eq!(param_item.name, "return");
    assert_eq!(
        param_item.desc.as_deref(),
        Some("admin state of given client")
    );
    assert_eq!(
        param_item.typ,
        Value::NumberEnum(vec![
            NumberEnumValue {
                value: 0,
                desc: Some("client is not an admin".to_string()),
                since: None,
            },
            NumberEnumValue {
                value: 1,
                desc: Some("client is admin that is voted in".to_string()),
                since: None,
            },
            NumberEnumValue {
                value: 2,
                desc: Some("client is admin that is logged in".to_string()),
                since: None,
            },
        ])
    );
}

#[test]
fn test_string_enum() {
    let line = r#"shape: [[String]] - the shape, can be one of:
* {{hl|"ICON"}}
* {{hl|"RECTANGLE"}}
* {{hl|"ELLIPSE"}}
* {{GVI|arma3|1.60|size= 0.75}} {{hl|"POLYLINE"}}"#;
    let result = try_string_enum(line).expect("Failed to parse string enum");
    let param_item = result.expect("Expected Some");
    assert_eq!(param_item.name, "shape");
    assert_eq!(param_item.desc, Some("the shape".to_string()));
    assert_eq!(
        param_item.typ,
        Value::StringEnum(vec![
            StringEnumValue {
                value: "ICON".to_string(),
                desc: None,
                since: None,
            },
            StringEnumValue {
                value: "RECTANGLE".to_string(),
                desc: None,
                since: None,
            },
            StringEnumValue {
                value: "ELLIPSE".to_string(),
                desc: None,
                since: None,
            },
            StringEnumValue {
                value: "POLYLINE".to_string(),
                desc: None,
                since: Some(Since::arma3("1.60")),
            },
        ])
    );
}

#[test]
fn enum_lines_go_through_the_extractor() {
    let lines: Vec<String> = [
        "* {{hl|\"ICON\"}}",
        "** {{hl|\"NESTED\"}}",
        "not a bullet",
        "* {{GVI|arma3|2.20|size= 0.75}} {{hl|\"TRIANGLE\"}}",
        "* plain",
    ]
    .iter()
    .map(|l| l.to_string())
    .collect();
    let seen = std::cell::RefCell::new(Vec::new());
    let r = parse_enum_lines(&lines, |c: &str| {
        seen.borrow_mut().push(c.to_string());
        extract_string_enum_value(c)
    });
    assert_eq!(
        *seen.borrow(),
        vec!["{{hl|\"ICON\"}}".to_string(), "{{hl|\"TRIANGLE\"}}".to_string(), "plain".to_string()]
    );
    assert_eq!(
        r,
        vec![("ICON".to_string(), None), ("TRIANGLE".to_string(), Some(Since::arma3("2.20")))]
    );
}
