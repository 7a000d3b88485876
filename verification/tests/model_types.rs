use arma3_wiki::branch::Branch;
use arma3_wiki::call::{Arg, Call};
use arma3_wiki::command::{get_cmd_name, Command, Locality};
use arma3_wiki::commands::Commands;
use arma3_wiki::param::{Param, ParamItem};
use arma3_wiki::return_type::Return;
use arma3_wiki::since::Since;
use arma3_wiki::syntax::Syntax;
use arma3_wiki::value::{ArraySizedElement, NumberEnumValue, OneOfValue, StringEnumValue, Value};
use arma3_wiki::version::Version;

fn item(name: &str, typ: Value) -> ParamItem {
    ParamItem::new(name.to_string(), Some(format!("the {name}")), typ, false, None, None)
}

#[test]
fn command_setters_and_getters() {
    let mut c = Command::default();
    assert_eq!(c.name(), "");
    assert_eq!(*c.argument_loc(), Locality::Unspecified);
    c.set_name("setRain".to_string());
    c.set_description("Sets rain".to_string());
    c.add_alias("rain".to_string());
    c.add_group("Environment".to_string());
    c.add_group("Weather".to_string());
    c.add_problem_note("slow".to_string());
    c.add_example("0 setRain 1".to_string());
    c.add_see_also("rain".to_string());
    c.set_argument_loc(Locality::Global);
    c.set_effect_loc(Locality::Local);
    c.set_server_exec(Some(true));
    c.set_multiplayer_note(Some("note".to_string()));
    *c.branch_mut() = Some(Branch::Dev);
    c.since_mut().set_arma_3(Some(Version::new(1, 2)));
    assert_eq!(c.name(), "setRain");
    assert_eq!(c.description(), "Sets rain");
    assert_eq!(c.alias(), &["rain".to_string()]);
    assert_eq!(c.groups(), &["Environment".to_string(), "Weather".to_string()]);
    assert_eq!(c.problem_notes(), &["slow".to_string()]);
    assert_eq!(c.examples(), &["0 setRain 1".to_string()]);
    assert_eq!(c.see_also(), &["rain".to_string()]);
    assert_eq!(*c.argument_loc(), Locality::Global);
    assert_eq!(*c.effect_loc(), Locality::Local);
    assert_eq!(c.server_exec(), Some(true));
    assert_eq!(c.multiplayer_note(), Some("note"));
    assert_eq!(c.branch(), Some(&Branch::Dev));
    assert_eq!(c.since().arma_3(), Some(&Version::new(1, 2)));
    c.set_groups(vec!["Other".to_string()]);
    assert_eq!(c.groups(), &["Other".to_string()]);
    c.set_alias(Vec::new());
    c.set_problem_notes(Vec::new());
    c.set_examples(Vec::new());
    assert!(c.alias().is_empty() && c.problem_notes().is_empty() && c.examples().is_empty());
    let syntax = Syntax::new(Call::Nular, Return::new(Value::Nothing, None), None, None, None, None);
    c.add_syntax(syntax);
    assert_eq!(c.syntax().len(), 1);
    c.set_syntax(Vec::new());
    assert!(c.syntax().is_empty());
}

#[test]
fn syntax_sides() {
    let p = Param::Item(item("x", Value::Number));
    let mut s = Syntax::new(
        Call::Unary(Arg::Item("x".to_string())),
        Return::new(Value::Boolean, Some("done".to_string())),
        None,
        Some(p),
        None,
        Some(Locality::Global),
    );
    assert!(s.is_unary() && !s.is_nular() && !s.is_binary());
    assert_eq!(s.ret().typ(), &Value::Boolean);
    assert_eq!(s.ret().description(), Some("done"));
    assert!(s.call().is_unary());
    assert!(s.left().is_none());
    assert!(s.right().is_some());
    assert!(s.since().is_none());
    s.since_mut().set_arma_3(Some(Version::new(2, 4)));
    assert_eq!(s.since().and_then(|v| v.arma_3().copied()), Some(Version::new(2, 4)));
    s.set_left(Some(Param::Item(item("y", Value::String))));
    assert!(s.is_binary());
    s.set_left(None);
    s.set_right(None);
    assert!(s.is_nular());
    s.set_ret(Return::new(Value::Nothing, None));
    assert_eq!(s.ret().description(), None);
    s.set_since(None);
    assert!(s.since().is_none());
}

#[test]
fn commands_lookup_is_by_lowercase_name() {
    let mut c = Command::default();
    c.set_name("setRain".to_string());
    let commands = Commands::new(vec![("setrain".to_string(), c)]);
    assert_eq!(commands.get("SetRain").map(|c| c.name()), Some("setRain"));
    assert_eq!(commands.get("setrain").map(|c| c.name()), Some("setRain"));
    assert!(commands.get("setFog").is_none());
    assert_eq!(commands.iter().len(), 1);
    assert_eq!(commands.raw().len(), 1);
}

#[test]
fn command_names_of_operator_pages() {
    assert_eq!(get_cmd_name("a_greater%3D_b"), ">=");
    assert_eq!(get_cmd_name("a_%26%26_b"), "&&");
    assert_eq!(get_cmd_name("config_greater_greater_name"), ">>");
    assert_eq!(get_cmd_name("!_a"), "!");
    assert_eq!(get_cmd_name("setRain"), "setRain");
}

#[test]
fn param_item_accessors() {
    let mut p = ParamItem::new(
        "speed".to_string(),
        None,
        Value::Number,
        true,
        Some("5".to_string()),
        None,
    );
    assert_eq!(p.name(), "speed");
    assert_eq!(p.description(), None);
    assert_eq!(p.typ(), &Value::Number);
    assert!(p.optional());
    assert_eq!(p.default(), Some("5"));
    assert!(p.since().is_none());
    p.since_mut().set_arma_3(Some(Version::new(2, 0)));
    assert_eq!(p.since().and_then(|s| s.arma_3().copied()), Some(Version::new(2, 0)));
    p.set_name("velocity".to_string());
    p.set_description(Some("how fast".to_string()));
    p.set_typ(Value::String);
    p.set_default(None);
    p.set_since(None);
    assert_eq!(p.name(), "velocity");
    assert_eq!(p.description(), Some("how fast"));
    assert_eq!(p.typ(), &Value::String);
    assert_eq!(p.default(), None);
    assert!(p.since().is_none());
}

#[test]
fn params_built_from_a_call() {
    let pool = vec![item("idc", Value::Number), item("path", Value::String)];
    let call = Call::parse("control [[tvSetPicture]] [idc, path]").expect("valid call");
    let right = Param::from_pool_and_call(&call, false, &pool).expect("all named");
    assert_eq!(
        right,
        Param::Array(vec![Param::Item(item("idc", Value::Number)), Param::Item(item("path", Value::String))])
    );
    assert_eq!(
        Param::from_pool_and_call(&call, true, &pool),
        Err("Param `control` not found in pool".to_string())
    );
    assert_eq!(
        Param::from_pool_and_call(&Call::Nular, false, &pool),
        Err("Nular calls have no parameters".to_string())
    );
    let unary = Call::Unary(Arg::Item("idc".to_string()));
    assert_eq!(
        Param::from_pool_and_call(&unary, true, &pool),
        Err("Unary call has no left parameter".to_string())
    );
    assert_eq!(
        right.as_value(),
        Value::ArraySized(vec![
            ArraySizedElement {
                name: "idc".to_string(),
                typ: Value::Number,
                default: None,
                desc: Some("the idc".to_string()),
                since: None,
            },
            ArraySizedElement {
                name: "path".to_string(),
                typ: Value::String,
                default: None,
                desc: Some("the path".to_string()),
                since: None,
            },
        ])
    );
}

#[test]
fn repeated_params_give_arrays_of_any_length() {
    let pool = vec![item("keyN", Value::String), item("valueN", Value::Number)];
    let flat = Arg::InfiniteFlat(vec![Arg::Item("keyN".to_string()), Arg::Item("valueN".to_string())]);
    let p = Param::build_from_arg(&flat, &pool).expect("all named");
    assert_eq!(
        p.as_value(),
        Value::ArrayUnsized {
            value: Box::new(Value::ArraySized(vec![
                ArraySizedElement {
                    name: "keyN".to_string(),
                    typ: Value::String,
                    default: None,
                    desc: None,
                    since: None,
                },
                ArraySizedElement {
                    name: "valueN".to_string(),
                    typ: Value::Number,
                    default: None,
                    desc: None,
                    since: None,
                },
            ]))
        }
    );
    let single = Arg::InfiniteItem(Box::new(Arg::Item("keyN".to_string())));
    let p = Param::build_from_arg(&single, &pool).expect("named");
    assert_eq!(p.as_value(), Value::ArrayUnsized { value: Box::new(Value::String) });
}

#[test]
fn value_display_texts() {
    assert_eq!(Value::Number.to_display_string(), "Number");
    assert_eq!(Value::Position3dASL.to_display_string(), "Position 3D ASL");
    assert_eq!(
        Value::ArrayUnsized { value: Box::new(Value::String) }.to_display_string(),
        "Array of String"
    );
    assert_eq!(Value::NumberRange(-1, 10).to_display_string(), "Number Range (-1,10)");
    assert_eq!(
        Value::NumberEnum(vec![
            NumberEnumValue { value: 0, desc: None, since: None },
            NumberEnumValue { value: 12, desc: None, since: None },
        ])
        .to_display_string(),
        "Number Enum (0 | 12)"
    );
    assert_eq!(
        Value::StringEnum(vec![
            StringEnumValue { value: "ICON".to_string(), desc: None, since: None },
            StringEnumValue { value: "LINE".to_string(), desc: None, since: None },
        ])
        .to_display_string(),
        "String Enum (ICON | LINE)"
    );
    assert_eq!(
        Value::OneOf(vec![
            OneOfValue { typ: Value::Object, desc: None, since: None },
            OneOfValue { typ: Value::Group, desc: None, since: None },
        ])
        .to_display_string(),
        "Object | Group"
    );
    assert_eq!(
        Value::ArraySized(vec![
            ArraySizedElement {
                name: "a".to_string(),
                typ: Value::Number,
                default: None,
                desc: Some("first".to_string()),
                since: None,
            },
            ArraySizedElement {
                name: "b".to_string(),
                typ: Value::String,
                default: None,
                desc: None,
                since: None,
            },
        ])
        .to_display_string(),
        "Array [a: Number - first\nb: String\n]"
    );
    assert!(Value::Unknown.is_unknown());
    assert!(!Value::Number.is_unknown());
}

#[test]
fn since_versions_by_game() {
    let mut s = Since::empty();
    assert_eq!(s.set_from_psince("arma3 2.12"), Ok(()));
    assert_eq!(s, Since::arma3("2.12"));
    assert_eq!(s.set_from_wiki("ARMA2", "1.50"), Ok(()));
    assert_eq!(s.arma_2(), Some(&Version::new(1, 50)));
    assert_eq!(s.set_from_psince("arma3"), Err("Invalid pSince format: arma3".to_string()));
    assert_eq!(s.set_version("dayz", Version::new(1, 0)), Err("Unknown since key: dayz".to_string()));
    assert_eq!(s.set_from_wiki("arma3", "x"), Err("Invalid version: x".to_string()));
}

#[test]
fn branch_names() {
    assert_eq!(Branch::parse("diag prof"), Ok(Branch::DiagProf));
    assert_eq!(Branch::DiagProf.as_str(), "diag prof");
    assert_eq!(Branch::parse("main"), Err("Unknown branch: main".to_string()));
}

#[test]
fn version_icons() {
    assert_eq!(
        Version::from_wiki_icon("{{GVI|arma3|2.06|size= 0.75}}"),
        Ok(("arma3".to_string(), Version::new(2, 6)))
    );
    assert_eq!(Version::new(2, 6).major(), 2);
    assert_eq!(Version::new(2, 6).minor(), 6);
    assert!(Version::parse("1").is_err());
}
