use arma3_wiki::call::{Arg, Call};
use arma3_wiki::command::Locality;
use arma3_wiki::page::parse_command;
use arma3_wiki::param::Param;
use arma3_wiki::syntax::Syntax;
use arma3_wiki::value::Value;
use arma3_wiki::version::Version;

const SET_RAIN: &str = "{{RV|type=command
|game1= arma3
|version1= 1.00
|gr1= Environment
|arg= global
|eff= local
|descr= Sets rain.<!-- a comment -->
|s1= [[setRain]] value
|p1= value: [[Number]] - rain density
|r1= [[Nothing]]
|s1since= arma3 2.04
|x1= <sqf>0 setRain 1;</sqf>
|seealso= [[setFog]] [[rain]] }}
|ignored= after
}}";

#[test]
fn command_page_is_read() {
    let (c, warnings) = parse_command("setRain", SET_RAIN).expect("the page reads");
    assert!(warnings.is_empty());
    assert_eq!(c.name(), "setRain");
    assert_eq!(c.description(), "Sets rain.");
    assert_eq!(c.groups(), &["Environment".to_string()]);
    assert_eq!(c.argument_loc(), &Locality::Global);
    assert_eq!(c.effect_loc(), &Locality::Local);
    assert_eq!(c.examples(), &["<sqf>0 setRain 1;</sqf>".to_string()]);
    assert_eq!(c.see_also(), &["setFog".to_string(), "rain".to_string()]);
    assert_eq!(c.syntax().len(), 1);
    let s = &c.syntax()[0];
    assert_eq!(s.call(), &Call::Unary(Arg::Item("value".to_string())));
    assert_eq!(s.ret().typ(), &Value::Nothing);
    assert!(s.left().is_none());
    match s.right() {
        Some(Param::Item(it)) => {
            assert_eq!(it.name, "value");
            assert_eq!(it.typ, Value::Number);
        },
        other => panic!("unexpected right side: {other:?}"),
    }
    assert_eq!(
        s.since().and_then(|v| v.arma_3().copied()),
        Some(Version::new(2, 4))
    );
}

#[test]
fn page_names_are_mapped() {
    let (c, _) = parse_command("a_%3D%3D_b", "x\n|descr= equal").expect("the page reads");
    assert_eq!(c.name(), "==");
    assert_eq!(c.description(), "equal");
}

#[test]
fn selected_tab_is_read_alone() {
    let page = "x\n|selected= 1\n|content2= a\n|descr= skipped\n|content1= b\n|descr= kept\n|content3= c\n|alias= skipped too";
    let (c, _) = parse_command("cmd", page).expect("the page reads");
    assert_eq!(c.description(), "kept");
    assert!(c.alias().is_empty());
}

#[test]
fn unknown_key_is_refused() {
    assert_eq!(
        parse_command("cmd", "x\n|foo= bar").map(|r| r.0.name().to_string()),
        Err("Unknown key in command 'cmd': foo".to_string())
    );
}

#[test]
fn game_needs_a_version() {
    assert_eq!(
        parse_command("cmd", "x\n|game1= arma3\n|descr= d").map(|r| r.0.name().to_string()),
        Err("Unknown key when expecting version: descr".to_string())
    );
    let (c, _) = parse_command("cmd", "x\n|game1= arma3\n|branch= dev\n|version1= 2.18\n|descr= d")
        .expect("the page reads");
    assert!(c.branch().is_some());
}

#[test]
fn syntax_needs_a_return() {
    assert_eq!(
        parse_command("cmd", "x\n|s1= [[cmd]]\n|descr= d").map(|r| r.0.name().to_string()),
        Err("Missing return type for command cmd".to_string())
    );
}

#[test]
fn syntax_reads_its_blocks_only() {
    let blocks = vec![
        ("p1".to_string(), "a: [[Number]] - first".to_string()),
        ("p1since".to_string(), "arma3 2.10".to_string()),
        ("r1".to_string(), "[[Boolean]]".to_string()),
        ("s1effect".to_string(), "global".to_string()),
        ("x1".to_string(), "example".to_string()),
    ];
    let (s, next) = Syntax::parse("cmd", "[[cmd]] a", &blocks, 0).expect("the syntax reads");
    assert_eq!(next, 4);
    assert_eq!(s.effect(), Some(&Locality::Global));
    assert_eq!(s.ret().typ(), &Value::Boolean);
    match s.right() {
        Some(Param::Item(it)) => {
            assert_eq!(it.since.and_then(|v| v.arma_3().copied()), Some(Version::new(2, 10)));
        },
        other => panic!("unexpected right side: {other:?}"),
    }
    assert_eq!(
        Syntax::parse("cmd", "[[cmd]] a", &blocks[1..], 0).map(|r| r.1),
        Err("Found 'since' for unknown parameter p1".to_string())
    );
}

#[test]
fn localities_are_read() {
    assert_eq!(Locality::parse(" server "), Ok(Locality::Server));
    assert_eq!(Locality::parse(""), Ok(Locality::Unspecified));
    assert_eq!(Locality::parse("far"), Err("Unknown locality: far".to_string()));
}
