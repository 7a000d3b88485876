use arma3_wiki::param_parser::try_array_with;
use arma3_wiki::param_parser::{strip_wiki_markup, try_simple_line, try_simple_line_with_extra_description};
use arma3_wiki::branch::Branch;
use arma3_wiki::call::{Arg, Call};
use arma3_wiki::param::{Param, ParamItem};
use arma3_wiki::value::Value;
use arma3_wiki::version::Version;

fn names_of(p: &Param) -> Vec<String> {
    match p {
        Param::Item(it) => vec![it.name.clone()],
        Param::Array(v) | Param::Infinite(v) => v.iter().flat_map(names_of).collect(),
    }
}

#[test]
fn written_versions_read_back() {
    for (major, minor) in [(0u8, 0u8), (1, 0), (1, 5), (2, 18), (255, 9), (9, 255)] {
        let v = Version::new(major, minor);
        assert_eq!(Version::parse(&v.to_display_string()), Ok(v));
    }
}

#[test]
fn branch_names_read_back() {
    for b in [Branch::Stable, Branch::Dev, Branch::Diag, Branch::DiagProf] {
        assert_eq!(Branch::parse(b.as_str()), Ok(b));
    }
}

#[test]
fn built_params_keep_the_call_names() {
    let pool: Vec<ParamItem> = ["map", "type", "nameN", "valueN", "class"]
        .iter()
        .map(|n| ParamItem::new(n.to_string(), None, Value::Anything, false, None, None))
        .collect();
    let call = Call::parse("map [[addEditorObject]] [type,[name1,value1,...],class]").expect("valid");
    let left = Param::from_pool_and_call(&call, true, &pool).expect("left");
    let right = Param::from_pool_and_call(&call, false, &pool).expect("right");
    let mut names = names_of(&left);
    names.extend(names_of(&right));
    assert_eq!(names, call.param_names());
    let arg = Arg::Array(vec![Arg::Item("type".to_string()), Arg::Item("class".to_string())]);
    assert_eq!(names_of(&Param::build_from_arg(&arg, &pool).expect("built")), arg.names());
}

#[test]
fn stripping_markup_twice_changes_nothing() {
    let once = strip_wiki_markup("see [[setRain|rain]] and [[fog]] or [[open");
    assert_eq!(once, "see rain and fog or [[open");
    assert_eq!(strip_wiki_markup(&once), once);
    assert_eq!(strip_wiki_markup("no links"), "no links");
}

#[test]
fn leading_blank_line_is_passed_over() {
    let s = "speed: [[Number]] - how fast\n* in metres";
    let a = try_simple_line_with_extra_description(s).expect("reads");
    let b = try_simple_line_with_extra_description(&format!("\n{s}")).expect("reads");
    assert_eq!(a, b);
    let plain = "speed: [[Number]] - how fast\nno star here";
    assert_eq!(
        try_simple_line_with_extra_description(plain).expect("reads"),
        try_simple_line("speed: [[Number]] - how fast").expect("reads")
    );
}

#[test]
fn columns_change_nothing() {
    let head = "pos: [[Array]] with [x, y] - a position";
    let body = "* x: [[Number]] - east\n* y: [[Number]] - north";
    let plain = try_array_with(&format!("{head}\n{body}")).expect("reads");
    let wrapped = try_array_with(&format!("{head}\n{{{{Columns|2|\n{body}\n}}}}")).expect("reads");
    assert!(plain.is_some());
    assert_eq!(plain, wrapped);
}
