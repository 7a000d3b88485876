use arma3_wiki::command_parser::{
    command_blocks, page_without_markup, problem_notes, see_also, server_exec, should_parse,
};

fn pairs(v: &[(&str, &str)]) -> Vec<(String, String)> {
    v.iter().map(|(k, v)| (k.to_string(), v.to_string())).collect()
}

#[test]
fn markup_is_removed() {
    assert_eq!(
        page_without_markup("a<!-- x -->b<nowiki>c</nowiki>\r\nd<nowiki/>"),
        "abc\nd"
    );
}

#[test]
fn unclosed_comment_runs_to_the_end() {
    assert_eq!(page_without_markup("keep<!-- open"), "keep");
}

#[test]
fn comment_end_may_overlap_its_start() {
    assert_eq!(page_without_markup("<!-->x-->y"), "x-->y");
}

#[test]
fn several_comments() {
    assert_eq!(page_without_markup("1<!--a-->2<!--b-->3"), "123");
}

#[test]
fn blocks_of_a_page() {
    let page = "{{RV|type=command\n|game1= arma3\n|version1= 1.00\n|\n|note only\n|descr= Does <!-- hidden -->things.\n|s1= [[foo]] x\n}}";
    assert_eq!(
        command_blocks(page),
        pairs(&[
            ("game1", "arma3"),
            ("version1", "1.00"),
            ("descr", "Does things."),
            ("s1", "[[foo]] x\n}}"),
        ])
    );
}

#[test]
fn blocks_split_at_the_first_equals() {
    assert_eq!(
        command_blocks("x\n| x1 = a = b \r\n|}} = c"),
        pairs(&[("x1", "a = b")])
    );
}

#[test]
fn server_exec_values() {
    assert!(server_exec(" y "));
    assert!(server_exec("true"));
    assert!(server_exec("server"));
    assert!(!server_exec("n"));
    assert!(!server_exec("yes"));
    assert!(!server_exec(""));
}

#[test]
fn problem_notes_are_bullets() {
    assert_eq!(
        problem_notes("\n* first\n* \n*second "),
        vec!["first".to_string(), "second".to_string()]
    );
    assert_eq!(problem_notes("   "), Vec::<String>::new());
}

#[test]
fn see_also_stops_at_the_template_end() {
    assert_eq!(
        see_also("[[setRain]]  [[setFog]] [[]]\n}} [[ignored]]"),
        vec!["setRain".to_string(), "setFog".to_string()]
    );
    assert_eq!(see_also("plain"), vec!["plain".to_string()]);
}

#[test]
fn syntax_blocks() {
    assert!(should_parse(("p", 1, "")));
    assert!(should_parse(("p", 2, "since")));
    assert!(!should_parse(("p", 1, "x")));
    assert!(should_parse(("r", 1, "anything")));
    assert!(should_parse(("s", 1, "since")));
    assert!(should_parse(("s", 1, "effect")));
    assert!(!should_parse(("s", 1, "")));
    assert!(!should_parse(("x", 1, "")));
}
