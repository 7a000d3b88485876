use arma3_wiki::command::Command;
use arma3_wiki::issue_plan::{
    failed_command_title, failed_event_handler_title, failure_body, plan_close, plan_failure_report,
    IssueAction, OpenIssue,
};
use arma3_wiki::order::sort_texts;
use arma3_wiki::report::{get_command_status, select_version, template_version, CommandStatus, Report};
use arma3_wiki::run_report;
use arma3_wiki::site::{command_file_name, command_summaries, filter_groups, filter_statuses};
use arma3_wiki::version::Version;

fn website_report() -> Report {
    Report {
        passed_commands: vec!["setRain".to_string(), "alive".to_string()],
        failed_commands: vec![
            ("setFog".to_string(), vec!["bad type".to_string()]),
            ("zzzUndocumented".to_string(), vec!["no page".to_string(), "twice".to_string()]),
        ],
        outdated_commands: vec!["alive".to_string(), "hint".to_string()],
        unknown_types_commands: None,
    }
}

fn command(name: &str, groups: &[&str]) -> Command {
    let mut c = Command::default();
    c.set_name(name.to_string());
    c.set_description(format!("{name} description"));
    c.set_groups(groups.iter().map(|g| g.to_string()).collect());
    c
}

#[test]
fn status_names() {
    assert_eq!(CommandStatus::Passed.as_str(), "Passed");
    assert_eq!(CommandStatus::Failed.as_str(), "Failed");
    assert_eq!(CommandStatus::Outdated.as_str(), "Outdated");
    assert_eq!(CommandStatus::Unknown.as_str(), "Unknown");
}

#[test]
fn command_status_in_report() {
    let r = website_report();
    assert_eq!(get_command_status("setRain", &r), CommandStatus::Passed);
    assert_eq!(get_command_status("alive", &r), CommandStatus::Passed);
    assert_eq!(get_command_status("setFog", &r), CommandStatus::Failed);
    assert_eq!(get_command_status("hint", &r), CommandStatus::Outdated);
    assert_eq!(get_command_status("other", &r), CommandStatus::Unknown);
}

#[test]
fn version_from_the_template() {
    let text = "{{#switch:{{{1}}}\n|arma3=2.18|\n}}";
    match template_version(text) {
        Ok((s, Ok(v))) => {
            assert_eq!(s, "2.18");
            assert_eq!(v, Version::new(2, 18));
        }
        other => panic!("unexpected {other:?}"),
    }
    assert_eq!(template_version("no version here"), Err(Vec::new()));
    assert_eq!(
        select_version(vec!["1.00".to_string(), "2.00".to_string()]),
        Err(vec!["1.00".to_string(), "2.00".to_string()])
    );
}

#[test]
fn summaries_are_ordered_by_name() {
    let r = website_report();
    let commands = vec![command("setRain", &["Weather"]), command("setFog", &["Weather", "Fog"]), command("hint", &[])];
    let s = command_summaries(&commands, &r);
    let names: Vec<&str> = s.iter().map(|x| x.name.as_str()).collect();
    assert_eq!(names, vec!["hint", "setFog", "setRain", "zzzUndocumented"]);
    assert_eq!(s[0].status, CommandStatus::Outdated);
    assert_eq!(s[1].status, CommandStatus::Failed);
    assert_eq!(s[1].errors, Some(vec!["bad type".to_string()]));
    assert_eq!(s[2].status, CommandStatus::Passed);
    assert_eq!(s[2].errors, None);
    assert_eq!(s[3].description, "No documentation available");
    assert_eq!(s[3].errors, Some(vec!["no page".to_string(), "twice".to_string()]));
    assert!(s[3].groups.is_empty());
    assert_eq!(filter_groups(&commands), vec!["Fog".to_string(), "Weather".to_string()]);
    assert_eq!(filter_statuses(&commands), vec!["Failed".to_string(), "Passed".to_string()]);
    assert!(filter_statuses(&[]).is_empty());
}

#[test]
fn page_file_names() {
    assert_eq!(command_file_name("Set Rain"), "set_rain.json");
    assert_eq!(command_file_name("a"), "a.json");
}

#[test]
fn texts_sort_as_str_does() {
    let mut v = vec!["b".to_string(), "B".to_string(), "ab".to_string(), "a".to_string(), "b".to_string()];
    let mut expected = v.clone();
    expected.sort();
    sort_texts(&mut v);
    assert_eq!(v, expected);
}

#[test]
fn run_report_collects_and_sorts() {
    let mut r = run_report::Report::new(Some(Version::new(2, 18)));
    r.add_passed_command("setRain".to_string());
    r.add_passed_command("alive".to_string());
    r.add_failed_command("setFog".to_string(), "first".to_string());
    r.add_failed_command("hint".to_string(), "only".to_string());
    r.add_failed_command("setFog".to_string(), "second".to_string());
    r.add_outdated_command("zed".to_string());
    r.add_outdated_command("abc".to_string());
    r.add_unknown_type_command("cmd".to_string(), "Foo".to_string());
    assert_eq!(r.failed_commands().get("setFog"), Some(&vec!["first".to_string(), "second".to_string()]));
    r.sort();
    assert_eq!(r.passed_commands(), &["alive".to_string(), "setRain".to_string()]);
    assert_eq!(r.outdated_commands(), &["abc".to_string(), "zed".to_string()]);
    let keys: Vec<&String> = r.failed_commands().keys().collect();
    assert_eq!(keys, vec!["hint", "setFog"]);
    assert_eq!(r.unknown_types_commands(), &[("cmd".to_string(), "Foo".to_string())]);
    assert_eq!(r.updated_version(), Some(&Version::new(2, 18)));
}

#[test]
fn issue_plans() {
    let issues = vec![
        OpenIssue { number: 7, title: "Parse Failed: setRain".to_string(), body: Some("bad\ntype".to_string()) },
        OpenIssue { number: 9, title: "Parse Failed: setFog".to_string(), body: None },
    ];
    let title = failed_command_title("setRain");
    assert_eq!(title, "Parse Failed: setRain");
    let body = failure_body(&["bad".to_string(), "type".to_string()]);
    assert_eq!(body, "bad\ntype");
    assert_eq!(plan_failure_report(&issues, &title, &body, 20), IssueAction::Keep { number: 7 });
    assert_eq!(
        plan_failure_report(&issues, "Parse Failed: setFog", "oops", 20),
        IssueAction::UpdateBody { number: 9, body: "oops".to_string(), pause_secs: 120 }
    );
    assert_eq!(
        plan_failure_report(&issues, "Parse Failed: hint", "oops", 3),
        IssueAction::Create { title: "Parse Failed: hint".to_string(), body: "oops".to_string(), pause_secs: 0 }
    );
    assert_eq!(
        plan_failure_report(&issues, "Parse Failed: hint", "oops", 40),
        IssueAction::Create { title: "Parse Failed: hint".to_string(), body: "oops".to_string(), pause_secs: 3 }
    );
    assert_eq!(plan_close(&issues, "Parse Failed: setFog", 0), IssueAction::Close { number: 9, pause_secs: 0 });
    assert_eq!(plan_close(&issues, "Parse Failed: hint", 0), IssueAction::Nothing);
    assert_eq!(failed_event_handler_title("Mission", "Ended"), "Parse Failed: Mission::Ended");
    assert_eq!(failure_body(&[]), "");
}
