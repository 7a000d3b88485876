//! What a parse run reports about the commands, and the game version that the
//! wiki's version template names.
use vstd::prelude::*;

use crate::text::{chars_of, eq, string_of};
use crate::version::{version_of_text, Version};

verus! {

/// How a command fared in the last parse run.
#[derive(Clone, Copy, Debug, PartialEq, Eq)]
pub enum CommandStatus {
    Passed,
    Failed,
    Outdated,
    Unknown,
}

/// The name of a status.
pub open spec fn status_text(s: CommandStatus) -> Seq<char> {
    match s {
        CommandStatus::Passed => "Passed"@,
        CommandStatus::Failed => "Failed"@,
        CommandStatus::Outdated => "Outdated"@,
        CommandStatus::Unknown => "Unknown"@,
    }
}

impl CommandStatus {
    pub fn as_str(self) -> (r: &'static str)
        ensures
            r@ == status_text(self),
    {
        match self {
            CommandStatus::Passed => "Passed",
            CommandStatus::Failed => "Failed",
            CommandStatus::Outdated => "Outdated",
            CommandStatus::Unknown => "Unknown",
        }
    }
}

/// The commands of a parse run: those that passed, those that failed with
/// their errors, and those whose page is outdated.
pub struct Report {
    pub passed_commands: Vec<String>,
    pub failed_commands: Vec<(String, Vec<String>)>,
    pub outdated_commands: Vec<String>,
    pub unknown_types_commands: Option<Vec<(String, String)>>,
}

/// The names of a list of commands.
pub open spec fn names_of(v: Seq<String>) -> Seq<Seq<char>> {
    v.map_values(|s: String| s@)
}

/// The names of the failed commands.
pub open spec fn failed_names(v: Seq<(String, Vec<String>)>) -> Seq<Seq<char>> {
    v.map_values(|e: (String, Vec<String>)| e.0@)
}

/// A command's status: passed if listed as passed, else failed if listed as
/// failed, else outdated if listed as outdated, else unknown.
pub open spec fn status_of(name: Seq<char>, passed: Seq<Seq<char>>, failed: Seq<Seq<char>>, outdated: Seq<Seq<char>>) -> CommandStatus {
    if passed.contains(name) {
        CommandStatus::Passed
    } else if failed.contains(name) {
        CommandStatus::Failed
    } else if outdated.contains(name) {
        CommandStatus::Outdated
    } else {
        CommandStatus::Unknown
    }
}

fn listed(name: &[char], v: &Vec<String>) -> (r: bool)
    ensures
        r == names_of(v@).contains(name@),
{
    let mut i: usize = 0;
    while i < v.len()
        invariant
            i <= v@.len(),
            forall|k: int| 0 <= k < i ==> v@[k]@ != name@,
        decreases v@.len() - i,
    {
        if eq(&chars_of(v[i].as_str()), name) {
            assert(names_of(v@)[i as int] == name@);
            return true;
        }
        i += 1;
    }
    assert(!names_of(v@).contains(name@)) by {
        assert forall|k: int| 0 <= k < names_of(v@).len() implies names_of(v@)[k] != name@ by {
            assert(names_of(v@)[k] == v@[k]@);
        }
    }
    false
}

fn failed_listed(name: &[char], v: &Vec<(String, Vec<String>)>) -> (r: bool)
    ensures
        r == failed_names(v@).contains(name@),
{
    let mut i: usize = 0;
    while i < v.len()
        invariant
            i <= v@.len(),
            forall|k: int| 0 <= k < i ==> v@[k].0@ != name@,
        decreases v@.len() - i,
    {
        if eq(&chars_of(v[i].0.as_str()), name) {
            assert(failed_names(v@)[i as int] == name@);
            return true;
        }
        i += 1;
    }
    assert(!failed_names(v@).contains(name@)) by {
        assert forall|k: int| 0 <= k < failed_names(v@).len() implies failed_names(v@)[k] != name@ by {
            assert(failed_names(v@)[k] == v@[k].0@);
        }
    }
    false
}

/// The status of a command in a report.
pub fn get_command_status(name: &str, report: &Report) -> (r: CommandStatus)
    ensures
        r == status_of(
            name@,
            names_of(report.passed_commands@),
            failed_names(report.failed_commands@),
            names_of(report.outdated_commands@),
        ),
{
    let n = chars_of(name);
    if listed(&n, &report.passed_commands) {
        CommandStatus::Passed
    } else if failed_listed(&n, &report.failed_commands) {
        CommandStatus::Failed
    } else if listed(&n, &report.outdated_commands) {
        CommandStatus::Outdated
    } else {
        CommandStatus::Unknown
    }
}

// ----- the current game version -----

/// The name of the texts that the pattern `(?m)(\d\.\d\d)\|` captures in a
/// text: for each match, left to right, its first group (a decimal digit, a
/// dot and two decimal digits, followed in the text by `|`; the `regex`
/// crate's `\d` takes any Unicode decimal digit).
pub uninterp spec fn gvi_version_captures(text: Seq<char>) -> Seq<Seq<char>>;

/// Runs the `regex` crate's `Regex::captures_iter` with the pattern
/// `(?m)(\d\.\d\d)\|` over the text and returns each match's first group. The
/// contract names the result `gvi_version_captures` of the text; the pattern's
/// semantics are not restated.
#[verifier::external_body]
fn version_captures(text: &str) -> (r: Vec<String>)
    ensures
        names_of(r@) == gvi_version_captures(text@),
{
    let pattern = regex::Regex::new(r"(?m)(\d\.\d\d)\|").expect("the pattern is valid");
    pattern.captures_iter(text).map(|cap| cap[1].to_string()).collect()
}

/// The version that the wiki's version template names: its only capture, and
/// that capture read as a version; every capture when there is not exactly one.
pub open spec fn template_version_of(caps: Seq<Seq<char>>) -> Result<(Seq<char>, Result<(u8, u8), Seq<char>>), Seq<Seq<char>>> {
    if caps.len() == 1 {
        Ok((caps[0], version_of_text(caps[0])))
    } else {
        Err(caps)
    }
}

/// The version captured from the wiki's version template, with the captured
/// text and the version read from it; the captures when there is not exactly one.
pub fn select_version(caps: Vec<String>) -> (r: Result<(String, Result<Version, String>), Vec<String>>)
    ensures
        match r {
            Ok((s, Ok(v))) => template_version_of(names_of(caps@)) == Ok::<(Seq<char>, Result<(u8, u8), Seq<char>>), Seq<Seq<char>>>((s@, Ok(v@))),
            Ok((s, Err(e))) => template_version_of(names_of(caps@)) == Ok::<(Seq<char>, Result<(u8, u8), Seq<char>>), Seq<Seq<char>>>((s@, Err(e@))),
            Err(all) => template_version_of(names_of(caps@)) == Err::<(Seq<char>, Result<(u8, u8), Seq<char>>), Seq<Seq<char>>>(names_of(all@)),
        },
{
    if caps.len() != 1 {
        return Err(caps);
    }
    let s = string_of(&chars_of(caps[0].as_str()));
    let v = Version::parse(caps[0].as_str());
    assert(names_of(caps@)[0] == caps@[0]@);
    Ok((s, v))
}

/// Reads the current game version from the text of the wiki's version template.
pub fn template_version(text: &str) -> (r: Result<(String, Result<Version, String>), Vec<String>>)
    ensures
        match r {
            Ok((s, Ok(v))) => template_version_of(gvi_version_captures(text@)) == Ok::<(Seq<char>, Result<(u8, u8), Seq<char>>), Seq<Seq<char>>>((s@, Ok(v@))),
            Ok((s, Err(e))) => template_version_of(gvi_version_captures(text@)) == Ok::<(Seq<char>, Result<(u8, u8), Seq<char>>), Seq<Seq<char>>>((s@, Err(e@))),
            Err(all) => template_version_of(gvi_version_captures(text@)) == Err::<(Seq<char>, Result<(u8, u8), Seq<char>>), Seq<Seq<char>>>(names_of(all@)),
        },
{
    select_version(version_captures(text))
}

} // verus!
