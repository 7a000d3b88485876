//! What the website lists: a summary of each command with its status and
//! errors, ordered by name; the file name of a command's page; the filters.
use vstd::prelude::*;

use crate::command::{texts_of, Command, CommandView};
use crate::report::{failed_names, names_of, status_of, CommandStatus, Report};
use crate::order::{
    lemma_text_lt_irreflexive, lemma_text_lt_total, lemma_text_lt_transitive, lemma_text_pos, text_less,
    text_lt, text_pos,
};
use crate::text::{chars_of, concat, eq, lower, lowercase_of, replace, replaced, string_of};

verus! {

broadcast use vstd::slice::group_slice_axioms;

// ----- command summaries -----

/// A command as the website lists it.
pub struct CommandSummary {
    pub name: String,
    pub description: String,
    pub groups: Vec<String>,
    pub status: CommandStatus,
    pub errors: Option<Vec<String>>,
}

/// The contents of a `CommandSummary`.
pub struct SummaryView {
    pub name: Seq<char>,
    pub description: Seq<char>,
    pub groups: Seq<Seq<char>>,
    pub status: CommandStatus,
    pub errors: Option<Seq<Seq<char>>>,
}

/// The view of optional errors.
pub open spec fn opt_texts(e: Option<Vec<String>>) -> Option<Seq<Seq<char>>> {
    match e {
        Some(v) => Some(texts_of(v@)),
        None => None,
    }
}

impl View for CommandSummary {
    type V = SummaryView;

    open spec fn view(&self) -> SummaryView {
        SummaryView {
            name: self.name@,
            description: self.description@,
            groups: texts_of(self.groups@),
            status: self.status,
            errors: opt_texts(self.errors),
        }
    }
}

/// The contents of a list of summaries.
pub open spec fn summaries_view(v: Seq<CommandSummary>) -> Seq<SummaryView> {
    v.map_values(|s: CommandSummary| s@)
}

/// The failed commands of a report with their errors.
pub open spec fn failed_view(v: Seq<(String, Vec<String>)>) -> Seq<(Seq<char>, Seq<Seq<char>>)> {
    v.map_values(|e: (String, Vec<String>)| (e.0@, texts_of(e.1@)))
}

/// The index of the first failed command with the given name.
pub open spec fn first_failed(f: Seq<(Seq<char>, Seq<Seq<char>>)>, name: Seq<char>) -> Option<int>
    decreases f.len(),
{
    if f.len() == 0 {
        None
    } else {
        match first_failed(f.drop_last(), name) {
            Some(k) => Some(k),
            None => if f.last().0 == name {
                Some(f.len() - 1)
            } else {
                None
            },
        }
    }
}

/// The errors reported for a command, if it failed.
pub open spec fn errors_of(f: Seq<(Seq<char>, Seq<Seq<char>>)>, name: Seq<char>) -> Option<Seq<Seq<char>>> {
    match first_failed(f, name) {
        Some(k) => Some(f[k].1),
        None => None,
    }
}

/// The summary of a documented command: its name, description, groups,
/// status in the report, and errors if it failed.
pub open spec fn summary_of(c: CommandView, r: Report) -> SummaryView {
    SummaryView {
        name: c.name,
        description: c.desc,
        groups: c.groups,
        status: status_of(
            c.name,
            names_of(r.passed_commands@),
            failed_names(r.failed_commands@),
            names_of(r.outdated_commands@),
        ),
        errors: errors_of(failed_view(r.failed_commands@), c.name),
    }
}

/// The summary of a failed command that has no documentation.
pub open spec fn undocumented(name: Seq<char>, errors: Seq<Seq<char>>) -> SummaryView {
    SummaryView {
        name,
        description: "No documentation available"@,
        groups: Seq::empty(),
        status: CommandStatus::Failed,
        errors: Some(errors),
    }
}

/// The failed commands, in order, whose names are not among `seen` nor
/// among those before them.
pub open spec fn undocumented_failures(f: Seq<(Seq<char>, Seq<Seq<char>>)>, seen: Seq<Seq<char>>) -> Seq<SummaryView>
    decreases f.len(),
{
    if f.len() == 0 {
        Seq::empty()
    } else if seen.contains(f[0].0) {
        undocumented_failures(f.drop_first(), seen)
    } else {
        seq![undocumented(f[0].0, f[0].1)] + undocumented_failures(f.drop_first(), seen.push(f[0].0))
    }
}

/// Where a summary goes among summaries ordered by name: after every one
/// whose name does not come after its own.
pub open spec fn insert_pos(s: Seq<SummaryView>, x: SummaryView) -> int
    decreases s.len(),
{
    if s.len() == 0 {
        0
    } else if text_lt(x.name, s[0].name) {
        0
    } else {
        1 + insert_pos(s.drop_first(), x)
    }
}

/// Summaries ordered by name, keeping the order of those with equal names.
pub open spec fn sorted_by_name(s: Seq<SummaryView>) -> Seq<SummaryView>
    decreases s.len(),
{
    if s.len() == 0 {
        s
    } else {
        let t = sorted_by_name(s.drop_last());
        t.insert(insert_pos(t, s.last()), s.last())
    }
}

/// The summaries of the documented commands, in order, then those of the
/// failed commands without documentation.
pub open spec fn unsorted_summaries(cmds: Seq<CommandView>, r: Report) -> Seq<SummaryView> {
    let documented = cmds.map_values(|c: CommandView| summary_of(c, r));
    documented + undocumented_failures(failed_view(r.failed_commands@), cmds.map_values(|c: CommandView| c.name))
}

/// The contents of a list of commands.
pub open spec fn commands_view(v: Seq<Command>) -> Seq<CommandView> {
    v.map_values(|c: Command| c@)
}

proof fn lemma_insert_pos(s: Seq<SummaryView>, x: SummaryView)
    ensures
        0 <= insert_pos(s, x) <= s.len(),
    decreases s.len(),
{
    if s.len() > 0 && !text_lt(x.name, s[0].name) {
        lemma_insert_pos(s.drop_first(), x);
    }
}

fn copy_texts(v: &[String]) -> (r: Vec<String>)
    ensures
        texts_of(r@) == texts_of(v@),
{
    let mut out: Vec<String> = Vec::new();
    let mut i: usize = 0;
    while i < v.len()
        invariant
            i <= v@.len(),
            out@.len() == i,
            forall|k: int| 0 <= k < i ==> (#[trigger] out@[k])@ == v@[k]@,
        decreases v@.len() - i,
    {
        out.push(string_of(&chars_of(v[i].as_str())));
        i += 1;
    }
    assert(texts_of(out@) =~= texts_of(v@));
    out
}

/// The errors reported for a command, if it failed.
fn errors_for(name: &[char], failed: &Vec<(String, Vec<String>)>) -> (r: Option<Vec<String>>)
    ensures
        opt_texts(r) == errors_of(failed_view(failed@), name@),
{
    let ghost f = failed_view(failed@);
    let mut i: usize = 0;
    assert(f.take(0) =~= Seq::<(Seq<char>, Seq<Seq<char>>)>::empty());
    while i < failed.len()
        invariant
            f == failed_view(failed@),
            i <= failed@.len(),
            first_failed(f.take(i as int), name@) is None,
        decreases failed@.len() - i,
    {
        assert(f.take(i + 1).drop_last() =~= f.take(i as int));
        assert(f.take(i + 1).last() == f[i as int]);
        if eq(&chars_of(failed[i].0.as_str()), name) {
            proof {
                lemma_first_failed_prefix(f, name@, i + 1);
            }
            return Some(copy_texts(failed[i].1.as_slice()));
        }
        i += 1;
    }
    assert(f.take(failed@.len() as int) =~= f);
    None
}

/// A prefix in which a name is found finds it where the whole list does.
proof fn lemma_first_failed_prefix(f: Seq<(Seq<char>, Seq<Seq<char>>)>, name: Seq<char>, i: int)
    requires
        0 <= i <= f.len(),
        first_failed(f.take(i), name) is Some,
    ensures
        first_failed(f, name) == first_failed(f.take(i), name),
    decreases f.len() - i,
{
    if i < f.len() {
        assert(f.take(i + 1).drop_last() =~= f.take(i));
        lemma_first_failed_prefix(f, name, i + 1);
    } else {
        assert(f.take(i) =~= f);
    }
}

proof fn lemma_first_failed_index(f: Seq<(Seq<char>, Seq<Seq<char>>)>, name: Seq<char>)
    ensures
        first_failed(f, name) matches Some(k) ==> 0 <= k < f.len(),
    decreases f.len(),
{
    if f.len() > 0 {
        lemma_first_failed_index(f.drop_last(), name);
    }
}

fn summary(c: &Command, report: &Report) -> (r: CommandSummary)
    ensures
        r@ == summary_of(c@, *report),
{
    let name = chars_of(c.name());
    let errors = errors_for(&name, &report.failed_commands);
    proof {
        lemma_first_failed_index(failed_view(report.failed_commands@), c@.name);
    }
    CommandSummary {
        name: string_of(&name),
        description: string_of(&chars_of(c.description())),
        groups: copy_texts(c.groups()),
        status: crate::report::get_command_status(c.name(), report),
        errors,
    }
}

fn seen_before(names: &Vec<Vec<char>>, n: &[char]) -> (r: bool)
    ensures
        r == names@.map_values(|x: Vec<char>| x@).contains(n@),
{
    let ghost nv = names@.map_values(|x: Vec<char>| x@);
    let mut i: usize = 0;
    while i < names.len()
        invariant
            nv == names@.map_values(|x: Vec<char>| x@),
            i <= names@.len(),
            forall|k: int| 0 <= k < i ==> nv[k] != n@,
        decreases names@.len() - i,
    {
        if eq(&names[i], n) {
            assert(nv[i as int] == n@);
            return true;
        }
        i += 1;
    }
    false
}

fn insert_by_name(out: &mut Vec<CommandSummary>, x: CommandSummary)
    ensures
        summaries_view(final(out)@) == summaries_view(old(out)@).insert(
            insert_pos(summaries_view(old(out)@), x@),
            x@,
        ),
{
    let ghost s = summaries_view(out@);
    let xn = chars_of(x.name.as_str());
    let mut i: usize = 0;
    assert(s.skip(0) =~= s);
    while i < out.len() && !text_less(&xn, &chars_of(out[i].name.as_str()))
        invariant
            s == summaries_view(out@),
            xn@ == x@.name,
            i <= out@.len(),
            insert_pos(s, x@) == i + insert_pos(s.skip(i as int), x@),
        decreases out@.len() - i,
    {
        assert(s.skip(i as int)[0] == out@[i as int]@);
        assert(s.skip(i as int).drop_first() =~= s.skip(i + 1));
        i += 1;
    }
    proof {
        if i < out@.len() {
            assert(s.skip(i as int)[0] == out@[i as int]@);
        }
        assert(insert_pos(s, x@) == i);
    }
    let ghost xv = x@;
    out.insert(i, x);
    assert(summaries_view(out@) =~= s.insert(i as int, xv));
}

/// The commands as the website lists them: a summary of each documented
/// command, and of each failed command without documentation, ordered by name
/// (those with equal names in the order given).
pub fn command_summaries(commands: &[Command], report: &Report) -> (r: Vec<CommandSummary>)
    ensures
        summaries_view(r@) == sorted_by_name(unsorted_summaries(commands_view(commands@), *report)),
{
    let ghost cv = commands_view(commands@);
    let mut all: Vec<CommandSummary> = Vec::new();
    let mut seen: Vec<Vec<char>> = Vec::new();
    let mut i: usize = 0;
    assert(summaries_view(all@) =~= cv.take(0).map_values(|c: CommandView| summary_of(c, *report)));
    assert(seen@.map_values(|x: Vec<char>| x@) =~= cv.take(0).map_values(|c: CommandView| c.name));
    while i < commands.len()
        invariant
            cv == commands_view(commands@),
            i <= commands@.len(),
            summaries_view(all@) == cv.take(i as int).map_values(|c: CommandView| summary_of(c, *report)),
            seen@.map_values(|x: Vec<char>| x@) == cv.take(i as int).map_values(|c: CommandView| c.name),
        decreases commands@.len() - i,
    {
        let ghost before = all@;
        let ghost seen_before_v = seen@;
        let s = summary(&commands[i], report);
        let ghost sv = s@;
        all.push(s);
        let cn = chars_of(commands[i].name());
        seen.push(cn);
        assert(cv[i as int] == commands@[i as int]@);
        assert(sv == summary_of(cv[i as int], *report));
        assert(cn@ == cv[i as int].name);
        assert(summaries_view(all@) =~= summaries_view(before).push(sv));
        assert(seen@.map_values(|x: Vec<char>| x@) =~= seen_before_v.map_values(|x: Vec<char>| x@).push(cn@));
        assert(cv.take(i + 1) =~= cv.take(i as int).push(cv[i as int]));
        assert(summaries_view(all@) =~= cv.take(i + 1).map_values(|c: CommandView| summary_of(c, *report)));
        assert(seen@.map_values(|x: Vec<char>| x@) =~= cv.take(i + 1).map_values(|c: CommandView| c.name));
        i += 1;
    }
    assert(cv.take(commands@.len() as int) =~= cv);
    let ghost documented = summaries_view(all@);
    let ghost f = failed_view(report.failed_commands@);
    let ghost seen0 = seen@.map_values(|x: Vec<char>| x@);
    let mut j: usize = 0;
    assert(f.skip(0) =~= f);
    assert(documented + Seq::<SummaryView>::empty() =~= documented);
    while j < report.failed_commands.len()
        invariant
            f == failed_view(report.failed_commands@),
            j <= report.failed_commands@.len(),
            documented + undocumented_failures(f, seen0) == summaries_view(all@)
                + undocumented_failures(f.skip(j as int), seen@.map_values(|x: Vec<char>| x@)),
        decreases report.failed_commands@.len() - j,
    {
        let entry = &report.failed_commands[j];
        let n = chars_of(entry.0.as_str());
        let ghost rest = f.skip(j as int);
        assert(rest[0] == f[j as int]);
        assert(rest.drop_first() =~= f.skip(j + 1));
        if !seen_before(&seen, &n) {
            let ghost before = all@;
            let ghost sv = seen@.map_values(|x: Vec<char>| x@);
            all.push(CommandSummary {
                name: string_of(&n),
                description: string_of(&chars_of("No documentation available")),
                groups: Vec::new(),
                status: CommandStatus::Failed,
                errors: Some(copy_texts(entry.1.as_slice())),
            });
            seen.push(n);
            assert(texts_of(Seq::<String>::empty()) =~= Seq::<Seq<char>>::empty());
            assert(summaries_view(all@) =~= summaries_view(before).push(undocumented(f[j as int].0, f[j as int].1)));
            assert(seen@.map_values(|x: Vec<char>| x@) =~= sv.push(f[j as int].0));
            assert(summaries_view(before) + (seq![undocumented(f[j as int].0, f[j as int].1)]
                + undocumented_failures(f.skip(j + 1), sv.push(f[j as int].0))) =~= summaries_view(all@)
                + undocumented_failures(f.skip(j + 1), seen@.map_values(|x: Vec<char>| x@)));
        }
        j += 1;
    }
    assert(f.skip(report.failed_commands@.len() as int) =~= Seq::<(Seq<char>, Seq<Seq<char>>)>::empty());
    assert(summaries_view(all@) + Seq::<SummaryView>::empty() =~= summaries_view(all@));
    let ghost unsorted = summaries_view(all@);
    assert(unsorted == unsorted_summaries(cv, *report));
    let mut sorted: Vec<CommandSummary> = Vec::new();
    let mut k: usize = 0;
    let n = all.len();
    let mut rest = all;
    assert(unsorted.take(0) =~= Seq::<SummaryView>::empty());
    assert(unsorted.skip(0) =~= unsorted);
    while k < n
        invariant
            n == unsorted.len(),
            k <= n,
            summaries_view(rest@) == unsorted.skip(k as int),
            summaries_view(sorted@) == sorted_by_name(unsorted.take(k as int)),
        decreases n - k,
    {
        let ghost rv = rest@;
        assert(rest@.len() == summaries_view(rest@).len());
        let x = rest.remove(0);
        assert(x@ == unsorted[k as int]) by {
            assert(summaries_view(rv)[0] == unsorted.skip(k as int)[0]);
        }
        assert(summaries_view(rest@) =~= summaries_view(rv).drop_first());
        assert(unsorted.skip(k as int).drop_first() =~= unsorted.skip(k + 1));
        proof {
            lemma_insert_pos(summaries_view(sorted@), x@);
        }
        insert_by_name(&mut sorted, x);
        assert(unsorted.take(k + 1).drop_last() =~= unsorted.take(k as int));
        k += 1;
    }
    assert(unsorted.take(n as int) =~= unsorted);
    sorted
}

// ----- pages and filters -----

/// The file of a command's page: its name in lowercase with spaces as
/// underscores, and `.json`.
pub open spec fn file_name_of(name: Seq<char>) -> Seq<char> {
    lowercase_of(replaced(name, seq![' '], seq!['_'])) + ".json"@
}

/// The file of a command's page.
pub fn command_file_name(name: &str) -> (r: String)
    ensures
        r@ == file_name_of(name@),
{
    let space = [' '];
    let under = ['_'];
    assert(space@ =~= seq![' ']);
    assert(under@ =~= seq!['_']);
    let n = replace(&chars_of(name), space.as_slice(), under.as_slice());
    let l = lower(&n);
    string_of(&concat(&l, &chars_of(".json")))
}

/// The texts in order, each once.
pub open spec fn ordered_set(s: Seq<Seq<char>>) -> Seq<Seq<char>>
    decreases s.len(),
{
    if s.len() == 0 {
        s
    } else {
        let t = ordered_set(s.drop_last());
        if t.contains(s.last()) {
            t
        } else {
            t.insert(text_pos(t, s.last()), s.last())
        }
    }
}

/// The groups of the commands, in order of the commands and of their groups.
pub open spec fn all_groups(cmds: Seq<CommandView>) -> Seq<Seq<char>>
    decreases cmds.len(),
{
    if cmds.len() == 0 {
        Seq::empty()
    } else {
        all_groups(cmds.drop_last()) + cmds.last().groups
    }
}

fn add_to_set(out: &mut Vec<String>, x: &String)
    ensures
        texts_of(final(out)@) == if texts_of(old(out)@).contains(x@) {
            texts_of(old(out)@)
        } else {
            texts_of(old(out)@).insert(text_pos(texts_of(old(out)@), x@), x@)
        },
{
    let ghost s = texts_of(out@);
    let xn = chars_of(x.as_str());
    let mut i: usize = 0;
    while i < out.len()
        invariant
            s == texts_of(out@),
            xn@ == x@,
            i <= out@.len(),
            forall|k: int| 0 <= k < i ==> s[k] != x@,
        decreases out@.len() - i,
    {
        if eq(&chars_of(out[i].as_str()), &xn) {
            assert(s[i as int] == x@);
            return;
        }
        i += 1;
    }
    let mut p: usize = 0;
    assert(s.skip(0) =~= s);
    while p < out.len() && !text_less(&xn, &chars_of(out[p].as_str()))
        invariant
            s == texts_of(out@),
            xn@ == x@,
            p <= out@.len(),
            text_pos(s, x@) == p + text_pos(s.skip(p as int), x@),
        decreases out@.len() - p,
    {
        assert(s.skip(p as int)[0] == out@[p as int]@);
        assert(s.skip(p as int).drop_first() =~= s.skip(p + 1));
        p += 1;
    }
    proof {
        if p < out@.len() {
            assert(s.skip(p as int)[0] == out@[p as int]@);
        }
        assert(text_pos(s, x@) == p);
    }
    out.insert(p, string_of(&xn));
    assert(texts_of(out@) =~= s.insert(p as int, x@));
}

/// The groups that the website offers as filters: every group of a command,
/// in order, each once.
pub fn filter_groups(commands: &[Command]) -> (r: Vec<String>)
    ensures
        texts_of(r@) == ordered_set(all_groups(commands_view(commands@))),
{
    let ghost cv = commands_view(commands@);
    let mut out: Vec<String> = Vec::new();
    let ghost flat: Seq<Seq<char>> = Seq::empty();
    let mut i: usize = 0;
    assert(cv.take(0) =~= Seq::<CommandView>::empty());
    while i < commands.len()
        invariant
            cv == commands_view(commands@),
            i <= commands@.len(),
            texts_of(out@) == ordered_set(all_groups(cv.take(i as int))),
        decreases commands@.len() - i,
    {
        let groups = commands[i].groups();
        let ghost base = all_groups(cv.take(i as int));
        let mut j: usize = 0;
        assert(base + texts_of(groups@).take(0) =~= base);
        while j < groups.len()
            invariant
                j <= groups@.len(),
                texts_of(out@) == ordered_set(base + texts_of(groups@).take(j as int)),
            decreases groups@.len() - j,
        {
            let ghost prev = base + texts_of(groups@).take(j as int);
            let ghost next = base + texts_of(groups@).take(j + 1);
            assert(next.drop_last() =~= prev);
            assert(next.last() == groups@[j as int]@);
            proof {
                lemma_text_pos(texts_of(out@), groups@[j as int]@);
            }
            add_to_set(&mut out, &groups[j]);
            j += 1;
        }
        assert(texts_of(groups@).take(groups@.len() as int) =~= texts_of(groups@));
        assert(cv.take(i + 1).drop_last() =~= cv.take(i as int));
        assert(cv.take(i + 1).last() == commands@[i as int]@);
        i += 1;
    }
    assert(cv.take(commands@.len() as int) =~= cv);
    out
}

/// The statuses that the website offers as filters: `Failed` and `Passed`
/// when there is a command.
pub fn filter_statuses(commands: &[Command]) -> (r: Vec<String>)
    ensures
        texts_of(r@) == if commands@.len() > 0 {
            seq!["Failed"@, "Passed"@]
        } else {
            Seq::<Seq<char>>::empty()
        },
{
    let mut out: Vec<String> = Vec::new();
    if commands.len() > 0 {
        out.push(string_of(&chars_of("Failed")));
        out.push(string_of(&chars_of("Passed")));
    }
    assert(texts_of(out@) =~= if commands@.len() > 0 {
        seq!["Failed"@, "Passed"@]
    } else {
        Seq::<Seq<char>>::empty()
    });
    out
}


// ----- ordering commands -----

/// Where a command goes among commands ordered by name.
pub open spec fn command_pos(s: Seq<CommandView>, x: CommandView) -> int
    decreases s.len(),
{
    if s.len() == 0 {
        0
    } else if text_lt(x.name, s[0].name) {
        0
    } else {
        1 + command_pos(s.drop_first(), x)
    }
}

/// Commands ordered by name, keeping the order of those with equal names.
pub open spec fn commands_by_name(s: Seq<CommandView>) -> Seq<CommandView>
    decreases s.len(),
{
    if s.len() == 0 {
        s
    } else {
        let t = commands_by_name(s.drop_last());
        t.insert(command_pos(t, s.last()), s.last())
    }
}

proof fn lemma_command_pos(s: Seq<CommandView>, x: CommandView)
    ensures
        0 <= command_pos(s, x) <= s.len(),
    decreases s.len(),
{
    if s.len() > 0 && !text_lt(x.name, s[0].name) {
        lemma_command_pos(s.drop_first(), x);
    }
}

fn insert_command(out: &mut Vec<Command>, x: Command)
    ensures
        commands_view(final(out)@) == commands_view(old(out)@).insert(command_pos(commands_view(old(out)@), x@), x@),
{
    let ghost s = commands_view(out@);
    let xn = chars_of(x.name());
    let mut p: usize = 0;
    assert(s.skip(0) =~= s);
    while p < out.len() && !text_less(&xn, &chars_of(out[p].name()))
        invariant
            s == commands_view(out@),
            xn@ == x@.name,
            p <= out@.len(),
            command_pos(s, x@) == p + command_pos(s.skip(p as int), x@),
        decreases out@.len() - p,
    {
        assert(s.skip(p as int)[0] == out@[p as int]@);
        assert(s.skip(p as int).drop_first() =~= s.skip(p + 1));
        p += 1;
    }
    proof {
        if p < out@.len() {
            assert(s.skip(p as int)[0] == out@[p as int]@);
        }
        assert(command_pos(s, x@) == p);
    }
    let ghost xv = x@;
    out.insert(p, x);
    assert(commands_view(out@) =~= s.insert(p as int, xv));
}

/// Orders commands by name, those with equal names in the order given.
pub fn sort_by_name(commands: Vec<Command>) -> (r: Vec<Command>)
    ensures
        commands_view(r@) == commands_by_name(commands_view(commands@)),
{
    let ghost all = commands_view(commands@);
    let n = commands.len();
    let mut rest = commands;
    let mut sorted: Vec<Command> = Vec::new();
    let mut k: usize = 0;
    assert(all.take(0) =~= Seq::<CommandView>::empty());
    assert(all.skip(0) =~= all);
    while k < n
        invariant
            n == all.len(),
            k <= n,
            commands_view(rest@) == all.skip(k as int),
            commands_view(sorted@) == commands_by_name(all.take(k as int)),
        decreases n - k,
    {
        let ghost rv = rest@;
        assert(rest@.len() == commands_view(rest@).len());
        let x = rest.remove(0);
        assert(x@ == all[k as int]) by {
            assert(commands_view(rv)[0] == all.skip(k as int)[0]);
        }
        assert(commands_view(rest@) =~= commands_view(rv).drop_first());
        assert(all.skip(k as int).drop_first() =~= all.skip(k + 1));
        proof {
            lemma_command_pos(commands_view(sorted@), x@);
        }
        insert_command(&mut sorted, x);
        assert(all.take(k + 1).drop_last() =~= all.take(k as int));
        k += 1;
    }
    assert(all.take(n as int) =~= all);
    sorted
}


// ----- ordering laws: summaries -----

/// No summary of the list has a name that comes before that of one preceding it.
pub open spec fn summaries_ordered(s: Seq<SummaryView>) -> bool {
    forall|i: int, j: int| 0 <= i < j < s.len() ==> !text_lt((#[trigger] s[j]).name, (#[trigger] s[i]).name)
}

proof fn lemma_insert_pos_bounds(t: Seq<SummaryView>, x: SummaryView)
    ensures
        0 <= insert_pos(t, x) <= t.len(),
        forall|i: int| 0 <= i < insert_pos(t, x) ==> !text_lt(x.name, (#[trigger] t[i]).name),
        insert_pos(t, x) < t.len() ==> text_lt(x.name, t[insert_pos(t, x)].name),
    decreases t.len(),
{
    if t.len() > 0 && !text_lt(x.name, t[0].name) {
        lemma_insert_pos_bounds(t.drop_first(), x);
        assert forall|i: int| 0 <= i < insert_pos(t, x) implies !text_lt(x.name, (#[trigger] t[i]).name) by {
            if i > 0 {
                assert(t[i] == t.drop_first()[i - 1]);
            }
        }
    }
}

proof fn lemma_insert_pos_insert_ordered(t: Seq<SummaryView>, x: SummaryView)
    requires
        summaries_ordered(t),
    ensures
        summaries_ordered(t.insert(insert_pos(t, x), x)),
{
    lemma_insert_pos_bounds(t, x);
    let p = insert_pos(t, x);
    let u = t.insert(p, x);
    assert forall|i: int, j: int| 0 <= i < j < u.len() implies !text_lt((#[trigger] u[j]).name, (#[trigger] u[i]).name) by {
        if j < p {
            assert(u[i] == t[i] && u[j] == t[j]);
        } else if j == p {
            assert(u[i] == t[i] && u[j] == x);
        } else if i < p {
            assert(u[i] == t[i] && u[j] == t[j - 1]);
        } else if i == p {
            assert(u[i] == x && u[j] == t[j - 1]);
            if text_lt(t[j - 1].name, x.name) {
                lemma_text_lt_transitive(t[j - 1].name, x.name, t[p].name);
                if j - 1 == p {
                    lemma_text_lt_irreflexive(t[p].name);
                } else {
                    assert(!text_lt(t[j - 1].name, t[p].name));
                }
            }
        } else {
            assert(u[i] == t[i - 1] && u[j] == t[j - 1]);
        }
    }
}

/// Ordering summaries by name gives them in order of name, each as often as before.
pub proof fn lemma_sorted_by_name(s: Seq<SummaryView>)
    ensures
        summaries_ordered(sorted_by_name(s)),
        sorted_by_name(s).to_multiset() == s.to_multiset(),
    decreases s.len(),
{
    broadcast use vstd::seq_lib::group_to_multiset_ensures;

    if s.len() > 0 {
        let t = sorted_by_name(s.drop_last());
        lemma_sorted_by_name(s.drop_last());
        lemma_insert_pos_insert_ordered(t, s.last());
        lemma_insert_pos_bounds(t, s.last());
        assert(s =~= s.drop_last().push(s.last()));
    } else {
        assert(sorted_by_name(s) =~= s);
    }
}

// ----- ordering laws: commands -----

/// No command of the list has a name that comes before that of one preceding it.
pub open spec fn commands_ordered(s: Seq<CommandView>) -> bool {
    forall|i: int, j: int| 0 <= i < j < s.len() ==> !text_lt((#[trigger] s[j]).name, (#[trigger] s[i]).name)
}

proof fn lemma_command_pos_bounds(t: Seq<CommandView>, x: CommandView)
    ensures
        0 <= command_pos(t, x) <= t.len(),
        forall|i: int| 0 <= i < command_pos(t, x) ==> !text_lt(x.name, (#[trigger] t[i]).name),
        command_pos(t, x) < t.len() ==> text_lt(x.name, t[command_pos(t, x)].name),
    decreases t.len(),
{
    if t.len() > 0 && !text_lt(x.name, t[0].name) {
        lemma_command_pos_bounds(t.drop_first(), x);
        assert forall|i: int| 0 <= i < command_pos(t, x) implies !text_lt(x.name, (#[trigger] t[i]).name) by {
            if i > 0 {
                assert(t[i] == t.drop_first()[i - 1]);
            }
        }
    }
}

proof fn lemma_command_pos_insert_ordered(t: Seq<CommandView>, x: CommandView)
    requires
        commands_ordered(t),
    ensures
        commands_ordered(t.insert(command_pos(t, x), x)),
{
    lemma_command_pos_bounds(t, x);
    let p = command_pos(t, x);
    let u = t.insert(p, x);
    assert forall|i: int, j: int| 0 <= i < j < u.len() implies !text_lt((#[trigger] u[j]).name, (#[trigger] u[i]).name) by {
        if j < p {
            assert(u[i] == t[i] && u[j] == t[j]);
        } else if j == p {
            assert(u[i] == t[i] && u[j] == x);
        } else if i < p {
            assert(u[i] == t[i] && u[j] == t[j - 1]);
        } else if i == p {
            assert(u[i] == x && u[j] == t[j - 1]);
            if text_lt(t[j - 1].name, x.name) {
                lemma_text_lt_transitive(t[j - 1].name, x.name, t[p].name);
                if j - 1 == p {
                    lemma_text_lt_irreflexive(t[p].name);
                } else {
                    assert(!text_lt(t[j - 1].name, t[p].name));
                }
            }
        } else {
            assert(u[i] == t[i - 1] && u[j] == t[j - 1]);
        }
    }
}

/// Ordering commands by name gives them in order of name, each as often as before.
pub proof fn lemma_commands_by_name(s: Seq<CommandView>)
    ensures
        commands_ordered(commands_by_name(s)),
        commands_by_name(s).to_multiset() == s.to_multiset(),
    decreases s.len(),
{
    broadcast use vstd::seq_lib::group_to_multiset_ensures;

    if s.len() > 0 {
        let t = commands_by_name(s.drop_last());
        lemma_commands_by_name(s.drop_last());
        lemma_command_pos_insert_ordered(t, s.last());
        lemma_command_pos_bounds(t, s.last());
        assert(s =~= s.drop_last().push(s.last()));
    } else {
        assert(commands_by_name(s) =~= s);
    }
}

/// The website lists the commands in order of name: every documented command
/// and every undocumented failure, each once.
pub proof fn lemma_summaries_listed_by_name(cmds: Seq<CommandView>, r: Report)
    ensures
        summaries_ordered(sorted_by_name(unsorted_summaries(cmds, r))),
        sorted_by_name(unsorted_summaries(cmds, r)).to_multiset() == unsorted_summaries(cmds, r).to_multiset(),
{
    lemma_sorted_by_name(unsorted_summaries(cmds, r));
}

// ----- the set of groups -----

proof fn lemma_text_pos_facts(t: Seq<Seq<char>>, x: Seq<char>)
    ensures
        0 <= text_pos(t, x) <= t.len(),
        forall|i: int| 0 <= i < text_pos(t, x) ==> !text_lt(x, #[trigger] t[i]),
        text_pos(t, x) < t.len() ==> text_lt(x, t[text_pos(t, x)]),
    decreases t.len(),
{
    if t.len() > 0 && !text_lt(x, t[0]) {
        lemma_text_pos_facts(t.drop_first(), x);
        assert forall|i: int| 0 <= i < text_pos(t, x) implies !text_lt(x, #[trigger] t[i]) by {
            if i > 0 {
                assert(t[i] == t.drop_first()[i - 1]);
            }
        }
    }
}

/// Each text of the list comes before every later one.
pub open spec fn strictly_ordered(s: Seq<Seq<char>>) -> bool {
    forall|i: int, j: int| 0 <= i < j < s.len() ==> text_lt(#[trigger] s[i], #[trigger] s[j])
}

/// The groups offered as filters are in order, each once, and are exactly
/// the groups of the commands.
pub proof fn lemma_ordered_set(s: Seq<Seq<char>>)
    ensures
        strictly_ordered(ordered_set(s)),
        forall|x: Seq<char>| ordered_set(s).contains(x) <==> s.contains(x),
    decreases s.len(),
{
    if s.len() > 0 {
        let t = ordered_set(s.drop_last());
        let x = s.last();
        lemma_ordered_set(s.drop_last());
        assert(s =~= s.drop_last().push(x));
        if !t.contains(x) {
            lemma_text_pos_facts(t, x);
            let p = text_pos(t, x);
            let u = t.insert(p, x);
            assert forall|i: int, j: int| 0 <= i < j < u.len() implies text_lt(#[trigger] u[i], #[trigger] u[j]) by {
                if j < p {
                    assert(u[i] == t[i] && u[j] == t[j]);
                } else if j == p {
                    assert(u[i] == t[i] && u[j] == x);
                    assert(!text_lt(x, t[i]));
                    assert(t[i] != x);
                    lemma_text_lt_total(t[i], x);
                } else if i < p {
                    assert(u[i] == t[i] && u[j] == t[j - 1]);
                } else if i == p {
                    assert(u[i] == x && u[j] == t[j - 1]);
                    if j - 1 > p {
                        lemma_text_lt_transitive(x, t[p], t[j - 1]);
                    }
                } else {
                    assert(u[i] == t[i - 1] && u[j] == t[j - 1]);
                }
            }
            assert forall|y: Seq<char>| u.contains(y) <==> s.contains(y) by {
                if u.contains(y) {
                    let k = choose|k: int| 0 <= k < u.len() && u[k] == y;
                    if k < p {
                        assert(t[k] == y);
                        assert(t.contains(y));
                        assert(s.drop_last().contains(y));
                        let m = choose|m: int| 0 <= m < s.drop_last().len() && s.drop_last()[m] == y;
                        assert(s[m] == y);
                    } else if k == p {
                        assert(s[s.len() - 1] == y);
                    } else {
                        assert(t[k - 1] == y);
                        assert(t.contains(y));
                        assert(s.drop_last().contains(y));
                        let m = choose|m: int| 0 <= m < s.drop_last().len() && s.drop_last()[m] == y;
                        assert(s[m] == y);
                    }
                }
                if s.contains(y) {
                    let k = choose|k: int| 0 <= k < s.len() && s[k] == y;
                    if k == s.len() - 1 {
                        assert(u[p] == y);
                    } else {
                        assert(s.drop_last()[k] == y);
                        assert(s.drop_last().contains(y));
                        assert(t.contains(y));
                        let m = choose|m: int| 0 <= m < t.len() && t[m] == y;
                        if m < p {
                            assert(u[m] == y);
                        } else {
                            assert(u[m + 1] == y);
                        }
                    }
                }
            }
        } else {
            assert forall|y: Seq<char>| t.contains(y) <==> s.contains(y) by {
                if s.contains(y) {
                    let k = choose|k: int| 0 <= k < s.len() && s[k] == y;
                    if k < s.len() - 1 {
                        assert(s.drop_last()[k] == y);
                        assert(s.drop_last().contains(y));
                    } else {
                        assert(y == x);
                    }
                }
                if t.contains(y) {
                    assert(s.drop_last().contains(y));
                    let m = choose|m: int| 0 <= m < s.drop_last().len() && s.drop_last()[m] == y;
                    assert(s[m] == y);
                }
            }
        }
    }
}

} // verus!
