//! The report of a run over the wiki's commands: which passed, which failed
//! and with what errors, which are outdated, which name unknown types, and
//! the game version if it changed.
use vstd::prelude::*;

use indexmap::IndexMap;

use crate::command::texts_of;
use crate::order::{sort_texts, sorted_texts, text_lt};
use crate::version::Version;

verus! {

#[verifier::external_type_specification]
#[verifier::external_body]
#[verifier::reject_recursive_types(K)]
#[verifier::reject_recursive_types(V)]
#[verifier::reject_recursive_types(S)]
pub struct ExIndexMap<K, V, S>(IndexMap<K, V, S>);

/// The name of the entries of a map of failed commands, in the map's order:
/// each command with its errors.
pub uninterp spec fn failed_entries(m: IndexMap<String, Vec<String>>) -> Seq<(Seq<char>, Seq<Seq<char>>)>;

/// No command occurs twice.
pub open spec fn distinct_keys(e: Seq<(Seq<char>, Seq<Seq<char>>)>) -> bool {
    forall|i: int, j: int| 0 <= i < j < e.len() ==> (#[trigger] e[i]).0 != (#[trigger] e[j]).0
}

/// The commands are in order.
pub open spec fn keys_ordered(e: Seq<(Seq<char>, Seq<Seq<char>>)>) -> bool {
    forall|i: int, j: int| 0 <= i < j < e.len() ==> !text_lt((#[trigger] e[j]).0, (#[trigger] e[i]).0)
}

/// The index of a command's entry.
pub open spec fn key_index(e: Seq<(Seq<char>, Seq<Seq<char>>)>, key: Seq<char>) -> Option<int> {
    if exists|i: int| 0 <= i < e.len() && (#[trigger] e[i]).0 == key {
        Some(choose|i: int| 0 <= i < e.len() && (#[trigger] e[i]).0 == key)
    } else {
        None
    }
}

/// The entries with an error added to a command's errors: at the end of its
/// entry, or in a new entry at the end.
pub open spec fn with_failure(e: Seq<(Seq<char>, Seq<Seq<char>>)>, key: Seq<char>, error: Seq<char>) -> Seq<(Seq<char>, Seq<Seq<char>>)> {
    match key_index(e, key) {
        Some(i) => e.update(i, (key, e[i].1.push(error))),
        None => e.push((key, seq![error])),
    }
}

/// Calls `IndexMap::new`: a map without entries.
#[verifier::external_body]
fn new_failed_map() -> (r: IndexMap<String, Vec<String>>)
    ensures
        failed_entries(r) == Seq::<(Seq<char>, Seq<Seq<char>>)>::empty(),
{
    IndexMap::new()
}

/// Calls `IndexMap::entry` and `Entry::or_default` for the command, and pushes
/// the error onto the errors found or onto the new empty errors. The map's
/// entries keep their order; a new command's entry goes at the end.
#[verifier::external_body]
fn push_failure(m: &mut IndexMap<String, Vec<String>>, key: String, error: String)
    requires
        distinct_keys(failed_entries(*old(m))),
    ensures
        failed_entries(*final(m)) == with_failure(failed_entries(*old(m)), key@, error@),
        distinct_keys(failed_entries(*final(m))),
{
    m.entry(key).or_default().push(error);
}

/// Calls `IndexMap::sort_keys`, which orders the entries by command with the
/// keys' `Ord` (the order of `str`), keeping every entry.
#[verifier::external_body]
fn sort_failures(m: &mut IndexMap<String, Vec<String>>)
    requires
        distinct_keys(failed_entries(*old(m))),
    ensures
        failed_entries(*final(m)).to_multiset() == failed_entries(*old(m)).to_multiset(),
        keys_ordered(failed_entries(*final(m))),
        distinct_keys(failed_entries(*final(m))),
{
    m.sort_keys();
}

/// The report of a run over the commands.
pub struct Report {
    passed_commands: Vec<String>,
    failed_commands: IndexMap<String, Vec<String>>,
    outdated_commands: Vec<String>,
    unknown_types_commands: Vec<(String, String)>,
    updated_version: Option<Version>,
}

/// The contents of a `Report`.
pub struct ReportView {
    pub passed: Seq<Seq<char>>,
    pub failed: Seq<(Seq<char>, Seq<Seq<char>>)>,
    pub outdated: Seq<Seq<char>>,
    pub unknown_types: Seq<(Seq<char>, Seq<char>)>,
    pub updated_version: Option<(u8, u8)>,
}

/// The texts of a list of pairs of strings.
pub open spec fn pairs_of(v: Seq<(String, String)>) -> Seq<(Seq<char>, Seq<char>)> {
    v.map_values(|p: (String, String)| (p.0@, p.1@))
}

impl View for Report {
    type V = ReportView;

    closed spec fn view(&self) -> ReportView {
        ReportView {
            passed: texts_of(self.passed_commands@),
            failed: failed_entries(self.failed_commands),
            outdated: texts_of(self.outdated_commands@),
            unknown_types: pairs_of(self.unknown_types_commands@),
            updated_version: match self.updated_version {
                Some(v) => Some(v@),
                None => None,
            },
        }
    }
}

impl Report {
    /// The map of failed commands holds no command twice.
    pub closed spec fn wf(&self) -> bool {
        distinct_keys(failed_entries(self.failed_commands))
    }

    /// A report without commands, for the given new game version.
    pub fn new(updated_version: Option<Version>) -> (r: Self)
        ensures
            r.wf(),
            r@.passed == Seq::<Seq<char>>::empty(),
            r@.failed == Seq::<(Seq<char>, Seq<Seq<char>>)>::empty(),
            r@.outdated == Seq::<Seq<char>>::empty(),
            r@.unknown_types == Seq::<(Seq<char>, Seq<char>)>::empty(),
            r@.updated_version == match updated_version {
                Some(v) => Some(v@),
                None => None::<(u8, u8)>,
            },
    {
        let r = Report {
            passed_commands: Vec::new(),
            failed_commands: new_failed_map(),
            outdated_commands: Vec::new(),
            unknown_types_commands: Vec::new(),
            updated_version,
        };
        assert(texts_of(r.passed_commands@) =~= Seq::<Seq<char>>::empty());
        assert(texts_of(r.outdated_commands@) =~= Seq::<Seq<char>>::empty());
        assert(pairs_of(r.unknown_types_commands@) =~= Seq::<(Seq<char>, Seq<char>)>::empty());
        r
    }

    /// Orders the passed, failed and outdated commands by name.
    pub fn sort(&mut self)
        requires
            old(self).wf(),
        ensures
            final(self).wf(),
            final(self)@.passed == sorted_texts(old(self)@.passed),
            final(self)@.failed.to_multiset() == old(self)@.failed.to_multiset(),
            keys_ordered(final(self)@.failed),
            final(self)@.outdated == sorted_texts(old(self)@.outdated),
            final(self)@.unknown_types == old(self)@.unknown_types,
            final(self)@.updated_version == old(self)@.updated_version,
    {
        sort_texts(&mut self.passed_commands);
        sort_failures(&mut self.failed_commands);
        sort_texts(&mut self.outdated_commands);
    }

    pub fn add_passed_command(&mut self, command: String)
        requires
            old(self).wf(),
        ensures
            final(self).wf(),
            final(self)@ == (ReportView { passed: old(self)@.passed.push(command@), ..old(self)@ }),
    {
        let ghost before = self.passed_commands@;
        let ghost c = command@;
        self.passed_commands.push(command);
        assert(texts_of(self.passed_commands@) =~= texts_of(before).push(c));
    }

    /// Adds an error to a failed command's errors.
    pub fn add_failed_command(&mut self, command: String, error: String)
        requires
            old(self).wf(),
        ensures
            final(self).wf(),
            final(self)@ == (ReportView { failed: with_failure(old(self)@.failed, command@, error@), ..old(self)@ }),
    {
        push_failure(&mut self.failed_commands, command, error);
    }

    pub fn add_outdated_command(&mut self, command: String)
        requires
            old(self).wf(),
        ensures
            final(self).wf(),
            final(self)@ == (ReportView { outdated: old(self)@.outdated.push(command@), ..old(self)@ }),
    {
        let ghost before = self.outdated_commands@;
        let ghost c = command@;
        self.outdated_commands.push(command);
        assert(texts_of(self.outdated_commands@) =~= texts_of(before).push(c));
    }

    pub fn add_unknown_type_command(&mut self, command: String, error: String)
        requires
            old(self).wf(),
        ensures
            final(self).wf(),
            final(self)@ == (ReportView { unknown_types: old(self)@.unknown_types.push((command@, error@)), ..old(self)@ }),
    {
        let ghost before = self.unknown_types_commands@;
        let ghost p = (command@, error@);
        self.unknown_types_commands.push((command, error));
        assert(pairs_of(self.unknown_types_commands@) =~= pairs_of(before).push(p));
    }

    pub fn updated_version(&self) -> (r: Option<&Version>)
        ensures
            match r {
                Some(v) => self@.updated_version == Some(v@),
                None => self@.updated_version is None,
            },
    {
        match &self.updated_version {
            Some(v) => Some(v),
            None => None,
        }
    }

    pub fn passed_commands(&self) -> (r: &[String])
        ensures
            texts_of(r@) == self@.passed,
    {
        self.passed_commands.as_slice()
    }

    pub fn failed_commands(&self) -> (r: &IndexMap<String, Vec<String>>)
        ensures
            failed_entries(*r) == self@.failed,
    {
        &self.failed_commands
    }

    pub fn outdated_commands(&self) -> (r: &[String])
        ensures
            texts_of(r@) == self@.outdated,
    {
        self.outdated_commands.as_slice()
    }

    pub fn unknown_types_commands(&self) -> (r: &[(String, String)])
        ensures
            pairs_of(r@) == self@.unknown_types,
    {
        self.unknown_types_commands.as_slice()
    }
}

} // verus!
