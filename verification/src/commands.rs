//! The documented commands, looked up by name.
use vstd::prelude::*;

use crate::command::{Command, CommandView};
use crate::text::{chars_of, eq, lower, lowercase_of};

verus! {

/// The documented commands, each under its key: the lowercase command name.
pub struct Commands {
    commands: Vec<(String, Command)>,
}

/// The contents of an entry of `Commands`.
pub open spec fn entry_view(e: (String, Command)) -> (Seq<char>, CommandView) {
    (e.0@, e.1@)
}

impl View for Commands {
    type V = Seq<(Seq<char>, CommandView)>;

    closed spec fn view(&self) -> Seq<(Seq<char>, CommandView)> {
        self.commands@.map_values(|e: (String, Command)| entry_view(e))
    }
}

impl Commands {
    /// The entries, each a key and its command.
    pub fn raw(&self) -> (r: &Vec<(String, Command)>)
        ensures
            r@.map_values(|e: (String, Command)| entry_view(e)) == self@,
    {
        &self.commands
    }

    /// The entries, to change.
    pub fn raw_mut(&mut self) -> (r: &mut Vec<(String, Command)>)
        ensures
            r@.map_values(|e: (String, Command)| entry_view(e)) == old(self)@,
            final(self)@ == final(r)@.map_values(|e: (String, Command)| entry_view(e)),
    {
        &mut self.commands
    }

    /// The commands from their entries; no key occurs twice.
    pub fn new(commands: Vec<(String, Command)>) -> (r: Self)
        requires
            forall|i: int, j: int|
                0 <= i < j < commands@.len() ==> (#[trigger] commands@[i]).0@ != (#[trigger] commands@[j]).0@,
        ensures
            r@ == commands@.map_values(|e: (String, Command)| entry_view(e)),
    {
        Commands { commands }
    }

    /// The command whose key is the lowercase form of `name`.
    pub fn get(&self, name: &str) -> (r: Option<&Command>)
        ensures
            match r {
                Some(c) => exists|i: int|
                    0 <= i < self@.len() && self@[i].0 == lowercase_of(name@) && self@[i].1 == c@
                        && forall|j: int| 0 <= j < i ==> self@[j].0 != lowercase_of(name@),
                None => forall|i: int| 0 <= i < self@.len() ==> self@[i].0 != lowercase_of(name@),
            },
    {
        let key = lower(&chars_of(name));
        let mut i: usize = 0;
        while i < self.commands.len()
            invariant
                key@ == lowercase_of(name@),
                i <= self.commands@.len(),
                forall|j: int| 0 <= j < i ==> self@[j].0 != key@,
            decreases self.commands@.len() - i,
        {
            assert(self@[i as int] == entry_view(self.commands@[i as int]));
            if eq(&chars_of(self.commands[i].0.as_str()), &key) {
                assert(self@[i as int] == entry_view(self.commands@[i as int]));
                return Some(&self.commands[i].1);
            }
            i += 1;
        }
        None
    }

    /// The entries, in order.
    pub fn iter(&self) -> (r: Vec<(&String, &Command)>)
        ensures
            r@.len() == self@.len(),
            forall|i: int| 0 <= i < r@.len() ==> (#[trigger] r@[i]).0@ == self@[i].0 && r@[i].1@ == self@[i].1,
    {
        let mut out: Vec<(&String, &Command)> = Vec::new();
        let mut i: usize = 0;
        while i < self.commands.len()
            invariant
                i <= self.commands@.len(),
                out@.len() == i,
                forall|k: int| 0 <= k < i ==> (#[trigger] out@[k]).0@ == self@[k].0 && out@[k].1@ == self@[k].1,
            decreases self.commands@.len() - i,
        {
            let e = &self.commands[i];
            out.push((&e.0, &e.1));
            i += 1;
        }
        out
    }
}

} // verus!
