//! A scripting command as the wiki documents it.
use vstd::prelude::*;

use crate::branch::Branch;
use crate::since::{Since, SinceView};
use crate::syntax::{Syntax, SyntaxView};
use crate::text::{chars_of, eq, message, string_of, trim, trimmed};
use crate::value::opt_text;

verus! {

/// Where a command's arguments must be, or where its effect shows.
#[derive(Clone, Copy, Debug, Hash, PartialEq, Eq)]
pub enum Locality {
    Unspecified,
    Local,
    Global,
    Server,
}

/// What a locality value reads as: `local`, `global` or `server` (around any
/// spaces), nothing for an empty value, and an error for anything else.
pub open spec fn locality_of(v: Seq<char>) -> Result<Locality, Seq<char>> {
    let t = trimmed(v);
    if t == "local"@ {
        Ok(Locality::Local)
    } else if t == "global"@ {
        Ok(Locality::Global)
    } else if t == "server"@ {
        Ok(Locality::Server)
    } else if t.len() == 0 {
        Ok(Locality::Unspecified)
    } else {
        Err("Unknown locality: "@ + v)
    }
}

impl Locality {
    /// Reads a locality value such as `global`.
    pub fn parse(value: &str) -> (r: Result<Locality, String>)
        ensures
            match r {
                Ok(l) => locality_of(value@) == Ok::<Locality, Seq<char>>(l),
                Err(e) => locality_of(value@) == Err::<Locality, Seq<char>>(e@),
            },
    {
        let c = chars_of(value);
        let t = trim(&c);
        if eq(&t, &chars_of("local")) {
            Ok(Locality::Local)
        } else if eq(&t, &chars_of("global")) {
            Ok(Locality::Global)
        } else if eq(&t, &chars_of("server")) {
            Ok(Locality::Server)
        } else if t.len() == 0 {
            Ok(Locality::Unspecified)
        } else {
            Err(message("Unknown locality: ", &c))
        }
    }
}

/// A documented command.
#[derive(Debug, PartialEq, Eq)]
pub struct Command {
    name: String,
    desc: String,
    alias: Vec<String>,
    multiplayer_note: Option<String>,
    problem_notes: Vec<String>,
    groups: Vec<String>,
    syntax: Vec<Syntax>,
    argument_loc: Locality,
    effect_loc: Locality,
    server_exec: Option<bool>,
    since: Since,
    branch: Option<Branch>,
    examples: Vec<String>,
    see_also: Vec<String>,
}

/// The contents of a `Command`.
pub struct CommandView {
    pub name: Seq<char>,
    pub desc: Seq<char>,
    pub alias: Seq<Seq<char>>,
    pub multiplayer_note: Option<Seq<char>>,
    pub problem_notes: Seq<Seq<char>>,
    pub groups: Seq<Seq<char>>,
    pub syntax: Seq<SyntaxView>,
    pub argument_loc: Locality,
    pub effect_loc: Locality,
    pub server_exec: Option<bool>,
    pub since: SinceView,
    pub branch: Option<Branch>,
    pub examples: Seq<Seq<char>>,
    pub see_also: Seq<Seq<char>>,
}

/// The texts of a list of strings.
pub open spec fn texts_of(v: Seq<String>) -> Seq<Seq<char>> {
    v.map_values(|s: String| s@)
}

/// The contents of a list of syntaxes.
pub open spec fn syntaxes_of(v: Seq<Syntax>) -> Seq<SyntaxView> {
    v.map_values(|s: Syntax| s@)
}

impl View for Command {
    type V = CommandView;

    closed spec fn view(&self) -> CommandView {
        CommandView {
            name: self.name@,
            desc: self.desc@,
            alias: texts_of(self.alias@),
            multiplayer_note: opt_text(self.multiplayer_note),
            problem_notes: texts_of(self.problem_notes@),
            groups: texts_of(self.groups@),
            syntax: syntaxes_of(self.syntax@),
            argument_loc: self.argument_loc,
            effect_loc: self.effect_loc,
            server_exec: self.server_exec,
            since: self.since@,
            branch: self.branch,
            examples: texts_of(self.examples@),
            see_also: texts_of(self.see_also@),
        }
    }
}

impl Default for Command {
    /// A command with nothing documented: empty texts and lists, unspecified
    /// localities, and no version known.
    fn default() -> (r: Self)
        ensures
            r@ == (CommandView {
                name: Seq::empty(),
                desc: Seq::empty(),
                alias: Seq::empty(),
                multiplayer_note: None,
                problem_notes: Seq::empty(),
                groups: Seq::empty(),
                syntax: Seq::empty(),
                argument_loc: Locality::Unspecified,
                effect_loc: Locality::Unspecified,
                server_exec: None,
                since: SinceView::none(),
                branch: None,
                examples: Seq::empty(),
                see_also: Seq::empty(),
            }),
    {
        let r = Command {
            name: String::new(),
            desc: String::new(),
            alias: Vec::new(),
            multiplayer_note: None,
            problem_notes: Vec::new(),
            groups: Vec::new(),
            syntax: Vec::new(),
            argument_loc: Locality::Unspecified,
            effect_loc: Locality::Unspecified,
            server_exec: None,
            since: Since::empty(),
            branch: None,
            examples: Vec::new(),
            see_also: Vec::new(),
        };
        assert(texts_of(r.alias@) =~= Seq::<Seq<char>>::empty());
        assert(texts_of(r.problem_notes@) =~= Seq::<Seq<char>>::empty());
        assert(texts_of(r.groups@) =~= Seq::<Seq<char>>::empty());
        assert(syntaxes_of(r.syntax@) =~= Seq::<SyntaxView>::empty());
        assert(texts_of(r.examples@) =~= Seq::<Seq<char>>::empty());
        assert(texts_of(r.see_also@) =~= Seq::<Seq<char>>::empty());
        r
    }
}

impl Command {
    pub fn name(&self) -> (r: &str)
        ensures
            r@ == self@.name,
    {
        self.name.as_str()
    }

    pub fn description(&self) -> (r: &str)
        ensures
            r@ == self@.desc,
    {
        self.desc.as_str()
    }

    pub fn alias(&self) -> (r: &[String])
        ensures
            texts_of(r@) == self@.alias,
    {
        self.alias.as_slice()
    }

    pub fn multiplayer_note(&self) -> (r: Option<&str>)
        ensures
            match r {
                Some(n) => self@.multiplayer_note == Some(n@),
                None => self@.multiplayer_note is None,
            },
    {
        match &self.multiplayer_note {
            Some(n) => Some(n.as_str()),
            None => None,
        }
    }

    pub fn problem_notes(&self) -> (r: &[String])
        ensures
            texts_of(r@) == self@.problem_notes,
    {
        self.problem_notes.as_slice()
    }

    pub fn groups(&self) -> (r: &[String])
        ensures
            texts_of(r@) == self@.groups,
    {
        self.groups.as_slice()
    }

    pub fn syntax(&self) -> (r: &[Syntax])
        ensures
            syntaxes_of(r@) == self@.syntax,
    {
        self.syntax.as_slice()
    }

    pub fn argument_loc(&self) -> (r: &Locality)
        ensures
            *r == self@.argument_loc,
    {
        &self.argument_loc
    }

    pub fn effect_loc(&self) -> (r: &Locality)
        ensures
            *r == self@.effect_loc,
    {
        &self.effect_loc
    }

    pub fn server_exec(&self) -> (r: Option<bool>)
        ensures
            r == self@.server_exec,
    {
        self.server_exec
    }

    pub fn since(&self) -> (r: &Since)
        ensures
            r@ == self@.since,
    {
        &self.since
    }

    pub fn since_mut(&mut self) -> (r: &mut Since)
        ensures
            r@ == old(self)@.since,
            final(self)@ == (CommandView { since: final(r)@, ..old(self)@ }),
    {
        &mut self.since
    }

    pub fn branch(&self) -> (r: Option<&Branch>)
        ensures
            match r {
                Some(b) => self@.branch == Some(*b),
                None => self@.branch is None,
            },
    {
        match &self.branch {
            Some(b) => Some(b),
            None => None,
        }
    }

    pub fn branch_mut(&mut self) -> (r: &mut Option<Branch>)
        ensures
            *r == old(self)@.branch,
            final(self)@ == (CommandView { branch: *final(r), ..old(self)@ }),
    {
        &mut self.branch
    }

    pub fn examples(&self) -> (r: &[String])
        ensures
            texts_of(r@) == self@.examples,
    {
        self.examples.as_slice()
    }

    pub fn see_also(&self) -> (r: &[String])
        ensures
            texts_of(r@) == self@.see_also,
    {
        self.see_also.as_slice()
    }

    pub fn set_name(&mut self, name: String)
        ensures
            final(self)@ == (CommandView { name: name@, ..old(self)@ }),
    {
        self.name = name;
    }

    pub fn set_description(&mut self, desc: String)
        ensures
            final(self)@ == (CommandView { desc: desc@, ..old(self)@ }),
    {
        self.desc = desc;
    }

    pub fn set_alias(&mut self, alias: Vec<String>)
        ensures
            final(self)@ == (CommandView { alias: texts_of(alias@), ..old(self)@ }),
    {
        self.alias = alias;
    }

    pub fn set_multiplayer_note(&mut self, multiplayer_note: Option<String>)
        ensures
            final(self)@ == (CommandView { multiplayer_note: opt_text(multiplayer_note), ..old(self)@ }),
    {
        self.multiplayer_note = multiplayer_note;
    }

    pub fn set_problem_notes(&mut self, problem_notes: Vec<String>)
        ensures
            final(self)@ == (CommandView { problem_notes: texts_of(problem_notes@), ..old(self)@ }),
    {
        self.problem_notes = problem_notes;
    }

    pub fn set_groups(&mut self, groups: Vec<String>)
        ensures
            final(self)@ == (CommandView { groups: texts_of(groups@), ..old(self)@ }),
    {
        self.groups = groups;
    }

    pub fn set_syntax(&mut self, syntax: Vec<Syntax>)
        ensures
            final(self)@ == (CommandView { syntax: syntaxes_of(syntax@), ..old(self)@ }),
    {
        self.syntax = syntax;
    }

    pub fn set_argument_loc(&mut self, argument_loc: Locality)
        ensures
            final(self)@ == (CommandView { argument_loc, ..old(self)@ }),
    {
        self.argument_loc = argument_loc;
    }

    pub fn set_effect_loc(&mut self, effect_loc: Locality)
        ensures
            final(self)@ == (CommandView { effect_loc, ..old(self)@ }),
    {
        self.effect_loc = effect_loc;
    }

    pub fn set_server_exec(&mut self, server_exec: Option<bool>)
        ensures
            final(self)@ == (CommandView { server_exec, ..old(self)@ }),
    {
        self.server_exec = server_exec;
    }

    pub fn set_examples(&mut self, examples: Vec<String>)
        ensures
            final(self)@ == (CommandView { examples: texts_of(examples@), ..old(self)@ }),
    {
        self.examples = examples;
    }

    pub fn add_alias(&mut self, alias: String)
        ensures
            final(self)@ == (CommandView { alias: old(self)@.alias.push(alias@), ..old(self)@ }),
    {
        let ghost before = self.alias@;
        self.alias.push(alias);
        assert(texts_of(self.alias@) =~= texts_of(before).push(self.alias@.last()@));
    }

    pub fn add_group(&mut self, group: String)
        ensures
            final(self)@ == (CommandView { groups: old(self)@.groups.push(group@), ..old(self)@ }),
    {
        let ghost before = self.groups@;
        self.groups.push(group);
        assert(texts_of(self.groups@) =~= texts_of(before).push(self.groups@.last()@));
    }

    pub fn add_problem_note(&mut self, problem_note: String)
        ensures
            final(self)@ == (CommandView { problem_notes: old(self)@.problem_notes.push(problem_note@), ..old(self)@ }),
    {
        let ghost before = self.problem_notes@;
        self.problem_notes.push(problem_note);
        assert(texts_of(self.problem_notes@) =~= texts_of(before).push(self.problem_notes@.last()@));
    }

    pub fn add_example(&mut self, example: String)
        ensures
            final(self)@ == (CommandView { examples: old(self)@.examples.push(example@), ..old(self)@ }),
    {
        let ghost before = self.examples@;
        self.examples.push(example);
        assert(texts_of(self.examples@) =~= texts_of(before).push(self.examples@.last()@));
    }

    pub fn add_see_also(&mut self, see_also: String)
        ensures
            final(self)@ == (CommandView { see_also: old(self)@.see_also.push(see_also@), ..old(self)@ }),
    {
        let ghost before = self.see_also@;
        self.see_also.push(see_also);
        assert(texts_of(self.see_also@) =~= texts_of(before).push(self.see_also@.last()@));
    }

    pub fn add_syntax(&mut self, syntax: Syntax)
        ensures
            final(self)@ == (CommandView { syntax: old(self)@.syntax.push(syntax@), ..old(self)@ }),
    {
        let ghost before = self.syntax@;
        self.syntax.push(syntax);
        assert(syntaxes_of(self.syntax@) =~= syntaxes_of(before).push(self.syntax@.last()@));
    }

}

/// The name of a command from the name of its wiki page: pages of operators
/// are named with words or escapes (`a_greater%3D_b` is `>=`).
pub open spec fn cmd_name_of(name: Seq<char>) -> Seq<char> {
    if name == "!_a"@ {
        "!"@
    } else if name == "%2B"@ {
        "+"@
    } else if name == "a_*_b"@ {
        "*"@
    } else if name == "a_/_b"@ {
        "/"@
    } else if name == "a_:_b"@ {
        ":"@
    } else if name == "a_%3D%3D_b"@ {
        "=="@
    } else if name == "a_!%3D_b"@ {
        "!="@
    } else if name == "a_%3D_b"@ {
        "="@
    } else if name == "a_%5E_b"@ {
        "^"@
    } else if name == "a_%25_b"@ {
        "%"@
    } else if name == "a_%26%26_b"@ {
        "&&"@
    } else if name == "a_greater%3D_b"@ {
        ">="@
    } else if name == "a_greater_b"@ {
        ">"@
    } else if name == "a_hash_b"@ {
        "#"@
    } else if name == "a_less%3D_b"@ {
        "<="@
    } else if name == "a_less_b"@ {
        "<"@
    } else if name == "a_or_b"@ {
        "||"@
    } else if name == "config_greater_greater_name"@ {
        ">>"@
    } else {
        name
    }
}

/// The name of a command from the name of its wiki page.
pub fn get_cmd_name(name: &str) -> (r: String)
    ensures
        r@ == cmd_name_of(name@),
{
    let n = chars_of(name);
    if eq(&n, &chars_of("!_a")) {
        return string_of(&chars_of("!"));
    }
    if eq(&n, &chars_of("%2B")) {
        return string_of(&chars_of("+"));
    }
    if eq(&n, &chars_of("a_*_b")) {
        return string_of(&chars_of("*"));
    }
    if eq(&n, &chars_of("a_/_b")) {
        return string_of(&chars_of("/"));
    }
    if eq(&n, &chars_of("a_:_b")) {
        return string_of(&chars_of(":"));
    }
    if eq(&n, &chars_of("a_%3D%3D_b")) {
        return string_of(&chars_of("=="));
    }
    if eq(&n, &chars_of("a_!%3D_b")) {
        return string_of(&chars_of("!="));
    }
    if eq(&n, &chars_of("a_%3D_b")) {
        return string_of(&chars_of("="));
    }
    if eq(&n, &chars_of("a_%5E_b")) {
        return string_of(&chars_of("^"));
    }
    if eq(&n, &chars_of("a_%25_b")) {
        return string_of(&chars_of("%"));
    }
    if eq(&n, &chars_of("a_%26%26_b")) {
        return string_of(&chars_of("&&"));
    }
    if eq(&n, &chars_of("a_greater%3D_b")) {
        return string_of(&chars_of(">="));
    }
    if eq(&n, &chars_of("a_greater_b")) {
        return string_of(&chars_of(">"));
    }
    if eq(&n, &chars_of("a_hash_b")) {
        return string_of(&chars_of("#"));
    }
    if eq(&n, &chars_of("a_less%3D_b")) {
        return string_of(&chars_of("<="));
    }
    if eq(&n, &chars_of("a_less_b")) {
        return string_of(&chars_of("<"));
    }
    if eq(&n, &chars_of("a_or_b")) {
        return string_of(&chars_of("||"));
    }
    if eq(&n, &chars_of("config_greater_greater_name")) {
        return string_of(&chars_of(">>"));
    }
    string_of(&n)
}


/// The wiki pages of the commands that are operators, whose page names spell
/// the operator out (`a_less_b`, `a_%3D%3D_b`).
pub open spec fn operator_pages() -> Seq<Seq<char>> {
    seq!["!_a"@, "%2B"@, "a_*_b"@, "a_/_b"@, "a_:_b"@, "a_%3D%3D_b"@, "a_!%3D_b"@, "a_%3D_b"@, "a_%5E_b"@, "a_%25_b"@, "a_%26%26_b"@, "a_greater%3D_b"@, "a_greater_b"@, "a_hash_b"@, "a_less%3D_b"@, "a_less_b"@, "a_or_b"@, "config_greater_greater_name"@]
}

/// Distinct operator pages name distinct commands, and each names a command
/// other than its page name; every other page names the command of its own
/// name. A page whose operator is spelled with an encoded `=` (`%3D`) names
/// the operator of the page without it followed by `=`, and the page of the
/// config operator names `>` twice.
pub proof fn lemma_operator_names(i: int, j: int, name: Seq<char>)
    ensures
        0 <= i < j < operator_pages().len() ==> cmd_name_of(operator_pages()[i]) != cmd_name_of(operator_pages()[j]),
        0 <= i < operator_pages().len() ==> cmd_name_of(operator_pages()[i]) != operator_pages()[i],
        !operator_pages().contains(name) ==> cmd_name_of(name) == name,
        cmd_name_of("a_less%3D_b"@) == cmd_name_of("a_less_b"@) + "="@,
        cmd_name_of("a_greater%3D_b"@) == cmd_name_of("a_greater_b"@) + "="@,
        cmd_name_of("a_%3D%3D_b"@) == cmd_name_of("a_%3D_b"@) + "="@,
        cmd_name_of("a_!%3D_b"@) == cmd_name_of("!_a"@) + "="@,
        cmd_name_of("config_greater_greater_name"@) == cmd_name_of("a_greater_b"@) + cmd_name_of("a_greater_b"@),
{
    reveal_strlit("!_a");
    reveal_strlit("%2B");
    reveal_strlit("a_*_b");
    reveal_strlit("a_/_b");
    reveal_strlit("a_:_b");
    reveal_strlit("a_%3D%3D_b");
    reveal_strlit("a_!%3D_b");
    reveal_strlit("a_%3D_b");
    reveal_strlit("a_%5E_b");
    reveal_strlit("a_%25_b");
    reveal_strlit("a_%26%26_b");
    reveal_strlit("a_greater%3D_b");
    reveal_strlit("a_greater_b");
    reveal_strlit("a_hash_b");
    reveal_strlit("a_less%3D_b");
    reveal_strlit("a_less_b");
    reveal_strlit("a_or_b");
    reveal_strlit("config_greater_greater_name");
    reveal_strlit("!");
    reveal_strlit("+");
    reveal_strlit("*");
    reveal_strlit("/");
    reveal_strlit(":");
    reveal_strlit("==");
    reveal_strlit("!=");
    reveal_strlit("=");
    reveal_strlit("^");
    reveal_strlit("%");
    reveal_strlit("&&");
    reveal_strlit(">=");
    reveal_strlit(">");
    reveal_strlit("#");
    reveal_strlit("<=");
    reveal_strlit("<");
    reveal_strlit("||");
    reveal_strlit(">>");
    assert("%2B"@[0] != "!_a"@[0]);
    assert("a_*_b"@.len() != "!_a"@.len());
    assert("a_*_b"@.len() != "%2B"@.len());
    assert("a_/_b"@.len() != "!_a"@.len());
    assert("a_/_b"@.len() != "%2B"@.len());
    assert("a_/_b"@[2] != "a_*_b"@[2]);
    assert("a_:_b"@.len() != "!_a"@.len());
    assert("a_:_b"@.len() != "%2B"@.len());
    assert("a_:_b"@[2] != "a_*_b"@[2]);
    assert("a_:_b"@[2] != "a_/_b"@[2]);
    assert("a_%3D%3D_b"@.len() != "!_a"@.len());
    assert("a_%3D%3D_b"@.len() != "%2B"@.len());
    assert("a_%3D%3D_b"@.len() != "a_*_b"@.len());
    assert("a_%3D%3D_b"@.len() != "a_/_b"@.len());
    assert("a_%3D%3D_b"@.len() != "a_:_b"@.len());
    assert("a_!%3D_b"@.len() != "!_a"@.len());
    assert("a_!%3D_b"@.len() != "%2B"@.len());
    assert("a_!%3D_b"@.len() != "a_*_b"@.len());
    assert("a_!%3D_b"@.len() != "a_/_b"@.len());
    assert("a_!%3D_b"@.len() != "a_:_b"@.len());
    assert("a_!%3D_b"@.len() != "a_%3D%3D_b"@.len());
    assert("a_%3D_b"@.len() != "!_a"@.len());
    assert("a_%3D_b"@.len() != "%2B"@.len());
    assert("a_%3D_b"@.len() != "a_*_b"@.len());
    assert("a_%3D_b"@.len() != "a_/_b"@.len());
    assert("a_%3D_b"@.len() != "a_:_b"@.len());
    assert("a_%3D_b"@.len() != "a_%3D%3D_b"@.len());
    assert("a_%3D_b"@.len() != "a_!%3D_b"@.len());
    assert("a_%5E_b"@.len() != "!_a"@.len());
    assert("a_%5E_b"@.len() != "%2B"@.len());
    assert("a_%5E_b"@.len() != "a_*_b"@.len());
    assert("a_%5E_b"@.len() != "a_/_b"@.len());
    assert("a_%5E_b"@.len() != "a_:_b"@.len());
    assert("a_%5E_b"@.len() != "a_%3D%3D_b"@.len());
    assert("a_%5E_b"@.len() != "a_!%3D_b"@.len());
    assert("a_%5E_b"@[3] != "a_%3D_b"@[3]);
    assert("a_%25_b"@.len() != "!_a"@.len());
    assert("a_%25_b"@.len() != "%2B"@.len());
    assert("a_%25_b"@.len() != "a_*_b"@.len());
    assert("a_%25_b"@.len() != "a_/_b"@.len());
    assert("a_%25_b"@.len() != "a_:_b"@.len());
    assert("a_%25_b"@.len() != "a_%3D%3D_b"@.len());
    assert("a_%25_b"@.len() != "a_!%3D_b"@.len());
    assert("a_%25_b"@[3] != "a_%3D_b"@[3]);
    assert("a_%25_b"@[3] != "a_%5E_b"@[3]);
    assert("a_%26%26_b"@.len() != "!_a"@.len());
    assert("a_%26%26_b"@.len() != "%2B"@.len());
    assert("a_%26%26_b"@.len() != "a_*_b"@.len());
    assert("a_%26%26_b"@.len() != "a_/_b"@.len());
    assert("a_%26%26_b"@.len() != "a_:_b"@.len());
    assert("a_%26%26_b"@[3] != "a_%3D%3D_b"@[3]);
    assert("a_%26%26_b"@.len() != "a_!%3D_b"@.len());
    assert("a_%26%26_b"@.len() != "a_%3D_b"@.len());
    assert("a_%26%26_b"@.len() != "a_%5E_b"@.len());
    assert("a_%26%26_b"@.len() != "a_%25_b"@.len());
    assert("a_greater%3D_b"@.len() != "!_a"@.len());
    assert("a_greater%3D_b"@.len() != "%2B"@.len());
    assert("a_greater%3D_b"@.len() != "a_*_b"@.len());
    assert("a_greater%3D_b"@.len() != "a_/_b"@.len());
    assert("a_greater%3D_b"@.len() != "a_:_b"@.len());
    assert("a_greater%3D_b"@.len() != "a_%3D%3D_b"@.len());
    assert("a_greater%3D_b"@.len() != "a_!%3D_b"@.len());
    assert("a_greater%3D_b"@.len() != "a_%3D_b"@.len());
    assert("a_greater%3D_b"@.len() != "a_%5E_b"@.len());
    assert("a_greater%3D_b"@.len() != "a_%25_b"@.len());
    assert("a_greater%3D_b"@.len() != "a_%26%26_b"@.len());
    assert("a_greater_b"@.len() != "!_a"@.len());
    assert("a_greater_b"@.len() != "%2B"@.len());
    assert("a_greater_b"@.len() != "a_*_b"@.len());
    assert("a_greater_b"@.len() != "a_/_b"@.len());
    assert("a_greater_b"@.len() != "a_:_b"@.len());
    assert("a_greater_b"@.len() != "a_%3D%3D_b"@.len());
    assert("a_greater_b"@.len() != "a_!%3D_b"@.len());
    assert("a_greater_b"@.len() != "a_%3D_b"@.len());
    assert("a_greater_b"@.len() != "a_%5E_b"@.len());
    assert("a_greater_b"@.len() != "a_%25_b"@.len());
    assert("a_greater_b"@.len() != "a_%26%26_b"@.len());
    assert("a_greater_b"@.len() != "a_greater%3D_b"@.len());
    assert("a_hash_b"@.len() != "!_a"@.len());
    assert("a_hash_b"@.len() != "%2B"@.len());
    assert("a_hash_b"@.len() != "a_*_b"@.len());
    assert("a_hash_b"@.len() != "a_/_b"@.len());
    assert("a_hash_b"@.len() != "a_:_b"@.len());
    assert("a_hash_b"@.len() != "a_%3D%3D_b"@.len());
    assert("a_hash_b"@[2] != "a_!%3D_b"@[2]);
    assert("a_hash_b"@.len() != "a_%3D_b"@.len());
    assert("a_hash_b"@.len() != "a_%5E_b"@.len());
    assert("a_hash_b"@.len() != "a_%25_b"@.len());
    assert("a_hash_b"@.len() != "a_%26%26_b"@.len());
    assert("a_hash_b"@.len() != "a_greater%3D_b"@.len());
    assert("a_hash_b"@.len() != "a_greater_b"@.len());
    assert("a_less%3D_b"@.len() != "!_a"@.len());
    assert("a_less%3D_b"@.len() != "%2B"@.len());
    assert("a_less%3D_b"@.len() != "a_*_b"@.len());
    assert("a_less%3D_b"@.len() != "a_/_b"@.len());
    assert("a_less%3D_b"@.len() != "a_:_b"@.len());
    assert("a_less%3D_b"@.len() != "a_%3D%3D_b"@.len());
    assert("a_less%3D_b"@.len() != "a_!%3D_b"@.len());
    assert("a_less%3D_b"@.len() != "a_%3D_b"@.len());
    assert("a_less%3D_b"@.len() != "a_%5E_b"@.len());
    assert("a_less%3D_b"@.len() != "a_%25_b"@.len());
    assert("a_less%3D_b"@.len() != "a_%26%26_b"@.len());
    assert("a_less%3D_b"@.len() != "a_greater%3D_b"@.len());
    assert("a_less%3D_b"@[2] != "a_greater_b"@[2]);
    assert("a_less%3D_b"@.len() != "a_hash_b"@.len());
    assert("a_less_b"@.len() != "!_a"@.len());
    assert("a_less_b"@.len() != "%2B"@.len());
    assert("a_less_b"@.len() != "a_*_b"@.len());
    assert("a_less_b"@.len() != "a_/_b"@.len());
    assert("a_less_b"@.len() != "a_:_b"@.len());
    assert("a_less_b"@.len() != "a_%3D%3D_b"@.len());
    assert("a_less_b"@[2] != "a_!%3D_b"@[2]);
    assert("a_less_b"@.len() != "a_%3D_b"@.len());
    assert("a_less_b"@.len() != "a_%5E_b"@.len());
    assert("a_less_b"@.len() != "a_%25_b"@.len());
    assert("a_less_b"@.len() != "a_%26%26_b"@.len());
    assert("a_less_b"@.len() != "a_greater%3D_b"@.len());
    assert("a_less_b"@.len() != "a_greater_b"@.len());
    assert("a_less_b"@[2] != "a_hash_b"@[2]);
    assert("a_less_b"@.len() != "a_less%3D_b"@.len());
    assert("a_or_b"@.len() != "!_a"@.len());
    assert("a_or_b"@.len() != "%2B"@.len());
    assert("a_or_b"@.len() != "a_*_b"@.len());
    assert("a_or_b"@.len() != "a_/_b"@.len());
    assert("a_or_b"@.len() != "a_:_b"@.len());
    assert("a_or_b"@.len() != "a_%3D%3D_b"@.len());
    assert("a_or_b"@.len() != "a_!%3D_b"@.len());
    assert("a_or_b"@.len() != "a_%3D_b"@.len());
    assert("a_or_b"@.len() != "a_%5E_b"@.len());
    assert("a_or_b"@.len() != "a_%25_b"@.len());
    assert("a_or_b"@.len() != "a_%26%26_b"@.len());
    assert("a_or_b"@.len() != "a_greater%3D_b"@.len());
    assert("a_or_b"@.len() != "a_greater_b"@.len());
    assert("a_or_b"@.len() != "a_hash_b"@.len());
    assert("a_or_b"@.len() != "a_less%3D_b"@.len());
    assert("a_or_b"@.len() != "a_less_b"@.len());
    assert("config_greater_greater_name"@.len() != "!_a"@.len());
    assert("config_greater_greater_name"@.len() != "%2B"@.len());
    assert("config_greater_greater_name"@.len() != "a_*_b"@.len());
    assert("config_greater_greater_name"@.len() != "a_/_b"@.len());
    assert("config_greater_greater_name"@.len() != "a_:_b"@.len());
    assert("config_greater_greater_name"@.len() != "a_%3D%3D_b"@.len());
    assert("config_greater_greater_name"@.len() != "a_!%3D_b"@.len());
    assert("config_greater_greater_name"@.len() != "a_%3D_b"@.len());
    assert("config_greater_greater_name"@.len() != "a_%5E_b"@.len());
    assert("config_greater_greater_name"@.len() != "a_%25_b"@.len());
    assert("config_greater_greater_name"@.len() != "a_%26%26_b"@.len());
    assert("config_greater_greater_name"@.len() != "a_greater%3D_b"@.len());
    assert("config_greater_greater_name"@.len() != "a_greater_b"@.len());
    assert("config_greater_greater_name"@.len() != "a_hash_b"@.len());
    assert("config_greater_greater_name"@.len() != "a_less%3D_b"@.len());
    assert("config_greater_greater_name"@.len() != "a_less_b"@.len());
    assert("config_greater_greater_name"@.len() != "a_or_b"@.len());
    assert(cmd_name_of("!_a"@) == "!"@);
    assert(cmd_name_of("%2B"@) == "+"@);
    assert(cmd_name_of("a_*_b"@) == "*"@);
    assert(cmd_name_of("a_/_b"@) == "/"@);
    assert(cmd_name_of("a_:_b"@) == ":"@);
    assert(cmd_name_of("a_%3D%3D_b"@) == "=="@);
    assert(cmd_name_of("a_!%3D_b"@) == "!="@);
    assert(cmd_name_of("a_%3D_b"@) == "="@);
    assert(cmd_name_of("a_%5E_b"@) == "^"@);
    assert(cmd_name_of("a_%25_b"@) == "%"@);
    assert(cmd_name_of("a_%26%26_b"@) == "&&"@);
    assert(cmd_name_of("a_greater%3D_b"@) == ">="@);
    assert(cmd_name_of("a_greater_b"@) == ">"@);
    assert(cmd_name_of("a_hash_b"@) == "#"@);
    assert(cmd_name_of("a_less%3D_b"@) == "<="@);
    assert(cmd_name_of("a_less_b"@) == "<"@);
    assert(cmd_name_of("a_or_b"@) == "||"@);
    assert(cmd_name_of("config_greater_greater_name"@) == ">>"@);
    assert("!"@[0] != "+"@[0]);
    assert("!"@[0] != "*"@[0]);
    assert("!"@[0] != "/"@[0]);
    assert("!"@[0] != ":"@[0]);
    assert("!"@[0] != "="@[0]);
    assert("!"@[0] != "^"@[0]);
    assert("!"@[0] != "%"@[0]);
    assert("!"@[0] != ">"@[0]);
    assert("!"@[0] != "#"@[0]);
    assert("!"@[0] != "<"@[0]);
    assert("+"@[0] != "*"@[0]);
    assert("+"@[0] != "/"@[0]);
    assert("+"@[0] != ":"@[0]);
    assert("+"@[0] != "="@[0]);
    assert("+"@[0] != "^"@[0]);
    assert("+"@[0] != "%"@[0]);
    assert("+"@[0] != ">"@[0]);
    assert("+"@[0] != "#"@[0]);
    assert("+"@[0] != "<"@[0]);
    assert("*"@[0] != "/"@[0]);
    assert("*"@[0] != ":"@[0]);
    assert("*"@[0] != "="@[0]);
    assert("*"@[0] != "^"@[0]);
    assert("*"@[0] != "%"@[0]);
    assert("*"@[0] != ">"@[0]);
    assert("*"@[0] != "#"@[0]);
    assert("*"@[0] != "<"@[0]);
    assert("/"@[0] != ":"@[0]);
    assert("/"@[0] != "="@[0]);
    assert("/"@[0] != "^"@[0]);
    assert("/"@[0] != "%"@[0]);
    assert("/"@[0] != ">"@[0]);
    assert("/"@[0] != "#"@[0]);
    assert("/"@[0] != "<"@[0]);
    assert(":"@[0] != "="@[0]);
    assert(":"@[0] != "^"@[0]);
    assert(":"@[0] != "%"@[0]);
    assert(":"@[0] != ">"@[0]);
    assert(":"@[0] != "#"@[0]);
    assert(":"@[0] != "<"@[0]);
    assert("=="@[0] != "!="@[0]);
    assert("=="@[0] != "&&"@[0]);
    assert("=="@[0] != ">="@[0]);
    assert("=="@[0] != "<="@[0]);
    assert("=="@[0] != "||"@[0]);
    assert("=="@[0] != ">>"@[0]);
    assert("!="@[0] != "&&"@[0]);
    assert("!="@[0] != ">="@[0]);
    assert("!="@[0] != "<="@[0]);
    assert("!="@[0] != "||"@[0]);
    assert("!="@[0] != ">>"@[0]);
    assert("="@[0] != "^"@[0]);
    assert("="@[0] != "%"@[0]);
    assert("="@[0] != ">"@[0]);
    assert("="@[0] != "#"@[0]);
    assert("="@[0] != "<"@[0]);
    assert("^"@[0] != "%"@[0]);
    assert("^"@[0] != ">"@[0]);
    assert("^"@[0] != "#"@[0]);
    assert("^"@[0] != "<"@[0]);
    assert("%"@[0] != ">"@[0]);
    assert("%"@[0] != "#"@[0]);
    assert("%"@[0] != "<"@[0]);
    assert("&&"@[0] != ">="@[0]);
    assert("&&"@[0] != "<="@[0]);
    assert("&&"@[0] != "||"@[0]);
    assert("&&"@[0] != ">>"@[0]);
    assert(">="@[0] != "<="@[0]);
    assert(">="@[0] != "||"@[0]);
    assert(">="@[1] != ">>"@[1]);
    assert(">"@[0] != "#"@[0]);
    assert(">"@[0] != "<"@[0]);
    assert("#"@[0] != "<"@[0]);
    assert("<="@[0] != "||"@[0]);
    assert("<="@[0] != ">>"@[0]);
    assert("||"@[0] != ">>"@[0]);
    assert("<"@ + "="@ =~= "<="@);
    assert(">"@ + "="@ =~= ">="@);
    assert("="@ + "="@ =~= "=="@);
    assert("!"@ + "="@ =~= "!="@);
    assert(">"@ + ">"@ =~= ">>"@);
    let ps = operator_pages();
    if !ps.contains(name) {
        assert(name != ps[0]);
        assert(name != ps[1]);
        assert(name != ps[2]);
        assert(name != ps[3]);
        assert(name != ps[4]);
        assert(name != ps[5]);
        assert(name != ps[6]);
        assert(name != ps[7]);
        assert(name != ps[8]);
        assert(name != ps[9]);
        assert(name != ps[10]);
        assert(name != ps[11]);
        assert(name != ps[12]);
        assert(name != ps[13]);
        assert(name != ps[14]);
        assert(name != ps[15]);
        assert(name != ps[16]);
        assert(name != ps[17]);
    }
}

} // verus!
