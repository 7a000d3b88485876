//! How a command is called: its arguments, and how the wiki writes them.
use vstd::prelude::*;

use crate::text::{
    chars_of, eq, is_whitespace, lemma_trimmed_start_index, message, slice_copy, split_first,
    split_once, string_of, trim, trimmed, holds, contains,
};

verus! {

broadcast use vstd::slice::group_slice_axioms;

/// An argument: a named item, an array of arguments, or a repeated pattern.
#[derive(Debug, PartialEq, Eq)]
pub enum Arg {
    Item(String),
    Array(Vec<Arg>),
    InfiniteItem(Box<Arg>),
    InfiniteFlat(Vec<Arg>),
}

/// The contents of an `Arg`.
pub enum ArgModel {
    Item(Seq<char>),
    Array(Seq<ArgModel>),
    InfiniteItem(Box<ArgModel>),
    InfiniteFlat(Seq<ArgModel>),
}

/// The contents of an argument.
pub open spec fn arg_model(a: Arg) -> ArgModel
    decreases a,
{
    match a {
        Arg::Item(s) => ArgModel::Item(s@),
        Arg::Array(v) => ArgModel::Array(
            Seq::new(
                v@.len(),
                |i: int|
                    if 0 <= i < v@.len() {
                        arg_model(v@[i])
                    } else {
                        ArgModel::Item(Seq::empty())
                    },
            ),
        ),
        Arg::InfiniteItem(b) => ArgModel::InfiniteItem(Box::new(arg_model(*b))),
        Arg::InfiniteFlat(v) => ArgModel::InfiniteFlat(
            Seq::new(
                v@.len(),
                |i: int|
                    if 0 <= i < v@.len() {
                        arg_model(v@[i])
                    } else {
                        ArgModel::Item(Seq::empty())
                    },
            ),
        ),
    }
}

impl View for Arg {
    type V = ArgModel;

    open spec fn view(&self) -> ArgModel {
        arg_model(*self)
    }
}

/// The contents of a list of arguments.
pub open spec fn args_model(v: Seq<Arg>) -> Seq<ArgModel> {
    v.map_values(|a: Arg| a@)
}

/// How a command is called: with no argument, one on the right, or one on each side.
#[derive(Debug, PartialEq, Eq)]
pub enum Call {
    Nular,
    Unary(Arg),
    Binary(Arg, Arg),
}

/// The contents of a `Call`.
pub enum CallModel {
    Nular,
    Unary(ArgModel),
    Binary(ArgModel, ArgModel),
}

impl View for Call {
    type V = CallModel;

    open spec fn view(&self) -> CallModel {
        match self {
            Call::Nular => CallModel::Nular,
            Call::Unary(a) => CallModel::Unary(a@),
            Call::Binary(a, b) => CallModel::Binary(a@, b@),
        }
    }
}

// ----- names -----

/// The names of the items of an argument, in order.
pub open spec fn arg_names(a: ArgModel) -> Seq<Seq<char>>
    decreases a,
{
    match a {
        ArgModel::Item(n) => seq![n],
        ArgModel::Array(v) => list_names(v),
        ArgModel::InfiniteItem(b) => arg_names(*b),
        ArgModel::InfiniteFlat(v) => list_names(v),
    }
}

/// The names of the items of a list of arguments, in order.
pub open spec fn list_names(v: Seq<ArgModel>) -> Seq<Seq<char>>
    decreases v,
{
    if v.len() == 0 {
        Seq::empty()
    } else {
        list_names(v.subrange(0, v.len() - 1)) + arg_names(v[v.len() - 1])
    }
}

/// The view of a list of strings.
pub open spec fn strings_view(v: Seq<String>) -> Seq<Seq<char>> {
    v.map_values(|s: String| s@)
}

fn push_names(a: &Arg, out: &mut Vec<String>)
    ensures
        strings_view(final(out)@) == strings_view(old(out)@) + arg_names(a@),
    decreases a,
{
    match a {
        Arg::Item(name) => {
            let ghost before = out@;
            out.push(string_of(&chars_of(name.as_str())));
            assert(strings_view(out@) =~= strings_view(before) + arg_names(a@));
        },
        Arg::Array(args) => {
            push_list_names(args, out);
            assert(match a@ { ArgModel::Array(m) => m =~= args_model(args@), _ => false });
        },
        Arg::InfiniteItem(b) => {
            push_names(b, out);
        },
        Arg::InfiniteFlat(args) => {
            push_list_names(args, out);
            assert(match a@ { ArgModel::InfiniteFlat(m) => m =~= args_model(args@), _ => false });
        },
    }
}

fn push_list_names(args: &Vec<Arg>, out: &mut Vec<String>)
    ensures
        strings_view(final(out)@) == strings_view(old(out)@) + list_names(args_model(args@)),
    decreases args, 0int,
{
    let ghost start = strings_view(out@);
    let mut i: usize = 0;
    assert(args_model(args@).subrange(0, 0) =~= Seq::<ArgModel>::empty());
    assert(start + Seq::<Seq<char>>::empty() =~= start);
    while i < args.len()
        invariant
            i <= args@.len(),
            strings_view(out@) == start + list_names(args_model(args@).subrange(0, i as int)),
        decreases args@.len() - i,
    {
        let ghost mid = strings_view(out@);
        push_names(&args[i], out);
        proof {
            let m = args_model(args@);
            let t = m.subrange(0, i + 1);
            assert(t.subrange(0, t.len() - 1) =~= m.subrange(0, i as int));
            assert(t[t.len() - 1] == args@[i as int]@);
            assert(strings_view(out@) =~= start + list_names(t));
        }
        i += 1;
    }
    assert(args_model(args@).subrange(0, args@.len() as int) =~= args_model(args@));
}

impl Arg {
    /// The names of the items of the argument, in order.
    pub fn names(&self) -> (r: Vec<String>)
        ensures
            strings_view(r@) == arg_names(self@),
    {
        let mut out: Vec<String> = Vec::new();
        push_names(self, &mut out);
        assert(strings_view(Seq::<String>::empty()) + arg_names(self@) =~= arg_names(self@));
        out
    }

    /// A copy of the argument.
    pub fn copy(&self) -> (r: Arg)
        ensures
            r@ == self@,
        decreases self,
    {
        match self {
            Arg::Item(s) => Arg::Item(string_of(&chars_of(s.as_str()))),
            Arg::Array(v) => {
                let c = copy_args(v);
                let r = Arg::Array(c);
                assert(r@ == self@) by {
                    assert(match r@ { ArgModel::Array(m) => m =~= args_model(v@), _ => false });
                    assert(match self@ { ArgModel::Array(m) => m =~= args_model(v@), _ => false });
                }
                r
            },
            Arg::InfiniteItem(b) => Arg::InfiniteItem(Box::new(b.copy())),
            Arg::InfiniteFlat(v) => {
                let c = copy_args(v);
                let r = Arg::InfiniteFlat(c);
                assert(r@ == self@) by {
                    assert(match r@ { ArgModel::InfiniteFlat(m) => m =~= args_model(v@), _ => false });
                    assert(match self@ { ArgModel::InfiniteFlat(m) => m =~= args_model(v@), _ => false });
                }
                r
            },
        }
    }
}

fn copy_args(v: &Vec<Arg>) -> (r: Vec<Arg>)
    ensures
        args_model(r@) == args_model(v@),
    decreases v, 0int,
{
    let mut out: Vec<Arg> = Vec::new();
    let mut i: usize = 0;
    while i < v.len()
        invariant
            i <= v@.len(),
            out@.len() == i,
            forall|k: int| 0 <= k < i ==> (#[trigger] out@[k])@ == v@[k]@,
        decreases v@.len() - i,
    {
        out.push(v[i].copy());
        i += 1;
    }
    assert(args_model(out@) =~= args_model(v@));
    out
}

impl Call {
    pub fn is_nular(&self) -> (r: bool)
        ensures
            r == (self@ is Nular),
    {
        matches!(self, Self::Nular)
    }

    pub fn is_unary(&self) -> (r: bool)
        ensures
            r == (self@ is Unary),
    {
        matches!(self, Self::Unary(_))
    }

    pub fn is_binary(&self) -> (r: bool)
        ensures
            r == (self@ is Binary),
    {
        matches!(self, Self::Binary(_, _))
    }

    /// The names of the parameters, the left argument's first.
    pub fn param_names(&self) -> (r: Vec<String>)
        ensures
            strings_view(r@) == match self@ {
                CallModel::Nular => Seq::empty(),
                CallModel::Unary(a) => arg_names(a),
                CallModel::Binary(a, b) => arg_names(a) + arg_names(b),
            },
    {
        match self {
            Self::Nular => {
                let r: Vec<String> = Vec::new();
                assert(strings_view(r@) =~= Seq::<Seq<char>>::empty());
                r
            },
            Self::Unary(arg) => arg.names(),
            Self::Binary(a, b) => {
                let mut out = a.names();
                push_names(b, &mut out);
                out
            },
        }
    }

    /// A copy of the call.
    pub fn copy(&self) -> (r: Call)
        ensures
            r@ == self@,
    {
        match self {
            Self::Nular => Self::Nular,
            Self::Unary(a) => Self::Unary(a.copy()),
            Self::Binary(a, b) => Self::Binary(a.copy(), b.copy()),
        }
    }
}

} // verus!
