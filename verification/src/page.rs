//! Reading a command's wiki page: its `key = value` blocks, read one after
//! the other into the command, with the blocks of each syntax read into it.
use vstd::prelude::*;

use crate::call::{Call, CallModel};
use crate::call_parser::{call_of_text, call_readable};
use crate::branch::{branch_of_text, Branch};
use crate::command::{cmd_name_of, get_cmd_name, locality_of, texts_of, Command, CommandView, Locality};
use crate::command_parser::{
    blocks_view, command_blocks, is_syntax_block, page_blocks, problem_notes, problem_notes_of, see_also, see_also_of,
    server_exec, server_exec_of, should_parse, words,
};
use crate::param::{param_of_call, pool_model, Param, ParamItem, ParamItemModel, ParamModel};
use crate::param_parser::{lacks_first_line, param_item_of};
use crate::return_type::{Return, ReturnView};
use crate::since::{since_after_psince, Since, SinceView};
use crate::syntax::{Syntax, SyntaxView};
use crate::text::{
    chars_of, concat, eq, is_digit, message, replace, replaced, slice_copy, starts, starts_with, string_of, trim,
    trim_start_matches, trimmed, trimmed_start_matches,
};
use crate::value::opt_since;

verus! {

broadcast use vstd::slice::group_slice_axioms;

// ----- keys -----

/// Where the first digit of a key is found, looking from `i` on.
pub open spec fn digits_start(k: Seq<char>, i: int) -> int
    decreases k.len() - i,
{
    if i < 0 || i >= k.len() || is_digit(k[i]) {
        i
    } else {
        digits_start(k, i + 1)
    }
}

/// Where the run of digits that starts at `i` ends.
pub open spec fn digits_end(k: Seq<char>, i: int) -> int
    decreases k.len() - i,
{
    if i < 0 || i >= k.len() || !is_digit(k[i]) {
        i
    } else {
        digits_end(k, i + 1)
    }
}

/// A block's key read as its kind, its number and its suffix: `p1since` is
/// `p`, `1` and `since`; `descr` is `descr` with no number and no suffix.
pub open spec fn key_parts(k: Seq<char>) -> (Seq<char>, Seq<char>, Seq<char>) {
    let a = digits_start(k, 0);
    let b = digits_end(k, a);
    (k.take(a), k.subrange(a, b), k.skip(b))
}

proof fn lemma_digits_start(k: Seq<char>, i: int)
    requires
        0 <= i <= k.len(),
    ensures
        i <= digits_start(k, i) <= k.len(),
        forall|j: int| i <= j < digits_start(k, i) ==> !is_digit(#[trigger] k[j]),
        digits_start(k, i) < k.len() ==> is_digit(k[digits_start(k, i)]),
    decreases k.len() - i,
{
    if i < k.len() && !is_digit(k[i]) {
        lemma_digits_start(k, i + 1);
    }
}

proof fn lemma_digits_end(k: Seq<char>, i: int)
    requires
        0 <= i <= k.len(),
    ensures
        i <= digits_end(k, i) <= k.len(),
        forall|j: int| i <= j < digits_end(k, i) ==> is_digit(#[trigger] k[j]),
        digits_end(k, i) < k.len() ==> !is_digit(k[digits_end(k, i)]),
    decreases k.len() - i,
{
    if i < k.len() && is_digit(k[i]) {
        lemma_digits_end(k, i + 1);
    }
}

proof fn lemma_key_parts(k: Seq<char>)
    ensures
        key_parts(k).0 + key_parts(k).1 + key_parts(k).2 == k,
{
    lemma_digits_start(k, 0);
    lemma_digits_end(k, digits_start(k, 0));
    let a = digits_start(k, 0);
    let b = digits_end(k, a);
    assert(k.take(a) + k.subrange(a, b) + k.skip(b) =~= k);
}

fn key_parts_chars(k: &[char]) -> (r: (Vec<char>, Vec<char>, Vec<char>))
    ensures
        (r.0@, r.1@, r.2@) == key_parts(k@),
{
    let mut a: usize = 0;
    while a < k.len() && !('0' <= k[a] && k[a] <= '9')
        invariant
            a <= k@.len(),
            digits_start(k@, a as int) == digits_start(k@, 0),
        decreases k@.len() - a,
    {
        a += 1;
    }
    let mut b: usize = a;
    while b < k.len() && '0' <= k[b] && k[b] <= '9'
        invariant
            a <= b <= k@.len(),
            digits_start(k@, 0) == a,
            digits_end(k@, b as int) == digits_end(k@, a as int),
        decreases k@.len() - b,
    {
        b += 1;
    }
    let kind = slice_copy(k, 0, a);
    let number = slice_copy(k, a, b);
    let suffix = slice_copy(k, b, k.len());
    assert(kind@ =~= k@.take(a as int));
    assert(suffix@ =~= k@.skip(b as int));
    (kind, number, suffix)
}

/// A block's text without bold markup (`'''`).
pub open spec fn debolded(s: Seq<char>) -> Seq<char> {
    replaced(s, "'''"@, Seq::empty())
}

fn debold(s: &[char]) -> (r: Vec<char>)
    ensures
        r@ == debolded(s@),
{
    let none: Vec<char> = Vec::new();
    assert(none@ =~= Seq::<char>::empty());
    replace(s, &chars_of("'''"), &none)
}

// ----- syntaxes -----

/// What the blocks of a syntax have given so far: its parameters (each with
/// the number of its key, in the order they were first given), its return,
/// its version and its effect.
pub struct SyntaxParts {
    pub ids: Seq<Seq<char>>,
    pub items: Seq<ParamItemModel>,
    pub ret: Option<ReturnView>,
    pub since: Option<SinceView>,
    pub effect: Option<Locality>,
}

/// Nothing given yet.
pub open spec fn no_parts() -> SyntaxParts {
    SyntaxParts { ids: Seq::empty(), items: Seq::empty(), ret: None, since: None, effect: None }
}

/// Where the parameter with a number is, looking from `i` on.
pub open spec fn id_pos(ids: Seq<Seq<char>>, id: Seq<char>, i: int) -> Option<int>
    decreases ids.len() - i,
{
    if i < 0 || i >= ids.len() {
        None
    } else if ids[i] == id {
        Some(i)
    } else {
        id_pos(ids, id, i + 1)
    }
}

proof fn lemma_id_pos(ids: Seq<Seq<char>>, id: Seq<char>, i: int)
    requires
        0 <= i <= ids.len(),
    ensures
        id_pos(ids, id, i) matches Some(k) ==> i <= k < ids.len() && ids[k] == id,
        id_pos(ids, id, i) is None ==> forall|j: int| i <= j < ids.len() ==> ids[j] != id,
    decreases ids.len() - i,
{
    if i < ids.len() && ids[i] != id {
        lemma_id_pos(ids, id, i + 1);
    }
}

/// The parts after one block of a syntax; `None` where reading it panics (a
/// parameter text that has a name but no first line).
#[verifier::opaque]
pub open spec fn syntax_step(command: Seq<char>, p: SyntaxParts, key: Seq<char>, value: Seq<char>) -> Option<
    Result<SyntaxParts, Seq<char>>,
> {
    let (kind, id, suffix) = key_parts(key);
    if kind == "p"@ && suffix.len() == 0 {
        let src = debolded(value);
        if lacks_first_line(src) {
            None
        } else {
            match param_item_of(command, src) {
                Err(e) => Some(Err(e)),
                Ok(it) => Some(
                    Ok(
                        match id_pos(p.ids, id, 0) {
                            Some(k) => SyntaxParts { items: p.items.update(k, it), ..p },
                            None => SyntaxParts { ids: p.ids.push(id), items: p.items.push(it), ..p },
                        },
                    ),
                ),
            }
        }
    } else if kind == "p"@ {
        match id_pos(p.ids, id, 0) {
            None => Some(Err("Found 'since' for unknown parameter p"@ + id)),
            Some(k) => {
                let it = p.items[k];
                let base = match it.since {
                    Some(s) => s,
                    None => SinceView::none(),
                };
                match since_after_psince(base, value) {
                    Err(e) => Some(Err(e)),
                    Ok(n) => Some(Ok(SyntaxParts { items: p.items.update(k, ParamItemModel { since: Some(n), ..it }), ..p })),
                }
            },
        }
    } else if kind == "r"@ {
        let src = debolded("return: "@ + value);
        if lacks_first_line(src) {
            None
        } else {
            match param_item_of(command, src) {
                Err(e) => Some(Err(e)),
                Ok(it) => Some(Ok(SyntaxParts { ret: Some(ReturnView { typ: it.typ, desc: it.desc }), ..p })),
            }
        }
    } else if suffix == "since"@ {
        let base = match p.since {
            Some(s) => s,
            None => SinceView::none(),
        };
        match since_after_psince(base, value) {
            Err(e) => Some(Err(e)),
            Ok(n) => Some(Ok(SyntaxParts { since: Some(n), ..p })),
        }
    } else {
        match locality_of(value) {
            Err(e) => Some(Err(e)),
            Ok(l) => Some(Ok(SyntaxParts { effect: Some(l), ..p })),
        }
    }
}

/// The parts given by the blocks of a syntax from `i` on, and where its
/// blocks end: at the first block that is not a parameter (`p1`, `p1since`),
/// a return (`r1`) or the syntax's version or effect (`s1since`, `s1effect`).
pub open spec fn syntax_blocks(command: Seq<char>, bs: Seq<(Seq<char>, Seq<char>)>, i: int, p: SyntaxParts) -> Option<
    Result<(SyntaxParts, int), Seq<char>>,
>
    decreases bs.len() - i,
{
    if i < 0 || i >= bs.len() {
        Some(Ok((p, i)))
    } else {
        let (kind, _, suffix) = key_parts(bs[i].0);
        if !is_syntax_block(kind, suffix) {
            Some(Ok((p, i)))
        } else {
            match syntax_step(command, p, bs[i].0, bs[i].1) {
                None => None,
                Some(Err(e)) => Some(Err(e)),
                Some(Ok(n)) => syntax_blocks(command, bs, i + 1, n),
            }
        }
    }
}

proof fn lemma_syntax_blocks_end(command: Seq<char>, bs: Seq<(Seq<char>, Seq<char>)>, i: int, p: SyntaxParts)
    ensures
        syntax_blocks(command, bs, i, p) matches Some(Ok((_, next))) ==> next >= i && (i <= bs.len()
            ==> next <= bs.len()),
    decreases bs.len() - i,
{
    if 0 <= i < bs.len() {
        let (kind, _, suffix) = key_parts(bs[i].0);
        if is_syntax_block(kind, suffix) {
            if let Some(Ok(n)) = syntax_step(command, p, bs[i].0, bs[i].1) {
                lemma_syntax_blocks_end(command, bs, i + 1, n);
            }
        }
    }
}

/// The sides of a call, each built from the pool: none for a nular call,
/// the right one for a unary call, and both (the right one first) for a
/// binary call.
pub open spec fn call_sides_of(c: CallModel, pool: Seq<ParamItemModel>) -> Result<
    (Option<ParamModel>, Option<ParamModel>),
    Seq<char>,
> {
    match c {
        CallModel::Nular => Ok((None, None)),
        CallModel::Unary(_) => match param_of_call(c, false, pool) {
            Err(e) => Err(e),
            Ok(r) => Ok((None, Some(r))),
        },
        CallModel::Binary(_, _) => match param_of_call(c, false, pool) {
            Err(e) => Err(e),
            Ok(r) => match param_of_call(c, true, pool) {
                Err(e) => Err(e),
                Ok(l) => Ok((Some(l), Some(r))),
            },
        },
    }
}

/// What a syntax reads as: its call from the syntax's text, then its blocks
/// from `start` on; the syntax and where its blocks end. `None` where reading
/// it panics.
pub open spec fn syntax_of(command: Seq<char>, source: Seq<char>, bs: Seq<(Seq<char>, Seq<char>)>, start: int) -> Option<
    Result<(SyntaxView, int), Seq<char>>,
> {
    if !call_readable(source) {
        None
    } else {
        match call_of_text(source) {
            Err(e) => Some(Err(e)),
            Ok(call) => match syntax_blocks(command, bs, start, no_parts()) {
                None => None,
                Some(Err(e)) => Some(Err(e)),
                Some(Ok((p, next))) => match call_sides_of(call, p.items) {
                    Err(e) => Some(Err(e)),
                    Ok((left, right)) => match p.ret {
                        None => Some(Err("Missing return type for command "@ + command)),
                        Some(ret) => Some(
                            Ok((SyntaxView { call, ret, left, right, since: p.since, effect: p.effect }, next)),
                        ),
                    },
                },
            },
        }
    }
}

/// A syntax read from its text has the call that its text reads as, and the
/// sides that call has: none for a nular call, the right one for a unary
/// call, both for a binary call.
pub proof fn lemma_syntax_shape(command: Seq<char>, source: Seq<char>, bs: Seq<(Seq<char>, Seq<char>)>, start: int)
    ensures
        syntax_of(command, source, bs, start) matches Some(Ok((sv, _))) ==> {
            &&& call_of_text(source) == Ok::<CallModel, Seq<char>>(sv.call)
            &&& (sv.call is Nular ==> sv.left is None && sv.right is None)
            &&& (sv.call is Unary ==> sv.left is None && sv.right is Some)
            &&& (sv.call is Binary ==> sv.left is Some && sv.right is Some)
        },
{
}

/// The parts that the syntax reader holds.
pub open spec fn parts_view(
    ids: Seq<Vec<char>>,
    pool: Seq<ParamItem>,
    ret: Option<Return>,
    since: Option<Since>,
    effect: Option<Locality>,
) -> SyntaxParts {
    SyntaxParts {
        ids: ids.map_values(|v: Vec<char>| v@),
        items: pool_model(pool),
        ret: match ret {
            Some(r) => Some(r@),
            None => None,
        },
        since: opt_since(since),
        effect,
    }
}

fn find_id(ids: &Vec<Vec<char>>, id: &[char]) -> (r: Option<usize>)
    ensures
        match r {
            Some(k) => id_pos(ids@.map_values(|v: Vec<char>| v@), id@, 0) == Some(k as int),
            None => id_pos(ids@.map_values(|v: Vec<char>| v@), id@, 0) is None,
        },
{
    let ghost iv = ids@.map_values(|v: Vec<char>| v@);
    let mut i: usize = 0;
    while i < ids.len()
        invariant
            iv == ids@.map_values(|v: Vec<char>| v@),
            i <= ids@.len(),
            id_pos(iv, id@, i as int) == id_pos(iv, id@, 0),
        decreases ids@.len() - i,
    {
        if eq(&ids[i], id) {
            assert(iv[i as int] == id@);
            return Some(i);
        }
        assert(iv[i as int] != id@);
        i += 1;
    }
    None
}

fn syntax_sides(call: &Call, pool: &Vec<ParamItem>) -> (r: Result<(Option<Param>, Option<Param>), String>)
    ensures
        match r {
            Ok((l, rt)) => call_sides_of(call@, pool_model(pool@)) == Ok::<
                (Option<ParamModel>, Option<ParamModel>),
                Seq<char>,
            >((crate::syntax::opt_param(l), crate::syntax::opt_param(rt))),
            Err(e) => call_sides_of(call@, pool_model(pool@)) == Err::<
                (Option<ParamModel>, Option<ParamModel>),
                Seq<char>,
            >(e@),
        },
{
    match call {
        Call::Nular => Ok((None, None)),
        Call::Unary(_) => match Param::from_pool_and_call(call, false, pool.as_slice()) {
            Err(e) => Err(e),
            Ok(r) => Ok((None, Some(r))),
        },
        Call::Binary(_, _) => match Param::from_pool_and_call(call, false, pool.as_slice()) {
            Err(e) => Err(e),
            Ok(r) => match Param::from_pool_and_call(call, true, pool.as_slice()) {
                Err(e) => Err(e),
                Ok(l) => Ok((Some(l), Some(r))),
            },
        },
    }
}

/// Reads one block of a syntax into the parts read so far.
fn read_syntax_block(
    command: &str,
    kind: &Vec<char>,
    id: &Vec<char>,
    suffix: &Vec<char>,
    value: &str,
    ids: &mut Vec<Vec<char>>,
    pool: &mut Vec<ParamItem>,
    ret: &mut Option<Return>,
    since: &mut Option<Since>,
    effect: &mut Option<Locality>,
) -> (r: Result<(), String>)
    requires
        old(ids)@.len() == old(pool)@.len(),
        is_syntax_block(kind@, suffix@),
        syntax_step(
            command@,
            parts_view(old(ids)@, old(pool)@, *old(ret), *old(since), *old(effect)),
            kind@ + id@ + suffix@,
            value@,
        ) is Some,
        key_parts(kind@ + id@ + suffix@) == (kind@, id@, suffix@),
    ensures
        final(ids)@.len() == final(pool)@.len(),
        match r {
            Ok(()) => syntax_step(
                command@,
                parts_view(old(ids)@, old(pool)@, *old(ret), *old(since), *old(effect)),
                kind@ + id@ + suffix@,
                value@,
            ) == Some(Ok::<SyntaxParts, Seq<char>>(parts_view(final(ids)@, final(pool)@, *final(ret), *final(since), *final(effect)))),
            Err(e) => syntax_step(
                command@,
                parts_view(old(ids)@, old(pool)@, *old(ret), *old(since), *old(effect)),
                kind@ + id@ + suffix@,
                value@,
            ) == Some(Err::<SyntaxParts, Seq<char>>(e@)),
        },
{
    let ghost cur = parts_view(ids@, pool@, *ret, *since, *effect);
    proof {
        lemma_id_pos(cur.ids, id@, 0);
        reveal(syntax_step);
    }
    if eq(kind, &chars_of("p")) && suffix.len() == 0 {
        let src = string_of(&debold(&chars_of(value)));
        let it = match ParamItem::parse(command, src.as_str()) {
            Ok((it, _)) => it,
            Err(e) => {
                return Err(e);
            },
        };
        match find_id(ids, id) {
            Some(k) => {
                pool.set(k, it);
                assert(pool_model(pool@) =~= cur.items.update(k as int, pool@[k as int]@));
            },
            None => {
                ids.push(copy_chars(id));
                pool.push(it);
                assert(ids@.map_values(|v: Vec<char>| v@) =~= cur.ids.push(id@));
                assert(pool_model(pool@) =~= cur.items.push(pool@.last()@));
            },
        }
    } else if eq(kind, &chars_of("p")) {
        let k = match find_id(ids, id) {
            Some(k) => k,
            None => {
                return Err(message("Found 'since' for unknown parameter p", id));
            },
        };
        proof {
            lemma_id_pos(cur.ids, id@, 0);
        }
        let mut it = pool[k].copy();
        let mut s = match it.since {
            Some(s) => s,
            None => Since::empty(),
        };
        match s.set_from_psince(value) {
            Err(e) => {
                return Err(e);
            },
            Ok(()) => {},
        }
        it.since = Some(s);
        pool.set(k, it);
        assert(pool_model(pool@) =~= cur.items.update(k as int, pool@[k as int]@));
    } else if eq(kind, &chars_of("r")) {
        let src = string_of(&debold(&concat(&chars_of("return: "), &chars_of(value))));
        let it = match ParamItem::parse(command, src.as_str()) {
            Ok((it, _)) => it,
            Err(e) => {
                return Err(e);
            },
        };
        *ret = Some(Return::new(it.typ, it.desc));
    } else if eq(suffix, &chars_of("since")) {
        let mut s = match *since {
            Some(s) => s,
            None => Since::empty(),
        };
        match s.set_from_psince(value) {
            Err(e) => {
                return Err(e);
            },
            Ok(()) => {},
        }
        *since = Some(s);
    } else {
        match Locality::parse(value) {
            Err(e) => {
                return Err(e);
            },
            Ok(l) => {
                *effect = Some(l);
            },
        }
    }
    Ok(())
}

fn copy_chars(v: &Vec<char>) -> (r: Vec<char>)
    ensures
        r@ == v@,
{
    slice_copy(v, 0, v.len())
}

impl Syntax {
    /// Reads a syntax: its call from the syntax's text, and its parameters,
    /// return, version and effect from the blocks that follow it, from
    /// `start` on. Gives the syntax and where its blocks end.
    pub fn parse(command: &str, source: &str, blocks: &[(String, String)], start: usize) -> (r: Result<
        (Syntax, usize),
        String,
    >)
        requires
            syntax_of(command@, source@, blocks_view(blocks@), start as int) is Some,
        ensures
            match r {
                Ok((s, next)) => syntax_of(command@, source@, blocks_view(blocks@), start as int) == Some(
                    Ok::<(SyntaxView, int), Seq<char>>((s@, next as int)),
                ),
                Err(e) => syntax_of(command@, source@, blocks_view(blocks@), start as int) == Some(
                    Err::<(SyntaxView, int), Seq<char>>(e@),
                ),
            },
    {
        let ghost bv = blocks_view(blocks@);
        let call = match Call::parse(source) {
            Ok(c) => c,
            Err(e) => {
                return Err(e);
            },
        };
        let mut ids: Vec<Vec<char>> = Vec::new();
        let mut pool: Vec<ParamItem> = Vec::new();
        let mut ret: Option<Return> = None;
        let mut since: Option<Since> = None;
        let mut effect: Option<Locality> = None;
        let mut i: usize = start;
        assert(parts_view(ids@, pool@, ret, since, effect) =~= no_parts()) by {
            assert(ids@.map_values(|v: Vec<char>| v@) =~= Seq::<Seq<char>>::empty());
            assert(pool_model(pool@) =~= Seq::<ParamItemModel>::empty());
        }
        loop
            invariant
                bv == blocks_view(blocks@),
                call_readable(source@),
                call_of_text(source@) == Ok::<CallModel, Seq<char>>(call@),
                start <= i,
                ids@.len() == pool@.len(),
                syntax_blocks(command@, bv, i as int, parts_view(ids@, pool@, ret, since, effect))
                    == syntax_blocks(command@, bv, start as int, no_parts()),
                syntax_blocks(command@, bv, start as int, no_parts()) is Some,
            ensures
                start <= i,
                ids@.len() == pool@.len(),
                syntax_blocks(command@, bv, start as int, no_parts()) == Some(
                    Ok::<(SyntaxParts, int), Seq<char>>((parts_view(ids@, pool@, ret, since, effect), i as int)),
                ),
            decreases blocks@.len() - i,
        {
            let ghost cur = parts_view(ids@, pool@, ret, since, effect);
            if i >= blocks.len() {
                break;
            }
            let key = chars_of(blocks[i].0.as_str());
            let value = blocks[i].1.as_str();
            assert(bv[i as int] == (key@, value@));
            let (kind, id, suffix) = key_parts_chars(&key);
            proof {
                lemma_key_parts(key@);
            }
            if !should_parse((string_of(&kind).as_str(), 0, string_of(&suffix).as_str())) {
                break;
            }
            match read_syntax_block(
                command,
                &kind,
                &id,
                &suffix,
                value,
                &mut ids,
                &mut pool,
                &mut ret,
                &mut since,
                &mut effect,
            ) {
                Err(e) => {
                    return Err(e);
                },
                Ok(()) => {},
            }
            i += 1;
        }
        proof {
            lemma_syntax_blocks_end(command@, bv, start as int, no_parts());
        }
        let (left, right) = match syntax_sides(&call, &pool) {
            Ok(sides) => sides,
            Err(e) => {
                return Err(e);
            },
        };
        let ret = match ret {
            Some(r) => r,
            None => {
                return Err(message("Missing return type for command ", &chars_of(command)));
            },
        };
        Ok((Syntax::new(call, ret, left, right, since, effect), i))
    }
}

// ----- commands -----

/// A command with only its name.
pub open spec fn blank_command(name: Seq<char>) -> CommandView {
    CommandView {
        name,
        desc: Seq::empty(),
        alias: Seq::empty(),
        multiplayer_note: None,
        problem_notes: Seq::empty(),
        groups: Seq::empty(),
        syntax: Seq::empty(),
        argument_loc: Locality::Unspecified,
        effect_loc: Locality::Unspecified,
        server_exec: None,
        since: SinceView::none(),
        branch: None,
        examples: Seq::empty(),
        see_also: Seq::empty(),
    }
}

/// While a tab is selected (`selected = N`), the blocks of the other tabs are
/// passed over: the tab being read and the tab waited for (`contentN`). Gives
/// the tab state after a passed-over block, or `None` where the block is read.
pub open spec fn tab_skip(tab: Option<(Seq<char>, Seq<char>)>, key: Seq<char>) -> Option<
    Option<(Seq<char>, Seq<char>)>,
> {
    match tab {
        None => None,
        Some((t, w)) => if t != w {
            Some(
                if key == w {
                    Some((key, w))
                } else {
                    tab
                },
            )
        } else if starts(key, "content"@) {
            Some(Some((key, w)))
        } else {
            None
        },
    }
}

/// What one block of a page does to the command being read.
pub enum PageStep {
    /// Go on at the given block with the command and tab state.
    Go(int, CommandView, Option<(Seq<char>, Seq<char>)>),
    /// Reading ends.
    Done(Result<CommandView, Seq<char>>),
    /// Reading panics: a `game` block is not followed by the blocks it needs.
    Stuck,
}

/// The message of a `game` block that a version block does not follow.
pub open spec fn expecting_version(key: Seq<char>) -> Seq<char> {
    "Unknown key when expecting version: "@ + key
}

/// What the block at `i` does (`0 <= i < bs.len()`).
#[verifier::opaque]
pub open spec fn page_step(
    name: Seq<char>,
    bs: Seq<(Seq<char>, Seq<char>)>,
    i: int,
    cmd: CommandView,
    tab: Option<(Seq<char>, Seq<char>)>,
) -> PageStep {
    let key = bs[i].0;
    let value = bs[i].1;
    match tab_skip(tab, key) {
        Some(t) => PageStep::Go(i + 1, cmd, t),
        None => if key == "selected"@ {
            PageStep::Go(i + 1, cmd, Some((Seq::empty(), "content"@ + value)))
        } else if key == "alias"@ {
            PageStep::Go(i + 1, CommandView { alias: cmd.alias.push(value), ..cmd }, tab)
        } else if key == "arg"@ {
            match locality_of(value) {
                Ok(l) => PageStep::Go(i + 1, CommandView { argument_loc: l, ..cmd }, tab),
                Err(e) => PageStep::Done(Err(e)),
            }
        } else if key == "eff"@ {
            match locality_of(value) {
                Ok(l) => PageStep::Go(i + 1, CommandView { effect_loc: l, ..cmd }, tab),
                Err(e) => PageStep::Done(Err(e)),
            }
        } else if key == "serverExec"@ {
            PageStep::Go(i + 1, CommandView { server_exec: Some(server_exec_of(value)), ..cmd }, tab)
        } else if key == "descr"@ {
            PageStep::Go(i + 1, CommandView { desc: value, ..cmd }, tab)
        } else if key == "mp"@ {
            PageStep::Go(i + 1, CommandView { multiplayer_note: Some(value), ..cmd }, tab)
        } else if key == "pr"@ {
            PageStep::Go(i + 1, CommandView { problem_notes: cmd.problem_notes + problem_notes_of(value), ..cmd }, tab)
        } else if key == "seealso"@ {
            PageStep::Done(Ok(CommandView { see_also: cmd.see_also + see_also_of(words(value)), ..cmd }))
        } else if key == "branch"@ {
            match branch_of_text(value) {
                Ok(b) => PageStep::Go(i + 1, CommandView { branch: Some(b), ..cmd }, tab),
                Err(e) => PageStep::Done(Err(e)),
            }
        } else if starts(key, "game"@) {
            if i + 1 >= bs.len() {
                PageStep::Stuck
            } else if starts(bs[i + 1].0, "branch"@) {
                match branch_of_text(bs[i + 1].1) {
                    Err(e) => PageStep::Done(Err(e)),
                    Ok(b) => if i + 2 >= bs.len() {
                        PageStep::Stuck
                    } else if !starts(bs[i + 2].0, "version"@) {
                        PageStep::Done(Err(expecting_version(bs[i + 2].0)))
                    } else {
                        PageStep::Go(i + 3, CommandView { branch: Some(b), ..cmd }, tab)
                    },
                }
            } else if !starts(bs[i + 1].0, "version"@) {
                PageStep::Done(Err(expecting_version(bs[i + 1].0)))
            } else {
                PageStep::Go(i + 2, cmd, tab)
            }
        } else if starts(key, "gr"@) {
            PageStep::Go(i + 1, CommandView { groups: cmd.groups.push(value), ..cmd }, tab)
        } else if starts(key, "s"@) && key != "sortKey"@ {
            match syntax_of(cmd.name, value, bs, i + 1) {
                None => PageStep::Stuck,
                Some(Err(e)) => PageStep::Done(Err(e)),
                Some(Ok((sv, next))) => PageStep::Go(next, CommandView { syntax: cmd.syntax.push(sv), ..cmd }, tab),
            }
        } else if starts(key, "x"@) {
            PageStep::Go(
                i + 1,
                CommandView { examples: cmd.examples.push(trimmed_start_matches(trimmed(value), seq!['\n'])), ..cmd },
                tab,
            )
        } else if key == "sortKey"@ {
            PageStep::Go(i + 1, cmd, tab)
        } else {
            PageStep::Done(Err("Unknown key in command '"@ + name + "': "@ + key))
        },
    }
}

/// Reading a block goes on at a later block.
pub proof fn lemma_page_step_advances(
    name: Seq<char>,
    bs: Seq<(Seq<char>, Seq<char>)>,
    i: int,
    cmd: CommandView,
    tab: Option<(Seq<char>, Seq<char>)>,
)
    requires
        0 <= i < bs.len(),
    ensures
        page_step(name, bs, i, cmd, tab) matches PageStep::Go(j, _, _) ==> i < j <= bs.len(),
{
    reveal(page_step);
    let key = bs[i].0;
    let value = bs[i].1;
    if let Some(Ok((_, next))) = syntax_of(cmd.name, value, bs, i + 1) {
        if call_readable(value) {
            if let Ok(_) = call_of_text(value) {
                lemma_syntax_blocks_end(cmd.name, bs, i + 1, no_parts());
            }
        }
    }
}

/// The command read from the blocks from `i` on; `None` where reading panics.
pub open spec fn command_run(
    name: Seq<char>,
    bs: Seq<(Seq<char>, Seq<char>)>,
    i: int,
    cmd: CommandView,
    tab: Option<(Seq<char>, Seq<char>)>,
) -> Option<Result<CommandView, Seq<char>>>
    decreases bs.len() - i,
{
    if i < 0 || i >= bs.len() {
        Some(Ok(cmd))
    } else {
        match page_step(name, bs, i, cmd, tab) {
            PageStep::Stuck => None,
            PageStep::Done(r) => Some(r),
            PageStep::Go(j, c, t) => {
                proof {
                    lemma_page_step_advances(name, bs, i, cmd, tab);
                    assert(i < j <= bs.len());
                }
                command_run(name, bs, j, c, t)
            },
        }
    }
}

/// What a command's page reads as: its blocks (`page_blocks`) read one after
/// the other into a command named after the page (`cmd_name_of`); `None`
/// where reading panics.
pub open spec fn command_of_page(name: Seq<char>, source: Seq<char>) -> Option<Result<CommandView, Seq<char>>> {
    command_run(name, page_blocks(source), 0, blank_command(cmd_name_of(name)), None)
}

/// The page can be read without a panic: no `game` block without the version
/// block (and branch block) after it, and every syntax's call and parameters
/// can be read.
pub open spec fn page_readable(name: Seq<char>, source: Seq<char>) -> bool {
    command_of_page(name, source) is Some
}

proof fn lemma_run_keeps_name(
    name: Seq<char>,
    bs: Seq<(Seq<char>, Seq<char>)>,
    i: int,
    cmd: CommandView,
    tab: Option<(Seq<char>, Seq<char>)>,
)
    ensures
        command_run(name, bs, i, cmd, tab) matches Some(Ok(c)) ==> c.name == cmd.name,
    decreases bs.len() - i,
{
    if 0 <= i < bs.len() {
        reveal(page_step);
        lemma_page_step_advances(name, bs, i, cmd, tab);
        match page_step(name, bs, i, cmd, tab) {
            PageStep::Go(j, c, t) => {
                assert(c.name == cmd.name);
                lemma_run_keeps_name(name, bs, j, c, t);
            },
            _ => {},
        }
    }
}

/// A command read from its page is named after the page (`cmd_name_of`
/// decodes names such as `a_greater%3D_b` into `>=`).
pub proof fn lemma_page_name(name: Seq<char>, source: Seq<char>)
    ensures
        command_of_page(name, source) matches Some(Ok(c)) ==> c.name == cmd_name_of(name),
{
    lemma_run_keeps_name(name, page_blocks(source), 0, blank_command(cmd_name_of(name)), None);
}

/// A `serverExec` block that is read says whether the command runs on the
/// server: it sets `server_exec` to whether its value, trimmed, is `y`,
/// `true` or `server`, and changes nothing else; an `arg` block sets where
/// the arguments must be and an `eff` block where the effect shows, each to
/// the locality its value names.
pub proof fn lemma_page_flags(
    name: Seq<char>,
    bs: Seq<(Seq<char>, Seq<char>)>,
    i: int,
    cmd: CommandView,
    tab: Option<(Seq<char>, Seq<char>)>,
)
    requires
        0 <= i < bs.len(),
        tab_skip(tab, bs[i].0) is None,
    ensures
        bs[i].0 == "serverExec"@ ==> page_step(name, bs, i, cmd, tab) == PageStep::Go(
            i + 1,
            CommandView {
                server_exec: Some(
                    trimmed(bs[i].1) == "y"@ || trimmed(bs[i].1) == "true"@ || trimmed(bs[i].1) == "server"@,
                ),
                ..cmd
            },
            tab,
        ),
        bs[i].0 == "arg"@ && locality_of(bs[i].1) is Ok ==> page_step(name, bs, i, cmd, tab) == PageStep::Go(
            i + 1,
            CommandView { argument_loc: locality_of(bs[i].1)->Ok_0, ..cmd },
            tab,
        ),
        bs[i].0 == "eff"@ && locality_of(bs[i].1) is Ok ==> page_step(name, bs, i, cmd, tab) == PageStep::Go(
            i + 1,
            CommandView { effect_loc: locality_of(bs[i].1)->Ok_0, ..cmd },
            tab,
        ),
{
    reveal(page_step);
    reveal_strlit("serverExec");
    reveal_strlit("selected");
    reveal_strlit("alias");
    reveal_strlit("arg");
    reveal_strlit("eff");
    assert("arg"@[0] != "eff"@[0]);
}

/// The view of the tab state.
pub open spec fn tab_view(t: Option<(Vec<char>, Vec<char>)>) -> Option<(Seq<char>, Seq<char>)> {
    match t {
        Some((a, b)) => Some((a@, b@)),
        None => None,
    }
}

fn add_problem_notes(cmd: &mut Command, value: &str)
    ensures
        final(cmd)@ == (CommandView { problem_notes: old(cmd)@.problem_notes + problem_notes_of(value@), ..old(cmd)@ }),
{
    let notes = problem_notes(value);
    let ghost start = cmd@;
    let mut k: usize = 0;
    while k < notes.len()
        invariant
            k <= notes@.len(),
            texts_of(notes@) == problem_notes_of(value@),
            cmd@ == (CommandView { problem_notes: start.problem_notes + texts_of(notes@).take(k as int), ..start }),
        decreases notes@.len() - k,
    {
        cmd.add_problem_note(string_of(&chars_of(notes[k].as_str())));
        assert(texts_of(notes@).take(k + 1) =~= texts_of(notes@).take(k as int).push(notes@[k as int]@));
        assert(start.problem_notes + texts_of(notes@).take(k + 1) =~= (start.problem_notes + texts_of(
            notes@,
        ).take(k as int)).push(notes@[k as int]@));
        k += 1;
    }
    assert(texts_of(notes@).take(notes@.len() as int) =~= texts_of(notes@));
}

fn add_see_also_names(cmd: &mut Command, value: &str)
    ensures
        final(cmd)@ == (CommandView { see_also: old(cmd)@.see_also + see_also_of(words(value@)), ..old(cmd)@ }),
{
    let names = see_also(value);
    let ghost start = cmd@;
    let mut k: usize = 0;
    while k < names.len()
        invariant
            k <= names@.len(),
            texts_of(names@) == see_also_of(words(value@)),
            cmd@ == (CommandView { see_also: start.see_also + texts_of(names@).take(k as int), ..start }),
        decreases names@.len() - k,
    {
        cmd.add_see_also(string_of(&chars_of(names[k].as_str())));
        assert(texts_of(names@).take(k + 1) =~= texts_of(names@).take(k as int).push(names@[k as int]@));
        assert(start.see_also + texts_of(names@).take(k + 1) =~= (start.see_also + texts_of(names@).take(
            k as int,
        )).push(names@[k as int]@));
        k += 1;
    }
    assert(texts_of(names@).take(names@.len() as int) =~= texts_of(names@));
}

/// The outcome of one block: go on at a block, or stop with the command.
pub enum BlockOutcome {
    Next(usize),
    Stop,
}

fn read_page_block(
    name: &str,
    blocks: &Vec<(String, String)>,
    i: usize,
    cmd: &mut Command,
    tab: &mut Option<(Vec<char>, Vec<char>)>,
) -> (r: Result<BlockOutcome, String>)
    requires
        i < blocks@.len(),
        !(page_step(name@, blocks_view(blocks@), i as int, old(cmd)@, tab_view(*old(tab))) is Stuck),
    ensures
        match r {
            Ok(BlockOutcome::Next(j)) => page_step(name@, blocks_view(blocks@), i as int, old(cmd)@, tab_view(*old(tab)))
                == PageStep::Go(j as int, final(cmd)@, tab_view(*final(tab))),
            Ok(BlockOutcome::Stop) => page_step(name@, blocks_view(blocks@), i as int, old(cmd)@, tab_view(*old(tab)))
                == PageStep::Done(Ok::<CommandView, Seq<char>>(final(cmd)@)),
            Err(e) => page_step(name@, blocks_view(blocks@), i as int, old(cmd)@, tab_view(*old(tab)))
                == PageStep::Done(Err::<CommandView, Seq<char>>(e@)),
        },
{
    reveal(page_step);
    let ghost bv = blocks_view(blocks@);
    assert(i < blocks.len());
    let key = chars_of(blocks[i].0.as_str());
    let value = blocks[i].1.as_str();
    assert(bv[i as int] == (key@, value@));
    let mut skipped: Option<(Vec<char>, Vec<char>)> = None;
    let mut skip = false;
    match &*tab {
        Some((t, w)) => {
            if !eq(t, w) {
                skip = true;
                skipped = if eq(&key, w) {
                    Some((copy_chars(&key), copy_chars(w)))
                } else {
                    Some((copy_chars(t), copy_chars(w)))
                };
            } else if starts_with(&key, &chars_of("content")) {
                skip = true;
                skipped = Some((copy_chars(&key), copy_chars(w)));
            }
        },
        None => {},
    }
    if skip {
        assert(tab_skip(tab_view(*tab), key@) == Some(tab_view(skipped)));
        *tab = skipped;
        return Ok(BlockOutcome::Next(i + 1));
    }
    assert(tab_skip(tab_view(*tab), key@) is None);
    if eq(&key, &chars_of("selected")) {
        *tab = Some((Vec::new(), concat(&chars_of("content"), &chars_of(value))));
        assert(tab_view(*tab) == Some((Seq::<char>::empty(), "content"@ + value@)));
        Ok(BlockOutcome::Next(i + 1))
    } else if eq(&key, &chars_of("alias")) {
        cmd.add_alias(string_of(&chars_of(value)));
        Ok(BlockOutcome::Next(i + 1))
    } else if eq(&key, &chars_of("arg")) {
        match Locality::parse(value) {
            Ok(l) => {
                cmd.set_argument_loc(l);
                Ok(BlockOutcome::Next(i + 1))
            },
            Err(e) => Err(e),
        }
    } else if eq(&key, &chars_of("eff")) {
        match Locality::parse(value) {
            Ok(l) => {
                cmd.set_effect_loc(l);
                Ok(BlockOutcome::Next(i + 1))
            },
            Err(e) => Err(e),
        }
    } else if eq(&key, &chars_of("serverExec")) {
        cmd.set_server_exec(Some(server_exec(value)));
        Ok(BlockOutcome::Next(i + 1))
    } else if eq(&key, &chars_of("descr")) {
        cmd.set_description(string_of(&chars_of(value)));
        Ok(BlockOutcome::Next(i + 1))
    } else if eq(&key, &chars_of("mp")) {
        cmd.set_multiplayer_note(Some(string_of(&chars_of(value))));
        Ok(BlockOutcome::Next(i + 1))
    } else if eq(&key, &chars_of("pr")) {
        add_problem_notes(cmd, value);
        Ok(BlockOutcome::Next(i + 1))
    } else if eq(&key, &chars_of("seealso")) {
        add_see_also_names(cmd, value);
        Ok(BlockOutcome::Stop)
    } else if eq(&key, &chars_of("branch")) {
        match Branch::parse(value) {
            Ok(b) => {
                *cmd.branch_mut() = Some(b);
                Ok(BlockOutcome::Next(i + 1))
            },
            Err(e) => Err(e),
        }
    } else if starts_with(&key, &chars_of("game")) {
        let k1 = chars_of(blocks[i + 1].0.as_str());
        assert(bv[i + 1] == (k1@, blocks@[i + 1].1@));
        if starts_with(&k1, &chars_of("branch")) {
            match Branch::parse(blocks[i + 1].1.as_str()) {
                Err(e) => Err(e),
                Ok(b) => {
                    let k2 = chars_of(blocks[i + 2].0.as_str());
                    assert(bv[i + 2].0 == k2@);
                    if !starts_with(&k2, &chars_of("version")) {
                        let e = message("Unknown key when expecting version: ", &k2);
                        Err(e)
                    } else {
                        *cmd.branch_mut() = Some(b);
                        Ok(BlockOutcome::Next(i + 3))
                    }
                },
            }
        } else if !starts_with(&k1, &chars_of("version")) {
            let e = message("Unknown key when expecting version: ", &k1);
            Err(e)
        } else {
            Ok(BlockOutcome::Next(i + 2))
        }
    } else if starts_with(&key, &chars_of("gr")) {
        cmd.add_group(string_of(&chars_of(value)));
        Ok(BlockOutcome::Next(i + 1))
    } else if starts_with(&key, &chars_of("s")) && !eq(&key, &chars_of("sortKey")) {
        let cname = string_of(&chars_of(cmd.name()));
        match Syntax::parse(cname.as_str(), value, blocks.as_slice(), i + 1) {
            Err(e) => Err(e),
            Ok((syntax, next)) => {
                cmd.add_syntax(syntax);
                Ok(BlockOutcome::Next(next))
            },
        }
    } else if starts_with(&key, &chars_of("x")) {
        let nl = ['\n'];
        assert(nl@ =~= seq!['\n']);
        cmd.add_example(string_of(&trim_start_matches(&trim(&chars_of(value)), nl.as_slice())));
        Ok(BlockOutcome::Next(i + 1))
    } else if eq(&key, &chars_of("sortKey")) {
        Ok(BlockOutcome::Next(i + 1))
    } else {
        let m = concat(&concat(&chars_of(name), &chars_of("': ")), &key);
        let e = message("Unknown key in command '", &m);
        assert(e@ =~= "Unknown key in command '"@ + name@ + "': "@ + key@);
        Err(e)
    }
}

/// Reads a command from its wiki page: the page's blocks are read one after
/// the other into a command named after the page. No parse warnings are
/// produced: the list that comes with the command is empty.
pub fn parse_command(name: &str, source: &str) -> (r: Result<(Command, Vec<String>), String>)
    requires
        page_readable(name@, source@),
    ensures
        match r {
            Ok((c, w)) => command_of_page(name@, source@) == Some(Ok::<CommandView, Seq<char>>(c@)) && w@.len() == 0
                && c@.name == cmd_name_of(name@),
            Err(e) => command_of_page(name@, source@) == Some(Err::<CommandView, Seq<char>>(e@)),
        },
{
    proof {
        lemma_page_name(name@, source@);
    }
    let blocks = command_blocks(source);
    let ghost bv = blocks_view(blocks@);
    let mut cmd = Command::default();
    cmd.set_name(get_cmd_name(name));
    assert(cmd@ == blank_command(cmd_name_of(name@)));
    let mut tab: Option<(Vec<char>, Vec<char>)> = None;
    let mut i: usize = 0;
    while i < blocks.len()
        invariant
            bv == blocks_view(blocks@),
            bv == page_blocks(source@),
            command_run(name@, bv, i as int, cmd@, tab_view(tab)) == command_of_page(name@, source@),
            command_of_page(name@, source@) is Some,
            command_of_page(name@, source@) matches Some(Ok(c)) ==> c.name == cmd_name_of(name@),
        decreases blocks@.len() - i,
    {
        proof {
            assert(bv.len() == blocks@.len());
            lemma_page_step_advances(name@, bv, i as int, cmd@, tab_view(tab));
        }
        match read_page_block(name, &blocks, i, &mut cmd, &mut tab) {
            Err(e) => {
                return Err(e);
            },
            Ok(BlockOutcome::Stop) => {
                return Ok((cmd, Vec::new()));
            },
            Ok(BlockOutcome::Next(j)) => {
                i = j;
            },
        }
    }
    Ok((cmd, Vec::new()))
}

} // verus!
