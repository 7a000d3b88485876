//! Reading parameter definitions from the wiki, such as
//! `speed: [[Number]] - The speed of the vehicle.`, and the helpers they use.
use vstd::prelude::*;

use crate::call::{Arg, ArgModel, Call};
use crate::call_parser::{opt_view, params_of};
use crate::param::{
    param_of_arg, param_value, pool_model, Param, ParamItem, ParamItemModel, ParamModel,
};
use crate::since::{Since, SinceView};
use crate::text::{
    all_digits, chars_of, concat, contains, ends_with, eq, find, find_at, replaced, find_from, find_in, holds,
    lemma_find, lemma_find_from, lines, lines_of, lower, lowercase_of, message, occurs_at,
    parse_i32, i32_of_text, slice_copy, slice_of, split_first, split_once, starts,
    starts_with, string_of, texts, trim, trim_end_matches, trim_start, trim_start_matches,
    trimmed, trimmed_end_matches, line_end, without_cr, is_ws, trimmed_end, ends, trimmed_start, trimmed_start_matches,
};
use crate::value::{number_enum_model, one_of_model, Kind, value_model, string_enum_model, opt_since, opt_text, NumberEnumModel, NumberEnumValue, OneOfModel, OneOfValue, StringEnumModel,
    StringEnumValue, Value, ValueModel,
};
use crate::command_parser::{split_all, split_chars, texts_of_chars};
use crate::value_parser::{
    fuel_for, since_prefix, since_prefix_of, value_of_chars, value_of_text, value_result,
};

verus! {

broadcast use vstd::slice::group_slice_axioms;

/// The text from position `i` on; empty past the end.
pub open spec fn tail_from(s: Seq<char>, i: int) -> Seq<char> {
    if 0 <= i <= s.len() {
        s.skip(i)
    } else {
        Seq::empty()
    }
}

pub(crate) fn copy_tail(s: &[char], i: usize) -> (r: Vec<char>)
    ensures
        r@ == tail_from(s@, i as int),
{
    if i <= s.len() {
        let r = slice_copy(s, i, s.len());
        assert(r@ =~= s@.skip(i as int));
        r
    } else {
        Vec::new()
    }
}

// ----- wiki links -----

/// The text with each wiki link `[[link|text]]` or `[[text]]` replaced by its text.
pub open spec fn markup_stripped(s: Seq<char>) -> Seq<char>
    decreases s.len(),
{
    match find_in(s, seq!['[', '[']) {
        None => s,
        Some(a) => match find_from(s, seq![']', ']'], a + 2) {
            None => s,
            Some(e) => {
                let inside = slice_of(s, a + 2, e);
                let shown = match find_in(inside, seq!['|']) {
                    Some(p) => inside.skip(p + 1),
                    None => inside,
                };
                let next = s.take(a) + shown + tail_from(s, e + 2);
                if next.len() < s.len() {
                    markup_stripped(next)
                } else {
                    next
                }
            },
        },
    }
}

/// One step of stripping leaves a shorter text.
proof fn lemma_strip_step(s: Seq<char>, a: int, e: int)
    requires
        find_in(s, seq!['[', '[']) == Some(a),
        find_from(s, seq![']', ']'], a + 2) == Some(e),
    ensures
        ({
            let inside = slice_of(s, a + 2, e);
            let shown = match find_in(inside, seq!['|']) {
                Some(p) => inside.skip(p + 1),
                None => inside,
            };
            (s.take(a) + shown + tail_from(s, e + 2)).len() < s.len()
        }),
{
    lemma_find(s, seq!['[', '[']);
    lemma_find_from(s, seq![']', ']'], a + 2);
    let inside = slice_of(s, a + 2, e);
    lemma_find(inside, seq!['|']);
}

/// Stripping wiki links never makes a text longer; a text without `[[` is
/// left as it is; and what it leaves is stripped already: it holds no `[[`
/// that a `]]` follows.
pub proof fn lemma_markup_stripped(s: Seq<char>)
    ensures
        markup_stripped(s).len() <= s.len(),
        !holds(s, seq!['[', '[']) ==> markup_stripped(s) == s,
        markup_stripped(markup_stripped(s)) == markup_stripped(s),
        find_in(markup_stripped(s), seq!['[', '[']) matches Some(a) ==> find_from(
            markup_stripped(s),
            seq![']', ']'],
            a + 2,
        ) is None,
    decreases s.len(),
{
    match find_in(s, seq!['[', '[']) {
        None => {},
        Some(a) => match find_from(s, seq![']', ']'], a + 2) {
            None => {},
            Some(e) => {
                lemma_strip_step(s, a, e);
                let inside = slice_of(s, a + 2, e);
                let shown = match find_in(inside, seq!['|']) {
                    Some(p) => inside.skip(p + 1),
                    None => inside,
                };
                let next = s.take(a) + shown + tail_from(s, e + 2);
                lemma_markup_stripped(next);
            },
        },
    }
}

/// Replaces each wiki link `[[link|text]]` or `[[text]]` by its text.
#[verifier::spinoff_prover]
pub fn strip_wiki_markup(text: &str) -> (r: String)
    ensures
        r@ == markup_stripped(text@),
{
    let mut s = chars_of(text);
    let open = ['[', '['];
    let close = [']', ']'];
    let bar = ['|'];
    assert(open@ =~= seq!['[', '[']);
    assert(close@ =~= seq![']', ']']);
    assert(bar@ =~= seq!['|']);
    loop
        invariant
            open@ == seq!['[', '['],
            close@ == seq![']', ']'],
            bar@ == seq!['|'],
            markup_stripped(s@) == markup_stripped(text@),
        decreases s@.len(),
    {
        let a = match find(&s, open.as_slice()) {
            Some(a) => a,
            None => {
                return string_of(&s);
            },
        };
        proof {
            lemma_find(s@, open@);
        }
        let e = match find_at(&s, close.as_slice(), a + 2) {
            Some(e) => e,
            None => {
                return string_of(&s);
            },
        };
        proof {
            lemma_find_from(s@, close@, a + 2);
        }
        let inside = slice_copy(&s, a + 2, e);
        let shown = match find(&inside, bar.as_slice()) {
            Some(p) => {
                proof {
                    lemma_find(inside@, bar@);
                }
                slice_copy(&inside, p + 1, inside.len())
            },
            None => inside,
        };
        assert(e + 2 <= s@.len());
        assert(e + 2 <= s.len());
        let head = slice_copy(&s, 0, a);
        let tail = copy_tail(&s, e + 2);
        let next = concat(&concat(&head, &shown), &tail);
        assert(next@.len() < s@.len());
        proof {
            assert(head@ =~= s@.take(a as int));
            match find_in(inside@, bar@) {
                Some(p) => {
                    assert(shown@ =~= inside@.skip(p + 1));
                },
                None => {},
            }
        }
        s = next;
    }
}

// ----- optional parameters -----

/// What a description that starts with `(Optional` says: the default given as
/// `default x` inside the parenthesis (without `[[ ]]`), and the text after the
/// parenthesis. The parenthesis is searched in the lowercase text, and the
/// positions found there are used in the text as given.
pub open spec fn optional_of(s: Seq<char>) -> Option<(Option<Seq<char>>, Seq<char>)> {
    let l = lowercase_of(trimmed(s));
    if !starts(l, "(optional"@) {
        None
    } else {
        match find_in(l, "default "@) {
            Some(d) => {
                let e = match find_from(l, ")"@, d) {
                    Some(k) => k,
                    None => l.len() as int,
                };
                let raw = trimmed(slice_of(l, d + "default "@.len(), e));
                Some(
                    (
                        Some(trimmed_end_matches(trimmed_start_matches(raw, "[["@), "]]"@)),
                        trimmed(tail_from(s, e + 1)),
                    ),
                )
            },
            None => match find_in(l, ")"@) {
                Some(c) => Some((None, trimmed(tail_from(s, c + 1)))),
                None => Some((None, trimmed(s))),
            },
        }
    }
}

/// The view of an optional description.
pub open spec fn optional_view(r: Option<(Option<String>, String)>) -> Option<(Option<Seq<char>>, Seq<char>)> {
    match r {
        Some((d, t)) => Some((opt_text(d), t@)),
        None => None,
    }
}

fn optional_chars(s: &[char]) -> (r: Option<(Option<Vec<char>>, Vec<char>)>)
    ensures
        match r {
            Some((d, t)) => optional_of(s@) == Some((
                match d {
                    Some(x) => Some(x@),
                    None => None::<Seq<char>>,
                },
                t@,
            )),
            None => optional_of(s@) is None,
        },
{
    let t = trim(s);
    let l = lower(&t);
    if !starts_with(&l, &chars_of("(optional")) {
        return None;
    }
    let def = chars_of("default ");
    let close = chars_of(")");
    match find(&l, &def) {
        Some(d) => {
            proof {
                lemma_find(l@, def@);
            }
            let e = match find_at(&l, &close, d) {
                Some(k) => {
                    proof {
                        lemma_find_from(l@, close@, d as int);
                    }
                    k
                },
                None => l.len(),
            };
            assert(d + def@.len() <= l@.len());
            assert(d + def.len() <= l.len());
            let a = d + def.len();
            let raw = if a <= e {
                trim(&slice_copy(&l, a, e))
            } else {
                Vec::new()
            };
            assert(raw@ == trimmed(slice_of(l@, d + def@.len(), e as int)));
            let value = trim_end_matches(&trim_start_matches(&raw, &chars_of("[[")), &chars_of("]]"));
            let rest = if e < s.len() {
                trim(&copy_tail(s, e + 1))
            } else {
                trim(&Vec::new())
            };
            assert(e >= s@.len() ==> tail_from(s@, e + 1) =~= Seq::<char>::empty());
            Some((Some(value), rest))
        },
        None => match find(&l, &close) {
            Some(c) => {
                let rest = if c < s.len() {
                    trim(&copy_tail(s, c + 1))
                } else {
                    trim(&Vec::new())
                };
                assert(c >= s@.len() ==> tail_from(s@, c + 1) =~= Seq::<char>::empty());
                Some((None, rest))
            },
            None => Some((None, t)),
        },
    }
}

/// Reads an optional parameter's description, such as
/// `(Optional, default 5) The number of items.`: the default, if one is
/// given, and the rest of the description.
pub fn try_optional(source: &str) -> (r: Option<(Option<String>, String)>)
    ensures
        optional_view(r) == optional_of(source@),
{
    match optional_chars(&chars_of(source)) {
        Some((d, t)) => Some((
            match d {
                Some(x) => Some(string_of(&x)),
                None => None,
            },
            string_of(&t),
        )),
        None => None,
    }
}

// ----- string enumeration values -----

/// `{{hl|"`, which opens a highlighted string value.
pub open spec fn hl_open() -> Seq<char> {
    seq!['{', '{', 'h', 'l', '|', '"']
}

/// The quoted value of a line such as `{{hl|"VALUE"}}`, or of a line that
/// starts (after spaces) with `"VALUE"`.
pub open spec fn quoted_value(s: Seq<char>) -> Option<Seq<char>> {
    let highlighted = match find_in(s, hl_open()) {
        Some(a) => match find_in(s.skip(a + 6), seq!['"']) {
            Some(e) => Some(s.skip(a + 6).take(e)),
            None => None,
        },
        None => None,
    };
    if highlighted is Some {
        highlighted
    } else {
        let t = trimmed_start(s);
        if t.len() > 0 && t[0] == '"' {
            match find_in(t.skip(1), seq!['"']) {
                Some(e) => Some(t.subrange(1, e + 1)),
                None => None,
            }
        } else {
            None
        }
    }
}

fn quoted_value_chars(s: &[char]) -> (r: Option<Vec<char>>)
    ensures
        match r {
            Some(v) => quoted_value(s@) == Some(v@),
            None => quoted_value(s@) is None,
        },
{
    let hl = ['{', '{', 'h', 'l', '|', '"'];
    let quote = ['"'];
    assert(hl@ =~= hl_open());
    assert(quote@ =~= seq!['"']);
    match find(s, hl.as_slice()) {
        Some(a) => {
            proof {
                lemma_find(s@, hl@);
            }
            assert(a + 6 <= s.len());
            let after = slice_copy(s, a + 6, s.len());
            assert(after@ =~= s@.skip(a + 6));
            match find(&after, quote.as_slice()) {
                Some(e) => {
                    proof {
                        lemma_find(after@, quote@);
                    }
                    let v = slice_copy(&after, 0, e);
                    assert(v@ =~= after@.take(e as int));
                    return Some(v);
                },
                None => {},
            }
        },
        None => {},
    }
    let t = trim_start(s);
    if t.len() > 0 && t[0] == '"' {
        let rest = slice_copy(&t, 1, t.len());
        assert(rest@ =~= t@.skip(1));
        match find(&rest, quote.as_slice()) {
            Some(e) => {
                proof {
                    lemma_find(rest@, quote@);
                }
                let v = slice_copy(&t, 1, e + 1);
                Some(v)
            },
            None => None,
        }
    } else {
        None
    }
}

/// Reads the value of a string enumeration line, such as `{{hl|"ICON"}}`.
pub fn extract_string_enum_value(text: &str) -> (r: Option<String>)
    ensures
        opt_text(r) == quoted_value(text@),
{
    match quoted_value_chars(&chars_of(text)) {
        Some(v) => Some(string_of(&v)),
        None => None,
    }
}

/// The highlighted value of a line and where the text after it starts (just
/// after the `"}}` that closes it), when the line holds one.
pub open spec fn highlighted_at(r: Seq<char>) -> Option<(Seq<char>, int)> {
    match find_in(r, hl_open()) {
        Some(a) => match find_in(r.skip(a + 6), seq!['"']) {
            Some(e) => Some((r.skip(a + 6).take(e), a + 9 + e)),
            None => None,
        },
        None => None,
    }
}

/// The text after a highlighted value would start past the end of the line:
/// the value's closing quote is among the line's last two characters.
pub open spec fn value_overruns(s: Seq<char>) -> bool {
    highlighted_at(trimmed_start(s)) matches Some((_, k)) && k > trimmed_start(s).len()
}

/// A description after a value, written as `- text` (or ` - text`).
pub open spec fn dash_description(r: Seq<char>) -> Option<Seq<char>> {
    let t = trimmed_start(r);
    if starts(t, " - "@) {
        let d = trimmed(t.skip(3));
        if d.len() > 0 {
            Some(d)
        } else {
            None
        }
    } else if t.len() > 0 && t[0] == '-' {
        let d = trimmed(t.skip(1));
        if d.len() > 0 {
            Some(d)
        } else {
            None
        }
    } else {
        None
    }
}

/// The value of a string enumeration line with the description after it.
pub open spec fn quoted_value_with_desc(s: Seq<char>) -> Option<(Seq<char>, Option<Seq<char>>)> {
    let r0 = trimmed_start(s);
    let (v1, r1) = match highlighted_at(r0) {
        Some((v, k)) => (Some(v), tail_from(r0, k)),
        None => (None, r0),
    };
    let (v2, r2) = if v1 is None && r1.len() > 0 && r1[0] == '"' {
        match find_in(r1.skip(1), seq!['"']) {
            Some(e) => (Some(r1.subrange(1, e + 1)), r1.skip(e + 2)),
            None => (v1, r1),
        }
    } else {
        (v1, r1)
    };
    match v2 {
        Some(v) => Some((v, dash_description(r2))),
        None => None,
    }
}

fn dash_description_chars(r: &[char]) -> (d: Option<Vec<char>>)
    ensures
        match d {
            Some(x) => dash_description(r@) == Some(x@),
            None => dash_description(r@) is None,
        },
{
    let t = trim_start(r);
    let spaced = chars_of(" - ");
    if starts_with(&t, &spaced) {
        proof {
            reveal_strlit(" - ");
        }
        let d = trim(&copy_tail(&t, 3));
        if d.len() > 0 {
            Some(d)
        } else {
            None
        }
    } else if t.len() > 0 && t[0] == '-' {
        let d = trim(&copy_tail(&t, 1));
        if d.len() > 0 {
            Some(d)
        } else {
            None
        }
    } else {
        None
    }
}

/// Reads the value of a string enumeration line and the description after it,
/// such as `{{hl|"ICON"}} - an icon`.
pub fn extract_string_enum_value_with_desc(text: &str) -> (r: Option<(String, Option<String>)>)
    requires
        !value_overruns(text@),
    ensures
        match r {
            Some((v, d)) => quoted_value_with_desc(text@) == Some((v@, opt_text(d))),
            None => quoted_value_with_desc(text@) is None,
        },
{
    match value_with_desc_chars(&chars_of(text)) {
        Some((v, d)) => Some((
            string_of(&v),
            match d {
                Some(d) => Some(string_of(&d)),
                None => None,
            },
        )),
        None => None,
    }
}

/// `quoted_value_with_desc` on characters; past the end of the line the text
/// after the value is empty.
#[verifier::spinoff_prover]
fn value_with_desc_chars(s: &[char]) -> (r: Option<(Vec<char>, Option<Vec<char>>)>)
    ensures
        match r {
            Some((v, d)) => quoted_value_with_desc(s@) == Some((v@, opt_chars(d))),
            None => quoted_value_with_desc(s@) is None,
        },
{
    let r0 = trim_start(s);
    let hl = ['{', '{', 'h', 'l', '|', '"'];
    let quote = ['"'];
    assert(hl@ =~= hl_open());
    assert(quote@ =~= seq!['"']);
    let mut value: Option<Vec<char>> = None;
    let mut rest: Vec<char> = slice_copy(&r0, 0, r0.len());
    assert(rest@ =~= r0@);
    match find(&r0, hl.as_slice()) {
        Some(a) => {
            proof {
                lemma_find(r0@, hl@);
            }
            assert(a + 6 <= r0.len());
            let after = slice_copy(&r0, a + 6, r0.len());
            assert(after@ =~= r0@.skip(a + 6));
            match find(&after, quote.as_slice()) {
                Some(e) => {
                    proof {
                        lemma_find(after@, quote@);
                    }
                    let v = slice_copy(&after, 0, e);
                    assert(v@ =~= after@.take(e as int));
                    value = Some(v);
                    assert(a + 7 + e <= r0.len());
                    let k = a + 7 + e;
                    rest = if r0.len() - k >= 2 {
                        copy_tail(&r0, k + 2)
                    } else {
                        Vec::new()
                    };
                },
                None => {},
            }
        },
        None => {},
    }
    if value.is_none() && rest.len() > 0 && rest[0] == '"' {
        let inner = slice_copy(&rest, 1, rest.len());
        assert(inner@ =~= rest@.skip(1));
        match find(&inner, quote.as_slice()) {
            Some(e) => {
                proof {
                    lemma_find(inner@, quote@);
                }
                value = Some(slice_copy(&rest, 1, e + 1));
                rest = copy_tail(&rest, e + 2);
            },
            None => {},
        }
    }
    let desc = dash_description_chars(&rest);
    match value {
        Some(v) => Some((v, desc)),
        None => None,
    }
}

/// The view of optional characters.
pub open spec fn opt_chars(o: Option<Vec<char>>) -> Option<Seq<char>> {
    match o {
        Some(v) => Some(v@),
        None => None,
    }
}


// ----- simple lines -----

/// The view of a parse result that may hold a parameter item.
pub open spec fn item_result(r: Result<Option<ParamItem>, String>) -> Result<Option<ParamItemModel>, Seq<char>> {
    match r {
        Ok(Some(p)) => Ok(Some(p@)),
        Ok(None) => Ok(None),
        Err(e) => Err(e@),
    }
}

/// A type read at depth 0, as `Value::parse(text, 0)` reads it.
pub open spec fn type_of(t: Seq<char>) -> Result<ValueModel, Seq<char>> {
    value_of_text(t, 0, fuel_for(t.len()))
}

/// The type part and the description of `[[Type]] - description`; without a
/// ` - `, a description may follow the first `]]` when what precedes it reads
/// as a type.
pub open spec fn type_and_desc(tad: Seq<char>) -> (Seq<char>, Option<Seq<char>>) {
    match split_first(tad, " - "@) {
        Some((tp, dp)) => (tp, Some(trimmed(dp))),
        None => {
            let t = trimmed(tad);
            match find_in(t, "]]"@) {
                Some(eb) => {
                    let pt = t.take(eb + 2);
                    let pd = trimmed(t.skip(eb + 2));
                    if type_of(pt) is Ok && pd.len() > 0 {
                        (pt, Some(pd))
                    } else {
                        (t, None)
                    }
                },
                None => (t, None),
            }
        },
    }
}

/// The default, optionality and description that a description gives.
pub open spec fn described(desc: Option<Seq<char>>) -> (Option<Seq<char>>, bool, Option<Seq<char>>) {
    match desc {
        None => (None, false, None),
        Some(d) => match optional_of(d) {
            Some((def, rest)) => (def, true, Some(rest)),
            None => (None, false, Some(d)),
        },
    }
}

/// What a one-line parameter `name: [[Type]] - description` reads as, with an
/// optional version template before it. Text with a line feed is no such line.
pub open spec fn simple_line_of(s: Seq<char>) -> Result<Option<ParamItemModel>, Seq<char>> {
    if s.contains('\n') {
        Ok(None)
    } else {
        let head = if starts(s, "{{"@) {
            since_prefix_of(s)
        } else {
            Ok((None, s))
        };
        match head {
            Err(e) => Err(e),
            Ok((since, src)) => match split_first(src, ": "@) {
                None => Ok(None),
                Some((name_part, tad)) => {
                    let (type_part, desc) = type_and_desc(tad);
                    match type_of(trimmed(type_part)) {
                        Err(e) => Err(e),
                        Ok(typ) => {
                            let (default, optional, desc) = described(desc);
                            Ok(Some(ParamItemModel { name: trimmed(name_part), desc, typ, optional, default, since }))
                        },
                    }
                },
            },
        }
    }
}

fn has_char(s: &[char], c: char) -> (r: bool)
    ensures
        r == s@.contains(c),
{
    let mut i: usize = 0;
    while i < s.len()
        invariant
            i <= s@.len(),
            forall|k: int| 0 <= k < i ==> s@[k] != c,
        decreases s@.len() - i,
    {
        if s[i] == c {
            assert(s@[i as int] == c);
            return true;
        }
        i += 1;
    }
    false
}

fn opt_string(v: Option<Vec<char>>) -> (r: Option<String>)
    ensures
        opt_text(r) == match v {
            Some(x) => Some(x@),
            None => None::<Seq<char>>,
        },
{
    match v {
        Some(x) => Some(string_of(&x)),
        None => None,
    }
}

fn type_and_desc_chars(tad: &[char]) -> (r: (Vec<char>, Option<Vec<char>>))
    ensures
        type_and_desc(tad@) == (r.0@, match r.1 {
            Some(x) => Some(x@),
            None => None::<Seq<char>>,
        }),
{
    match split_once(tad, &chars_of(" - ")) {
        Some((tp, dp)) => (tp, Some(trim(&dp))),
        None => {
            let t = trim(tad);
            let close = chars_of("]]");
            match find(&t, &close) {
                Some(eb) => {
                    proof {
                        lemma_find(t@, close@);
                        reveal_strlit("]]");
                    }
                    assert(eb + 2 <= t.len());
                    let pt = slice_copy(&t, 0, eb + 2);
                    let pd = trim(&copy_tail(&t, eb + 2));
                    assert(pt@ =~= t@.take(eb + 2));
                    let ok = value_of_chars(&pt, 0).is_ok();
                    if ok && pd.len() > 0 {
                        (pt, Some(pd))
                    } else {
                        (t, None)
                    }
                },
                None => (t, None),
            }
        },
    }
}

/// The default, optionality and description that a description gives.
fn described_chars(desc: Option<Vec<char>>) -> (r: (Option<String>, bool, Option<String>))
    ensures
        (opt_text(r.0), r.1, opt_text(r.2)) == described(match desc {
            Some(x) => Some(x@),
            None => None::<Seq<char>>,
        }),
{
    match desc {
        None => (None, false, None),
        Some(d) => match optional_chars(&d) {
            Some((def, rest)) => (opt_string(def), true, Some(string_of(&rest))),
            None => (None, false, Some(string_of(&d))),
        },
    }
}

fn simple_line_chars(s: &[char]) -> (r: Result<Option<ParamItem>, String>)
    ensures
        item_result(r) == simple_line_of(s@),
{
    if has_char(s, '\n') {
        return Ok(None);
    }
    let (since, src) = if starts_with(s, &chars_of("{{")) {
        match since_prefix(s) {
            Ok((o, a, b)) => (o, slice_copy(s, a, b)),
            Err(e) => {
                return Err(e);
            },
        }
    } else {
        let c = slice_copy(s, 0, s.len());
        assert(c@ =~= s@);
        (None, c)
    };
    let (name_part, tad) = match split_once(&src, &chars_of(": ")) {
        Some(parts) => parts,
        None => {
            return Ok(None);
        },
    };
    let (type_part, desc) = type_and_desc_chars(&tad);
    let typ = match value_of_chars(&trim(&type_part), 0) {
        Ok(v) => v,
        Err(e) => {
            return Err(e);
        },
    };
    let (default, optional, desc) = described_chars(desc);
    Ok(Some(ParamItem { name: string_of(&trim(&name_part)), desc, typ, optional, default, since }))
}

/// Reads a one-line parameter, `name: [[Type]] - description`.
pub fn try_simple_line(source: &str) -> (r: Result<Option<ParamItem>, String>)
    ensures
        item_result(r) == simple_line_of(source@),
{
    simple_line_chars(&chars_of(source))
}


// ----- multi-line parameters -----

/// The name part and the lines of a multi-line parameter `name: first line\n...`.
pub open spec fn header_of(s: Seq<char>) -> Option<(Seq<char>, Seq<Seq<char>>)> {
    if !s.contains('\n') {
        None
    } else {
        match split_first(s, ": "@) {
            None => None,
            Some((name_part, tad)) => Some((name_part, lines_of(tad))),
        }
    }
}

/// The first of the lines, trimmed; empty when there is none.
pub open spec fn first_line(ls: Seq<Seq<char>>) -> Seq<char> {
    if ls.len() > 0 {
        trimmed(ls[0])
    } else {
        Seq::empty()
    }
}

/// The lines after the first.
pub open spec fn later_lines(ls: Seq<Seq<char>>) -> Seq<Seq<char>> {
    if ls.len() > 0 {
        ls.drop_first()
    } else {
        ls
    }
}

/// The content of a top-level bullet line `* content`, trimmed.
pub open spec fn bullet_content(line: Seq<char>) -> Option<Seq<char>> {
    let l = trimmed(line);
    if l.len() > 0 && starts(l, seq!['*']) && !starts(l, seq!['*', '*']) {
        Some(trimmed(trimmed_start_matches(l, seq!['*'])))
    } else {
        None
    }
}

/// The description after a type: what follows the first ` - `, without
/// trailing colons.
pub open spec fn enum_description(first: Seq<char>) -> Seq<char> {
    match split_first(first, " - "@) {
        Some((_, dp)) => trimmed(trimmed_end_matches(dp, seq![':'])),
        None => Seq::empty(),
    }
}

/// The value of a number enumeration line `* 1 - description`.
pub open spec fn number_entry(line: Seq<char>) -> Option<NumberEnumModel> {
    match bullet_content(line) {
        None => None,
        Some(c) => match split_first(c, " - "@) {
            None => None,
            Some((num, ed)) => match i32_of_text(trimmed(num)) {
                None => None,
                Some(v) => Some(NumberEnumModel { value: v, desc: Some(markup_stripped(trimmed(ed))), since: None }),
            },
        },
    }
}

/// The values of the number enumeration lines, in order.
pub open spec fn number_entries(ls: Seq<Seq<char>>) -> Seq<NumberEnumModel>
    decreases ls.len(),
{
    if ls.len() == 0 {
        Seq::empty()
    } else {
        number_entries(ls.drop_last()) + match number_entry(ls.last()) {
            Some(e) => seq![e],
            None => Seq::empty(),
        }
    }
}

/// What a number enumeration parameter reads as:
/// `name: [[Number]] - description:` followed by lines `* 0 - meaning`.
pub open spec fn number_enum_of(s: Seq<char>) -> Option<ParamItemModel> {
    match header_of(s) {
        None => None,
        Some((name_part, ls)) => {
            let first = first_line(ls);
            if !starts(first, "[[Number]]"@) || !holds(first, " - "@) {
                None
            } else {
                let entries = number_entries(later_lines(ls));
                if entries.len() == 0 {
                    None
                } else {
                    Some(ParamItemModel {
                        name: trimmed(name_part),
                        desc: Some(enum_description(first)),
                        typ: ValueModel::NumberEnum(entries),
                        optional: false,
                        default: None,
                        since: None,
                    })
                }
            }
        },
    }
}

fn bullet_content_chars(line: &[char]) -> (r: Option<Vec<char>>)
    ensures
        match r {
            Some(c) => bullet_content(line@) == Some(c@),
            None => bullet_content(line@) is None,
        },
{
    let l = trim(line);
    let one = ['*'];
    let two = ['*', '*'];
    assert(one@ =~= seq!['*']);
    assert(two@ =~= seq!['*', '*']);
    if l.len() > 0 && starts_with(&l, one.as_slice()) && !starts_with(&l, two.as_slice()) {
        Some(trim(&trim_start_matches(&l, one.as_slice())))
    } else {
        None
    }
}

fn enum_description_chars(first: &[char]) -> (r: Vec<char>)
    ensures
        r@ == enum_description(first@),
{
    let colon = [':'];
    assert(colon@ =~= seq![':']);
    match split_once(first, &chars_of(" - ")) {
        Some((_, dp)) => trim(&trim_end_matches(&dp, colon.as_slice())),
        None => Vec::new(),
    }
}

fn first_and_later(ls: &Vec<Vec<char>>) -> (r: (Vec<char>, Vec<Vec<char>>))
    ensures
        r.0@ == first_line(texts(ls@)),
        texts(r.1@) == later_lines(texts(ls@)),
{
    if ls.len() == 0 {
        (Vec::new(), Vec::new())
    } else {
        let first = trim(&ls[0]);
        let mut later: Vec<Vec<char>> = Vec::new();
        let mut i: usize = 1;
        while i < ls.len()
            invariant
                1 <= i <= ls@.len(),
                later@.len() == i - 1,
                forall|k: int| 0 <= k < i - 1 ==> (#[trigger] later@[k])@ == ls@[k + 1]@,
            decreases ls@.len() - i,
        {
            later.push(slice_copy(&ls[i], 0, ls[i].len()));
            assert(later@[i - 1]@ =~= ls@[i as int]@);
            i += 1;
        }
        assert(texts(later@) =~= texts(ls@).drop_first());
        (first, later)
    }
}

fn header_chars(s: &[char]) -> (r: Option<(Vec<char>, Vec<Vec<char>>)>)
    ensures
        match r {
            Some((n, ls)) => header_of(s@) == Some((n@, texts(ls@))),
            None => header_of(s@) is None,
        },
{
    if !has_char(s, '\n') {
        return None;
    }
    match split_once(s, &chars_of(": ")) {
        None => None,
        Some((name_part, tad)) => Some((name_part, lines(&tad))),
    }
}

fn number_entry_chars(line: &[char]) -> (r: Option<NumberEnumValue>)
    ensures
        match r {
            Some(e) => number_entry(line@) == Some(e@),
            None => number_entry(line@) is None,
        },
{
    match bullet_content_chars(line) {
        None => None,
        Some(c) => match split_once(&c, &chars_of(" - ")) {
            None => None,
            Some((num, ed)) => match parse_i32(&trim(&num)) {
                None => None,
                Some(v) => {
                    let text = string_of(&trim(&ed));
                    let d = strip_wiki_markup(text.as_str());
                    Some(NumberEnumValue { value: v, desc: Some(d), since: None })
                },
            },
        },
    }
}

fn number_enum_chars(s: &[char]) -> (r: Option<ParamItem>)
    ensures
        match r {
            Some(p) => number_enum_of(s@) == Some(p@),
            None => number_enum_of(s@) is None,
        },
{
    let (name_part, ls) = match header_chars(s) {
        Some(h) => h,
        None => {
            return None;
        },
    };
    let (first, later) = first_and_later(&ls);
    if !starts_with(&first, &chars_of("[[Number]]")) || !contains(&first, &chars_of(" - ")) {
        return None;
    }
    let desc = enum_description_chars(&first);
    let ghost lv = texts(later@);
    let mut entries: Vec<NumberEnumValue> = Vec::new();
    let mut i: usize = 0;
    assert(lv.take(0) =~= Seq::<Seq<char>>::empty());
    while i < later.len()
        invariant
            lv == texts(later@),
            i <= later@.len(),
            entries@.map_values(|e: NumberEnumValue| number_enum_model(e)) == number_entries(lv.take(i as int)),
        decreases later@.len() - i,
    {
        let ghost before = entries@;
        assert(lv.take(i + 1).drop_last() =~= lv.take(i as int));
        assert(lv.take(i + 1).last() == later@[i as int]@);
        match number_entry_chars(&later[i]) {
            Some(e) => {
                entries.push(e);
                assert(entries@.map_values(|e: NumberEnumValue| number_enum_model(e)) =~= before.map_values(|e: NumberEnumValue| number_enum_model(e)) + seq![e@]);
            },
            None => {
                assert(before.map_values(|e: NumberEnumValue| number_enum_model(e)) + Seq::<NumberEnumModel>::empty() =~= before.map_values(|e: NumberEnumValue| number_enum_model(e)));
            },
        }
        i += 1;
    }
    assert(lv.take(later@.len() as int) =~= lv);
    if entries.len() == 0 {
        return None;
    }
    let ghost em = entries@.map_values(|e: NumberEnumValue| number_enum_model(e));
    let typ = Value::NumberEnum(entries);
    Some(ParamItem {
        name: string_of(&trim(&name_part)),
        desc: Some(string_of(&desc)),
        typ,
        optional: false,
        default: None,
        since: None,
    })
}

/// Reads a number enumeration parameter:
/// `name: [[Number]] - description:` followed by lines `* 0 - meaning`.
pub fn try_number_enum(source: &str) -> (r: Result<Option<ParamItem>, String>)
    ensures
        r is Ok,
        item_result(r) == Ok::<Option<ParamItemModel>, Seq<char>>(number_enum_of(source@)),
{
    Ok(number_enum_chars(&chars_of(source)))
}


// ----- string enumerations -----

/// The view of enumeration values read from lines.
pub open spec fn entries_view(v: Seq<(String, Option<Since>)>) -> Seq<(Seq<char>, Option<SinceView>)> {
    v.map_values(|e: (String, Option<Since>)| (e.0@, opt_since(e.1)))
}

/// The view of a list of lines.
pub open spec fn lines_view(v: Seq<String>) -> Seq<Seq<char>> {
    v.map_values(|l: String| l@)
}

/// The content of an enumeration line `* ...` and the version of a version
/// template that may start it: the content after the template, trimmed.
pub open spec fn bullet_part(line: Seq<char>) -> Option<(Seq<char>, Option<SinceView>)> {
    match bullet_content(line) {
        None => None,
        Some(c) => Some(
            if starts(c, "{{GVI|"@) {
                match since_prefix_of(c) {
                    Ok((sv, rest)) => (trimmed(rest), sv),
                    Err(_) => (c, None),
                }
            } else {
                (c, None)
            },
        ),
    }
}

/// The contents of the enumeration lines, in order, each with its version.
pub open spec fn bullet_parts(ls: Seq<Seq<char>>) -> Seq<(Seq<char>, Option<SinceView>)>
    decreases ls.len(),
{
    if ls.len() == 0 {
        Seq::empty()
    } else {
        bullet_parts(ls.drop_last()) + match bullet_part(ls.last()) {
            Some(p) => seq![p],
            None => Seq::empty(),
        }
    }
}

/// The values `r` are what an extractor gave, in order, called once on each
/// of the contents `bs`: for each content, a call of `f` on it that returned
/// either a value, kept with the content's version, or nothing.
pub open spec fn extracted<F: Fn(&str) -> Option<String>>(
    f: F,
    bs: Seq<(Seq<char>, Option<SinceView>)>,
    r: Seq<(Seq<char>, Option<SinceView>)>,
) -> bool
    decreases bs.len(),
{
    if bs.len() == 0 {
        r.len() == 0
    } else {
        exists|s: &str, o: Option<String>|
            #![trigger call_ensures(f, (s,), o)]
            s@ == bs.last().0 && call_ensures(f, (s,), o) && match o {
                Some(v) => r.len() > 0 && r.last() == (v@, bs.last().1) && extracted(f, bs.drop_last(), r.drop_last()),
                None => extracted(f, bs.drop_last(), r),
            }
    }
}

fn bullet_part_chars(line: &[char]) -> (r: Option<(Vec<char>, Option<Since>)>)
    ensures
        match r {
            Some((c, o)) => bullet_part(line@) == Some((c@, opt_since(o))),
            None => bullet_part(line@) is None,
        },
{
    let c = match bullet_content_chars(line) {
        None => {
            return None;
        },
        Some(c) => c,
    };
    if starts_with(&c, &chars_of("{{GVI|")) {
        match since_prefix(&c) {
            Ok((o, a, b)) => Some((trim(&slice_copy(&c, a, b)), o)),
            Err(_) => Some((c, None)),
        }
    } else {
        Some((c, None))
    }
}

/// Reads the values of enumeration lines such as `* {{hl|"ICON"}}` or
/// `* {{GVI|arma3|1.60}} {{hl|"POLYLINE"}}`: the extractor is called once on
/// the content of each line that starts with one `*` (after a version
/// template, which gives the value's version), in order, and the values it
/// gives are kept with their versions.
pub fn parse_enum_lines<F>(lines: &[String], value_extractor: F) -> (r: Vec<(String, Option<Since>)>) where
    F: Fn(&str) -> Option<String>,

    requires
        forall|s: &str| #[trigger] value_extractor.requires((s,)),
    ensures
        extracted(value_extractor, bullet_parts(lines_view(lines@)), entries_view(r@)),
{
    let ghost lv = lines_view(lines@);
    let mut out: Vec<(String, Option<Since>)> = Vec::new();
    let mut i: usize = 0;
    assert(lv.take(0) =~= Seq::<Seq<char>>::empty());
    assert(entries_view(out@) =~= Seq::<(Seq<char>, Option<SinceView>)>::empty());
    while i < lines.len()
        invariant
            lv == lines_view(lines@),
            i <= lines@.len(),
            forall|s: &str| #[trigger] value_extractor.requires((s,)),
            extracted(value_extractor, bullet_parts(lv.take(i as int)), entries_view(out@)),
        decreases lines@.len() - i,
    {
        let ghost bs = bullet_parts(lv.take(i as int));
        let ghost before = out@;
        assert(lv.take(i + 1).drop_last() =~= lv.take(i as int));
        assert(lv.take(i + 1).last() == lines@[i as int]@);
        let line = chars_of(lines[i].as_str());
        match bullet_part_chars(&line) {
            Some((c, since)) => {
                let content = string_of(&c);
                let cs = content.as_str();
                let o = value_extractor(cs);
                let ghost ox = o;
                let ghost nbs = bs.push((c@, opt_since(since)));
                assert(bullet_parts(lv.take(i + 1)) == nbs) by {
                    assert(bs + seq![(c@, opt_since(since))] =~= nbs);
                }
                assert(nbs.drop_last() =~= bs);
                match o {
                    Some(v) => {
                        let ghost vv = v@;
                        out.push((v, since));
                        assert(entries_view(out@) =~= entries_view(before).push((vv, opt_since(since))));
                        assert(entries_view(out@).drop_last() =~= entries_view(before));
                        assert(extracted(value_extractor, nbs, entries_view(out@))) by {
                            assert(call_ensures(value_extractor, (cs,), ox));
                        }
                    },
                    None => {
                        assert(extracted(value_extractor, nbs, entries_view(out@))) by {
                            assert(call_ensures(value_extractor, (cs,), ox));
                        }
                    },
                }
            },
            None => {
                assert(bullet_parts(lv.take(i + 1)) =~= bs);
            },
        }
        i += 1;
    }
    assert(lv.take(lines@.len() as int) =~= lv);
    out
}

/// The value of a string enumeration line, such as `* {{hl|"VALUE"}} - meaning`
/// or `* "VALUE"`, with the description after it and the version of a
/// version template that may precede it.
pub open spec fn described_entry(line: Seq<char>) -> Option<StringEnumModel> {
    match bullet_content(line) {
        None => None,
        Some(c) => {
            let (since, content) = if starts(c, "{{GVI|"@) {
                match since_prefix_of(c) {
                    Ok((sv, rest)) => (sv, trimmed(rest)),
                    Err(_) => (None, c),
                }
            } else {
                (None, c)
            };
            match quoted_value_with_desc(content) {
                Some((v, d)) => Some(StringEnumModel { value: v, desc: d, since }),
                None => None,
            }
        },
    }
}

/// The values of the string enumeration lines, in order.
pub open spec fn described_entries(ls: Seq<Seq<char>>) -> Seq<StringEnumModel>
    decreases ls.len(),
{
    if ls.len() == 0 {
        Seq::empty()
    } else {
        described_entries(ls.drop_last()) + match described_entry(ls.last()) {
            Some(e) => seq![e],
            None => Seq::empty(),
        }
    }
}

/// Where the lowercase description announces the values: at `can be one of`,
/// else at `one of`.
pub open spec fn enum_marker_at(low: Seq<char>) -> Option<int> {
    match find_in(low, "can be one of"@) {
        Some(p) => Some(p),
        None => find_in(low, "one of"@),
    }
}

/// The description before the values are announced, without the `,` or `-`
/// that ends it.
pub open spec fn enum_lead(full: Seq<char>, pos: int) -> Seq<char> {
    trimmed(
        trimmed_end_matches(trimmed(trimmed_end_matches(trimmed(slice_of(full, 0, pos)), seq![','])), seq!['-']),
    )
}

/// What a string enumeration parameter reads as:
/// `name: [[String]] - description, can be one of:` (or `- one of:`) followed
/// by lines `* {{hl|"VALUE"}} - meaning` or `* "VALUE"`. The description is
/// what precedes the announcement, found in the lowercase text and cut at the
/// same position in the text.
pub open spec fn string_enum_of(s: Seq<char>) -> Option<ParamItemModel> {
    match header_of(s) {
        None => None,
        Some((name_part, ls)) => {
            let first = first_line(ls);
            let full = enum_description(first);
            let low = lowercase_of(full);
            if !starts(first, "[[String]]"@) || !holds(first, " - "@) {
                None
            } else {
                match enum_marker_at(low) {
                    None => None,
                    Some(pos) => {
                        let entries = described_entries(later_lines(ls));
                        if entries.len() == 0 {
                            None
                        } else {
                            Some(ParamItemModel {
                                name: trimmed(name_part),
                                desc: Some(enum_lead(full, pos)),
                                typ: ValueModel::StringEnum(entries),
                                optional: false,
                                default: None,
                                since: None,
                            })
                        }
                    },
                }
            }
        },
    }
}

fn described_entry_chars(line: &[char]) -> (r: Option<StringEnumValue>)
    ensures
        match r {
            Some(v) => described_entry(line@) == Some(string_enum_model(v)),
            None => described_entry(line@) is None,
        },
{
    let c = match bullet_content_chars(line) {
        None => {
            return None;
        },
        Some(c) => c,
    };
    let (since, content) = if starts_with(&c, &chars_of("{{GVI|")) {
        match since_prefix(&c) {
            Ok((o, a, b)) => (o, trim(&slice_copy(&c, a, b))),
            Err(_) => (None, c),
        }
    } else {
        (None, c)
    };
    match value_with_desc_chars(&content) {
        Some((v, d)) => Some(StringEnumValue { value: string_of(&v), desc: opt_string(d), since }),
        None => None,
    }
}

fn described_lines_chars(ls: &Vec<Vec<char>>) -> (r: Vec<StringEnumValue>)
    ensures
        r@.map_values(|e: StringEnumValue| string_enum_model(e)) == described_entries(texts(ls@)),
{
    let ghost lv = texts(ls@);
    let mut out: Vec<StringEnumValue> = Vec::new();
    let mut i: usize = 0;
    assert(lv.take(0) =~= Seq::<Seq<char>>::empty());
    assert(out@.map_values(|e: StringEnumValue| string_enum_model(e)) =~= Seq::<StringEnumModel>::empty());
    while i < ls.len()
        invariant
            lv == texts(ls@),
            i <= ls@.len(),
            out@.map_values(|e: StringEnumValue| string_enum_model(e)) == described_entries(lv.take(i as int)),
        decreases ls@.len() - i,
    {
        let ghost before = out@;
        assert(lv.take(i + 1).drop_last() =~= lv.take(i as int));
        assert(lv.take(i + 1).last() == ls@[i as int]@);
        match described_entry_chars(&ls[i]) {
            Some(e) => {
                let ghost m = string_enum_model(e);
                out.push(e);
                assert(out@.map_values(|e: StringEnumValue| string_enum_model(e)) =~= before.map_values(
                    |e: StringEnumValue| string_enum_model(e),
                ) + seq![m]);
            },
            None => {
                assert(described_entries(lv.take(i + 1)) =~= described_entries(lv.take(i as int)));
            },
        }
        i += 1;
    }
    assert(lv.take(ls@.len() as int) =~= lv);
    out
}

fn enum_marker_chars(low: &[char]) -> (r: Option<usize>)
    ensures
        match r {
            Some(p) => enum_marker_at(low@) == Some(p as int),
            None => enum_marker_at(low@) is None,
        },
{
    match find(low, &chars_of("can be one of")) {
        Some(p) => Some(p),
        None => find(low, &chars_of("one of")),
    }
}

fn string_enum_chars(s: &[char]) -> (r: Option<ParamItem>)
    ensures
        match r {
            Some(p) => string_enum_of(s@) == Some(p@),
            None => string_enum_of(s@) is None,
        },
{
    let (name_part, ls) = match header_chars(s) {
        Some(h) => h,
        None => {
            return None;
        },
    };
    let (first, later) = first_and_later(&ls);
    let full = enum_description_chars(&first);
    let low = lower(&full);
    if !starts_with(&first, &chars_of("[[String]]")) || !contains(&first, &chars_of(" - ")) {
        return None;
    }
    let pos = match enum_marker_chars(&low) {
        Some(p) => p,
        None => {
            return None;
        },
    };
    let comma = [','];
    let dash = ['-'];
    assert(comma@ =~= seq![',']);
    assert(dash@ =~= seq!['-']);
    let head = if pos <= full.len() {
        slice_copy(&full, 0, pos)
    } else {
        Vec::new()
    };
    assert(head@ == slice_of(full@, 0, pos as int));
    let desc = trim(&trim_end_matches(&trim(&trim_end_matches(&trim(&head), comma.as_slice())), dash.as_slice()));
    let values = described_lines_chars(&later);
    if values.len() == 0 {
        return None;
    }
    let typ = Value::StringEnum(values);
    Some(ParamItem {
        name: string_of(&trim(&name_part)),
        desc: Some(string_of(&desc)),
        typ,
        optional: false,
        default: None,
        since: None,
    })
}

/// Reads a string enumeration parameter:
/// `name: [[String]] - description, can be one of:` (or `- one of:`) followed
/// by lines `* {{hl|"VALUE"}} - meaning`, each value optionally after a
/// version template.
pub fn try_string_enum(source: &str) -> (r: Result<Option<ParamItem>, String>)
    ensures
        r is Ok,
        item_result(r) == Ok::<Option<ParamItemModel>, Seq<char>>(string_enum_of(source@)),
{
    Ok(string_enum_chars(&chars_of(source)))
}

// ----- enumerations over a number and a string -----

/// A line that gives a value as a number and as a string, with its meaning:
/// `* 0 / "AUTO" - meaning`.
pub open spec fn pair_entry(line: Seq<char>) -> Option<(NumberEnumModel, StringEnumModel)> {
    match bullet_content(line) {
        None => None,
        Some(c) => match split_first(c, " - "@) {
            None => None,
            Some((vals, d)) => match split_first(vals, seq!['/']) {
                None => None,
                Some((n, q)) => match (i32_of_text(trimmed(n)), quoted_value(trimmed(q))) {
                    (Some(v), Some(t)) => Some(
                        (
                            NumberEnumModel { value: v, desc: Some(trimmed(d)), since: None },
                            StringEnumModel { value: t, desc: Some(trimmed(d)), since: None },
                        ),
                    ),
                    _ => None,
                },
            },
        },
    }
}

/// The values of the lines that give a number and a string, in order.
pub open spec fn pair_entries(ls: Seq<Seq<char>>) -> Seq<(NumberEnumModel, StringEnumModel)>
    decreases ls.len(),
{
    if ls.len() == 0 {
        Seq::empty()
    } else {
        pair_entries(ls.drop_last()) + match pair_entry(ls.last()) {
            Some(e) => seq![e],
            None => Seq::empty(),
        }
    }
}

/// What an enumeration over a number and a string reads as:
/// `name: [[Number]] or [[String]] - description:` followed by lines
/// `* 0 / "AUTO" - meaning`; a choice of the number enumeration and the string
/// enumeration, each value with its meaning.
#[verifier::opaque]
pub open spec fn two_type_enum_of(s: Seq<char>) -> Option<ParamItemModel> {
    match header_of(s) {
        None => None,
        Some((name_part, ls)) => {
            let first = first_line(ls);
            let es = pair_entries(later_lines(ls));
            if !starts(first, "[[Number]] or [[String]]"@) || !holds(first, " - "@) || es.len() == 0 {
                None
            } else {
                Some(ParamItemModel {
                    name: trimmed(name_part),
                    desc: Some(enum_description(first)),
                    typ: ValueModel::OneOf(
                        seq![
                            OneOfModel {
                                typ: ValueModel::NumberEnum(es.map_values(|e: (NumberEnumModel, StringEnumModel)| e.0)),
                                desc: None,
                                since: None,
                            },
                            OneOfModel {
                                typ: ValueModel::StringEnum(es.map_values(|e: (NumberEnumModel, StringEnumModel)| e.1)),
                                desc: None,
                                since: None,
                            },
                        ],
                    ),
                    optional: false,
                    default: None,
                    since: None,
                })
            }
        },
    }
}

fn pair_entry_chars(line: &[char]) -> (r: Option<(NumberEnumValue, StringEnumValue)>)
    ensures
        match r {
            Some((a, b)) => pair_entry(line@) == Some((a@, string_enum_model(b))),
            None => pair_entry(line@) is None,
        },
{
    let c = match bullet_content_chars(line) {
        None => {
            return None;
        },
        Some(c) => c,
    };
    let (vals, d) = match split_once(&c, &chars_of(" - ")) {
        None => {
            return None;
        },
        Some(parts) => parts,
    };
    let slash = ['/'];
    assert(slash@ =~= seq!['/']);
    let (n, q) = match split_once(&vals, slash.as_slice()) {
        None => {
            return None;
        },
        Some(parts) => parts,
    };
    let v = match parse_i32(&trim(&n)) {
        None => {
            return None;
        },
        Some(v) => v,
    };
    let t = match quoted_value_chars(&trim(&q)) {
        None => {
            return None;
        },
        Some(t) => t,
    };
    let dt = trim(&d);
    Some((
        NumberEnumValue { value: v, desc: Some(string_of(&dt)), since: None },
        StringEnumValue { value: string_of(&t), desc: Some(string_of(&dt)), since: None },
    ))
}

fn two_type_enum_chars(s: &[char]) -> (r: Option<ParamItem>)
    ensures
        match r {
            Some(p) => two_type_enum_of(s@) == Some(p@),
            None => two_type_enum_of(s@) is None,
        },
{
    reveal(two_type_enum_of);
    let (name_part, ls) = match header_chars(s) {
        Some(h) => h,
        None => {
            return None;
        },
    };
    let (first, later) = first_and_later(&ls);
    let ghost lv = texts(later@);
    let mut nums: Vec<NumberEnumValue> = Vec::new();
    let mut strs: Vec<StringEnumValue> = Vec::new();
    let mut i: usize = 0;
    assert(lv.take(0) =~= Seq::<Seq<char>>::empty());
    while i < later.len()
        invariant
            lv == texts(later@),
            i <= later@.len(),
            nums@.map_values(|e: NumberEnumValue| number_enum_model(e)) == pair_entries(lv.take(i as int)).map_values(
                |e: (NumberEnumModel, StringEnumModel)| e.0,
            ),
            strs@.map_values(|e: StringEnumValue| string_enum_model(e)) == pair_entries(lv.take(i as int)).map_values(
                |e: (NumberEnumModel, StringEnumModel)| e.1,
            ),
        decreases later@.len() - i,
    {
        let ghost bn = nums@;
        let ghost bs = strs@;
        let ghost pe = pair_entries(lv.take(i as int));
        assert(lv.take(i + 1).drop_last() =~= lv.take(i as int));
        assert(lv.take(i + 1).last() == later@[i as int]@);
        match pair_entry_chars(&later[i]) {
            Some((a, b)) => {
                let ghost e = (a@, string_enum_model(b));
                nums.push(a);
                strs.push(b);
                assert(pair_entries(lv.take(i + 1)) == pe + seq![e]);
                assert(nums@ == bn.push(a));
                assert(strs@ == bs.push(b));
                assert(bn.map_values(|e: NumberEnumValue| number_enum_model(e)).len() == bn.len());
                assert(bs.map_values(|e: StringEnumValue| string_enum_model(e)).len() == bs.len());
                assert(pe.map_values(|e: (NumberEnumModel, StringEnumModel)| e.0).len() == pe.len());
                assert(bn.len() == pe.len() && bs.len() == pe.len());
                assert((pe + seq![e])[pe.len() as int] == e);
                assert forall|k: int| 0 <= k < nums@.len() implies number_enum_model(#[trigger] nums@[k]) == (pe
                    + seq![e])[k].0 by {
                    if k < bn.len() {
                        assert(bn.map_values(|e: NumberEnumValue| number_enum_model(e))[k] == pe.map_values(
                            |e: (NumberEnumModel, StringEnumModel)| e.0,
                        )[k]);
                    }
                }
                assert forall|k: int| 0 <= k < strs@.len() implies string_enum_model(#[trigger] strs@[k]) == (pe
                    + seq![e])[k].1 by {
                    if k < bs.len() {
                        assert(bs.map_values(|e: StringEnumValue| string_enum_model(e))[k] == pe.map_values(
                            |e: (NumberEnumModel, StringEnumModel)| e.1,
                        )[k]);
                    }
                }
                assert(nums@.map_values(|e: NumberEnumValue| number_enum_model(e)) =~= (pe + seq![e]).map_values(
                    |e: (NumberEnumModel, StringEnumModel)| e.0,
                ));
                assert(strs@.map_values(|e: StringEnumValue| string_enum_model(e)) =~= (pe + seq![e]).map_values(
                    |e: (NumberEnumModel, StringEnumModel)| e.1,
                ));
            },
            None => {
                assert(pair_entries(lv.take(i + 1)) =~= pe);
            },
        }
        i += 1;
    }
    assert(lv.take(later@.len() as int) =~= lv);
    if !starts_with(&first, &chars_of("[[Number]] or [[String]]")) || !contains(&first, &chars_of(" - "))
        || nums.len() == 0 {
        return None;
    }
    let desc = enum_description_chars(&first);
    let ghost nm = nums@.map_values(|e: NumberEnumValue| number_enum_model(e));
    let ghost sm = strs@.map_values(|e: StringEnumValue| string_enum_model(e));
    let na = OneOfValue { typ: Value::NumberEnum(nums), desc: None, since: None };
    let sa = OneOfValue { typ: Value::StringEnum(strs), desc: None, since: None };
    assert(value_model(na.typ) == ValueModel::NumberEnum(nm));
    assert(value_model(sa.typ) == ValueModel::StringEnum(sm));
    let alternatives = vec![na, sa];
    assert(alternatives@[0] == na && alternatives@[1] == sa);
    let r = ParamItem {
        name: string_of(&trim(&name_part)),
        desc: Some(string_of(&desc)),
        typ: Value::OneOf(alternatives),
        optional: false,
        default: None,
        since: None,
    };
    let ghost want = seq![
        OneOfModel { typ: ValueModel::NumberEnum(nm), desc: None, since: None },
        OneOfModel { typ: ValueModel::StringEnum(sm), desc: None, since: None },
    ];
    assert(match value_model(r.typ) {
        ValueModel::OneOf(m) => m =~= want,
        _ => false,
    });
    Some(r)
}

// ----- alternatives described one by one -----

/// What a bullet line says of an alternative: what follows ` - ` where the
/// line starts with a single link `[[Type]]`, and the whole line otherwise.
pub open spec fn alternative_desc(content: Seq<char>) -> Seq<char> {
    match find_in(content, seq![']', ']']) {
        Some(e) => if starts(content, seq!['[', '[']) && starts(tail_from(content, e + 2), " - "@) {
            trimmed(tail_from(content, e + 5))
        } else {
            content
        },
        None => content,
    }
}

/// What the bullet lines say of the alternatives, in order.
pub open spec fn alternative_descs(ls: Seq<Seq<char>>) -> Seq<Seq<char>>
    decreases ls.len(),
{
    if ls.len() == 0 {
        Seq::empty()
    } else {
        alternative_descs(ls.drop_last()) + match bullet_content(ls.last()) {
            Some(c) => seq![alternative_desc(c)],
            None => Seq::empty(),
        }
    }
}

/// The types of the alternatives, each read on its own; `None` where one of
/// them does not read.
pub open spec fn alternative_types(parts: Seq<Seq<char>>) -> Option<Seq<ValueModel>>
    decreases parts.len(),
{
    if parts.len() == 0 {
        Some(Seq::empty())
    } else {
        match (alternative_types(parts.drop_last()), value_of_text(parts.last(), 0, fuel_for(parts.last().len()))) {
            (Some(ts), Ok(t)) => Some(ts.push(t)),
            _ => None,
        }
    }
}

/// The alternatives, each with what its bullet line says of it.
pub open spec fn described_alternatives(ts: Seq<ValueModel>, ds: Seq<Seq<char>>) -> Seq<OneOfModel> {
    Seq::new(ts.len(), |k: int| OneOfModel { typ: ts[k], desc: Some(ds[k]), since: None })
}

/// The type text of a first line `[[A]] or [[B]]:` without its colon.
pub open spec fn alternatives_text(first: Seq<char>) -> Seq<char> {
    trimmed(trimmed_end_matches(first, seq![':']))
}

/// What a parameter whose alternatives are described one by one reads as:
/// `name: [[A]] or [[B]]:` followed by a bullet line for each alternative, in
/// order, such as `* [[A]] - meaning`. Each alternative (the text between the
/// ` or `s, read as a type) takes what its line says, and the parameter's
/// description is those lines' texts, one per line.
#[verifier::opaque]
pub open spec fn alternatives_of(s: Seq<char>) -> Option<ParamItemModel> {
    match header_of(s) {
        None => None,
        Some((name_part, ls)) => {
            let first = first_line(ls);
            let parts = split_all(alternatives_text(first), " or "@);
            let ds = alternative_descs(later_lines(ls));
            if holds(first, " - "@) || !ends(first, seq![':']) || parts.len() < 2 || ds.len() != parts.len() {
                None
            } else {
                match alternative_types(parts) {
                    None => None,
                    Some(ts) => Some(ParamItemModel {
                        name: trimmed(name_part),
                        desc: Some(joined(ds)),
                        typ: ValueModel::OneOf(described_alternatives(ts, ds)),
                        optional: false,
                        default: None,
                        since: None,
                    }),
                }
            }
        },
    }
}


/// Where one alternative does not read, the alternatives do not read.
proof fn lemma_alternative_types_prefix(parts: Seq<Seq<char>>, n: int)
    requires
        0 <= n <= parts.len(),
        alternative_types(parts.take(n)) is None,
    ensures
        alternative_types(parts) is None,
    decreases parts.len() - n,
{
    if n < parts.len() {
        assert(parts.take(n + 1).drop_last() =~= parts.take(n));
        lemma_alternative_types_prefix(parts, n + 1);
    } else {
        assert(parts.take(n) =~= parts);
    }
}

fn alternative_desc_chars(content: &[char]) -> (r: Vec<char>)
    ensures
        r@ == alternative_desc(content@),
{
    let close = [']', ']'];
    let open = ['[', '['];
    assert(close@ =~= seq![']', ']']);
    assert(open@ =~= seq!['[', '[']);
    match find(content, close.as_slice()) {
        Some(e) => {
            proof {
                lemma_find(content@, close@);
            }
            assert(e + 2 <= content.len());
            let after = copy_tail(content, e + 2);
            if starts_with(content, open.as_slice()) && starts_with(&after, &chars_of(" - ")) {
                proof {
                    reveal_strlit(" - ");
                }
                assert(after@.len() >= 3);
                assert(e + 5 <= content.len());
                let rest = copy_tail(content, e + 5);
                trim(&rest)
            } else {
                slice_copy(content, 0, content.len())
            }
        },
        None => slice_copy(content, 0, content.len()),
    }
}

/// The alternatives read from their texts, each with what its bullet line
/// says of it.
fn alternative_values(parts: &Vec<Vec<char>>, ds: &Vec<Vec<char>>) -> (r: Option<Vec<OneOfValue>>)
    requires
        ds@.len() == parts@.len(),
    ensures
        match r {
            Some(out) => alternative_types(texts(parts@)) matches Some(ts) && one_of_model(out@)
                == described_alternatives(ts, texts(ds@)),
            None => alternative_types(texts(parts@)) is None,
        },
{
    let ghost pv = texts(parts@);
    let ghost dv = texts(ds@);
    let mut out: Vec<OneOfValue> = Vec::new();
    let mut k: usize = 0;
    assert(pv.take(0) =~= Seq::<Seq<char>>::empty());
    while k < parts.len()
        invariant
            pv == texts(parts@),
            dv == texts(ds@),
            ds@.len() == parts@.len(),
            k <= parts@.len(),
            out@.len() == k,
            alternative_types(pv.take(k as int)) is Some,
            forall|j: int|
                0 <= j < k ==> (#[trigger] out@[j])@ == (OneOfModel {
                    typ: alternative_types(pv.take(k as int))->Some_0[j],
                    desc: Some(dv[j]),
                    since: None,
                }),
            alternative_types(pv.take(k as int))->Some_0.len() == k,
        decreases parts@.len() - k,
    {
        let ghost ts0 = alternative_types(pv.take(k as int))->Some_0;
        assert(pv.take(k + 1).drop_last() =~= pv.take(k as int));
        assert(pv.take(k + 1).last() == parts@[k as int]@);
        let t = match value_of_chars(&parts[k], 0) {
            Ok(t) => t,
            Err(_) => {
                assert(alternative_types(pv.take(k + 1)) is None);
                proof {
                    lemma_alternative_types_prefix(pv, k as int + 1);
                }
                return None;
            },
        };
        let ghost tm = t@;
        out.push(OneOfValue { typ: t, desc: Some(string_of(&ds[k])), since: None });
        assert(alternative_types(pv.take(k + 1)) == Some(ts0.push(tm)));
        k += 1;
    }
    assert(pv.take(parts@.len() as int) =~= pv);
    let ghost ts = alternative_types(pv)->Some_0;
    assert(one_of_model(out@) =~= described_alternatives(ts, dv));
    Some(out)
}

fn alternatives_chars(s: &[char]) -> (r: Option<ParamItem>)
    ensures
        match r {
            Some(p) => alternatives_of(s@) == Some(p@),
            None => alternatives_of(s@) is None,
        },
{
    reveal(alternatives_of);
    let (name_part, ls) = match header_chars(s) {
        Some(h) => h,
        None => {
            return None;
        },
    };
    let (first, later) = first_and_later(&ls);
    let ghost lv = texts(later@);
    let mut ds: Vec<Vec<char>> = Vec::new();
    let mut i: usize = 0;
    assert(lv.take(0) =~= Seq::<Seq<char>>::empty());
    while i < later.len()
        invariant
            lv == texts(later@),
            i <= later@.len(),
            texts(ds@) == alternative_descs(lv.take(i as int)),
        decreases later@.len() - i,
    {
        let ghost before = ds@;
        assert(lv.take(i + 1).drop_last() =~= lv.take(i as int));
        assert(lv.take(i + 1).last() == later@[i as int]@);
        match bullet_content_chars(&later[i]) {
            Some(c) => {
                ds.push(alternative_desc_chars(&c));
                assert(texts(ds@) =~= texts(before) + seq![ds@.last()@]);
            },
            None => {
                assert(texts(before) + Seq::<Seq<char>>::empty() =~= texts(before));
            },
        }
        i += 1;
    }
    assert(lv.take(later@.len() as int) =~= lv);
    let colon = [':'];
    assert(colon@ =~= seq![':']);
    if contains(&first, &chars_of(" - ")) || !ends_with(&first, colon.as_slice()) {
        return None;
    }
    let tt = trim(&trim_end_matches(&first, colon.as_slice()));
    let sep = chars_of(" or ");
    proof {
        reveal_strlit(" or ");
    }
    let parts = split_chars(&tt, &sep);
    let ghost pv = texts_of_chars(parts@);
    assert(pv == texts(parts@)) by {
        assert(pv =~= texts(parts@));
    }
    if parts.len() < 2 || ds.len() != parts.len() {
        return None;
    }
    let ghost dv = texts(ds@);
    let out = match alternative_values(&parts, &ds) {
        Some(out) => out,
        None => {
            return None;
        },
    };
    let ghost ts = alternative_types(pv)->Some_0;
    let ghost want = described_alternatives(ts, dv);
    let typ = Value::OneOf(out);
    assert(match typ@ {
        ValueModel::OneOf(m) => m =~= want,
        _ => false,
    });
    Some(ParamItem {
        name: string_of(&trim(&name_part)),
        desc: Some(string_of(&join_chars(&ds))),
        typ,
        optional: false,
        default: None,
        since: None,
    })
}

// ----- a type or numbers with meanings -----

/// A line that gives a number and its meaning, such as `* 0/[[false]] = meaning`
/// or `* 2 = meaning`: the number's entry, and the line's text.
pub open spec fn meaning_entry(line: Seq<char>) -> Option<(NumberEnumModel, Seq<char>)> {
    match bullet_content(line) {
        None => None,
        Some(c) => match split_first(c, " = "@) {
            None => None,
            Some((lhs, m)) => {
                let n = match split_first(lhs, seq!['/']) {
                    Some((a, _)) => a,
                    None => lhs,
                };
                match i32_of_text(trimmed(n)) {
                    None => None,
                    Some(v) => Some((NumberEnumModel { value: v, desc: Some(trimmed(m)), since: None }, c)),
                }
            },
        },
    }
}

/// The lines that give numbers with meanings, in order.
pub open spec fn meaning_entries(ls: Seq<Seq<char>>) -> Seq<(NumberEnumModel, Seq<char>)>
    decreases ls.len(),
{
    if ls.len() == 0 {
        Seq::empty()
    } else {
        meaning_entries(ls.drop_last()) + match meaning_entry(ls.last()) {
            Some(e) => seq![e],
            None => Seq::empty(),
        }
    }
}

/// One alternative of a type text: its type, and the version of a version
/// template before it.
pub open spec fn typed_part(part: Seq<char>) -> Option<(ValueModel, Option<SinceView>)> {
    let p = trimmed(part);
    if starts(p, "{{GVI|"@) {
        match since_prefix_of(p) {
            Ok((sv, rest)) => match value_of_text(rest, 0, fuel_for(rest.len())) {
                Ok(t) => Some((t, sv)),
                Err(_) => None,
            },
            Err(_) => None,
        }
    } else {
        match value_of_text(p, 0, fuel_for(p.len())) {
            Ok(t) => Some((t, None)),
            Err(_) => None,
        }
    }
}

/// What a parameter of a type or a number reads as, where the lines give the
/// numbers' meanings: `name: [[Boolean]] or [[Number]] - description` followed
/// by lines `* 0/[[false]] = meaning`. The number becomes an enumeration of the
/// lines' numbers and meanings, and the other type takes the lines' texts, one
/// per line, as its description.
#[verifier::opaque]
pub open spec fn meaning_enum_of(s: Seq<char>) -> Option<ParamItemModel> {
    match header_of(s) {
        None => None,
        Some((name_part, ls)) => match split_first(first_line(ls), " - "@) {
            None => None,
            Some((types, d)) => {
                let parts = split_all(types, " or "@);
                let es = meaning_entries(later_lines(ls));
                if parts.len() != 2 || es.len() == 0 {
                    None
                } else {
                    match (typed_part(parts[0]), typed_part(parts[1])) {
                        (Some((ta, sa)), Some((tb, sb))) => if ta == ValueModel::Plain(Kind::Number) || tb
                            != ValueModel::Plain(Kind::Number) {
                            None
                        } else {
                            Some(ParamItemModel {
                                name: trimmed(name_part),
                                desc: Some(trimmed(d)),
                                typ: ValueModel::OneOf(
                                    seq![
                                        OneOfModel {
                                            typ: ta,
                                            desc: Some(joined(es.map_values(|e: (NumberEnumModel, Seq<char>)| e.1))),
                                            since: sa,
                                        },
                                        OneOfModel {
                                            typ: ValueModel::NumberEnum(es.map_values(|e: (NumberEnumModel, Seq<char>)| e.0)),
                                            desc: None,
                                            since: sb,
                                        },
                                    ],
                                ),
                                optional: false,
                                default: None,
                                since: None,
                            })
                        },
                        _ => None,
                    }
                }
            },
        },
    }
}

fn meaning_entry_chars(line: &[char]) -> (r: Option<(NumberEnumValue, Vec<char>)>)
    ensures
        match r {
            Some((e, c)) => meaning_entry(line@) == Some((e@, c@)),
            None => meaning_entry(line@) is None,
        },
{
    let c = match bullet_content_chars(line) {
        None => {
            return None;
        },
        Some(c) => c,
    };
    let (lhs, m) = match split_once(&c, &chars_of(" = ")) {
        None => {
            return None;
        },
        Some(parts) => parts,
    };
    let slash = ['/'];
    assert(slash@ =~= seq!['/']);
    let n = match split_once(&lhs, slash.as_slice()) {
        Some((a, _)) => a,
        None => lhs,
    };
    match parse_i32(&trim(&n)) {
        None => None,
        Some(v) => Some((NumberEnumValue { value: v, desc: Some(string_of(&trim(&m))), since: None }, c)),
    }
}

fn typed_part_chars(part: &[char]) -> (r: Option<(Value, Option<Since>)>)
    ensures
        match r {
            Some((t, o)) => typed_part(part@) == Some((t@, opt_since(o))),
            None => typed_part(part@) is None,
        },
{
    let p = trim(part);
    if starts_with(&p, &chars_of("{{GVI|")) {
        match since_prefix(&p) {
            Ok((o, a, b)) => {
                let rest = slice_copy(&p, a, b);
                match value_of_chars(&rest, 0) {
                    Ok(t) => Some((t, o)),
                    Err(_) => None,
                }
            },
            Err(_) => None,
        }
    } else {
        match value_of_chars(&p, 0) {
            Ok(t) => Some((t, None)),
            Err(_) => None,
        }
    }
}

fn meaning_lines_chars(ls: &Vec<Vec<char>>) -> (r: (Vec<NumberEnumValue>, Vec<Vec<char>>))
    ensures
        r.0@.map_values(|e: NumberEnumValue| e@) == meaning_entries(texts(ls@)).map_values(
            |e: (NumberEnumModel, Seq<char>)| e.0,
        ),
        texts(r.1@) == meaning_entries(texts(ls@)).map_values(|e: (NumberEnumModel, Seq<char>)| e.1),
{
    let ghost lv = texts(ls@);
    let mut nums: Vec<NumberEnumValue> = Vec::new();
    let mut lines: Vec<Vec<char>> = Vec::new();
    let mut i: usize = 0;
    assert(lv.take(0) =~= Seq::<Seq<char>>::empty());
    while i < ls.len()
        invariant
            lv == texts(ls@),
            i <= ls@.len(),
            nums@.map_values(|e: NumberEnumValue| e@) == meaning_entries(lv.take(i as int)).map_values(
                |e: (NumberEnumModel, Seq<char>)| e.0,
            ),
            texts(lines@) == meaning_entries(lv.take(i as int)).map_values(|e: (NumberEnumModel, Seq<char>)| e.1),
        decreases ls@.len() - i,
    {
        let ghost me = meaning_entries(lv.take(i as int));
        let ghost bn = nums@;
        let ghost bl = lines@;
        assert(lv.take(i + 1).drop_last() =~= lv.take(i as int));
        assert(lv.take(i + 1).last() == ls@[i as int]@);
        match meaning_entry_chars(&ls[i]) {
            Some((e, c)) => {
                let ghost pe = (e@, c@);
                nums.push(e);
                lines.push(c);
                assert(meaning_entries(lv.take(i + 1)) == me + seq![pe]);
                assert(nums@.map_values(|e: NumberEnumValue| e@) =~= (me + seq![pe]).map_values(
                    |e: (NumberEnumModel, Seq<char>)| e.0,
                )) by {
                    assert(bn.map_values(|e: NumberEnumValue| e@).len() == bn.len());
                    assert(me.map_values(|e: (NumberEnumModel, Seq<char>)| e.0).len() == me.len());
                    assert forall|j: int| 0 <= j < bn.len() implies nums@[j]@ == me[j].0 by {
                        assert(bn.map_values(|e: NumberEnumValue| e@)[j] == me.map_values(
                            |e: (NumberEnumModel, Seq<char>)| e.0,
                        )[j]);
                    }
                }
                assert(texts(lines@) =~= (me + seq![pe]).map_values(|e: (NumberEnumModel, Seq<char>)| e.1)) by {
                    assert(texts(bl).len() == bl.len());
                    assert(me.map_values(|e: (NumberEnumModel, Seq<char>)| e.1).len() == me.len());
                    assert forall|j: int| 0 <= j < bl.len() implies lines@[j]@ == me[j].1 by {
                        assert(texts(bl)[j] == me.map_values(|e: (NumberEnumModel, Seq<char>)| e.1)[j]);
                    }
                }
            },
            None => {
                assert(meaning_entries(lv.take(i + 1)) =~= me);
            },
        }
        i += 1;
    }
    assert(lv.take(ls@.len() as int) =~= lv);
    (nums, lines)
}

fn meaning_enum_chars(s: &[char]) -> (r: Option<ParamItem>)
    ensures
        match r {
            Some(p) => meaning_enum_of(s@) == Some(p@),
            None => meaning_enum_of(s@) is None,
        },
{
    reveal(meaning_enum_of);
    let (name_part, ls) = match header_chars(s) {
        Some(h) => h,
        None => {
            return None;
        },
    };
    let (first, later) = first_and_later(&ls);
    let (types, d) = match split_once(&first, &chars_of(" - ")) {
        None => {
            return None;
        },
        Some(parts) => parts,
    };
    let sep = chars_of(" or ");
    proof {
        reveal_strlit(" or ");
    }
    let parts = split_chars(&types, &sep);
    assert(texts_of_chars(parts@) =~= texts(parts@));
    let (nums, lines) = meaning_lines_chars(&later);
    if parts.len() != 2 || nums.len() == 0 {
        proof {
            assert(nums@.map_values(|e: NumberEnumValue| e@).len() == nums@.len());
        }
        return None;
    }
    assert(parts@[0]@ == texts(parts@)[0] && parts@[1]@ == texts(parts@)[1]);
    let (ta, sa) = match typed_part_chars(&parts[0]) {
        Some(x) => x,
        None => {
            return None;
        },
    };
    let (tb, sb) = match typed_part_chars(&parts[1]) {
        Some(x) => x,
        None => {
            return None;
        },
    };
    let a_number = match ta {
        Value::Number => true,
        _ => false,
    };
    let b_number = match tb {
        Value::Number => true,
        _ => false,
    };
    assert(a_number <==> ta@ == ValueModel::Plain(Kind::Number));
    assert(b_number <==> tb@ == ValueModel::Plain(Kind::Number));
    if a_number || !b_number {
        return None;
    }
    let ghost nm = nums@.map_values(|e: NumberEnumValue| e@);
    let ghost lm = texts(lines@);
    let first_alt = OneOfValue { typ: ta, desc: Some(string_of(&join_chars(&lines))), since: sa };
    let second_alt = OneOfValue { typ: Value::NumberEnum(nums), desc: None, since: sb };
    assert(value_model(second_alt.typ) == ValueModel::NumberEnum(nm)) by {
        assert(nm =~= second_alt.typ@->NumberEnum_0);
    }
    let alternatives = vec![first_alt, second_alt];
    let r = ParamItem {
        name: string_of(&trim(&name_part)),
        desc: Some(string_of(&trim(&d))),
        typ: Value::OneOf(alternatives),
        optional: false,
        default: None,
        since: None,
    };
    let ghost want = seq![first_alt@, second_alt@];
    assert(match value_model(r.typ) {
        ValueModel::OneOf(m) => m =~= want,
        _ => false,
    });
    proof {
        let ghost es = meaning_entries(later_lines(texts(ls@)));
        let ghost sp = split_all(types@, " or "@);
        assert(split_first(first_line(texts(ls@)), " - "@) == Some((types@, d@)));
        assert(sp.len() == 2);
        assert(typed_part(sp[0]) == Some((ta@, opt_since(sa))));
        assert(typed_part(sp[1]) == Some((tb@, opt_since(sb))));
        assert(nm.len() == nums@.len());
        assert(es.map_values(|e: (NumberEnumModel, Seq<char>)| e.0).len() == es.len());
        assert(es.len() > 0);
        assert(first_alt@.desc == Some(joined(es.map_values(|e: (NumberEnumModel, Seq<char>)| e.1))));
        assert(nm == es.map_values(|e: (NumberEnumModel, Seq<char>)| e.0));
    }
    Some(r)
}

// ----- extra description lines -----

/// Index of the first line that is not blank, or the number of lines.
pub open spec fn first_filled(ls: Seq<Seq<char>>, i: int) -> int
    decreases ls.len() - i,
{
    if i < 0 || i >= ls.len() || trimmed(ls[i]).len() > 0 {
        i
    } else {
        first_filled(ls, i + 1)
    }
}

/// The trimmed lines that start with `*`, in order.
pub open spec fn star_lines(ls: Seq<Seq<char>>) -> Seq<Seq<char>>
    decreases ls.len(),
{
    if ls.len() == 0 {
        Seq::empty()
    } else {
        let t = trimmed(ls.last());
        star_lines(ls.drop_last()) + if starts(t, seq!['*']) {
            seq![t]
        } else {
            Seq::empty()
        }
    }
}

/// Lines joined with line feeds.
pub open spec fn joined(ls: Seq<Seq<char>>) -> Seq<char>
    decreases ls.len(),
{
    if ls.len() == 0 {
        Seq::empty()
    } else if ls.len() == 1 {
        ls[0]
    } else {
        joined(ls.drop_last()) + seq!['\n'] + ls.last()
    }
}

/// A description with extra lines appended.
pub open spec fn with_extra(desc: Option<Seq<char>>, extra: Seq<Seq<char>>) -> Option<Seq<char>> {
    if extra.len() == 0 {
        desc
    } else {
        match desc {
            Some(d) => Some(d + seq!['\n'] + joined(extra)),
            None => Some(joined(extra)),
        }
    }
}

/// What a parameter line followed by extra description lines reads as: the
/// first line that is not blank is read as a one-line parameter, and the later
/// lines that start with `*` are added to its description.
pub open spec fn extra_description_of(s: Seq<char>) -> Result<Option<ParamItemModel>, Seq<char>> {
    if !s.contains('\n') {
        Ok(None)
    } else {
        let ls = lines_of(s);
        let k = first_filled(ls, 0);
        if k >= ls.len() {
            Ok(None)
        } else {
            match simple_line_of(trimmed(ls[k])) {
                Err(e) => Err(e),
                Ok(None) => Ok(None),
                Ok(Some(it)) => Ok(Some(ParamItemModel { desc: with_extra(it.desc, star_lines(ls.skip(k + 1))), ..it })),
            }
        }
    }
}

fn join_chars(ls: &Vec<Vec<char>>) -> (r: Vec<char>)
    ensures
        r@ == joined(texts(ls@)),
{
    let ghost lv = texts(ls@);
    let mut out: Vec<char> = Vec::new();
    let mut i: usize = 0;
    let nl = ['\n'];
    assert(nl@ =~= seq!['\n']);
    assert(lv.take(0) =~= Seq::<Seq<char>>::empty());
    while i < ls.len()
        invariant
            lv == texts(ls@),
            nl@ == seq!['\n'],
            i <= ls@.len(),
            out@ == joined(lv.take(i as int)),
        decreases ls@.len() - i,
    {
        assert(lv.take(i + 1).drop_last() =~= lv.take(i as int));
        if i == 0 {
            out = slice_copy(&ls[0], 0, ls[0].len());
            assert(lv.take(1) =~= seq![lv[0]]);
        } else {
            out = concat(&concat(&out, nl.as_slice()), &ls[i]);
        }
        i += 1;
    }
    assert(lv.take(ls@.len() as int) =~= lv);
    out
}

fn extra_description_chars(s: &[char]) -> (r: Result<Option<ParamItem>, String>)
    ensures
        item_result(r) == extra_description_of(s@),
{
    if !has_char(s, '\n') {
        return Ok(None);
    }
    let ls = lines(s);
    let ghost lv = texts(ls@);
    let mut k: usize = 0;
    while k < ls.len() && trim(&ls[k]).len() == 0
        invariant
            lv == texts(ls@),
            k <= ls@.len(),
            first_filled(lv, 0) == first_filled(lv, k as int),
        decreases ls@.len() - k,
    {
        k += 1;
    }
    if k >= ls.len() {
        return Ok(None);
    }
    let mut item = match simple_line_chars(&trim(&ls[k])) {
        Err(e) => {
            return Err(e);
        },
        Ok(None) => {
            return Ok(None);
        },
        Ok(Some(it)) => it,
    };
    let ghost rest = lv.skip(k + 1);
    let mut extra: Vec<Vec<char>> = Vec::new();
    let mut j: usize = k + 1;
    assert(rest.take(0) =~= Seq::<Seq<char>>::empty());
    let star = ['*'];
    assert(star@ =~= seq!['*']);
    while j < ls.len()
        invariant
            lv == texts(ls@),
            rest == lv.skip(k + 1),
            star@ == seq!['*'],
            k + 1 <= j <= ls@.len(),
            texts(extra@) == star_lines(rest.take(j - k - 1)),
        decreases ls@.len() - j,
    {
        let ghost before = extra@;
        assert(rest.take(j - k).drop_last() =~= rest.take(j - k - 1));
        assert(rest.take(j - k).last() == ls@[j as int]@);
        let t = trim(&ls[j]);
        if starts_with(&t, star.as_slice()) {
            extra.push(t);
            assert(texts(extra@) =~= texts(before) + seq![t@]);
        } else {
            assert(texts(before) + Seq::<Seq<char>>::empty() =~= texts(before));
        }
        j += 1;
    }
    assert(rest.take(ls@.len() - k - 1) =~= rest);
    if extra.len() > 0 {
        let text = join_chars(&extra);
        let nl = ['\n'];
        assert(nl@ =~= seq!['\n']);
        let desc = match &item.desc {
            Some(d) => concat(&concat(&chars_of(d.as_str()), nl.as_slice()), &text),
            None => text,
        };
        item.desc = Some(string_of(&desc));
    }
    Ok(Some(item))
}

/// Reads a one-line parameter followed by extra description lines that start
/// with `*`; blank lines before the parameter line are skipped.
pub fn try_simple_line_with_extra_description(source: &str) -> (r: Result<Option<ParamItem>, String>)
    ensures
        item_result(r) == extra_description_of(source@),
{
    extra_description_chars(&chars_of(source))
}

/// Blank lines before the parameter's line are passed over.
proof fn lemma_first_filled_after_blank(x: Seq<char>, ls: Seq<Seq<char>>, i: int)
    requires
        trimmed(x).len() == 0,
        0 <= i <= ls.len(),
    ensures
        first_filled(seq![x] + ls, i + 1) == first_filled(ls, i) + 1,
    decreases ls.len() - i,
{
    if i < ls.len() {
        assert((seq![x] + ls)[i + 1] == ls[i]);
        if trimmed(ls[i]).len() == 0 {
            lemma_first_filled_after_blank(x, ls, i + 1);
        }
    }
}

/// The first line that is not blank lies within the lines.
proof fn lemma_first_filled_bounds(ls: Seq<Seq<char>>, i: int)
    requires
        0 <= i <= ls.len(),
    ensures
        i <= first_filled(ls, i) <= ls.len(),
    decreases ls.len() - i,
{
    if i < ls.len() && trimmed(ls[i]).len() == 0 {
        lemma_first_filled_bounds(ls, i + 1);
    }
}

/// Star lines are none where no line starts with `*`.
proof fn lemma_no_star_lines(ls: Seq<Seq<char>>)
    requires
        forall|j: int| 0 <= j < ls.len() ==> !starts(#[trigger] trimmed(ls[j]), seq!['*']),
    ensures
        star_lines(ls) == Seq::<Seq<char>>::empty(),
    decreases ls.len(),
{
    if ls.len() > 0 {
        assert(!starts(trimmed(ls[ls.len() - 1]), seq!['*']));
        lemma_no_star_lines(ls.drop_last());
    }
}

/// A parameter with extra description lines reads the same after a leading
/// line feed; and where its first line is not blank and no later line starts
/// with `*`, it reads as that line alone, trimmed.
pub proof fn lemma_extra_description(s: Seq<char>)
    requires
        s.contains('\n'),
    ensures
        extra_description_of(seq!['\n'] + s) == extra_description_of(s),
        lines_of(s).len() > 0 && trimmed(lines_of(s)[0]).len() > 0 && (forall|j: int|
            1 <= j < lines_of(s).len() ==> !starts(#[trigger] trimmed(lines_of(s)[j]), seq!['*']))
            ==> extra_description_of(s) == simple_line_of(trimmed(lines_of(s)[0])),
{
    let t = seq!['\n'] + s;
    assert(t[0] == '\n');
    assert(line_end(t) == 0);
    assert(t.skip(1) =~= s);
    assert(without_cr(t.take(0)) =~= Seq::<char>::empty());
    assert(lines_of(t) == seq![Seq::<char>::empty()] + lines_of(s));
    assert(t.contains('\n')) by {
        assert(t[0] == '\n');
    }
    let ls = lines_of(s);
    let x = Seq::<char>::empty();
    assert(trimmed(x) =~= Seq::<char>::empty()) by {
        reveal_with_fuel(crate::text::trimmed_start, 2);
        reveal_with_fuel(crate::text::trimmed_end, 2);
    }
    lemma_first_filled_after_blank(x, ls, 0);
    assert(first_filled(seq![x] + ls, 0) == first_filled(seq![x] + ls, 1));
    let k = first_filled(ls, 0);
    lemma_first_filled_bounds(ls, 0);
    if k < ls.len() {
        assert((seq![x] + ls)[k + 1] == ls[k]);
        assert((seq![x] + ls).skip(k + 2) =~= ls.skip(k + 1));
    }
    if ls.len() > 0 && trimmed(ls[0]).len() > 0 && (forall|j: int|
        1 <= j < ls.len() ==> !starts(#[trigger] trimmed(ls[j]), seq!['*'])) {
        assert(k == 0);
        assert forall|j: int| 0 <= j < ls.skip(1).len() implies !starts(
            #[trigger] trimmed(ls.skip(1)[j]),
            seq!['*'],
        ) by {
            assert(ls.skip(1)[j] == ls[j + 1]);
        }
        lemma_no_star_lines(ls.skip(1));
        match simple_line_of(trimmed(ls[0])) {
            Ok(Some(it)) => {
                assert(with_extra(it.desc, star_lines(ls.skip(1))) == it.desc);
                assert((ParamItemModel { desc: with_extra(it.desc, star_lines(ls.skip(1))), ..it }) == it);
            },
            _ => {},
        }
    }
}


// ----- arrays with named elements -----

/// The first line of an array parameter with `[[Array]] of` taken off (and
/// `[[Array]]s with` read as `[[Array]] with`), and whether it was there.
pub open spec fn array_first(first: Seq<char>) -> (Seq<char>, bool) {
    if starts(first, "[[Array]] of "@) {
        (
            replaced(trimmed(trimmed_start_matches(first, "[[Array]] of "@)), "[[Array]]s with "@, "[[Array]] with "@),
            true,
        )
    } else {
        (first, false)
    }
}

/// The argument list and the description of `[[Array]] with [a, b] - description`.
pub open spec fn array_args(fl: Seq<char>) -> (Seq<char>, Option<Seq<char>>) {
    match split_first(fl, " - "@) {
        Some((pp, dp)) => (trimmed(trimmed_start_matches(pp, "[[Array]] with"@)), Some(trimmed(dp))),
        None => (trimmed(trimmed_start_matches(fl, "[[Array]] with"@)), None),
    }
}

/// An element line `0 - name: ...` with its index taken off.
pub open spec fn indexed_line(l: Seq<char>) -> Seq<char> {
    match split_first(l, " - "@) {
        Some((index, rest)) => if all_digits(trimmed(index)) {
            trimmed(rest)
        } else {
            l
        },
        None => l,
    }
}

/// The `**` lines from `j` on, each as a line feed, `*` and its content.
pub open spec fn nested_tail(ls: Seq<Seq<char>>, j: int) -> Seq<char>
    decreases ls.len() - j,
{
    if 0 <= j < ls.len() && starts(trimmed(ls[j]), "**"@) {
        seq!['\n', '*'] + trimmed(trimmed_start_matches(trimmed(ls[j]), "**"@)) + nested_tail(ls, j + 1)
    } else {
        Seq::empty()
    }
}

/// The index of the first line from `j` on that is not a `**` line.
pub open spec fn nested_end(ls: Seq<Seq<char>>, j: int) -> int
    decreases ls.len() - j,
{
    if 0 <= j < ls.len() && starts(trimmed(ls[j]), "**"@) {
        nested_end(ls, j + 1)
    } else {
        j
    }
}

pub open spec fn quoted_message(prefix: Seq<char>, t: Seq<char>) -> Seq<char> {
    prefix + t + "'"@
}

/// The items with more items after them, or the first failure.
pub open spec fn prepend(item: ParamItemModel, rest: Result<Seq<ParamItemModel>, Seq<char>>) -> Result<Seq<ParamItemModel>, Seq<char>> {
    match rest {
        Ok(r) => Ok(seq![item] + r),
        Err(e) => Err(e),
    }
}

/// The element items of an array parameter read from its lines from `i` on:
/// each `* name: ...` line is a one-line item (an index `0 - ` before it is
/// dropped), and a `* name: [[Array]] with ...` line with the `**` lines after
/// it is a nested array parameter; `{{Columns|` and its `}}` are skipped, and
/// other lines are ignored.
pub open spec fn element_lines(ls: Seq<Seq<char>>, i: int, in_columns: bool, fuel: nat) -> Result<Seq<ParamItemModel>, Seq<char>>
    decreases fuel, 0int, ls.len() - i,
{
    if i < 0 || i >= ls.len() {
        Ok(Seq::empty())
    } else {
        let line = trimmed(ls[i]);
        if holds(line, "{{Columns|"@) {
            element_lines(ls, i + 1, true, fuel)
        } else if line == "}}"@ {
            if !in_columns {
                Err("Unexpected closing '}}' without matching '{{Columns|'"@)
            } else {
                element_lines(ls, i + 1, false, fuel)
            }
        } else if starts(line, seq!['*']) && !starts(line, seq!['*', '*']) {
            let content = trimmed(trimmed_start_matches(line, seq!['*']));
            if holds(content, "[[Array]] with"@) {
                let end = nested_end(ls, i + 1);
                let fail = quoted_message("Failed to parse nested array with element line: '"@, content);
                if fuel == 0 || end <= i || end > ls.len() {
                    Err(fail)
                } else {
                    match array_with_of(content + nested_tail(ls, i + 1), (fuel - 1) as nat) {
                        Ok(Some(item)) => prepend(item, element_lines(ls, end, in_columns, fuel)),
                        _ => Err(fail),
                    }
                }
            } else {
                let l = indexed_line(content);
                match simple_line_of(l) {
                    Ok(Some(item)) => prepend(item, element_lines(ls, i + 1, in_columns, fuel)),
                    _ => Err(quoted_message("Failed to parse array with element line: '"@, l)),
                }
            }
        } else {
            element_lines(ls, i + 1, in_columns, fuel)
        }
    }
}

/// What an array parameter reads as: `name: [[Array]] with [a, b] - description`
/// (or `[[Array]] of [[Array]]s with ...`) followed by element lines; the type
/// is that of the parameter that the argument list builds from the elements.
/// `fuel` bounds the nesting of arrays.
pub open spec fn array_with_of(s: Seq<char>, fuel: nat) -> Result<Option<ParamItemModel>, Seq<char>>
    decreases fuel, 1int, 0int,
{
    match header_of(s) {
        None => Ok(None),
        Some((name_part, ls)) => {
            let (fl, wrap) = array_first(first_line(ls));
            if !starts(fl, "[[Array]] with "@) {
                Ok(None)
            } else {
                let (args, desc) = array_args(fl);
                match params_of(args) {
                    None => Err(quoted_message("Failed to parse array with parameters: '"@, args)),
                    Some(arg) => match element_lines(later_lines(ls), 0, false, fuel) {
                        Err(e) => Err(e),
                        Ok(items) => match param_of_arg(arg, items) {
                            Err(e) => Err(e),
                            Ok(p) => {
                                let (default, optional, desc) = described(desc);
                                Ok(Some(ParamItemModel {
                                    name: trimmed(name_part),
                                    desc,
                                    typ: if wrap {
                                        ValueModel::ArrayUnsized(Box::new(param_value(p)))
                                    } else {
                                        param_value(p)
                                    },
                                    optional,
                                    default,
                                    since: None,
                                }))
                            },
                        },
                    },
                }
            }
        },
    }
}

/// An element line that starts a nested array (`* name: [[Array]] with ...`).
pub open spec fn nested_line(l: Seq<char>) -> bool {
    let line = trimmed(l);
    starts(line, seq!['*']) && !starts(line, seq!['*', '*']) && holds(
        trimmed(trimmed_start_matches(line, seq!['*'])),
        "[[Array]] with"@,
    )
}

/// The lines a `{{Columns|` line and a `}}` line may wrap: none of them closes
/// or opens columns, and none starts a nested array.
pub open spec fn column_body(body: Seq<Seq<char>>) -> bool {
    forall|j: int|
        0 <= j < body.len() ==> trimmed(#[trigger] body[j]) != "}}"@ && !holds(trimmed(body[j]), "{{Columns|"@)
            && !nested_line(body[j])
}

proof fn lemma_closing_line()
    ensures
        trimmed("}}"@) == "}}"@,
        !holds("}}"@, "{{Columns|"@),
        !starts("}}"@, seq!['*']),
{
    reveal_strlit("}}");
    reveal_strlit("{{Columns|");
    assert(!is_ws('}'));
    assert(trimmed_start("}}"@) == "}}"@);
    assert(trimmed_end("}}"@) == "}}"@);
    lemma_find("}}"@, "{{Columns|"@);
    assert("}}"@.take(1) != seq!['*']) by {
        assert("}}"@.take(1)[0] == '}');
    }
}

proof fn lemma_columns_elements(c: Seq<char>, body: Seq<Seq<char>>, i: int, f1: nat, f2: nat)
    requires
        column_body(body),
        0 <= i <= body.len(),
    ensures
        element_lines(seq![c] + body + seq!["}}"@], i + 1, true, f1) == element_lines(body, i, false, f2),
    decreases body.len() - i,
{
    let ls = seq![c] + body + seq!["}}"@];
    lemma_closing_line();
    if i == body.len() {
        assert(ls[i + 1] == "}}"@);
        assert(element_lines(ls, i + 2, false, f1) == Ok::<Seq<ParamItemModel>, Seq<char>>(Seq::empty()));
    } else {
        assert(ls[i + 1] == body[i]);
        lemma_columns_elements(c, body, i + 1, f1, f2);
    }
}

/// Element lines wrapped in a `{{Columns|...|` line and a `}}` line read as
/// the lines alone (where none of them starts a nested array): the array
/// parameter reads the same, whatever the bound on nesting.
pub proof fn lemma_columns(s: Seq<char>, t: Seq<char>, c: Seq<char>, f1: nat, f2: nat)
    requires
        header_of(s) matches Some((n, ls)) && ls.len() > 0 && column_body(ls.skip(1)) && header_of(t) == Some(
            (n, seq![ls[0], c] + ls.skip(1) + seq!["}}"@]),
        ),
        holds(trimmed(c), "{{Columns|"@),
    ensures
        array_with_of(t, f1) == array_with_of(s, f2),
{
    let (n, ls) = header_of(s)->Some_0;
    let body = ls.skip(1);
    let lt = seq![ls[0], c] + body + seq!["}}"@];
    assert(later_lines(lt) =~= seq![c] + body + seq!["}}"@]);
    assert(later_lines(ls) =~= body);
    assert(first_line(lt) == first_line(ls));
    lemma_columns_elements(c, body, 0, f1, f2);
    assert((seq![c] + body + seq!["}}"@])[0] == c);
    assert(element_lines(later_lines(lt), 0, false, f1) == element_lines(later_lines(lt), 1, true, f1));
}

/// A multi-line text whose first `: ` is its end: it has no first line to read.
pub open spec fn lacks_first_line(s: Seq<char>) -> bool {
    header_of(s) matches Some((_, ls)) && ls.len() == 0
}

fn quoted_message_chars(prefix: &str, t: &[char]) -> (r: String)
    ensures
        r@ == quoted_message(prefix@, t@),
{
    let m = concat(&concat(&chars_of(prefix), t), &chars_of("'"));
    string_of(&m)
}

fn array_first_chars(first: &[char]) -> (r: (Vec<char>, bool))
    ensures
        (r.0@, r.1) == array_first(first@),
{
    let of = chars_of("[[Array]] of ");
    if starts_with(first, &of) {
        let t = trim(&trim_start_matches(first, &of));
        (crate::text::replace(&t, &chars_of("[[Array]]s with "), &chars_of("[[Array]] with ")), true)
    } else {
        (slice_copy(first, 0, first.len()), false)
    }
}

fn array_args_chars(fl: &[char]) -> (r: (Vec<char>, Option<Vec<char>>))
    ensures
        array_args(fl@) == (r.0@, match r.1 {
            Some(x) => Some(x@),
            None => None::<Seq<char>>,
        }),
{
    let with = chars_of("[[Array]] with");
    match split_once(fl, &chars_of(" - ")) {
        Some((pp, dp)) => (trim(&trim_start_matches(&pp, &with)), Some(trim(&dp))),
        None => (trim(&trim_start_matches(fl, &with)), None),
    }
}

fn all_digit_chars(s: &[char]) -> (r: bool)
    ensures
        r == crate::text::all_digits(s@),
{
    let mut i: usize = 0;
    while i < s.len()
        invariant
            i <= s@.len(),
            forall|k: int| 0 <= k < i ==> crate::text::is_digit(#[trigger] s@[k]),
        decreases s@.len() - i,
    {
        if !('0' <= s[i] && s[i] <= '9') {
            assert(!crate::text::is_digit(s@[i as int]));
            return false;
        }
        i += 1;
    }
    true
}

fn indexed_line_chars(l: &[char]) -> (r: Vec<char>)
    ensures
        r@ == indexed_line(l@),
{
    match split_once(l, &chars_of(" - ")) {
        Some((index, rest)) => {
            if all_digit_chars(&trim(&index)) {
                trim(&rest)
            } else {
                slice_copy(l, 0, l.len())
            }
        },
        None => slice_copy(l, 0, l.len()),
    }
}

/// A nested array's text: the content of its line and the `**` lines from
/// `start` on; and the index of the first line after them.
fn nested_source(ls: &Vec<Vec<char>>, start: usize, content: &[char]) -> (r: (Vec<char>, usize))
    requires
        start <= ls@.len(),
    ensures
        r.0@ == content@ + nested_tail(texts(ls@), start as int),
        r.1 == nested_end(texts(ls@), start as int),
        start <= r.1 <= ls@.len(),
{
    let ghost lv = texts(ls@);
    let dstars = chars_of("**");
    let mut nested = slice_copy(content, 0, content.len());
    assert(nested@ =~= content@);
    let mut j: usize = start;
    while j < ls.len() && starts_with(&trim(&ls[j]), &dstars)
        invariant
            lv == texts(ls@),
            dstars@ == "**"@,
            start <= j <= ls@.len(),
            nested_end(lv, start as int) == nested_end(lv, j as int),
            content@ + nested_tail(lv, start as int) == nested@ + nested_tail(lv, j as int),
        decreases ls@.len() - j,
    {
        let piece = trim(&trim_start_matches(&trim(&ls[j]), &dstars));
        let lead = ['\n', '*'];
        assert(lead@ =~= seq!['\n', '*']);
        let ghost old_nested = nested@;
        nested = concat(&concat(&nested, lead.as_slice()), &piece);
        assert(old_nested + nested_tail(lv, j as int) =~= nested@ + nested_tail(lv, j + 1));
        j += 1;
    }
    assert(nested_tail(lv, j as int) =~= Seq::<char>::empty());
    assert(nested@ =~= content@ + nested_tail(lv, start as int));
    (nested, j)
}

proof fn lemma_push_item(
    before: Seq<ParamItem>,
    item: ParamItem,
    after: Seq<ParamItem>,
    rest: Result<Seq<ParamItemModel>, Seq<char>>,
)
    requires
        after == before.push(item),
    ensures
        (match prepend(item@, rest) {
            Ok(r) => Ok::<Seq<ParamItemModel>, Seq<char>>(pool_model(before) + r),
            Err(e) => Err(e),
        }) == (match rest {
            Ok(r) => Ok::<Seq<ParamItemModel>, Seq<char>>(pool_model(after) + r),
            Err(e) => Err(e),
        }),
{
    assert(pool_model(after) =~= pool_model(before) + seq![item@]);
    match rest {
        Ok(r) => {
            assert(pool_model(before) + (seq![item@] + r) =~= pool_model(after) + r);
        },
        Err(_) => {},
    }
}

fn element_lines_chars(ls: &Vec<Vec<char>>, fuel: usize) -> (r: Result<Vec<ParamItem>, String>)
    ensures
        match r {
            Ok(v) => element_lines(texts(ls@), 0, false, fuel as nat) == Ok::<Seq<ParamItemModel>, Seq<char>>(pool_model(v@)),
            Err(e) => element_lines(texts(ls@), 0, false, fuel as nat) == Err::<Seq<ParamItemModel>, Seq<char>>(e@),
        },
    decreases fuel, 0int, 0int,
{
    let ghost lv = texts(ls@);
    let mut items: Vec<ParamItem> = Vec::new();
    let mut in_columns = false;
    let mut i: usize = 0;
    let star = ['*'];
    let stars = ['*', '*'];
    assert(star@ =~= seq!['*']);
    assert(stars@ =~= seq!['*', '*']);
    assert(pool_model(items@) =~= Seq::<ParamItemModel>::empty());
    while i < ls.len()
        invariant
            lv == texts(ls@),
            star@ == seq!['*'],
            stars@ == seq!['*', '*'],
            i <= ls@.len(),
            element_lines(lv, 0, false, fuel as nat) == match element_lines(lv, i as int, in_columns, fuel as nat) {
                Ok(rest) => Ok::<Seq<ParamItemModel>, Seq<char>>(pool_model(items@) + rest),
                Err(e) => Err(e),
            },
        decreases ls@.len() - i,
    {
        let line = trim(&ls[i]);
        assert(line@ == trimmed(lv[i as int]));
        if contains(&line, &chars_of("{{Columns|")) {
            in_columns = true;
            i += 1;
        } else if eq(&line, &chars_of("}}")) {
            if !in_columns {
                return Err(string_of(&chars_of("Unexpected closing '}}' without matching '{{Columns|'")));
            }
            in_columns = false;
            i += 1;
        } else if starts_with(&line, star.as_slice()) && !starts_with(&line, stars.as_slice()) {
            let content = trim(&trim_start_matches(&line, star.as_slice()));
            if contains(&content, &chars_of("[[Array]] with")) {
                let (nested, j) = nested_source(ls, i + 1, &content);
                let fail = quoted_message_chars("Failed to parse nested array with element line: '", &content);
                if fuel == 0 {
                    return Err(fail);
                }
                match array_with_chars(&nested, fuel - 1) {
                    Ok(Some(item)) => {
                        let ghost before = items@;
                        items.push(item);
                        proof {
                            lemma_push_item(before, item, items@, element_lines(lv, j as int, in_columns, fuel as nat));
                        }
                    },
                    _ => {
                        return Err(fail);
                    },
                }
                i = j;
            } else {
                let l = indexed_line_chars(&content);
                match simple_line_chars(&l) {
                    Ok(Some(item)) => {
                        let ghost before = items@;
                        items.push(item);
                        proof {
                            lemma_push_item(before, item, items@, element_lines(lv, i + 1, in_columns, fuel as nat));
                        }
                    },
                    _ => {
                        return Err(quoted_message_chars("Failed to parse array with element line: '", &l));
                    },
                }
                i += 1;
            }
        } else {
            i += 1;
        }
    }
    assert(pool_model(items@) + Seq::<ParamItemModel>::empty() =~= pool_model(items@));
    Ok(items)
}

fn array_with_chars(s: &[char], fuel: usize) -> (r: Result<Option<ParamItem>, String>)
    ensures
        item_result(r) == array_with_of(s@, fuel as nat),
    decreases fuel, 1int, 0int,
{
    let (name_part, ls) = match header_chars(s) {
        Some(h) => h,
        None => {
            return Ok(None);
        },
    };
    let (first, later) = first_and_later(&ls);
    let (fl, wrap) = array_first_chars(&first);
    if !starts_with(&fl, &chars_of("[[Array]] with ")) {
        return Ok(None);
    }
    let (args, desc) = array_args_chars(&fl);
    let arg = match Call::params_of_chars(&args) {
        Some(a) => a,
        None => {
            return Err(quoted_message_chars("Failed to parse array with parameters: '", &args));
        },
    };
    let params = element_lines_chars(&later, fuel)?;
    let (default, optional, desc) = described_chars(desc);
    let param = Param::build(&arg, params.as_slice())?;
    let value = param.as_value();
    let typ = if wrap {
        Value::array_unsized(value)
    } else {
        value
    };
    Ok(Some(ParamItem { name: string_of(&trim(&name_part)), desc, typ, optional, default, since: None }))
}

/// Reads an array parameter: `name: [[Array]] with [a, b] - description` (or
/// `[[Array]] of [[Array]]s with ...`) followed by lines that describe its
/// elements, nested arrays with `**` lines.
pub fn try_array_with(source: &str) -> (r: Result<Option<ParamItem>, String>)
    requires
        !lacks_first_line(source@),
    ensures
        item_result(r) == array_with_of(source@, fuel_for(source@.len())),
{
    let s = chars_of(source);
    let fuel = if s.len() < usize::MAX {
        s.len() + 1
    } else {
        s.len()
    };
    array_with_chars(&s, fuel)
}


// ----- parameters -----

/// What a parameter definition reads as: the first of the forms that reads
/// it (a one-line parameter, an array with elements, a number enumeration, a
/// string enumeration, an enumeration over a number and a string, a choice of
/// types described one by one, a type or numbers with meanings, a parameter
/// with extra description lines); the first
/// error stops the search.
pub open spec fn param_item_of(command: Seq<char>, s: Seq<char>) -> Result<ParamItemModel, Seq<char>> {
    match simple_line_of(s) {
        Err(e) => Err(e),
        Ok(Some(p)) => Ok(p),
        Ok(None) => match array_with_of(s, fuel_for(s.len())) {
            Err(e) => Err(e),
            Ok(Some(p)) => Ok(p),
            Ok(None) => match number_enum_of(s) {
                Some(p) => Ok(p),
                None => match string_enum_of(s) {
                    Some(p) => Ok(p),
                    None => match two_type_enum_of(s) {
                        Some(p) => Ok(p),
                        None => match alternatives_of(s) {
                            Some(p) => Ok(p),
                            None => match meaning_enum_of(s) {
                                Some(p) => Ok(p),
                                None => match extra_description_of(s) {
                                    Err(e) => Err(e),
                                    Ok(Some(p)) => Ok(p),
                                    Ok(None) => Err(
                                        "Failed to parse parameter for command '"@ + command + "': '"@ + s + "'"@,
                                    ),
                                },
                            },
                        },
                    },
                },
            },
        },
    }
}

impl ParamItem {
    /// Reads a parameter definition of a command from the wiki. No parse
    /// warnings are produced: the list that comes with the item is empty.
    pub fn parse(command: &str, source: &str) -> (r: Result<(ParamItem, Vec<String>), String>)
        requires
            !lacks_first_line(source@),
        ensures
            match r {
                Ok((p, warnings)) => param_item_of(command@, source@) == Ok::<ParamItemModel, Seq<char>>(p@)
                    && warnings@.len() == 0,
                Err(e) => param_item_of(command@, source@) == Err::<ParamItemModel, Seq<char>>(e@),
            },
    {
        if let Some(p) = try_simple_line(source)? {
            return Ok((p, Vec::new()));
        }
        if let Some(p) = try_array_with(source)? {
            return Ok((p, Vec::new()));
        }
        if let Some(p) = try_number_enum(source)? {
            return Ok((p, Vec::new()));
        }
        if let Some(p) = try_string_enum(source)? {
            return Ok((p, Vec::new()));
        }
        if let Some(p) = two_type_enum_chars(&chars_of(source)) {
            return Ok((p, Vec::new()));
        }
        if let Some(p) = alternatives_chars(&chars_of(source)) {
            return Ok((p, Vec::new()));
        }
        if let Some(p) = meaning_enum_chars(&chars_of(source)) {
            return Ok((p, Vec::new()));
        }
        if let Some(p) = try_simple_line_with_extra_description(source)? {
            return Ok((p, Vec::new()));
        }
        let s = chars_of(source);
        let m = concat(&concat(&chars_of(command), &chars_of("': '")), &s);
        let e = quoted_message_chars("Failed to parse parameter for command '", &m);
        assert(e@ =~= "Failed to parse parameter for command '"@ + command@ + "': '"@ + source@ + "'"@);
        Err(e)
    }
}

} // verus!
