//! The steps of reading a command's wiki page that stand on their own:
//! removing comments and markup, splitting the page into `key = value`
//! blocks, and reading the values of a few keys.
use vstd::prelude::*;

use crate::command::texts_of;
use crate::param_parser::{copy_tail, tail_from};
use crate::text::{
    chars_of, concat, eq, find, find_in, is_whitespace, is_ws, lemma_find, replace, replaced,
    slice_copy, split_first, split_once, string_of, trim, trim_end_matches, trim_start_matches,
    trimmed, trimmed_end_matches, trimmed_start_matches,
};

verus! {

broadcast use vstd::slice::group_slice_axioms;

// ----- comments and markup -----

/// The text with each comment `<!-- ... -->` removed, left to right; a
/// comment that is not closed runs to the end of the text.
pub open spec fn comments_removed(s: Seq<char>) -> Seq<char>
    decreases s.len(),
{
    match find_in(s, "<!--"@) {
        None => s,
        Some(a) => {
            let end = match find_in(s.skip(a), "-->"@) {
                Some(k) => a + k + 3,
                None => s.len() as int,
            };
            let next = s.take(a) + tail_from(s, end);
            if next.len() < s.len() {
                comments_removed(next)
            } else {
                next
            }
        },
    }
}

/// A page without comments, `<nowiki>` markers and carriage returns before line feeds.
pub open spec fn page_text(s: Seq<char>) -> Seq<char> {
    let t = comments_removed(s);
    let t = replaced(t, "<nowiki>"@, Seq::empty());
    let t = replaced(t, "</nowiki>"@, Seq::empty());
    let t = replaced(t, "<nowiki/>"@, Seq::empty());
    replaced(t, seq!['\r', '\n'], seq!['\n'])
}

fn remove_comments(s: &[char]) -> (r: Vec<char>)
    ensures
        r@ == comments_removed(s@),
{
    let open = chars_of("<!--");
    let close = chars_of("-->");
    proof {
        reveal_strlit("<!--");
        reveal_strlit("-->");
    }
    let mut t = slice_copy(s, 0, s.len());
    assert(t@ =~= s@);
    loop
        invariant
            open@ == "<!--"@,
            close@ == "-->"@,
            open@.len() == 4,
            close@.len() == 3,
            comments_removed(t@) == comments_removed(s@),
        decreases t@.len(),
    {
        let a = match find(&t, &open) {
            Some(a) => a,
            None => {
                return t;
            },
        };
        proof {
            lemma_find(t@, open@);
        }
        let rest = slice_copy(&t, a, t.len());
        assert(rest@ =~= t@.skip(a as int));
        let end = match find(&rest, &close) {
            Some(k) => {
                proof {
                    lemma_find(rest@, close@);
                }
                a + k + 3
            },
            None => t.len(),
        };
        let head = slice_copy(&t, 0, a);
        assert(head@ =~= t@.take(a as int));
        let tail = copy_tail(&t, end);
        let next = concat(&head, &tail);
        assert(next@.len() < t@.len());
        t = next;
    }
}

/// Removes the comments and `<nowiki>` markers of a page and turns `\r\n` into `\n`.
pub fn page_without_markup(source: &str) -> (r: String)
    ensures
        r@ == page_text(source@),
{
    let t = remove_comments(&chars_of(source));
    let none: Vec<char> = Vec::new();
    let t = replace(&t, &chars_of("<nowiki>"), &none);
    let t = replace(&t, &chars_of("</nowiki>"), &none);
    let t = replace(&t, &chars_of("<nowiki/>"), &none);
    let crlf = ['\r', '\n'];
    let lf = ['\n'];
    assert(crlf@ =~= seq!['\r', '\n']);
    assert(lf@ =~= seq!['\n']);
    assert(none@ =~= Seq::<char>::empty());
    string_of(&replace(&t, crlf.as_slice(), lf.as_slice()))
}

// ----- blocks -----

/// `str::split` with a non-empty pattern: the pieces between the occurrences,
/// found from left to right.
pub open spec fn split_all(s: Seq<char>, p: Seq<char>) -> Seq<Seq<char>>
    decreases s.len(),
{
    match find_in(s, p) {
        None => seq![s],
        Some(i) => if 0 <= i && p.len() > 0 && i + p.len() <= s.len() {
            seq![s.take(i)] + split_all(s.skip(i + p.len()), p)
        } else {
            seq![s]
        },
    }
}

/// Whether a piece of the page is a `key = value` block.
pub open spec fn is_block(l: Seq<char>) -> bool {
    l.len() > 0 && l[0] != '{' && l[0] != '}' && l.contains('=')
}

/// The trimmed key and value of a block, split at its first `=`.
pub open spec fn block_of(l: Seq<char>) -> (Seq<char>, Seq<char>) {
    match split_first(l, seq!['=']) {
        Some((k, v)) => (trimmed(k), trimmed(v)),
        None => (Seq::empty(), Seq::empty()),
    }
}

/// The blocks of the pieces, in order.
pub open spec fn blocks_of_pieces(ps: Seq<Seq<char>>) -> Seq<(Seq<char>, Seq<char>)>
    decreases ps.len(),
{
    if ps.len() == 0 {
        Seq::empty()
    } else {
        blocks_of_pieces(ps.drop_last()) + if is_block(ps.last()) {
            seq![block_of(ps.last())]
        } else {
            Seq::empty()
        }
    }
}

/// The `key = value` blocks of a page: the pieces between `\n|` that are not
/// empty, do not start with `{` or `}`, and hold a `=`.
pub open spec fn page_blocks(s: Seq<char>) -> Seq<(Seq<char>, Seq<char>)> {
    blocks_of_pieces(split_all(page_text(s), seq!['\n', '|']))
}

pub(crate) fn split_chars(s: &[char], p: &[char]) -> (r: Vec<Vec<char>>)
    requires
        p@.len() > 0,
    ensures
        texts_of_chars(r@) == split_all(s@, p@),
{
    let mut out: Vec<Vec<char>> = Vec::new();
    let mut rest = slice_copy(s, 0, s.len());
    assert(rest@ =~= s@);
    assert(texts_of_chars(out@) + split_all(rest@, p@) =~= split_all(s@, p@));
    loop
        invariant
            p@.len() > 0,
            texts_of_chars(out@) + split_all(rest@, p@) == split_all(s@, p@),
        decreases rest@.len(),
    {
        match find(&rest, p) {
            None => {
                let ghost before = out@;
                out.push(rest);
                assert(texts_of_chars(out@) =~= texts_of_chars(before) + seq![out@.last()@]);
                return out;
            },
            Some(i) => {
                proof {
                    lemma_find(rest@, p@);
                }
                assert(i + p.len() <= rest.len());
                let piece = slice_copy(&rest, 0, i);
                let next = slice_copy(&rest, i + p.len(), rest.len());
                assert(piece@ =~= rest@.take(i as int));
                assert(next@ =~= rest@.skip(i + p@.len()));
                let ghost before = out@;
                let ghost old_rest = rest@;
                out.push(piece);
                assert(texts_of_chars(out@) =~= texts_of_chars(before) + seq![old_rest.take(i as int)]);
                assert(texts_of_chars(before) + (seq![old_rest.take(i as int)] + split_all(next@, p@))
                    =~= texts_of_chars(out@) + split_all(next@, p@));
                rest = next;
            },
        }
    }
}

/// The texts of a list of character vectors.
pub open spec fn texts_of_chars(v: Seq<Vec<char>>) -> Seq<Seq<char>> {
    v.map_values(|x: Vec<char>| x@)
}

/// The texts of a list of blocks.
pub open spec fn blocks_view(v: Seq<(String, String)>) -> Seq<(Seq<char>, Seq<char>)> {
    v.map_values(|b: (String, String)| (b.0@, b.1@))
}

fn has_equals(l: &[char]) -> (r: bool)
    ensures
        r == l@.contains('='),
{
    let mut i: usize = 0;
    while i < l.len()
        invariant
            i <= l@.len(),
            forall|k: int| 0 <= k < i ==> l@[k] != '=',
        decreases l@.len() - i,
    {
        if l[i] == '=' {
            assert(l@[i as int] == '=');
            return true;
        }
        i += 1;
    }
    false
}

/// Splits a command's page into its `key = value` blocks, after removing its
/// comments and markup.
pub fn command_blocks(source: &str) -> (r: Vec<(String, String)>)
    ensures
        blocks_view(r@) == page_blocks(source@),
{
    let page = page_without_markup(source);
    let sep = ['\n', '|'];
    assert(sep@ =~= seq!['\n', '|']);
    let pieces = split_chars(&chars_of(page.as_str()), sep.as_slice());
    let ghost pv = texts_of_chars(pieces@);
    let mut out: Vec<(String, String)> = Vec::new();
    let eqs = ['='];
    assert(eqs@ =~= seq!['=']);
    let mut i: usize = 0;
    assert(pv.take(0) =~= Seq::<Seq<char>>::empty());
    while i < pieces.len()
        invariant
            pv == texts_of_chars(pieces@),
            eqs@ == seq!['='],
            i <= pieces@.len(),
            blocks_view(out@) == blocks_of_pieces(pv.take(i as int)),
        decreases pieces@.len() - i,
    {
        let l = &pieces[i];
        assert(pv.take(i + 1).drop_last() =~= pv.take(i as int));
        assert(pv.take(i + 1).last() == l@);
        let ghost before = out@;
        if l.len() > 0 && l[0] != '{' && l[0] != '}' && has_equals(l) {
            let (k, v) = match split_once(l, eqs.as_slice()) {
                Some(parts) => parts,
                None => {
                    proof {
                        let m = choose|m: int| 0 <= m < l@.len() && l@[m] == '=';
                        lemma_find(l@, eqs@);
                        assert(crate::text::occurs_at(l@, eqs@, m)) by {
                            assert(l@.subrange(m, m + 1) =~= seq!['=']);
                        }
                    }
                    (Vec::new(), Vec::new())
                },
            };
            out.push((string_of(&trim(&k)), string_of(&trim(&v))));
            assert(blocks_view(out@) =~= blocks_view(before) + seq![block_of(l@)]);
        } else {
            assert(blocks_view(before) + Seq::<(Seq<char>, Seq<char>)>::empty() =~= blocks_view(before));
        }
        i += 1;
    }
    assert(pv.take(pieces@.len() as int) =~= pv);
    out
}

// ----- values of some keys -----

/// Whether a `serverExec` value says that the command runs on the server.
pub open spec fn server_exec_of(value: Seq<char>) -> bool {
    let t = trimmed(value);
    t == "y"@ || t == "true"@ || t == "server"@
}

/// Whether a `serverExec` value says that the command runs on the server.
pub fn server_exec(value: &str) -> (r: bool)
    ensures
        r == server_exec_of(value@),
{
    let t = trim(&chars_of(value));
    eq(&t, &chars_of("y")) || eq(&t, &chars_of("true")) || eq(&t, &chars_of("server"))
}

/// The trimmed pieces that are not blank.
pub open spec fn filled_pieces(ps: Seq<Seq<char>>) -> Seq<Seq<char>>
    decreases ps.len(),
{
    if ps.len() == 0 {
        Seq::empty()
    } else {
        filled_pieces(ps.drop_last()) + if trimmed(ps.last()).len() > 0 {
            seq![trimmed(ps.last())]
        } else {
            Seq::empty()
        }
    }
}

/// The problem notes of a `pr` value: its bullet points (`\n*`), trimmed,
/// without the blank ones.
pub open spec fn problem_notes_of(value: Seq<char>) -> Seq<Seq<char>> {
    filled_pieces(split_all(value, seq!['\n', '*']))
}

/// The problem notes of a `pr` value.
pub fn problem_notes(value: &str) -> (r: Vec<String>)
    ensures
        texts_of(r@) == problem_notes_of(value@),
{
    let sep = ['\n', '*'];
    assert(sep@ =~= seq!['\n', '*']);
    let pieces = split_chars(&chars_of(value), sep.as_slice());
    let ghost pv = texts_of_chars(pieces@);
    let mut out: Vec<String> = Vec::new();
    let mut i: usize = 0;
    assert(pv.take(0) =~= Seq::<Seq<char>>::empty());
    while i < pieces.len()
        invariant
            pv == texts_of_chars(pieces@),
            i <= pieces@.len(),
            texts_of(out@) == filled_pieces(pv.take(i as int)),
        decreases pieces@.len() - i,
    {
        assert(pv.take(i + 1).drop_last() =~= pv.take(i as int));
        assert(pv.take(i + 1).last() == pieces@[i as int]@);
        let t = trim(&pieces[i]);
        let ghost before = out@;
        if t.len() > 0 {
            out.push(string_of(&t));
            assert(texts_of(out@) =~= texts_of(before) + seq![t@]);
        } else {
            assert(texts_of(before) + Seq::<Seq<char>>::empty() =~= texts_of(before));
        }
        i += 1;
    }
    assert(pv.take(pieces@.len() as int) =~= pv);
    out
}

/// The words of a text (`str::split_whitespace`): the runs of characters
/// that are not whitespace, in order.
pub open spec fn words(s: Seq<char>) -> Seq<Seq<char>>
    decreases s.len(),
{
    if s.len() == 0 {
        Seq::empty()
    } else if is_ws(s[0]) {
        words(s.drop_first())
    } else {
        let e = word_end(s, 0);
        if 0 < e <= s.len() {
            seq![s.take(e)] + words(s.skip(e))
        } else {
            seq![s]
        }
    }
}

/// Where the word that starts at `i` ends.
pub open spec fn word_end(s: Seq<char>, i: int) -> int
    decreases s.len() - i,
{
    if i < 0 || i >= s.len() || is_ws(s[i]) {
        i
    } else {
        word_end(s, i + 1)
    }
}

/// The names of a `seealso` value: its words up to a `}}`, each without
/// `[[` and `]]` around it, without the empty ones.
pub open spec fn see_also_of(ws: Seq<Seq<char>>) -> Seq<Seq<char>>
    decreases ws.len(),
{
    if ws.len() == 0 || ws[0] == "}}"@ {
        Seq::empty()
    } else {
        let v = trimmed_end_matches(trimmed_start_matches(trimmed(ws[0]), "[["@), "]]"@);
        (if v.len() > 0 {
            seq![v]
        } else {
            Seq::empty()
        }) + see_also_of(ws.drop_first())
    }
}

proof fn lemma_word_end(s: Seq<char>, i: int)
    requires
        0 <= i <= s.len(),
    ensures
        i <= word_end(s, i) <= s.len(),
        forall|k: int| i <= k < word_end(s, i) ==> !is_ws(#[trigger] s[k]),
        word_end(s, i) < s.len() ==> is_ws(s[word_end(s, i)]),
    decreases s.len() - i,
{
    if i < s.len() && !is_ws(s[i]) {
        lemma_word_end(s, i + 1);
    }
}

fn words_chars(s: &[char]) -> (r: Vec<Vec<char>>)
    ensures
        texts_of_chars(r@) == words(s@),
{
    let mut out: Vec<Vec<char>> = Vec::new();
    let mut i: usize = 0;
    assert(s@.skip(0) =~= s@);
    assert(texts_of_chars(out@) + words(s@) =~= words(s@));
    while i < s.len()
        invariant
            i <= s@.len(),
            texts_of_chars(out@) + words(s@.skip(i as int)) == words(s@),
        decreases s@.len() - i,
    {
        let ghost rest = s@.skip(i as int);
        if is_whitespace(s[i]) {
            assert(rest.drop_first() =~= s@.skip(i + 1));
            i += 1;
        } else {
            let mut e: usize = i;
            while e < s.len() && !is_whitespace(s[e])
                invariant
                    i <= e <= s@.len(),
                    rest == s@.skip(i as int),
                    word_end(rest, 0) == word_end(rest, e - i),
                decreases s@.len() - e,
            {
                assert(rest[e - i] == s@[e as int]);
                e += 1;
            }
            proof {
                if e < s@.len() {
                    assert(rest[e - i] == s@[e as int]);
                }
                assert(word_end(rest, e - i) == e - i);
                lemma_word_end(rest, 0);
            }
            let w = slice_copy(s, i, e);
            assert(w@ =~= rest.take(e - i));
            assert(rest.skip(e - i) =~= s@.skip(e as int));
            let ghost before = out@;
            out.push(w);
            assert(texts_of_chars(out@) =~= texts_of_chars(before) + seq![w@]);
            assert(texts_of_chars(before) + (seq![w@] + words(s@.skip(e as int))) =~= texts_of_chars(out@)
                + words(s@.skip(e as int)));
            i = e;
        }
    }
    assert(s@.skip(i as int) =~= Seq::<char>::empty());
    assert(texts_of_chars(out@) + Seq::<Seq<char>>::empty() =~= texts_of_chars(out@));
    out
}

/// The commands named in a `seealso` value, such as `[[setRain]] [[setFog]] }}`.
pub fn see_also(value: &str) -> (r: Vec<String>)
    ensures
        texts_of(r@) == see_also_of(words(value@)),
{
    let ws = words_chars(&chars_of(value));
    let ghost wv = texts_of_chars(ws@);
    let end = chars_of("}}");
    let open = chars_of("[[");
    let close = chars_of("]]");
    let mut out: Vec<String> = Vec::new();
    let mut i: usize = 0;
    assert(wv.skip(0) =~= wv);
    assert(texts_of(out@) + see_also_of(wv) =~= see_also_of(wv));
    while i < ws.len()
        invariant
            wv == texts_of_chars(ws@),
            wv == words(value@),
            end@ == "}}"@,
            open@ == "[["@,
            close@ == "]]"@,
            i <= ws@.len(),
            texts_of(out@) + see_also_of(wv.skip(i as int)) == see_also_of(wv),
        decreases ws@.len() - i,
    {
        let ghost rest = wv.skip(i as int);
        assert(rest[0] == ws@[i as int]@);
        assert(rest.drop_first() =~= wv.skip(i + 1));
        if eq(&ws[i], &end) {
            assert(rest.len() > 0 && rest[0] == "}}"@);
            assert(see_also_of(rest) =~= Seq::<Seq<char>>::empty());
            assert(texts_of(out@) + see_also_of(rest) == see_also_of(wv));
            assert(wv.skip(ws@.len() as int) =~= Seq::<Seq<char>>::empty());
            assert(texts_of(out@) + Seq::<Seq<char>>::empty() =~= texts_of(out@));
            return out;
        }
        let v = trim_end_matches(&trim_start_matches(&trim(&ws[i]), &open), &close);
        let ghost before = out@;
        if v.len() > 0 {
            out.push(string_of(&v));
            assert(texts_of(out@) =~= texts_of(before) + seq![v@]);
            assert(texts_of(before) + (seq![v@] + see_also_of(wv.skip(i + 1))) =~= texts_of(out@)
                + see_also_of(wv.skip(i + 1)));
        } else {
            assert(texts_of(before) + (Seq::<Seq<char>>::empty() + see_also_of(wv.skip(i + 1)))
                =~= texts_of(out@) + see_also_of(wv.skip(i + 1)));
        }
        i += 1;
    }
    assert(wv.skip(i as int) =~= Seq::<Seq<char>>::empty());
    assert(texts_of(out@) + Seq::<Seq<char>>::empty() =~= texts_of(out@));
    out
}

// ----- syntax blocks -----

/// Whether a block of a syntax belongs to it: a parameter (`p1`) or its
/// version (`p1since`), the return (`r1`), or the syntax's version or effect.
pub open spec fn is_syntax_block(kind: Seq<char>, suffix: Seq<char>) -> bool {
    (kind == "p"@ && (suffix == ""@ || suffix == "since"@)) || kind == "r"@ || (kind == "s"@ && (suffix
        == "since"@ || suffix == "effect"@))
}

/// Whether a block, classified as kind, number and suffix, belongs to a syntax.
pub fn should_parse(block_type: (&str, i16, &str)) -> (r: bool)
    ensures
        r == is_syntax_block(block_type.0@, block_type.2@),
{
    let kind = chars_of(block_type.0);
    let suffix = chars_of(block_type.2);
    let empty: Vec<char> = Vec::new();
    proof {
        reveal_strlit("");
    }
    assert(empty@ =~= ""@);
    (eq(&kind, &chars_of("p")) && (eq(&suffix, &empty) || eq(&suffix, &chars_of("since"))))
        || eq(&kind, &chars_of("r"))
        || (eq(&kind, &chars_of("s")) && (eq(&suffix, &chars_of("since")) || eq(&suffix, &chars_of("effect"))))
}

} // verus!
