//! Character-level text operations used by the wiki parsers.
//!
//! Text is handled as sequences of `char`; each executable operation is
//! specified by a spec function over `Seq<char>`.
use vstd::prelude::*;
use vstd::slice::slice_subrange;
use vstd::slice::slice_to_vec;

verus! {

broadcast use vstd::slice::group_slice_axioms;

/// `String::push` appends one character at the end of the string.
pub assume_specification[ std::string::String::push ](s: &mut String, ch: char)
    ensures
        final(s)@ == old(s)@.push(ch),
;

/// The name of what `str::to_lowercase` returns for a text.
pub uninterp spec fn lowercase_of(s: Seq<char>) -> Seq<char>;

/// Whether every character of the text is ASCII.
pub open spec fn all_ascii(s: Seq<char>) -> bool {
    forall|i: int| 0 <= i < s.len() ==> (#[trigger] s[i]) <= '\u{7f}'
}

/// ASCII lowercase mapping of one character.
pub open spec fn ascii_lower_char(c: char) -> char {
    if 'A' <= c && c <= 'Z' {
        ((c as u32) + 32) as char
    } else {
        c
    }
}

/// Calls `str::to_lowercase`. The result is named `lowercase_of` of the input;
/// for an all-ASCII input it is the ASCII lowercase mapping of each character,
/// as Unicode's lowercase mapping agrees with ASCII on ASCII letters. Nothing
/// more is stated for other inputs.
#[verifier::external_body]
pub fn to_lowercase(s: &str) -> (r: String)
    ensures
        r@ == lowercase_of(s@),
        all_ascii(s@) ==> r@ == s@.map_values(|c: char| ascii_lower_char(c)),
{
    s.to_lowercase()
}

/// Unicode `White_Space` property, as `char::is_whitespace` documents it.
pub open spec fn is_ws(c: char) -> bool {
    ||| ('\u{9}' <= c && c <= '\u{d}')
    ||| c == ' '
    ||| c == '\u{85}'
    ||| c == '\u{a0}'
    ||| c == '\u{1680}'
    ||| ('\u{2000}' <= c && c <= '\u{200a}')
    ||| c == '\u{2028}'
    ||| c == '\u{2029}'
    ||| c == '\u{202f}'
    ||| c == '\u{205f}'
    ||| c == '\u{3000}'
}

pub fn is_whitespace(c: char) -> (r: bool)
    ensures
        r == is_ws(c),
{
    ('\u{9}' <= c && c <= '\u{d}') || c == ' ' || c == '\u{85}' || c == '\u{a0}' || c
        == '\u{1680}' || ('\u{2000}' <= c && c <= '\u{200a}') || c == '\u{2028}' || c
        == '\u{2029}' || c == '\u{202f}' || c == '\u{205f}' || c == '\u{3000}'
}

/// Leading whitespace removed.
pub open spec fn trimmed_start(s: Seq<char>) -> Seq<char>
    decreases s.len(),
{
    if s.len() > 0 && is_ws(s[0]) {
        trimmed_start(s.drop_first())
    } else {
        s
    }
}

/// Trailing whitespace removed.
pub open spec fn trimmed_end(s: Seq<char>) -> Seq<char>
    decreases s.len(),
{
    if s.len() > 0 && is_ws(s.last()) {
        trimmed_end(s.drop_last())
    } else {
        s
    }
}

/// Leading and trailing whitespace removed (`str::trim`).
pub open spec fn trimmed(s: Seq<char>) -> Seq<char> {
    trimmed_end(trimmed_start(s))
}

/// `s` begins with `p`.
pub open spec fn starts(s: Seq<char>, p: Seq<char>) -> bool {
    p.len() <= s.len() && s.take(p.len() as int) == p
}

/// `s` ends with `p`.
pub open spec fn ends(s: Seq<char>, p: Seq<char>) -> bool {
    p.len() <= s.len() && s.skip(s.len() - p.len()) == p
}

/// `p` occurs in `s` at index `i`.
pub open spec fn occurs_at(s: Seq<char>, p: Seq<char>, i: int) -> bool {
    0 <= i && i + p.len() <= s.len() && s.subrange(i, i + p.len()) == p
}

/// The first index at or after `i` where `p` occurs in `s`.
pub open spec fn find_from(s: Seq<char>, p: Seq<char>, i: int) -> Option<int>
    decreases s.len() + 1 - i,
{
    if i < 0 || i + p.len() > s.len() {
        None
    } else if s.subrange(i, i + p.len()) == p {
        Some(i)
    } else {
        find_from(s, p, i + 1)
    }
}

/// The first index where `p` occurs in `s` (`str::find`).
pub open spec fn find_in(s: Seq<char>, p: Seq<char>) -> Option<int> {
    find_from(s, p, 0)
}

/// `p` occurs somewhere in `s` (`str::contains`).
pub open spec fn holds(s: Seq<char>, p: Seq<char>) -> bool {
    find_in(s, p) is Some
}

/// `str::split_once`: the parts before and after the first occurrence of `p`.
pub open spec fn split_first(s: Seq<char>, p: Seq<char>) -> Option<(Seq<char>, Seq<char>)> {
    match find_in(s, p) {
        Some(i) => Some((s.take(i), s.skip(i + p.len()))),
        None => None,
    }
}

/// `str::strip_prefix`.
pub open spec fn without_prefix(s: Seq<char>, p: Seq<char>) -> Option<Seq<char>> {
    if starts(s, p) {
        Some(s.skip(p.len() as int))
    } else {
        None
    }
}

/// `str::trim_start_matches` with a text pattern: every leading copy of `p` removed.
pub open spec fn trimmed_start_matches(s: Seq<char>, p: Seq<char>) -> Seq<char>
    decreases s.len(),
{
    if p.len() > 0 && starts(s, p) {
        trimmed_start_matches(s.skip(p.len() as int), p)
    } else {
        s
    }
}

/// `str::trim_end_matches` with a text pattern: every trailing copy of `p` removed.
pub open spec fn trimmed_end_matches(s: Seq<char>, p: Seq<char>) -> Seq<char>
    decreases s.len(),
{
    if p.len() > 0 && ends(s, p) {
        trimmed_end_matches(s.take(s.len() - p.len()), p)
    } else {
        s
    }
}

/// `str::replace`: matches are replaced from left to right without
/// overlapping; the empty pattern matches before each character and at the end.
pub open spec fn replaced(s: Seq<char>, f: Seq<char>, t: Seq<char>) -> Seq<char>
    decreases s.len(),
{
    if f.len() == 0 {
        if s.len() == 0 {
            t
        } else {
            t + seq![s[0]] + replaced(s.drop_first(), f, t)
        }
    } else if s.len() == 0 {
        s
    } else if starts(s, f) {
        t + replaced(s.skip(f.len() as int), f, t)
    } else {
        seq![s[0]] + replaced(s.drop_first(), f, t)
    }
}

// ----- lemmas -----

/// The search from `i` gives the first occurrence at or after `i`, or none.
pub proof fn lemma_find_from(s: Seq<char>, p: Seq<char>, i: int)
    requires
        0 <= i,
    ensures
        find_from(s, p, i) matches Some(k) ==> i <= k && occurs_at(s, p, k) && forall|j: int|
            i <= j < k ==> !#[trigger] occurs_at(s, p, j),
        find_from(s, p, i) is None ==> forall|j: int| i <= j ==> !#[trigger] occurs_at(s, p, j),
    decreases s.len() + 1 - i,
{
    if i + p.len() > s.len() {
    } else if s.subrange(i, i + p.len()) == p {
    } else {
        lemma_find_from(s, p, i + 1);
    }
}

/// `find_in` gives the first occurrence of the pattern, or none.
pub proof fn lemma_find(s: Seq<char>, p: Seq<char>)
    ensures
        find_in(s, p) matches Some(k) ==> occurs_at(s, p, k) && 0 <= k && k + p.len() <= s.len()
            && forall|j: int| 0 <= j < k ==> !#[trigger] occurs_at(s, p, j),
        find_in(s, p) is None ==> forall|j: int| !#[trigger] occurs_at(s, p, j),
{
    lemma_find_from(s, p, 0);
}

/// `find_in` is characterised by the first occurrence.
pub proof fn lemma_find_unique(s: Seq<char>, p: Seq<char>, k: int)
    requires
        occurs_at(s, p, k),
        forall|j: int| 0 <= j < k ==> !#[trigger] occurs_at(s, p, j),
    ensures
        find_in(s, p) == Some(k),
{
    lemma_find(s, p);
}

/// Leading whitespace may be skipped before trimming.
pub proof fn lemma_trimmed_start_index(s: Seq<char>, a: int)
    requires
        0 <= a <= s.len(),
        forall|j: int| 0 <= j < a ==> is_ws(#[trigger] s[j]),
    ensures
        trimmed_start(s) == trimmed_start(s.skip(a)),
    decreases a,
{
    if a > 0 {
        assert(s.drop_first().skip(a - 1) =~= s.skip(a));
        lemma_trimmed_start_index(s.drop_first(), a - 1);
    } else {
        assert(s.skip(0) =~= s);
    }
}

/// Trailing whitespace may be cut before trimming.
pub proof fn lemma_trimmed_end_index(s: Seq<char>, b: int)
    requires
        0 <= b <= s.len(),
        forall|j: int| b <= j < s.len() ==> is_ws(#[trigger] s[j]),
    ensures
        trimmed_end(s) == trimmed_end(s.take(b)),
    decreases s.len() - b,
{
    if b < s.len() {
        assert(s.drop_last().take(b) =~= s.take(b));
        lemma_trimmed_end_index(s.drop_last(), b);
    } else {
        assert(s.take(b) =~= s);
    }
}

/// Trimming the start leaves a suffix that does not start with whitespace.
pub proof fn lemma_trimmed_start_shape(s: Seq<char>)
    ensures
        exists|a: int| 0 <= a <= s.len() && trimmed_start(s) == s.skip(a),
        trimmed_start(s).len() > 0 ==> !is_ws(trimmed_start(s)[0]),
        trimmed_start(s).len() <= s.len(),
    decreases s.len(),
{
    if s.len() > 0 && is_ws(s[0]) {
        lemma_trimmed_start_shape(s.drop_first());
        let a = choose|a: int| 0 <= a <= s.drop_first().len() && trimmed_start(s.drop_first()) == s.drop_first().skip(a);
        assert(s.drop_first().skip(a) =~= s.skip(a + 1));
    } else {
        assert(s.skip(0) =~= s);
    }
}

/// Trimming the end leaves a prefix that does not end with whitespace.
pub proof fn lemma_trimmed_end_shape(s: Seq<char>)
    ensures
        trimmed_end(s) == s.take(trimmed_end(s).len() as int),
        trimmed_end(s).len() <= s.len(),
        trimmed_end(s).len() > 0 ==> !is_ws(trimmed_end(s).last()),
    decreases s.len(),
{
    if s.len() > 0 && is_ws(s.last()) {
        lemma_trimmed_end_shape(s.drop_last());
        let k = trimmed_end(s.drop_last()).len() as int;
        assert(s.drop_last().take(k) =~= s.take(k));
    } else {
        assert(s.take(s.len() as int) =~= s);
    }
}

// ----- executable operations -----

/// The characters of a string slice, in order.
pub fn chars_of(s: &str) -> (r: Vec<char>)
    ensures
        r@ == s@,
{
    let mut r: Vec<char> = Vec::new();
    for c in it: s.chars()
        invariant
            it.seq() == s@,
            r@ == it.seq().take(it.index() as int),
    {
        r.push(c);
    }
    r
}

/// A string holding the given characters.
pub fn string_of(v: &[char]) -> (r: String)
    ensures
        r@ == v@,
{
    let mut r = String::new();
    let mut i: usize = 0;
    while i < v.len()
        invariant
            i <= v@.len(),
            r@ == v@.take(i as int),
        decreases v@.len() - i,
    {
        r.push(v[i]);
        assert(v@.take(i + 1) =~= v@.take(i as int).push(v@[i as int]));
        i += 1;
    }
    assert(v@.take(v@.len() as int) =~= v@);
    r
}

/// A copy of `s[i..j]`.
pub fn slice_copy(s: &[char], i: usize, j: usize) -> (r: Vec<char>)
    requires
        i <= j <= s@.len(),
    ensures
        r@ == s@.subrange(i as int, j as int),
{
    slice_to_vec(slice_subrange(s, i, j))
}

/// Concatenation of two texts.
pub fn concat(a: &[char], b: &[char]) -> (r: Vec<char>)
    ensures
        r@ == a@ + b@,
{
    let mut r = slice_to_vec(a);
    let mut i: usize = 0;
    while i < b.len()
        invariant
            i <= b@.len(),
            r@ == a@ + b@.take(i as int),
        decreases b@.len() - i,
    {
        r.push(b[i]);
        assert(b@.take(i + 1) =~= b@.take(i as int).push(b@[i as int]));
        i += 1;
    }
    assert(b@.take(b@.len() as int) =~= b@);
    r
}

/// `p` occurs in `s` at `i`.
pub fn occurs(s: &[char], p: &[char], i: usize) -> (r: bool)
    ensures
        r == occurs_at(s@, p@, i as int),
{
    if p.len() > s.len() || i > s.len() - p.len() {
        return false;
    }
    let mut k: usize = 0;
    while k < p.len()
        invariant
            k <= p@.len(),
            i + p@.len() <= s@.len(),
            i + p.len() <= s.len(),
            forall|m: int| 0 <= m < k ==> s@[i + m] == p@[m],
        decreases p@.len() - k,
    {
        if s[i + k] != p[k] {
            assert(s@.subrange(i as int, i + p@.len())[k as int] != p@[k as int]);
            return false;
        }
        k += 1;
    }
    assert(s@.subrange(i as int, i + p@.len()) =~= p@);
    true
}

/// `str::find`.
pub fn find(s: &[char], p: &[char]) -> (r: Option<usize>)
    ensures
        match r {
            Some(k) => find_in(s@, p@) == Some(k as int),
            None => find_in(s@, p@) is None,
        },
{
    if p.len() > s.len() {
        return None;
    }
    let mut i: usize = 0;
    while i <= s.len() - p.len()
        invariant
            p@.len() <= s@.len(),
            i <= s@.len() - p@.len() + 1,
            find_in(s@, p@) == find_from(s@, p@, i as int),
        decreases s@.len() - p@.len() + 1 - i,
    {
        if occurs(s, p, i) {
            return Some(i);
        }
        if i == s.len() - p.len() {
            assert(find_from(s@, p@, i + 1) is None);
            return None;
        }
        i += 1;
    }
    None
}

/// `str::contains`.
pub fn contains(s: &[char], p: &[char]) -> (r: bool)
    ensures
        r == holds(s@, p@),
{
    find(s, p).is_some()
}

/// `str::starts_with`.
pub fn starts_with(s: &[char], p: &[char]) -> (r: bool)
    ensures
        r == starts(s@, p@),
{
    if p.len() > s.len() {
        return false;
    }
    let r = occurs(s, p, 0);
    assert(s@.subrange(0, p@.len() as int) =~= s@.take(p@.len() as int));
    r
}

/// `str::ends_with`.
pub fn ends_with(s: &[char], p: &[char]) -> (r: bool)
    ensures
        r == ends(s@, p@),
{
    if p.len() > s.len() {
        return false;
    }
    let r = occurs(s, p, s.len() - p.len());
    assert(s@.subrange(s@.len() - p@.len(), s@.len() as int) =~= s@.skip(s@.len() - p@.len()));
    r
}

/// `str::split_once`.
pub fn split_once(s: &[char], p: &[char]) -> (r: Option<(Vec<char>, Vec<char>)>)
    ensures
        match r {
            Some((a, b)) => split_first(s@, p@) == Some((a@, b@)),
            None => split_first(s@, p@) is None,
        },
{
    match find(s, p) {
        Some(i) => {
            proof {
                lemma_find(s@, p@);
            }
            assert(i + p@.len() <= s@.len());
            assert(i + p.len() <= s.len());
            let a = slice_copy(s, 0, i);
            let b = slice_copy(s, i + p.len(), s.len());
            assert(a@ =~= s@.take(i as int));
            assert(b@ =~= s@.skip(i + p@.len()));
            Some((a, b))
        },
        None => None,
    }
}

/// `str::strip_prefix`.
pub fn strip_prefix(s: &[char], p: &[char]) -> (r: Option<Vec<char>>)
    ensures
        match r {
            Some(a) => without_prefix(s@, p@) == Some(a@),
            None => without_prefix(s@, p@) is None,
        },
{
    if starts_with(s, p) {
        let a = slice_copy(s, p.len(), s.len());
        assert(a@ =~= s@.skip(p@.len() as int));
        Some(a)
    } else {
        None
    }
}

/// Index of the first character that is not whitespace, or the length.
fn ws_prefix_len(s: &[char]) -> (a: usize)
    ensures
        a <= s@.len(),
        forall|j: int| 0 <= j < a ==> is_ws(#[trigger] s@[j]),
        a < s@.len() ==> !is_ws(s@[a as int]),
{
    let mut a: usize = 0;
    while a < s.len() && is_whitespace(s[a])
        invariant
            a <= s@.len(),
            forall|j: int| 0 <= j < a ==> is_ws(#[trigger] s@[j]),
        decreases s@.len() - a,
    {
        a += 1;
    }
    a
}

/// `str::trim_start`.
pub fn trim_start(s: &[char]) -> (r: Vec<char>)
    ensures
        r@ == trimmed_start(s@),
{
    let a = ws_prefix_len(s);
    proof {
        lemma_trimmed_start_index(s@, a as int);
        if a < s@.len() {
            assert(s@.skip(a as int)[0] == s@[a as int]);
        }
    }
    slice_copy(s, a, s.len())
}

/// `str::trim_end`.
pub fn trim_end(s: &[char]) -> (r: Vec<char>)
    ensures
        r@ == trimmed_end(s@),
{
    let mut b: usize = s.len();
    while b > 0 && is_whitespace(s[b - 1])
        invariant
            b <= s@.len(),
            forall|j: int| b <= j < s@.len() ==> is_ws(#[trigger] s@[j]),
        decreases b,
    {
        b -= 1;
    }
    proof {
        lemma_trimmed_end_index(s@, b as int);
        if b > 0 {
            assert(s@.take(b as int).last() == s@[b - 1]);
        }
    }
    slice_copy(s, 0, b)
}

/// `str::trim`.
pub fn trim(s: &[char]) -> (r: Vec<char>)
    ensures
        r@ == trimmed(s@),
{
    let a = trim_start(s);
    trim_end(&a)
}

/// `str::trim_start_matches` with a text pattern.
pub fn trim_start_matches(s: &[char], p: &[char]) -> (r: Vec<char>)
    ensures
        r@ == trimmed_start_matches(s@, p@),
{
    if p.len() == 0 {
        return slice_to_vec(s);
    }
    let mut a: usize = 0;
    assert(s@.skip(0) =~= s@);
    while a <= s.len() && p.len() <= s.len() - a && occurs(s, p, a)
        invariant
            a <= s@.len(),
            p@.len() > 0,
            trimmed_start_matches(s@, p@) == trimmed_start_matches(s@.skip(a as int), p@),
        decreases s@.len() - a,
    {
        proof {
            let t = s@.skip(a as int);
            assert(t.take(p@.len() as int) =~= s@.subrange(a as int, a + p@.len()));
            assert(t.skip(p@.len() as int) =~= s@.skip(a + p@.len()));
        }
        a += p.len();
    }
    proof {
        let t = s@.skip(a as int);
        if starts(t, p@) {
            assert(t.take(p@.len() as int) =~= s@.subrange(a as int, a + p@.len()));
        }
    }
    slice_copy(s, a, s.len())
}

/// `str::trim_end_matches` with a text pattern.
pub fn trim_end_matches(s: &[char], p: &[char]) -> (r: Vec<char>)
    ensures
        r@ == trimmed_end_matches(s@, p@),
{
    if p.len() == 0 {
        return slice_to_vec(s);
    }
    let mut b: usize = s.len();
    assert(s@.take(s@.len() as int) =~= s@);
    while b >= p.len() && occurs(s, p, b - p.len())
        invariant
            b <= s@.len(),
            p@.len() > 0,
            trimmed_end_matches(s@, p@) == trimmed_end_matches(s@.take(b as int), p@),
        decreases b,
    {
        proof {
            let t = s@.take(b as int);
            assert(t.skip(t.len() - p@.len()) =~= s@.subrange(b - p@.len(), b as int));
            assert(t.take(t.len() - p@.len()) =~= s@.take(b - p@.len()));
        }
        b -= p.len();
    }
    proof {
        let t = s@.take(b as int);
        if ends(t, p@) {
            assert(t.skip(t.len() - p@.len()) =~= s@.subrange(b - p@.len(), b as int));
        }
    }
    slice_copy(s, 0, b)
}

/// `str::replace` with the empty pattern: the replacement before each
/// character and at the end.
fn replace_empty(s: &[char], t: &[char]) -> (r: Vec<char>)
    ensures
        r@ == replaced(s@, Seq::<char>::empty(), t@),
{
    let mut out: Vec<char> = Vec::new();
    let mut i: usize = 0;
    assert(s@.skip(0) =~= s@);
    assert(out@ + replaced(s@, Seq::<char>::empty(), t@) =~= replaced(s@, Seq::<char>::empty(), t@));
    while i < s.len()
        invariant
            i <= s@.len(),
            replaced(s@, Seq::<char>::empty(), t@) == out@ + replaced(s@.skip(i as int), Seq::<char>::empty(), t@),
        decreases s@.len() - i,
    {
        let ghost rest = s@.skip(i as int);
        assert(rest.drop_first() =~= s@.skip(i + 1));
        let ghost out0 = out@;
        out = concat(&out, t);
        out.push(s[i]);
        assert(out0 + (t@ + seq![rest[0]] + replaced(rest.drop_first(), Seq::<char>::empty(), t@)) =~= out@
            + replaced(rest.drop_first(), Seq::<char>::empty(), t@));
        i += 1;
    }
    assert(s@.skip(i as int) =~= Seq::<char>::empty());
    concat(&out, t)
}

/// `str::replace`.
pub fn replace(s: &[char], f: &[char], t: &[char]) -> (r: Vec<char>)
    ensures
        r@ == replaced(s@, f@, t@),
{
    if f.len() == 0 {
        assert(f@ =~= Seq::<char>::empty());
        return replace_empty(s, t);
    }
    let mut out: Vec<char> = Vec::new();
    let mut i: usize = 0;
    assert(s@.skip(0) =~= s@);
    assert(out@ + s@ =~= s@);
    while i < s.len()
        invariant
            i <= s@.len(),
            f@.len() > 0,
            replaced(s@, f@, t@) == out@ + replaced(s@.skip(i as int), f@, t@),
        decreases s@.len() - i,
    {
        let ghost rest = s@.skip(i as int);
        if f.len() <= s.len() - i && occurs(s, f, i) {
            proof {
                assert(rest.take(f@.len() as int) =~= s@.subrange(i as int, i + f@.len()));
                assert(rest.skip(f@.len() as int) =~= s@.skip(i + f@.len()));
            }
            let mut k: usize = 0;
            let ghost out0 = out@;
            while k < t.len()
                invariant
                    k <= t@.len(),
                    out@ == out0 + t@.take(k as int),
                decreases t@.len() - k,
            {
                out.push(t[k]);
                assert(t@.take(k + 1) =~= t@.take(k as int).push(t@[k as int]));
                k += 1;
            }
            assert(t@.take(t@.len() as int) =~= t@);
            assert(out0 + (t@ + replaced(rest.skip(f@.len() as int), f@, t@)) =~= out@
                + replaced(rest.skip(f@.len() as int), f@, t@));
            i += f.len();
        } else {
            proof {
                if starts(rest, f@) {
                    assert(rest.take(f@.len() as int) =~= s@.subrange(i as int, i + f@.len()));
                }
                assert(rest.drop_first() =~= s@.skip(i + 1));
                assert(out@ + (seq![rest[0]] + replaced(rest.drop_first(), f@, t@)) =~= out@.push(
                    s@[i as int],
                ) + replaced(rest.drop_first(), f@, t@));
            }
            out.push(s[i]);
            i += 1;
        }
    }
    assert(s@.skip(i as int) =~= Seq::<char>::empty());
    assert(out@ + Seq::<char>::empty() =~= out@);
    out
}


/// The two texts are equal.
pub fn eq(a: &[char], b: &[char]) -> (r: bool)
    ensures
        r == (a@ == b@),
{
    if a.len() != b.len() {
        return false;
    }
    let r = occurs(a, b, 0);
    assert(a@.subrange(0, b@.len() as int) =~= a@);
    r
}

// ----- lines -----

/// The texts held by a vector of character vectors.
pub open spec fn texts(v: Seq<Vec<char>>) -> Seq<Seq<char>> {
    v.map_values(|x: Vec<char>| x@)
}

/// `s` without one trailing carriage return.
pub open spec fn without_cr(s: Seq<char>) -> Seq<char> {
    if s.len() > 0 && s.last() == '\r' {
        s.drop_last()
    } else {
        s
    }
}

/// Index of the first line feed, or the length when there is none.
pub open spec fn line_end(s: Seq<char>) -> int
    decreases s.len(),
{
    if s.len() == 0 {
        0
    } else if s[0] == '\n' {
        0
    } else {
        1 + line_end(s.drop_first())
    }
}

/// The first line ends at the first line feed, or at the end of the text.
pub proof fn lemma_line_end(s: Seq<char>)
    ensures
        0 <= line_end(s) <= s.len(),
        line_end(s) < s.len() ==> s[line_end(s)] == '\n',
        forall|j: int| 0 <= j < line_end(s) ==> s[j] != '\n',
    decreases s.len(),
{
    if s.len() > 0 && s[0] != '\n' {
        lemma_line_end(s.drop_first());
        assert forall|j: int| 0 <= j < line_end(s) implies s[j] != '\n' by {
            if j > 0 {
                assert(s[j] == s.drop_first()[j - 1]);
            }
        }
    }
}

/// `str::lines`: the text split at `\n` and `\r\n`; a final line ending
/// does not start another line.
pub open spec fn lines_of(s: Seq<char>) -> Seq<Seq<char>>
    decreases s.len(),
{
    if s.len() == 0 {
        Seq::empty()
    } else {
        let e = line_end(s);
        if e < s.len() {
            proof {
                lemma_line_end(s);
            }
            seq![without_cr(s.take(e))] + lines_of(s.skip(e + 1))
        } else {
            seq![s]
        }
    }
}

/// Position of the first line feed at or after `i`, or the length.
fn next_line_end(s: &[char], i: usize) -> (e: usize)
    requires
        i <= s@.len(),
    ensures
        e == i + line_end(s@.skip(i as int)),
{
    let mut e = i;
    while e < s.len() && s[e] != '\n'
        invariant
            i <= e <= s@.len(),
            line_end(s@.skip(i as int)) == (e - i) + line_end(s@.skip(e as int)),
        decreases s@.len() - e,
    {
        assert(s@.skip(e as int).drop_first() =~= s@.skip(e + 1));
        e += 1;
    }
    e
}

/// `str::lines`.
pub fn lines(s: &[char]) -> (r: Vec<Vec<char>>)
    ensures
        texts(r@) == lines_of(s@),
{
    let mut out: Vec<Vec<char>> = Vec::new();
    let mut i: usize = 0;
    assert(s@.skip(0) =~= s@);
    while i < s.len()
        invariant
            i <= s@.len(),
            lines_of(s@) == texts(out@) + lines_of(s@.skip(i as int)),
        decreases s@.len() - i,
    {
        let ghost rest = s@.skip(i as int);
        let e = next_line_end(s, i);
        proof {
            lemma_line_end(rest);
        }
        if e < s.len() {
            let mut line = slice_copy(s, i, e);
            if line.len() > 0 && line[line.len() - 1] == '\r' {
                line.pop();
            }
            proof {
                assert(s@.subrange(i as int, e as int) =~= rest.take(e - i));
                assert(rest.skip(e - i + 1) =~= s@.skip(e + 1));
            }
            let ghost before = out@;
            out.push(line);
            proof {
                assert(texts(out@) =~= texts(before).push(line@));
                assert(texts(before) + (seq![line@] + lines_of(s@.skip(e + 1))) =~= texts(out@)
                    + lines_of(s@.skip(e + 1)));
            }
            i = e + 1;
        } else {
            let line = slice_copy(s, i, s.len());
            let ghost before = out@;
            out.push(line);
            proof {
                assert(line@ =~= rest);
                assert(texts(out@) =~= texts(before).push(line@));
                assert(s@.skip(s@.len() as int) =~= Seq::<char>::empty());
                assert(texts(before) + seq![rest] =~= texts(out@) + Seq::<Seq<char>>::empty());
            }
            i = s.len();
        }
    }
    assert(s@.skip(i as int) =~= Seq::<char>::empty());
    assert(texts(out@) + Seq::<Seq<char>>::empty() =~= texts(out@));
    out
}

// ----- integers -----

pub open spec fn is_digit(c: char) -> bool {
    '0' <= c && c <= '9'
}

pub open spec fn all_digits(d: Seq<char>) -> bool {
    forall|i: int| 0 <= i < d.len() ==> is_digit(#[trigger] d[i])
}

/// Decimal value of a digit string.
pub open spec fn digits_value(d: Seq<char>) -> nat
    decreases d.len(),
{
    if d.len() == 0 {
        0
    } else {
        digits_value(d.drop_last()) * 10 + ((d.last() as int - '0' as int) as nat)
    }
}

/// The magnitude that the integer `FromStr` impls read after an optional `+`.
pub open spec fn unsigned_text(s: Seq<char>) -> Option<nat> {
    let d = if s.len() > 0 && s[0] == '+' {
        s.drop_first()
    } else {
        s
    };
    if d.len() > 0 && all_digits(d) {
        Some(digits_value(d))
    } else {
        None
    }
}

/// `str::parse::<u8>`, `None` for an error.
pub open spec fn u8_of_text(s: Seq<char>) -> Option<u8> {
    match unsigned_text(s) {
        Some(v) => if v <= 255 {
            Some(v as u8)
        } else {
            None
        },
        None => None,
    }
}

/// `str::parse::<i32>`, `None` for an error.
pub open spec fn i32_of_text(s: Seq<char>) -> Option<i32> {
    if s.len() > 0 && s[0] == '-' {
        let d = s.drop_first();
        if d.len() > 0 && all_digits(d) && digits_value(d) <= 0x8000_0000 {
            Some((0 - digits_value(d)) as i32)
        } else {
            None
        }
    } else {
        match unsigned_text(s) {
            Some(v) => if v <= 0x7fff_ffff {
                Some(v as i32)
            } else {
                None
            },
            None => None,
        }
    }
}

/// The value of a run of digits, one digit at a time.
pub proof fn lemma_digits_step(d: Seq<char>, i: int)
    requires
        0 <= i < d.len(),
    ensures
        digits_value(d.take(i + 1)) == digits_value(d.take(i)) * 10 + ((d[i] as int - '0' as int) as nat),
{
    assert(d.take(i + 1).drop_last() =~= d.take(i));
}

/// Value of a digit string, capped at 2^32; `None` unless it is a non-empty
/// run of ASCII digits.
pub fn capped_digits(d: &[char]) -> (r: Option<u64>)
    ensures
        match r {
            Some(v) => d@.len() > 0 && all_digits(d@) && v == if digits_value(d@) < 0x1_0000_0000 {
                digits_value(d@)
            } else {
                0x1_0000_0000
            },
            None => !(d@.len() > 0 && all_digits(d@)),
        },
{
    if d.len() == 0 {
        return None;
    }
    let mut v: u64 = 0;
    let mut i: usize = 0;
    assert(d@.take(0) =~= Seq::<char>::empty());
    while i < d.len()
        invariant
            i <= d@.len(),
            forall|j: int| 0 <= j < i ==> is_digit(#[trigger] d@[j]),
            v == if digits_value(d@.take(i as int)) < 0x1_0000_0000 {
                digits_value(d@.take(i as int))
            } else {
                0x1_0000_0000
            },
        decreases d@.len() - i,
    {
        let c = d[i];
        if !('0' <= c && c <= '9') {
            assert(!is_digit(d@[i as int]));
            return None;
        }
        let dig = (c as u32 - '0' as u32) as u64;
        proof {
            lemma_digits_step(d@, i as int);
            let x = digits_value(d@.take(i as int));
            assert(dig == (d@[i as int] as int - '0' as int));
            if x >= 0x1_0000_0000 {
                assert(x * 10 + dig >= 0x1_0000_0000) by (nonlinear_arith)
                    requires
                        x >= 0x1_0000_0000,
                        dig >= 0,
                ;
            }
        }
        if v >= 0x1_0000_0000 {
            v = 0x1_0000_0000;
        } else {
            let w = v * 10 + dig;
            v = if w >= 0x1_0000_0000 {
                0x1_0000_0000
            } else {
                w
            };
        }
        i += 1;
    }
    assert(d@.take(d@.len() as int) =~= d@);
    Some(v)
}

/// `str::parse::<u8>` on characters.
pub fn parse_u8(s: &[char]) -> (r: Option<u8>)
    ensures
        r == u8_of_text(s@),
{
    let d = if s.len() > 0 && s[0] == '+' {
        slice_copy(s, 1, s.len())
    } else {
        slice_to_vec(s)
    };
    assert(s@.len() > 0 && s@[0] == '+' ==> d@ =~= s@.drop_first());
    match capped_digits(&d) {
        Some(v) => if v <= 255 {
            Some(v as u8)
        } else {
            None
        },
        None => None,
    }
}

/// `str::parse::<i32>` on characters.
pub fn parse_i32(s: &[char]) -> (r: Option<i32>)
    ensures
        r == i32_of_text(s@),
{
    if s.len() > 0 && s[0] == '-' {
        let d = slice_copy(s, 1, s.len());
        assert(d@ =~= s@.drop_first());
        match capped_digits(&d) {
            Some(v) => if v <= 0x8000_0000 {
                Some((0 - (v as i64)) as i32)
            } else {
                None
            },
            None => None,
        }
    } else {
        let d = if s.len() > 0 && s[0] == '+' {
            slice_copy(s, 1, s.len())
        } else {
            slice_to_vec(s)
        };
        assert(s@.len() > 0 && s@[0] == '+' ==> d@ =~= s@.drop_first());
        match capped_digits(&d) {
            Some(v) => if v <= 0x7fff_ffff {
                Some(v as i32)
            } else {
                None
            },
            None => None,
        }
    }
}


/// A message made of a fixed prefix followed by a text.
pub fn message(prefix: &str, s: &[char]) -> (r: String)
    ensures
        r@ == prefix@ + s@,
{
    let p = chars_of(prefix);
    let m = concat(&p, s);
    string_of(&m)
}


/// `str::to_lowercase` on characters.
pub fn lower(s: &[char]) -> (r: Vec<char>)
    ensures
        r@ == lowercase_of(s@),
        all_ascii(s@) ==> r@ == s@.map_values(|c: char| ascii_lower_char(c)),
{
    let t = string_of(s);
    let l = to_lowercase(t.as_str());
    chars_of(l.as_str())
}

/// `s[a..b]`, or nothing when the bounds are out of order.
pub open spec fn slice_of(s: Seq<char>, a: int, b: int) -> Seq<char> {
    if 0 <= a <= b <= s.len() {
        s.subrange(a, b)
    } else {
        Seq::empty()
    }
}


/// `p` searched in `s` from position `i` on.
pub fn find_at(s: &[char], p: &[char], i: usize) -> (r: Option<usize>)
    ensures
        match r {
            Some(k) => find_from(s@, p@, i as int) == Some(k as int),
            None => find_from(s@, p@, i as int) is None,
        },
{
    if p.len() > s.len() || i > s.len() - p.len() {
        return None;
    }
    let mut k: usize = i;
    while k <= s.len() - p.len()
        invariant
            p@.len() <= s@.len(),
            i <= k <= s@.len() - p@.len() + 1,
            find_from(s@, p@, i as int) == find_from(s@, p@, k as int),
        decreases s@.len() - p@.len() + 1 - k,
    {
        if occurs(s, p, k) {
            return Some(k);
        }
        if k == s.len() - p.len() {
            assert(find_from(s@, p@, k + 1) is None);
            return None;
        }
        k += 1;
    }
    None
}

/// The bounds of `trimmed(s[a..b])` within `s`.
pub fn trim_range(s: &[char], a: usize, b: usize) -> (r: (usize, usize))
    requires
        a <= b <= s@.len(),
    ensures
        a <= r.0 <= r.1 <= b,
        s@.subrange(r.0 as int, r.1 as int) == trimmed(s@.subrange(a as int, b as int)),
{
    let ghost t = s@.subrange(a as int, b as int);
    let mut x = a;
    while x < b && is_whitespace(s[x])
        invariant
            a <= x <= b <= s@.len(),
            forall|j: int| a <= j < x ==> is_ws(#[trigger] s@[j]),
        decreases b - x,
    {
        x += 1;
    }
    proof {
        assert forall|j: int| 0 <= j < x - a implies is_ws(#[trigger] t[j]) by {
            assert(t[j] == s@[a + j]);
        }
        lemma_trimmed_start_index(t, x - a);
        assert(t.skip(x - a) =~= s@.subrange(x as int, b as int));
        if x < b {
            assert(s@.subrange(x as int, b as int)[0] == s@[x as int]);
        }
    }
    let mut y = b;
    while y > x && is_whitespace(s[y - 1])
        invariant
            x <= y <= b <= s@.len(),
            forall|j: int| y <= j < b ==> is_ws(#[trigger] s@[j]),
        decreases y,
    {
        y -= 1;
    }
    proof {
        let u = s@.subrange(x as int, b as int);
        assert forall|j: int| y - x <= j < u.len() implies is_ws(#[trigger] u[j]) by {
            assert(u[j] == s@[x + j]);
        }
        lemma_trimmed_end_index(u, y - x);
        assert(u.take(y - x) =~= s@.subrange(x as int, y as int));
        if y > x {
            assert(s@.subrange(x as int, y as int).last() == s@[y - 1]);
        }
        assert(trimmed(t) == trimmed_end(u));
    }
    (x, y)
}

} // verus!
