//! The order of texts, as `str` compares them, and sorting by it.
use vstd::prelude::*;

use crate::command::texts_of;
use crate::text::chars_of;

verus! {

broadcast use vstd::slice::group_slice_axioms;

/// Lexicographic order of texts by character, the order in which `str`
/// compares (UTF-8 keeps the order of code points).
pub open spec fn text_lt(a: Seq<char>, b: Seq<char>) -> bool
    decreases a.len(),
{
    if a.len() == 0 {
        b.len() > 0
    } else if b.len() == 0 {
        false
    } else if a[0] != b[0] {
        a[0] < b[0]
    } else {
        text_lt(a.drop_first(), b.drop_first())
    }
}

/// Whether `a` comes before `b`.
pub fn text_less(a: &[char], b: &[char]) -> (r: bool)
    ensures
        r == text_lt(a@, b@),
{
    let mut i: usize = 0;
    assert(a@.skip(0) =~= a@);
    assert(b@.skip(0) =~= b@);
    while i < a.len() && i < b.len() && a[i] == b[i]
        invariant
            i <= a@.len(),
            i <= b@.len(),
            text_lt(a@, b@) == text_lt(a@.skip(i as int), b@.skip(i as int)),
        decreases a@.len() - i,
    {
        assert(a@.skip(i as int).drop_first() =~= a@.skip(i + 1));
        assert(b@.skip(i as int).drop_first() =~= b@.skip(i + 1));
        i += 1;
    }
    if i == a.len() {
        i < b.len()
    } else if i == b.len() {
        false
    } else {
        assert(a@.skip(i as int)[0] == a@[i as int]);
        assert(b@.skip(i as int)[0] == b@[i as int]);
        a[i] < b[i]
    }
}

/// Where a text goes among ordered texts: before the first that comes after it.
pub open spec fn text_pos(s: Seq<Seq<char>>, x: Seq<char>) -> int
    decreases s.len(),
{
    if s.len() == 0 {
        0
    } else if text_lt(x, s[0]) {
        0
    } else {
        1 + text_pos(s.drop_first(), x)
    }
}

/// Where a text goes in a list lies within the list.
pub proof fn lemma_text_pos(s: Seq<Seq<char>>, x: Seq<char>)
    ensures
        0 <= text_pos(s, x) <= s.len(),
    decreases s.len(),
{
    if s.len() > 0 && !text_lt(x, s[0]) {
        lemma_text_pos(s.drop_first(), x);
    }
}

/// Texts in order, equal texts kept in their order.
pub open spec fn sorted_texts(s: Seq<Seq<char>>) -> Seq<Seq<char>>
    decreases s.len(),
{
    if s.len() == 0 {
        s
    } else {
        let t = sorted_texts(s.drop_last());
        t.insert(text_pos(t, s.last()), s.last())
    }
}

/// Puts a text where it goes among ordered texts.
fn insert_text(out: &mut Vec<String>, x: String)
    ensures
        texts_of(final(out)@) == texts_of(old(out)@).insert(text_pos(texts_of(old(out)@), x@), x@),
{
    let ghost s = texts_of(out@);
    let xn = chars_of(x.as_str());
    let mut p: usize = 0;
    assert(s.skip(0) =~= s);
    while p < out.len() && !text_less(&xn, &chars_of(out[p].as_str()))
        invariant
            s == texts_of(out@),
            xn@ == x@,
            p <= out@.len(),
            text_pos(s, x@) == p + text_pos(s.skip(p as int), x@),
        decreases out@.len() - p,
    {
        assert(s.skip(p as int)[0] == out@[p as int]@);
        assert(s.skip(p as int).drop_first() =~= s.skip(p + 1));
        p += 1;
    }
    proof {
        if p < out@.len() {
            assert(s.skip(p as int)[0] == out@[p as int]@);
        }
        assert(text_pos(s, x@) == p);
    }
    let ghost xv = x@;
    out.insert(p, x);
    assert(texts_of(out@) =~= s.insert(p as int, xv));
}

/// Sorts texts in the order in which `str` compares them.
pub fn sort_texts(v: &mut Vec<String>)
    ensures
        texts_of(final(v)@) == sorted_texts(texts_of(old(v)@)),
{
    let ghost all = texts_of(v@);
    let n = v.len();
    let mut sorted: Vec<String> = Vec::new();
    let mut k: usize = 0;
    assert(all.take(0) =~= Seq::<Seq<char>>::empty());
    assert(all.skip(0) =~= all);
    while k < n
        invariant
            n == all.len(),
            k <= n,
            texts_of(v@) == all.skip(k as int),
            texts_of(sorted@) == sorted_texts(all.take(k as int)),
        decreases n - k,
    {
        let ghost rv = v@;
        assert(v@.len() == texts_of(v@).len());
        let x = v.remove(0);
        assert(x@ == all[k as int]) by {
            assert(texts_of(rv)[0] == all.skip(k as int)[0]);
        }
        assert(texts_of(v@) =~= texts_of(rv).drop_first());
        assert(all.skip(k as int).drop_first() =~= all.skip(k + 1));
        proof {
            lemma_text_pos(texts_of(sorted@), x@);
        }
        insert_text(&mut sorted, x);
        assert(all.take(k + 1).drop_last() =~= all.take(k as int));
        k += 1;
    }
    assert(all.take(n as int) =~= all);
    *v = sorted;
}


// ----- properties of the order -----

/// No text comes before itself.
pub proof fn lemma_text_lt_irreflexive(a: Seq<char>)
    ensures
        !text_lt(a, a),
    decreases a.len(),
{
    if a.len() > 0 {
        lemma_text_lt_irreflexive(a.drop_first());
    }
}

/// The order is transitive.
pub proof fn lemma_text_lt_transitive(a: Seq<char>, b: Seq<char>, c: Seq<char>)
    requires
        text_lt(a, b),
        text_lt(b, c),
    ensures
        text_lt(a, c),
    decreases a.len(),
{
    if a.len() > 0 && b.len() > 0 && c.len() > 0 && a[0] == b[0] && b[0] == c[0] {
        lemma_text_lt_transitive(a.drop_first(), b.drop_first(), c.drop_first());
    }
}

/// Of two different texts, one comes before the other.
pub proof fn lemma_text_lt_total(a: Seq<char>, b: Seq<char>)
    requires
        a != b,
    ensures
        text_lt(a, b) || text_lt(b, a),
    decreases a.len(),
{
    if a.len() == 0 && b.len() == 0 {
        assert(a =~= b);
    }
    if a.len() > 0 && b.len() > 0 && a[0] == b[0] {
        if a.drop_first() == b.drop_first() {
            assert(a =~= seq![a[0]] + a.drop_first());
            assert(b =~= seq![b[0]] + b.drop_first());
        }
        lemma_text_lt_total(a.drop_first(), b.drop_first());
    }
}

/// No text of the list comes before one that precedes it.
pub open spec fn texts_ordered(s: Seq<Seq<char>>) -> bool {
    forall|i: int, j: int| 0 <= i < j < s.len() ==> !text_lt(#[trigger] s[j], #[trigger] s[i])
}

proof fn lemma_text_pos_bounds(t: Seq<Seq<char>>, x: Seq<char>)
    ensures
        0 <= text_pos(t, x) <= t.len(),
        forall|i: int| 0 <= i < text_pos(t, x) ==> !text_lt(x, #[trigger] t[i]),
        text_pos(t, x) < t.len() ==> text_lt(x, t[text_pos(t, x)]),
    decreases t.len(),
{
    if t.len() > 0 && !text_lt(x, t[0]) {
        lemma_text_pos_bounds(t.drop_first(), x);
        assert forall|i: int| 0 <= i < text_pos(t, x) implies !text_lt(x, #[trigger] t[i]) by {
            if i > 0 {
                assert(t[i] == t.drop_first()[i - 1]);
            }
        }
    }
}

proof fn lemma_insert_ordered(t: Seq<Seq<char>>, x: Seq<char>)
    requires
        texts_ordered(t),
    ensures
        texts_ordered(t.insert(text_pos(t, x), x)),
{
    lemma_text_pos_bounds(t, x);
    let p = text_pos(t, x);
    let u = t.insert(p, x);
    assert forall|i: int, j: int| 0 <= i < j < u.len() implies !text_lt(#[trigger] u[j], #[trigger] u[i]) by {
        if j < p {
            assert(u[i] == t[i] && u[j] == t[j]);
        } else if j == p {
            assert(u[i] == t[i] && u[j] == x);
        } else if i < p {
            assert(u[i] == t[i] && u[j] == t[j - 1]);
        } else if i == p {
            assert(u[i] == x && u[j] == t[j - 1]);
            if text_lt(t[j - 1], x) {
                lemma_text_lt_transitive(t[j - 1], x, t[p]);
                if j - 1 == p {
                    lemma_text_lt_irreflexive(t[p]);
                } else {
                    assert(!text_lt(t[j - 1], t[p]));
                }
            }
        } else {
            assert(u[i] == t[i - 1] && u[j] == t[j - 1]);
        }
    }
}

/// Sorting texts gives them in order, each as often as before.
pub proof fn lemma_sorted_texts(s: Seq<Seq<char>>)
    ensures
        texts_ordered(sorted_texts(s)),
        sorted_texts(s).to_multiset() == s.to_multiset(),
    decreases s.len(),
{
    broadcast use vstd::seq_lib::group_to_multiset_ensures;

    if s.len() > 0 {
        let t = sorted_texts(s.drop_last());
        lemma_sorted_texts(s.drop_last());
        lemma_insert_ordered(t, s.last());
        lemma_text_pos_bounds(t, s.last());
        assert(s =~= s.drop_last().push(s.last()));
    } else {
        assert(sorted_texts(s) =~= s);
    }
}

} // verus!
