//! Reading calls from the wiki, such as `control [[tvSetPicture]] [idc, path, name]`.
use vstd::prelude::*;

use crate::call::{args_model, Arg, ArgModel, Call, CallModel};
use crate::text::{
    chars_of, concat, contains, eq, holds, is_digit, is_ws, lemma_trimmed_end_shape,
    lemma_trimmed_start_shape, message, slice_copy, split_first, split_once, string_of, trim,
    trimmed, trimmed_end, trimmed_start,
};

verus! {

broadcast use vstd::slice::group_slice_axioms;

// ----- numbered names -----

/// Number of characters up to and including the last digit; 0 without digits.
pub open spec fn last_digit_end(t: Seq<char>) -> int
    decreases t.len(),
{
    if t.len() == 0 {
        0
    } else if is_digit(t.last()) {
        t.len() as int
    } else {
        last_digit_end(t.drop_last())
    }
}

/// Start of the run of digits that ends just before `e`.
pub open spec fn digit_run_start(t: Seq<char>, e: int) -> int
    decreases e,
{
    if e <= 0 || e > t.len() {
        0
    } else if is_digit(t[e - 1]) {
        digit_run_start(t, e - 1)
    } else {
        e
    }
}

/// The name before the last number in a numbered name such as `var1`:
/// the trimmed text up to the run of digits that holds its last digit,
/// when that is not empty.
pub open spec fn base_name_of(s: Seq<char>) -> Option<Seq<char>> {
    let t = trimmed(s);
    let e = last_digit_end(t);
    if e == 0 {
        None
    } else {
        let b = digit_run_start(t, e);
        if b == 0 {
            None
        } else {
            Some(t.take(b))
        }
    }
}


/// The base of a numbered name.
pub fn base_name(s: &[char]) -> (r: Option<Vec<char>>)
    ensures
        match r {
            Some(b) => base_name_of(s@) == Some(b@),
            None => base_name_of(s@) is None,
        },
{
    let t = trim(s);
    let mut e: usize = t.len();
    assert(t@.take(t@.len() as int) =~= t@);
    while e > 0 && !('0' <= t[e - 1] && t[e - 1] <= '9')
        invariant
            e <= t@.len(),
            last_digit_end(t@) == last_digit_end(t@.take(e as int)),
        decreases e,
    {
        assert(t@.take(e as int).drop_last() =~= t@.take(e - 1));
        e -= 1;
    }
    proof {
        if e > 0 {
            assert(t@.take(e as int).last() == t@[e - 1]);
        }
        assert(t@.take(t@.len() as int) =~= t@);
    }
    if e == 0 {
        return None;
    }
    let mut b: usize = e;
    while b > 0 && '0' <= t[b - 1] && t[b - 1] <= '9'
        invariant
            0 < e <= t@.len(),
            b <= e,
            digit_run_start(t@, e as int) == digit_run_start(t@, b as int),
        decreases b,
    {
        b -= 1;
    }
    if b == 0 {
        None
    } else {
        Some(slice_copy(&t, 0, b))
    }
}

/// The distinct names of a list, each where it first occurs.
pub open spec fn dedup(s: Seq<Seq<char>>) -> Seq<Seq<char>>
    decreases s.len(),
{
    if s.len() == 0 {
        s
    } else {
        let d = dedup(s.drop_last());
        if d.contains(s.last()) {
            d
        } else {
            d.push(s.last())
        }
    }
}

/// The base name of an item argument.
pub open spec fn item_base(a: ArgModel) -> Option<Seq<char>> {
    match a {
        ArgModel::Item(s) => base_name_of(s),
        _ => None,
    }
}

/// How many arguments at the end are numbered items.
pub open spec fn numbered_suffix(b: Seq<ArgModel>) -> int
    decreases b.len(),
{
    if b.len() > 0 && item_base(b.last()) is Some {
        1 + numbered_suffix(b.drop_last())
    } else {
        0
    }
}

/// The base names of the last `n` arguments.
pub open spec fn suffix_bases(b: Seq<ArgModel>, n: int) -> Seq<Seq<char>> {
    Seq::new(n as nat, |k: int| item_base(b[b.len() - n + k])->Some_0)
}

/// A repeated item named after a base: `var` gives `varN`.
pub open spec fn repeated(names: Seq<Seq<char>>) -> Seq<ArgModel> {
    names.map_values(|x: Seq<char>| ArgModel::Item(x + seq!['N']))
}

/// The base names of an array of numbered items, if it is one.
pub open spec fn inner_bases(a: ArgModel) -> Option<Seq<Seq<char>>> {
    match a {
        ArgModel::Array(inner) => if inner.len() > 0 && forall|k: int|
            0 <= k < inner.len() ==> (#[trigger] item_base(inner[k])) is Some {
            Some(Seq::new(inner.len(), |k: int| item_base(inner[k])->Some_0))
        } else {
            None
        },
        _ => None,
    }
}

/// How many arguments at the end are arrays.
pub open spec fn trailing_arrays(b: Seq<ArgModel>) -> int
    decreases b.len(),
{
    if b.len() > 0 && b.last() is Array {
        1 + trailing_arrays(b.drop_last())
    } else {
        0
    }
}

/// A repeated array pattern such as `[key1, value1], [key2, value2]`: the
/// arrays at the end must all be arrays of numbered items of one length.
pub open spec fn nested_pattern(b: Seq<ArgModel>) -> Option<(Seq<ArgModel>, int)> {
    let m = trailing_arrays(b);
    if m == 0 {
        None
    } else if exists|k: int| b.len() - m <= k < b.len() && (#[trigger] inner_bases(b[k])) is None {
        None
    } else {
        let first = inner_bases(b.last())->Some_0;
        if exists|k: int|
            b.len() - m <= k < b.len() && (#[trigger] inner_bases(b[k]))->Some_0.len() != first.len() {
            None
        } else {
            Some((seq![ArgModel::InfiniteFlat(repeated(first))], m))
        }
    }
}

/// The repeated pattern before a `...`, and how many arguments it replaces.
pub open spec fn pattern_of(b: Seq<ArgModel>) -> (Seq<ArgModel>, int) {
    match nested_pattern(b) {
        Some(p) => p,
        None => {
            let n = numbered_suffix(b);
            if n == 0 {
                (Seq::empty(), 0)
            } else {
                (repeated(dedup(suffix_bases(b, n))), n)
            }
        },
    }
}

/// An array's arguments with a final `...` turned into a repeated pattern.
pub open spec fn infinite_pattern(a: Seq<ArgModel>) -> Seq<ArgModel> {
    if a.len() > 0 && a.last() is Item && trimmed(a.last()->Item_0) == "..."@ {
        let b = a.drop_last();
        let (p, c) = pattern_of(b);
        if p.len() == 0 {
            b
        } else {
            let kept = b.take(b.len() - c);
            if p.len() == 1 {
                if p[0] is InfiniteFlat {
                    kept.push(p[0])
                } else {
                    kept.push(ArgModel::InfiniteItem(Box::new(p[0])))
                }
            } else {
                kept.push(ArgModel::InfiniteFlat(p))
            }
        }
    } else {
        a
    }
}

proof fn lemma_numbered_suffix(b: Seq<ArgModel>)
    ensures
        0 <= numbered_suffix(b) <= b.len(),
        forall|k: int| b.len() - numbered_suffix(b) <= k < b.len() ==> (#[trigger] item_base(b[k])) is Some,
    decreases b.len(),
{
    if b.len() > 0 && item_base(b.last()) is Some {
        lemma_numbered_suffix(b.drop_last());
        assert forall|k: int| b.len() - numbered_suffix(b) <= k < b.len() implies (#[trigger] item_base(b[k])) is Some by {
            if k < b.len() - 1 {
                assert(b[k] == b.drop_last()[k]);
            }
        }
    }
}

proof fn lemma_trailing_arrays(b: Seq<ArgModel>)
    ensures
        0 <= trailing_arrays(b) <= b.len(),
        forall|k: int| b.len() - trailing_arrays(b) <= k < b.len() ==> (#[trigger] b[k]) is Array,
    decreases b.len(),
{
    if b.len() > 0 && b.last() is Array {
        lemma_trailing_arrays(b.drop_last());
        assert forall|k: int| b.len() - trailing_arrays(b) <= k < b.len() implies (#[trigger] b[k]) is Array by {
            if k < b.len() - 1 {
                assert(b[k] == b.drop_last()[k]);
            }
        }
    }
}

proof fn lemma_pattern_count(b: Seq<ArgModel>)
    ensures
        0 <= pattern_of(b).1 <= b.len(),
{
    lemma_numbered_suffix(b);
    lemma_trailing_arrays(b);
}

/// The base name of an item argument, computed.
fn arg_base(a: &Arg) -> (r: Option<Vec<char>>)
    ensures
        match r {
            Some(b) => item_base(a@) == Some(b@),
            None => item_base(a@) is None,
        },
{
    match a {
        Arg::Item(s) => base_name(&chars_of(s.as_str())),
        _ => None,
    }
}

/// The views of a list of character vectors.
pub open spec fn names_view(v: Seq<Vec<char>>) -> Seq<Seq<char>> {
    v.map_values(|x: Vec<char>| x@)
}

/// Items named after the bases, each with `N` appended.
fn repeated_items(names: &Vec<Vec<char>>) -> (r: Vec<Arg>)
    ensures
        args_model(r@) == repeated(names_view(names@)),
{
    let mut out: Vec<Arg> = Vec::new();
    let mut i: usize = 0;
    let n = ['N'];
    assert(n@ =~= seq!['N']);
    while i < names.len()
        invariant
            n@ == seq!['N'],
            i <= names@.len(),
            out@.len() == i,
            forall|k: int| 0 <= k < i ==> (#[trigger] out@[k])@ == ArgModel::Item(names@[k]@ + seq!['N']),
        decreases names@.len() - i,
    {
        let item = concat(&names[i], n.as_slice());
        out.push(Arg::Item(string_of(&item)));
        i += 1;
    }
    assert(args_model(out@) =~= repeated(names_view(names@)));
    out
}

proof fn lemma_dedup_step(s: Seq<Seq<char>>, i: int)
    requires
        0 <= i < s.len(),
    ensures
        dedup(s.take(i + 1)) == if dedup(s.take(i)).contains(s[i]) {
            dedup(s.take(i))
        } else {
            dedup(s.take(i)).push(s[i])
        },
{
    assert(s.take(i + 1).drop_last() =~= s.take(i));
}

/// The distinct names of a list, each where it first occurs.
fn dedup_names(s: &Vec<Vec<char>>) -> (r: Vec<Vec<char>>)
    ensures
        names_view(r@) == dedup(names_view(s@)),
{
    let ghost sv = names_view(s@);
    let mut out: Vec<Vec<char>> = Vec::new();
    let mut i: usize = 0;
    assert(sv.take(0) =~= Seq::<Seq<char>>::empty());
    assert(names_view(out@) =~= Seq::<Seq<char>>::empty());
    while i < s.len()
        invariant
            sv == names_view(s@),
            i <= s@.len(),
            names_view(out@) == dedup(sv.take(i as int)),
        decreases s@.len() - i,
    {
        let mut found = false;
        let mut k: usize = 0;
        while k < out.len()
            invariant
                i < s@.len(),
                k <= out@.len(),
                found <==> exists|m: int| 0 <= m < k && out@[m]@ == s@[i as int]@,
            decreases out@.len() - k,
        {
            if eq(&out[k], &s[i]) {
                found = true;
            }
            k += 1;
        }
        proof {
            lemma_dedup_step(sv, i as int);
            assert(sv[i as int] == s@[i as int]@);
            if found {
                let m = choose|m: int| 0 <= m < out@.len() && out@[m]@ == s@[i as int]@;
                assert(names_view(out@)[m] == sv[i as int]);
            } else {
                assert forall|m: int| 0 <= m < names_view(out@).len() implies names_view(out@)[m] != sv[i as int] by {
                    assert(names_view(out@)[m] == out@[m]@);
                }
            }
        }
        if !found {
            let ghost before = out@;
            let copy = slice_copy(&s[i], 0, s[i].len());
            assert(copy@ =~= s@[i as int]@);
            out.push(copy);
            assert(names_view(out@) =~= names_view(before).push(sv[i as int]));
        }
        i += 1;
    }
    assert(sv.take(s@.len() as int) =~= sv);
    out
}

/// The base names of an array of numbered items, if it is one.
fn array_bases(a: &Arg) -> (r: Option<Vec<Vec<char>>>)
    ensures
        match r {
            Some(v) => inner_bases(a@) == Some(names_view(v@)),
            None => inner_bases(a@) is None,
        },
{
    match a {
        Arg::Array(inner) => {
            let ghost im = args_model(inner@);
            assert(match a@ { ArgModel::Array(m) => m =~= im, _ => false });
            assert(a@ == ArgModel::Array(im));
            if inner.len() == 0 {
                return None;
            }
            let mut out: Vec<Vec<char>> = Vec::new();
            let mut i: usize = 0;
            while i < inner.len()
                invariant
                    im == args_model(inner@),
                    a@ == ArgModel::Array(im),
                    i <= inner@.len(),
                    out@.len() == i,
                    forall|k: int| 0 <= k < i ==> item_base(im[k]) == Some((#[trigger] out@[k])@),
                decreases inner@.len() - i,
            {
                match arg_base(&inner[i]) {
                    Some(b) => out.push(b),
                    None => {
                        assert(item_base(im[i as int]) is None);
                        return None;
                    },
                }
                i += 1;
            }
            assert forall|k: int| 0 <= k < im.len() implies (#[trigger] item_base(im[k])) is Some by {
                assert(item_base(im[k]) == Some(out@[k]@));
            }
            assert(names_view(out@) =~= Seq::new(im.len(), |k: int| item_base(im[k])->Some_0));
            Some(out)
        },
        _ => None,
    }
}


proof fn lemma_trailing_exact(b: Seq<ArgModel>, j: int)
    requires
        0 <= j <= b.len(),
        forall|k: int| j <= k < b.len() ==> (#[trigger] b[k]) is Array,
    ensures
        trailing_arrays(b) >= b.len() - j,
        j == 0 || !(b[j - 1] is Array) ==> trailing_arrays(b) == b.len() - j,
    decreases b.len(),
{
    lemma_trailing_arrays(b);
    if b.len() > j {
        let c = b.drop_last();
        assert forall|k: int| j <= k < c.len() implies (#[trigger] c[k]) is Array by {
            assert(c[k] == b[k]);
        }
        if j > 0 {
            assert(c[j - 1] == b[j - 1]);
        }
        lemma_trailing_exact(c, j);
        assert(b[b.len() - 1] is Array);
    }
}

proof fn lemma_numbered_exact(b: Seq<ArgModel>, j: int)
    requires
        0 <= j <= b.len(),
        forall|k: int| j <= k < b.len() ==> (#[trigger] item_base(b[k])) is Some,
        j == 0 || item_base(b[j - 1]) is None,
    ensures
        numbered_suffix(b) == b.len() - j,
    decreases b.len(),
{
    if b.len() > j {
        let c = b.drop_last();
        assert forall|k: int| j <= k < c.len() implies (#[trigger] item_base(c[k])) is Some by {
            assert(c[k] == b[k]);
        }
        if j > 0 {
            assert(c[j - 1] == b[j - 1]);
        }
        lemma_numbered_exact(c, j);
    }
}

/// The repeated array pattern at the end of a list, with how many arrays it covers.
fn nested_array_pattern(b: &[Arg]) -> (r: Option<(Vec<Arg>, usize)>)
    ensures
        match r {
            Some((p, c)) => nested_pattern(args_model(b@)) == Some((args_model(p@), c as int)),
            None => nested_pattern(args_model(b@)) is None,
        },
{
    let ghost bm = args_model(b@);
    let mut j: usize = b.len();
    let mut first: Option<Vec<Vec<char>>> = None;
    let mut same = true;
    while j > 0 && matches!(b[j - 1], Arg::Array(_))
        invariant
            bm == args_model(b@),
            j <= b@.len(),
            forall|k: int| j <= k < b@.len() ==> (#[trigger] bm[k]) is Array,
            forall|k: int| j <= k < b@.len() ==> (#[trigger] inner_bases(bm[k])) is Some,
            first is None <==> j == b@.len(),
            first is Some ==> inner_bases(bm.last()) == Some(names_view(first->Some_0@)),
            same <==> forall|k: int| j <= k < b@.len() ==> (#[trigger] inner_bases(bm[k]))->Some_0.len() == names_view(first->Some_0@).len(),
        decreases j,
    {
        assert(bm[j - 1] == b@[j - 1]@);
        match array_bases(&b[j - 1]) {
            None => {
                proof {
                    lemma_trailing_exact(bm, j - 1);
                    let m = trailing_arrays(bm);
                    assert(b@.len() - m <= j - 1 < b@.len() && inner_bases(bm[j - 1]) is None);
                    assert(nested_pattern(bm) is None) by {
                        assert(trailing_arrays(bm) > 0);
                    }
                }
                return None;
            },
            Some(v) => {
                match &first {
                    None => {
                        assert(bm.last() == bm[j - 1]);
                        first = Some(v);
                    },
                    Some(f) => {
                        if v.len() != f.len() {
                            same = false;
                        }
                    },
                }
            },
        }
        j -= 1;
    }
    proof {
        if j > 0 {
            assert(bm[j - 1] == b@[j - 1]@);
        }
        lemma_trailing_exact(bm, j as int);
    }
    match first {
        None => None,
        Some(f) => {
            if !same {
                proof {
                    let k = choose|k: int| j <= k < b@.len() && (#[trigger] inner_bases(bm[k]))->Some_0.len() != names_view(f@).len();
                    assert(bm.len() - trailing_arrays(bm) <= k < bm.len());
                }
                return None;
            }
            let items = repeated_items(&f);
            let flat = Arg::InfiniteFlat(items);
            let mut p: Vec<Arg> = Vec::new();
            p.push(flat);
            proof {
                assert(match flat@ { ArgModel::InfiniteFlat(m) => m =~= args_model(items@), _ => false });
                assert(args_model(p@) =~= seq![ArgModel::InfiniteFlat(repeated(names_view(f@)))]);
                assert(!(exists|k: int| bm.len() - trailing_arrays(bm) <= k < bm.len() && (#[trigger] inner_bases(bm[k])) is None));
                assert(!(exists|k: int| bm.len() - trailing_arrays(bm) <= k < bm.len()
                    && (#[trigger] inner_bases(bm[k]))->Some_0.len() != inner_bases(bm.last())->Some_0.len()));
            }
            Some((p, b.len() - j))
        },
    }
}


/// The repeated pattern before a `...`: the pattern, and how many arguments at
/// the end of the list it replaces.
fn extract_pattern(b: &[Arg]) -> (r: (Vec<Arg>, usize))
    ensures
        args_model(r.0@) == pattern_of(args_model(b@)).0,
        r.1 == pattern_of(args_model(b@)).1,
{
    let ghost bm = args_model(b@);
    match nested_array_pattern(b) {
        Some(p) => {
            return p;
        },
        None => {},
    }
    let mut j: usize = b.len();
    while j > 0 && arg_base(&b[j - 1]).is_some()
        invariant
            bm == args_model(b@),
            j <= b@.len(),
            forall|k: int| j <= k < b@.len() ==> (#[trigger] item_base(bm[k])) is Some,
        decreases j,
    {
        assert(bm[j - 1] == b@[j - 1]@);
        j -= 1;
    }
    proof {
        if j > 0 {
            assert(bm[j - 1] == b@[j - 1]@);
        }
        lemma_numbered_exact(bm, j as int);
    }
    if j == b.len() {
        let empty: Vec<Arg> = Vec::new();
        assert(args_model(empty@) =~= Seq::<ArgModel>::empty());
        return (empty, 0);
    }
    let ghost n = b@.len() - j;
    let mut bases: Vec<Vec<char>> = Vec::new();
    let mut k: usize = j;
    while k < b.len()
        invariant
            bm == args_model(b@),
            n == b@.len() - j,
            j <= k <= b@.len(),
            forall|m: int| j <= m < b@.len() ==> (#[trigger] item_base(bm[m])) is Some,
            bases@.len() == k - j,
            forall|m: int| 0 <= m < k - j ==> (#[trigger] bases@[m])@ == item_base(bm[j + m])->Some_0,
        decreases b@.len() - k,
    {
        assert(bm[k as int] == b@[k as int]@);
        match arg_base(&b[k]) {
            Some(v) => bases.push(v),
            None => {
                assert(false);
            },
        }
        k += 1;
    }
    assert(names_view(bases@) =~= suffix_bases(bm, n));
    let unique = dedup_names(&bases);
    (repeated_items(&unique), b.len() - j)
}

/// Whether the text is `...` once trimmed.
fn is_ellipsis(s: &String) -> (r: bool)
    ensures
        r == (trimmed(s@) == "..."@),
{
    let t = trim(&chars_of(s.as_str()));
    let dots = ['.', '.', '.'];
    proof {
        reveal_strlit("...");
    }
    assert(dots@ =~= "..."@);
    eq(&t, dots.as_slice())
}

/// Turns a final `...` of an array into the repeated pattern it stands for:
/// numbered items such as `var1, var2, ...` become `varN` repeated, and
/// numbered arrays such as `[key1, value1], ...` become `keyN, valueN` repeated.
fn process_infinite_pattern(array: &mut Vec<Arg>)
    ensures
        args_model(final(array)@) == infinite_pattern(args_model(old(array)@)),
{
    let ghost am = args_model(array@);
    let n = array.len();
    if n == 0 {
        return;
    }
    let is_dots = match &array[n - 1] {
        Arg::Item(last) => is_ellipsis(last),
        _ => false,
    };
    assert(am.last() == array@[n - 1]@);
    if !is_dots {
        return;
    }
    array.pop();
    assert(args_model(array@) =~= am.drop_last());
    let (mut pattern, count) = extract_pattern(array.as_slice());
    proof {
        lemma_pattern_count(args_model(array@));
    }
    if pattern.len() == 0 {
        return;
    }
    let keep = array.len() - count;
    array.truncate(keep);
    assert(args_model(array@) =~= am.drop_last().take(keep as int));
    if pattern.len() == 1 {
        let ghost pm = args_model(pattern@);
        let item = pattern.pop().unwrap();
        assert(item@ == pm[0]);
        if matches!(item, Arg::InfiniteFlat(_)) {
            let ghost before = array@;
            array.push(item);
            assert(args_model(array@) =~= args_model(before).push(pm[0]));
        } else {
            let ghost before = array@;
            let wrapped = Arg::InfiniteItem(Box::new(item));
            array.push(wrapped);
            assert(args_model(array@) =~= args_model(before).push(ArgModel::InfiniteItem(Box::new(pm[0]))));
        }
    } else {
        let ghost before = array@;
        let ghost pm = args_model(pattern@);
        let flat = Arg::InfiniteFlat(pattern);
        assert(match flat@ { ArgModel::InfiniteFlat(m) => m =~= pm, _ => false });
        array.push(flat);
        assert(args_model(array@) =~= args_model(before).push(ArgModel::InfiniteFlat(pm)));
    }
}


// ----- reading arguments -----

/// The characters that end an item.
pub open spec fn is_stop(c: char) -> bool {
    c == '[' || c == ']' || c == ','
}

/// Where the item that starts at `i` ends: at the next `[`, `]` or `,`, or at the end.
pub open spec fn item_end(s: Seq<char>, i: int) -> int
    decreases s.len() - i,
{
    if i < 0 || i >= s.len() || is_stop(s[i]) {
        i
    } else {
        item_end(s, i + 1)
    }
}

/// An item read at `i`, and where reading stopped; no item when its text is blank.
pub open spec fn item_at(s: Seq<char>, i: int) -> (Option<ArgModel>, int) {
    let e = item_end(s, i);
    let t = trimmed(s.subrange(i, e));
    if t.len() == 0 {
        (None, e)
    } else {
        (Some(ArgModel::Item(t)), e)
    }
}

/// An argument read at `i`: an array when it starts with `[`, else an item.
pub open spec fn arg_at(s: Seq<char>, i: int) -> (Option<ArgModel>, int)
    decreases s.len() - i, 2int,
{
    if 0 <= i < s.len() && s[i] == '[' {
        let (a, e) = array_at(s, i);
        (Some(a), e)
    } else {
        item_at(s, i)
    }
}

/// An array read at the `[` at `i`, with a final `...` turned into its pattern.
pub open spec fn array_at(s: Seq<char>, i: int) -> (ArgModel, int)
    decreases s.len() - i, 1int,
{
    if 0 <= i < s.len() {
        let (items, e) = array_items(s, i + 1);
        (ArgModel::Array(infinite_pattern(items)), e)
    } else {
        (ArgModel::Array(Seq::empty()), i)
    }
}

/// The arguments of an array from `p` up to its `]` (or the end of the text),
/// and where reading stopped.
pub open spec fn array_items(s: Seq<char>, p: int) -> (Seq<ArgModel>, int)
    decreases s.len() - p, 3int,
{
    if p < 0 || p >= s.len() {
        (Seq::empty(), s.len() as int)
    } else if s[p] == ']' {
        (Seq::empty(), p + 1)
    } else if s[p] == ',' {
        array_items(s, p + 1)
    } else {
        let (a, q) = arg_at(s, p);
        let q2 = if 0 <= q < s.len() && s[q] == ',' { q + 1 } else { q };
        if q2 <= p || q2 > s.len() {
            (Seq::empty(), s.len() as int)
        } else {
            let (rest, e) = array_items(s, q2);
            match a {
                Some(x) => (seq![x] + rest, e),
                None => (rest, e),
            }
        }
    }
}

proof fn lemma_item_end(s: Seq<char>, i: int)
    requires
        0 <= i <= s.len(),
    ensures
        i <= item_end(s, i) <= s.len(),
        forall|k: int| i <= k < item_end(s, i) ==> !is_stop(#[trigger] s[k]),
        item_end(s, i) < s.len() ==> is_stop(s[item_end(s, i)]),
    decreases s.len() - i,
{
    if i < s.len() && !is_stop(s[i]) {
        lemma_item_end(s, i + 1);
    }
}

fn read_item(s: &[char], i: usize) -> (r: (Option<Arg>, usize))
    requires
        i <= s@.len(),
    ensures
        (match r.0 { Some(a) => Some(a@), None => None }, r.1 as int) == item_at(s@, i as int),
{
    let mut e: usize = i;
    while e < s.len() && !(s[e] == '[' || s[e] == ']' || s[e] == ',')
        invariant
            i <= e <= s@.len(),
            item_end(s@, i as int) == item_end(s@, e as int),
        decreases s@.len() - e,
    {
        e += 1;
    }
    let t = trim(&slice_copy(s, i, e));
    if t.len() == 0 {
        (None, e)
    } else {
        (Some(Arg::Item(string_of(&t))), e)
    }
}

pub open spec fn opt_view(a: Option<Arg>) -> Option<ArgModel> {
    match a {
        Some(x) => Some(x@),
        None => None,
    }
}

fn read_arg(s: &[char], i: usize) -> (r: (Option<Arg>, usize))
    requires
        i <= s@.len(),
    ensures
        (opt_view(r.0), r.1 as int) == arg_at(s@, i as int),
        i <= r.1 <= s@.len(),
        i < s@.len() && s@[i as int] != ']' && s@[i as int] != ',' ==> i < r.1,
    decreases s@.len() - i, 2int,
{
    if i < s.len() && s[i] == '[' {
        let (a, e) = read_array(s, i);
        (Some(a), e)
    } else {
        proof {
            lemma_item_end(s@, i as int);
        }
        read_item(s, i)
    }
}

fn read_array(s: &[char], i: usize) -> (r: (Arg, usize))
    requires
        i < s@.len(),
    ensures
        (r.0@, r.1 as int) == array_at(s@, i as int),
        i < r.1 <= s@.len(),
    decreases s@.len() - i, 1int,
{
    let ghost whole = array_items(s@, i + 1);
    let n = s.len();
    assert(i < n);
    let mut items: Vec<Arg> = Vec::new();
    let mut p: usize = i + 1;
    loop
        invariant_except_break
            i < p <= s@.len(),
            n == s@.len(),
            whole == array_items(s@, i + 1),
            whole == (args_model(items@) + array_items(s@, p as int).0, array_items(s@, p as int).1),
        ensures
            i < p <= s@.len(),
            whole == (args_model(items@), p as int),
        decreases s@.len() - p,
    {
        if p >= n {
            assert(args_model(items@) + Seq::<ArgModel>::empty() =~= args_model(items@));
            break;
        }
        if s[p] == ']' {
            assert(args_model(items@) + Seq::<ArgModel>::empty() =~= args_model(items@));
            p += 1;
            break;
        }
        if s[p] == ',' {
            p += 1;
        } else {
            let (a, q) = read_arg(s, p);
            let q2 = if q < n && s[q] == ',' { q + 1 } else { q };
            match a {
                Some(x) => {
                    let ghost before = items@;
                    let ghost xm = x@;
                    items.push(x);
                    assert(args_model(items@) =~= args_model(before).push(xm));
                    assert(args_model(items@) + array_items(s@, q2 as int).0 =~= args_model(before) + (seq![xm] + array_items(s@, q2 as int).0));
                },
                None => {},
            }
            p = q2;
        }
    }
    process_infinite_pattern(&mut items);
    let ghost im = args_model(items@);
    let r = Arg::Array(items);
    assert(match r@ { ArgModel::Array(m) => m =~= im, _ => false });
    (r, p)
}


// ----- calls -----

/// The argument that a parameter list starts with, once trimmed.
pub open spec fn params_of(t: Seq<char>) -> Option<ArgModel> {
    arg_at(trimmed(t), 0).0
}

/// The trimmed texts on either side of the `[[command]]` link of a call.
pub open spec fn call_sides(s: Seq<char>) -> Option<(Seq<char>, Seq<char>)> {
    match split_first(s, seq!['[', '[']) {
        Some((left, rest)) => match split_first(rest, seq![']', ']']) {
            Some((_, right)) => Some((trimmed(left), trimmed(right))),
            None => None,
        },
        None => None,
    }
}

/// The call that the wiki text `s` describes, or the message that rejects it.
pub open spec fn call_of_text(s: Seq<char>) -> Result<CallModel, Seq<char>> {
    if !s.contains(' ') {
        Ok(CallModel::Nular)
    } else {
        match call_sides(s) {
            None => Err("Invalid call: "@ + s),
            Some((left, right)) => if left.len() == 0 {
                if right.len() == 0 {
                    Ok(CallModel::Nular)
                } else {
                    Ok(CallModel::Unary(params_of(right)->Some_0))
                }
            } else if right.len() == 0 {
                Err("Invalid call: "@ + s)
            } else {
                Ok(CallModel::Binary(params_of(left)->Some_0, params_of(right)->Some_0))
            },
        }
    }
}

/// The parameters that a call's text needs read can all be read: a text
/// without a space is read as it is, and in one with a space a side that
/// holds text begins with an argument.
pub open spec fn call_readable(s: Seq<char>) -> bool {
    !s.contains(' ') || match call_sides(s) {
        Some((left, right)) => if left.len() == 0 {
            right.len() == 0 || params_of(right) is Some
        } else {
            right.len() == 0 || (params_of(left) is Some && params_of(right) is Some)
        },
        None => true,
    }
}

fn has_space(s: &[char]) -> (r: bool)
    ensures
        r == s@.contains(' '),
{
    let mut i: usize = 0;
    while i < s.len()
        invariant
            i <= s@.len(),
            forall|k: int| 0 <= k < i ==> s@[k] != ' ',
        decreases s@.len() - i,
    {
        if s[i] == ' ' {
            assert(s@[i as int] == ' ');
            return true;
        }
        i += 1;
    }
    false
}

impl Call {
    /// Reads the first argument of a parameter list such as `[idc, path, name]`.
    pub fn parse_params(source: &str) -> (r: Option<Arg>)
        ensures
            opt_view(r) == params_of(source@),
    {
        let t = trim(&chars_of(source));
        let (a, _) = read_arg(&t, 0);
        a
    }

    pub(crate) fn params_of_chars(t: &[char]) -> (r: Option<Arg>)
        ensures
            opt_view(r) == params_of(t@),
    {
        let u = trim(t);
        let (a, _) = read_arg(&u, 0);
        a
    }

    /// Reads a call from the wiki: `[[cmd]]`, `[[cmd]] right` or `left [[cmd]] right`.
    /// A call without a space is nular; one without the link, or with text only on
    /// the left of it, is refused.
    pub fn parse(source: &str) -> (r: Result<Call, String>)
        requires
            call_readable(source@),
        ensures
            match r {
                Ok(c) => call_of_text(source@) == Ok::<CallModel, Seq<char>>(c@),
                Err(e) => call_of_text(source@) == Err::<CallModel, Seq<char>>(e@),
            },
    {
        let s = chars_of(source);
        if !has_space(&s) {
            return Ok(Call::Nular);
        }
        let open = ['[', '['];
        let close = [']', ']'];
        assert(open@ =~= seq!['[', '[']);
        assert(close@ =~= seq![']', ']']);
        let (left, rest) = match split_once(&s, open.as_slice()) {
            Some(parts) => parts,
            None => {
                return Err(message("Invalid call: ", &s));
            },
        };
        let right = match split_once(&rest, close.as_slice()) {
            Some((_, right)) => right,
            None => {
                return Err(message("Invalid call: ", &s));
            },
        };
        let left = trim(&left);
        let right = trim(&right);
        if left.len() == 0 {
            if right.len() == 0 {
                Ok(Call::Nular)
            } else {
                match Self::params_of_chars(&right) {
                    Some(a) => Ok(Call::Unary(a)),
                    None => {
                        assert(false);
                        Ok(Call::Nular)
                    },
                }
            }
        } else {
            if right.len() == 0 {
                return Err(message("Invalid call: ", &s));
            }
            match (Self::params_of_chars(&left), Self::params_of_chars(&right)) {
                (Some(a), Some(b)) => Ok(Call::Binary(a, b)),
                _ => {
                    assert(false);
                    Ok(Call::Nular)
                },
            }
        }
    }
}


// ----- when a parameter list reads -----

proof fn lemma_trimmed_end_keeps(x: Seq<char>)
    requires
        x.len() > 0,
        !is_ws(x[0]),
    ensures
        trimmed_end(x).len() > 0,
        trimmed_end(x)[0] == x[0],
    decreases x.len(),
{
    if is_ws(x.last()) {
        assert(x.len() > 1);
        assert(x.drop_last()[0] == x[0]);
        lemma_trimmed_end_keeps(x.drop_last());
    }
}

proof fn lemma_trimmed_first(t: Seq<char>)
    ensures
        trimmed(t).len() > 0 ==> !is_ws(trimmed(t)[0]),
{
    lemma_trimmed_start_shape(t);
    let x = trimmed_start(t);
    lemma_trimmed_end_shape(x);
    if trimmed(t).len() > 0 {
        assert(trimmed(t)[0] == x[0]);
    }
}

/// A parameter list reads as an argument exactly when, once trimmed, it is
/// not empty and does not start with `]` or `,`.
pub proof fn lemma_params_read(t: Seq<char>)
    ensures
        (params_of(t) is Some) == (trimmed(t).len() > 0 && trimmed(t)[0] != ']' && trimmed(t)[0] != ','),
{
    let u = trimmed(t);
    lemma_trimmed_first(t);
    if u.len() > 0 && u[0] != '[' {
        lemma_item_end(u, 0);
        let e = item_end(u, 0);
        if u[0] != ']' && u[0] != ',' {
            assert(e > 0);
            let piece = u.subrange(0, e);
            assert(piece[0] == u[0]);
            assert(trimmed_start(piece) == piece);
            lemma_trimmed_end_keeps(piece);
        } else {
            assert(e == 0);
            assert(u.subrange(0, e) =~= Seq::<char>::empty());
        }
    }
}

} // verus!
