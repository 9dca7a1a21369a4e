//! The lexicographic order of strings (by code point, as `Ord for String` orders them),
//! and sorting by it.

use vstd::prelude::*;
use crate::text::{blank, is_blank, views};

verus! {

/// `a < b` in the lexicographic order of code points.
pub open spec fn lex_lt(a: Seq<char>, b: Seq<char>) -> bool
    decreases a.len(),
{
    if a.len() == 0 {
        b.len() > 0
    } else if b.len() == 0 {
        false
    } else if a[0] != b[0] {
        a[0] < b[0]
    } else {
        lex_lt(a.drop_first(), b.drop_first())
    }
}

pub proof fn lemma_lex_irreflexive(a: Seq<char>)
    ensures
        !lex_lt(a, a),
    decreases a.len(),
{
    if a.len() > 0 {
        lemma_lex_irreflexive(a.drop_first());
    }
}

pub proof fn lemma_lex_transitive(a: Seq<char>, b: Seq<char>, c: Seq<char>)
    requires
        lex_lt(a, b),
        lex_lt(b, c),
    ensures
        lex_lt(a, c),
    decreases a.len(),
{
    if a.len() > 0 && b.len() > 0 && c.len() > 0 {
        if a[0] == b[0] && b[0] == c[0] {
            lemma_lex_transitive(a.drop_first(), b.drop_first(), c.drop_first());
        }
    }
}

pub proof fn lemma_lex_total(a: Seq<char>, b: Seq<char>)
    ensures
        a == b || lex_lt(a, b) || lex_lt(b, a),
    decreases a.len(),
{
    if a.len() > 0 && b.len() > 0 {
        if a[0] == b[0] {
            lemma_lex_total(a.drop_first(), b.drop_first());
            if a.drop_first() == b.drop_first() {
                assert(a =~= b) by {
                    assert(a == seq![a[0]] + a.drop_first());
                    assert(b == seq![b[0]] + b.drop_first());
                }
            }
        }
    } else if a.len() == 0 && b.len() == 0 {
        assert(a =~= b);
    }
}

pub proof fn lemma_lex_asymmetric(a: Seq<char>, b: Seq<char>)
    requires
        lex_lt(a, b),
    ensures
        !lex_lt(b, a),
{
    if lex_lt(b, a) {
        lemma_lex_transitive(a, b, a);
        lemma_lex_irreflexive(a);
    }
}

/// `a < b` for strings.
pub fn str_lt(a: &str, b: &str) -> (r: bool)
    ensures
        r == lex_lt(a@, b@),
{
    let n = a.unicode_len();
    let m = b.unicode_len();
    let mut i: usize = 0;
    assert(a@.skip(0) =~= a@);
    assert(b@.skip(0) =~= b@);
    while i < n && i < m
        invariant
            n == a@.len(),
            m == b@.len(),
            i <= n,
            i <= m,
            lex_lt(a@, b@) == lex_lt(a@.skip(i as int), b@.skip(i as int)),
        decreases n - i,
    {
        let ca = a.get_char(i);
        let cb = b.get_char(i);
        if ca != cb {
            return ca < cb;
        }
        assert(a@.skip(i as int).drop_first() =~= a@.skip(i + 1));
        assert(b@.skip(i as int).drop_first() =~= b@.skip(i + 1));
        i = i + 1;
    }
    i < m && i == n
}

/// Strictly increasing: sorted, with no string twice.
pub open spec fn strictly_sorted(s: Seq<Seq<char>>) -> bool {
    forall|i: int, j: int| 0 <= i < j < s.len() ==> lex_lt(#[trigger] s[i], #[trigger] s[j])
}

/// The non-blank strings of a list, as a set.
pub open spec fn non_blank_set(s: Seq<Seq<char>>) -> Set<Seq<char>> {
    Set::new(|x: Seq<char>| s.contains(x) && !blank(x))
}

/// Drops blank strings, then sorts and removes duplicates.
pub fn sort_and_dedup(values: &mut Vec<String>)
    ensures
        strictly_sorted(views(final(values)@)),
        views(final(values)@).to_set() == non_blank_set(views(old(values)@)),
{
    let mut out: Vec<String> = Vec::new();
    let mut i: usize = 0;
    let ghost input = views(values@);
    while i < values.len()
        invariant
            input == views(values@),
            i <= values@.len(),
            strictly_sorted(views(out@)),
            views(out@).to_set() == non_blank_set(input.subrange(0, i as int)),
        decreases values@.len() - i,
    {
        let ghost prev = views(out@);
        let v = values[i].clone();
        if !is_blank(v.as_str()) {
            insert_sorted_unique(&mut out, v);
        }
        proof {
            let pre = input.subrange(0, i as int);
            let post = input.subrange(0, i + 1 as int);
            assert(post =~= pre.push(input[i as int]));
            let x0 = input[i as int];
            assert forall|x: Seq<char>| post.contains(x) <==> (pre.contains(x) || x == x0) by {
                if post.contains(x) {
                    let j = choose|j: int| 0 <= j < post.len() && post[j] == x;
                    if j < pre.len() {
                        assert(pre[j] == x);
                    }
                }
                if pre.contains(x) {
                    let j = choose|j: int| 0 <= j < pre.len() && pre[j] == x;
                    assert(post[j] == x);
                }
                if x == x0 {
                    assert(post[pre.len() as int] == x);
                }
            }
            assert(non_blank_set(post) =~= if blank(x0) {
                non_blank_set(pre)
            } else {
                non_blank_set(pre).insert(x0)
            });
        }
        i = i + 1;
    }
    assert(input.subrange(0, values@.len() as int) =~= input);
    *values = out;
}

/// Inserts a string into a strictly increasing list, unless it is there already.
pub fn insert_sorted_unique(out: &mut Vec<String>, v: String)
    requires
        strictly_sorted(views(old(out)@)),
    ensures
        strictly_sorted(views(final(out)@)),
        views(final(out)@).to_set() == views(old(out)@).to_set().insert(v@),
{
    let ghost s = views(out@);
    let mut k: usize = 0;
    while k < out.len()
        invariant
            s == views(out@),
            strictly_sorted(s),
            k <= out@.len(),
            forall|j: int| 0 <= j < k ==> lex_lt(#[trigger] s[j], v@),
        ensures
            k <= out@.len(),
            forall|j: int| 0 <= j < k ==> lex_lt(#[trigger] s[j], v@),
            k == out@.len() || !lex_lt(s[k as int], v@),
        decreases out@.len() - k,
    {
        if !str_lt(out[k].as_str(), v.as_str()) {
            break;
        }
        k = k + 1;
    }
    if k < out.len() && out[k] == v {
        assert(s.to_set() =~= s.to_set().insert(v@)) by {
            assert(s[k as int] == v@);
        }
        return;
    }
    proof {
        if k < s.len() {
            lemma_lex_total(s[k as int], v@);
            assert(lex_lt(v@, s[k as int]));
        }
    }
    let ghost vv = v@;
    out.insert(k, v);
    proof {
        let t = views(out@);
        assert(t =~= s.subrange(0, k as int).push(vv) + s.subrange(k as int, s.len() as int));
        assert forall|i: int, j: int| 0 <= i < j < t.len() implies lex_lt(#[trigger] t[i], #[trigger] t[j]) by {
            if j == k {
                assert(t[i] == s[i]);
            } else if i == k {
                assert(t[j] == s[j - 1]);
                if j - 1 > k {
                    lemma_lex_transitive(vv, s[k as int], s[j - 1]);
                }
            } else if i < k && j > k {
                assert(t[i] == s[i]);
                assert(t[j] == s[j - 1]);
            } else if j < k {
                assert(t[i] == s[i] && t[j] == s[j]);
            } else {
                assert(t[i] == s[i - 1] && t[j] == s[j - 1]);
            }
        }
        assert(t.to_set() =~= s.to_set().insert(vv)) by {
            assert forall|x: Seq<char>| t.to_set().contains(x) <==> s.to_set().insert(vv).contains(x) by {
                if t.contains(x) {
                    let i = choose|i: int| 0 <= i < t.len() && t[i] == x;
                    if i < k {
                        assert(s[i] == x);
                    } else if i > k {
                        assert(s[i - 1] == x);
                    }
                }
                if s.contains(x) {
                    let i = choose|i: int| 0 <= i < s.len() && s[i] == x;
                    if i < k {
                        assert(t[i] == x);
                    } else {
                        assert(t[i + 1] == x);
                    }
                }
                if x == vv {
                    assert(t[k as int] == x);
                }
            }
        }
    }
}


/// A strictly increasing list is determined by its elements: two such lists with the
/// same elements are equal. So what `sort_and_dedup` gives depends only on the set of
/// non-blank strings it was given.
pub proof fn lemma_strictly_sorted_unique(a: Seq<Seq<char>>, b: Seq<Seq<char>>)
    requires
        strictly_sorted(a),
        strictly_sorted(b),
        a.to_set() == b.to_set(),
    ensures
        a == b,
    decreases a.len(),
{
    assert forall|x: Seq<char>| a.contains(x) <==> b.contains(x) by {
        assert(a.to_set().contains(x) == a.contains(x));
        assert(b.to_set().contains(x) == b.contains(x));
    }
    if a.len() == 0 {
        if b.len() > 0 {
            assert(b.contains(b[0]));
        }
        assert(a =~= b);
    } else {
        assert(a.contains(a[0]));
        assert(b.len() > 0);
        assert(b.contains(b[0]));
        if a[0] != b[0] {
            let i = choose|i: int| 0 <= i < a.len() && a[i] == b[0];
            let j = choose|j: int| 0 <= j < b.len() && b[j] == a[0];
            assert(lex_lt(a[0], a[i]));
            assert(lex_lt(b[0], b[j]));
            lemma_lex_asymmetric(a[0], b[0]);
        }
        let ta = a.drop_first();
        let tb = b.drop_first();
        assert forall|x: Seq<char>| ta.contains(x) <==> tb.contains(x) by {
            if ta.contains(x) {
                let i = choose|i: int| 0 <= i < ta.len() && ta[i] == x;
                assert(a[i + 1] == x);
                assert(lex_lt(a[0], a[i + 1]));
                lemma_lex_irreflexive(x);
                assert(b.contains(x));
                let j = choose|j: int| 0 <= j < b.len() && b[j] == x;
                assert(j != 0);
                assert(tb[j - 1] == x);
            }
            if tb.contains(x) {
                let i = choose|i: int| 0 <= i < tb.len() && tb[i] == x;
                assert(b[i + 1] == x);
                assert(lex_lt(b[0], b[i + 1]));
                lemma_lex_irreflexive(x);
                assert(a.contains(x));
                let j = choose|j: int| 0 <= j < a.len() && a[j] == x;
                assert(j != 0);
                assert(ta[j - 1] == x);
            }
        }
        assert(ta.to_set() =~= tb.to_set());
        assert forall|i: int, j: int| 0 <= i < j < ta.len() implies lex_lt(#[trigger] ta[i], #[trigger] ta[j]) by {
            assert(ta[i] == a[i + 1] && ta[j] == a[j + 1]);
        }
        assert forall|i: int, j: int| 0 <= i < j < tb.len() implies lex_lt(#[trigger] tb[i], #[trigger] tb[j]) by {
            assert(tb[i] == b[i + 1] && tb[j] == b[j + 1]);
        }
        lemma_strictly_sorted_unique(ta, tb);
        assert(a =~= seq![a[0]] + ta);
        assert(b =~= seq![b[0]] + tb);
    }
}


/// Positions listed so that each comes `before` the next.
pub open spec fn sorted_by(before: spec_fn(int, int) -> bool, o: Seq<usize>) -> bool {
    forall|a: int, b: int| 0 <= a < b < o.len() ==> #[trigger] before(o[a] as int, o[b] as int)
}

/// Two lists of positions, each sorted by the same asymmetric relation and holding
/// the same positions, are the same list.
pub proof fn lemma_sorted_by_unique(before: spec_fn(int, int) -> bool, o1: Seq<usize>, o2: Seq<usize>)
    requires
        forall|x: int, y: int| #[trigger] before(x, y) ==> !before(y, x),
        sorted_by(before, o1),
        sorted_by(before, o2),
        forall|x: usize| o1.contains(x) <==> o2.contains(x),
    ensures
        o1 == o2,
    decreases o1.len(),
{
    if o1.len() == 0 {
        if o2.len() > 0 {
            assert(o2.contains(o2[0]));
        }
        assert(o1 =~= o2);
    } else {
        assert(o1.contains(o1[0]));
        assert(o2.len() > 0);
        assert(o2.contains(o2[0]));
        if o1[0] != o2[0] {
            let b = choose|b: int| 0 <= b < o1.len() && o1[b] == o2[0];
            let c = choose|c: int| 0 <= c < o2.len() && o2[c] == o1[0];
            assert(before(o1[0] as int, o1[b] as int));
            assert(before(o2[0] as int, o2[c] as int));
        }
        let t1 = o1.drop_first();
        let t2 = o2.drop_first();
        assert forall|x: usize| t1.contains(x) <==> t2.contains(x) by {
            if t1.contains(x) {
                let b = choose|b: int| 0 <= b < t1.len() && t1[b] == x;
                assert(o1[b + 1] == x);
                assert(before(o1[0] as int, o1[b + 1] as int));
                assert(o2.contains(x));
                let c = choose|c: int| 0 <= c < o2.len() && o2[c] == x;
                assert(c != 0);
                assert(t2[c - 1] == x);
            }
            if t2.contains(x) {
                let b = choose|b: int| 0 <= b < t2.len() && t2[b] == x;
                assert(o2[b + 1] == x);
                assert(before(o2[0] as int, o2[b + 1] as int));
                assert(o1.contains(x));
                let c = choose|c: int| 0 <= c < o1.len() && o1[c] == x;
                assert(c != 0);
                assert(t1[c - 1] == x);
            }
        }
        assert forall|a: int, b: int| 0 <= a < b < t1.len() implies #[trigger] before(t1[a] as int, t1[b] as int) by {
            assert(t1[a] == o1[a + 1] && t1[b] == o1[b + 1]);
        }
        assert forall|a: int, b: int| 0 <= a < b < t2.len() implies #[trigger] before(t2[a] as int, t2[b] as int) by {
            assert(t2[a] == o2[a + 1] && t2[b] == o2[b + 1]);
        }
        lemma_sorted_by_unique(before, t1, t2);
        assert(o1 =~= seq![o1[0]] + t1);
        assert(o2 =~= seq![o2[0]] + t2);
    }
}

} // verus!
