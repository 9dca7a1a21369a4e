//! Which scene-collection backups to delete so that only the newest are kept.

use vstd::prelude::*;
use crate::order::{lex_lt, sort_and_dedup, strictly_sorted};
use crate::text::{starts_with, views};

verus! {

/// A backup file: `scene-collection-` … `.json`.
pub open spec fn is_backup_name(name: Seq<char>) -> bool {
    &&& "scene-collection-"@.len() <= name.len()
    &&& name.subrange(0, "scene-collection-"@.len() as int) == "scene-collection-"@
    &&& ".json"@.len() <= name.len()
    &&& name.subrange(name.len() - ".json"@.len(), name.len() as int) == ".json"@
}

fn ends_with(s: &str, suffix: &str) -> (r: bool)
    ensures
        r == (suffix@.len() <= s@.len() && s@.subrange(s@.len() - suffix@.len(), s@.len() as int) == suffix@),
{
    let n = s.unicode_len();
    let m = suffix.unicode_len();
    if m > n {
        return false;
    }
    let mut i: usize = 0;
    while i < m
        invariant
            n == s@.len(),
            m == suffix@.len(),
            m <= n,
            i <= m,
            forall|j: int| 0 <= j < i ==> s@[n - m + j] == suffix@[j],
        decreases m - i,
    {
        if s.get_char(n - m + i) != suffix.get_char(i) {
            assert(s@.subrange(n - m, n as int)[i as int] != suffix@[i as int]);
            return false;
        }
        i = i + 1;
    }
    assert(s@.subrange(n - m, n as int) =~= suffix@);
    true
}

/// The backups among the file names, as a set.
pub open spec fn backup_set(names: Seq<Seq<char>>) -> Set<Seq<char>> {
    Set::new(|x: Seq<char>| names.contains(x) && is_backup_name(x))
}

/// The backups among the file names, in their order.
pub open spec fn backup_names(names: Seq<Seq<char>>) -> Seq<Seq<char>>
    decreases names.len(),
{
    if names.len() == 0 {
        seq![]
    } else if is_backup_name(names.last()) {
        backup_names(names.drop_last()).push(names.last())
    } else {
        backup_names(names.drop_last())
    }
}

proof fn lemma_backup_names_contains(names: Seq<Seq<char>>, x: Seq<char>)
    ensures
        backup_names(names).contains(x) <==> (names.contains(x) && is_backup_name(x)),
    decreases names.len(),
{
    if names.len() == 0 {
        assert(backup_names(names) =~= Seq::<Seq<char>>::empty());
    } else {
        let rest = names.drop_last();
        let last = names.last();
        lemma_backup_names_contains(rest, x);
        let b = backup_names(rest);
        if names.contains(x) {
            let k = choose|k: int| 0 <= k < names.len() && names[k] == x;
            if k < rest.len() {
                assert(rest[k] == x);
            } else {
                assert(x == last);
            }
        }
        if rest.contains(x) {
            let k = choose|k: int| 0 <= k < rest.len() && rest[k] == x;
            assert(names[k] == x);
        }
        if x == last {
            assert(names[names.len() - 1] == x);
        }
        if is_backup_name(last) {
            let t = b.push(last);
            assert(backup_names(names) == t);
            if t.contains(x) {
                let k = choose|k: int| 0 <= k < t.len() && t[k] == x;
                if k < b.len() {
                    assert(b[k] == x);
                }
            }
            if b.contains(x) {
                let k = choose|k: int| 0 <= k < b.len() && b[k] == x;
                assert(t[k] == x);
            }
            if x == last {
                assert(t[b.len() as int] == x);
            }
        } else {
            assert(backup_names(names) == b);
        }
    }
}

/// The backups to delete: the oldest ones, in name order, leaving the `keep` newest.
/// File names in one directory are distinct, so each backup is counted once.
pub fn backups_to_prune(names: &Vec<String>, keep: usize) -> (r: Vec<String>)
    ensures
        strictly_sorted(views(r@)),
        views(r@).to_set().subset_of(backup_set(views(names@))),
        r@.len() == (if backup_set(views(names@)).len() > keep { backup_set(views(names@)).len() - keep } else { 0 }),
        forall|i: int, x: Seq<char>| 0 <= i < r@.len() && backup_set(views(names@)).contains(x) && !views(
            r@,
        ).contains(x) ==> #[trigger] lex_lt(views(r@)[i], x),
{
    let mut backups: Vec<String> = Vec::new();
    let mut i: usize = 0;
    while i < names.len()
        invariant
            i <= names@.len(),
            views(backups@) == backup_names(views(names@).subrange(0, i as int)),
        decreases names@.len() - i,
    {
        let ghost before = views(backups@);
        let name = &names[i];
        proof {
            assert(views(names@).subrange(0, i + 1 as int).drop_last() =~= views(names@).subrange(0, i as int));
        }
        let is_backup = starts_with(name.as_str(), "scene-collection-") && ends_with(name.as_str(), ".json");
        assert(is_backup == is_backup_name(name@));
        if is_backup {
            backups.push(name.clone());
            proof {
                assert(views(backups@) =~= before.push(name@));
            }
        }
        i = i + 1;
    }
    assert(views(names@).subrange(0, names@.len() as int) =~= views(names@));
    let ghost all = backup_set(views(names@));
    let ghost unsorted = views(backups@);
    sort_and_dedup(&mut backups);
    let ghost sorted = views(backups@);
    proof {
        assert(crate::order::non_blank_set(unsorted) =~= all) by {
            assert(unsorted == backup_names(views(names@)));
            assert forall|x: Seq<char>| crate::order::non_blank_set(unsorted).contains(x) <==> all.contains(x) by {
                lemma_backup_names_contains(views(names@), x);
                if is_backup_name(x) {
                    reveal_strlit("scene-collection-");
                    assert(x.subrange(0, 17)[0] == 's');
                    assert(!crate::text::is_ws(x[0]));
                }
            }
            reveal_strlit("scene-collection-");
            assert forall|x: Seq<char>| #[trigger] all.contains(x) implies !crate::text::blank(x) by {
                assert(x.subrange(0, 17)[0] == 's');
                assert(x[0] == 's');
                assert(!crate::text::is_ws(x[0]));
            }
        }
        lemma_sorted_len(sorted);
    }
    let n = backups.len();
    let remove: usize = if n > keep { n - keep } else { 0 };
    let mut out: Vec<String> = Vec::new();
    let mut k: usize = 0;
    while k < remove
        invariant
            remove <= n,
            n == backups@.len(),
            sorted == views(backups@),
            k <= remove,
            views(out@) == sorted.subrange(0, k as int),
        decreases remove - k,
    {
        let ghost before = views(out@);
        let item = backups[k].clone();
        assert(item@ == sorted[k as int]);
        out.push(item);
        assert(views(out@) =~= before.push(sorted[k as int]));
        k = k + 1;
        assert(views(out@) =~= sorted.subrange(0, k as int));
    }
    proof {
        let taken = sorted.subrange(0, remove as int);
        assert(views(out@) == taken);
        assert forall|a: int, b: int| 0 <= a < b < taken.len() implies lex_lt(#[trigger] taken[a], #[trigger] taken[b]) by {
            assert(taken[a] == sorted[a] && taken[b] == sorted[b]);
        }
        assert forall|x: Seq<char>| taken.to_set().contains(x) implies all.contains(x) by {
            let j = choose|j: int| 0 <= j < taken.len() && taken[j] == x;
            assert(sorted[j] == x);
            assert(sorted.to_set().contains(x));
        }
        assert forall|i: int, x: Seq<char>| 0 <= i < taken.len() && all.contains(x) && !taken.contains(x) implies #[trigger] lex_lt(
            taken[i],
            x,
        ) by {
            assert(sorted.to_set().contains(x));
            let j = choose|j: int| 0 <= j < sorted.len() && sorted[j] == x;
            if j < remove {
                assert(taken[j] == x);
            }
            assert(taken[i] == sorted[i]);
        }
    }
    out
}

/// A strictly sorted sequence has as many elements as its set.
proof fn lemma_sorted_len(s: Seq<Seq<char>>)
    requires
        strictly_sorted(s),
    ensures
        s.to_set().len() == s.len(),
{
    assert forall|i: int, j: int| 0 <= i < s.len() && 0 <= j < s.len() && i != j implies s[i] != s[j] by {
        if i < j {
            crate::order::lemma_lex_irreflexive(s[i]);
        } else {
            crate::order::lemma_lex_irreflexive(s[j]);
        }
    }
    assert(s.no_duplicates());
    s.unique_seq_to_set();
}

} // verus!
