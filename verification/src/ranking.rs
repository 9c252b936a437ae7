//! Counting how often each name occurs, the most frequent first.
use vstd::prelude::*;

use crate::text::{less, order_is_total, order_is_transitive, precedes, texts};

verus! {

/// How often a name occurs in a list.
pub open spec fn occurrences(names: Seq<Seq<char>>, name: Seq<char>) -> nat
    decreases names.len(),
{
    if names.len() == 0 {
        0
    } else {
        occurrences(names.drop_last(), name) + if names.last() == name {
            1nat
        } else {
            0nat
        }
    }
}

/// Whether an entry, a name with its count, stands before another: the larger
/// count first, equal counts in the order of the names.
pub open spec fn ranks_before(a: (Seq<char>, nat), b: (Seq<char>, nat)) -> bool {
    a.1 > b.1 || (a.1 == b.1 && precedes(a.0, b.0))
}

/// Whether every entry stands before all that follow it.
pub open spec fn is_ranked(r: Seq<(Seq<char>, nat)>) -> bool {
    forall|i: int, j: int| 0 <= i < j < r.len() ==> ranks_before(#[trigger] r[i], #[trigger] r[j])
}

/// Whether some entry is for the given name.
pub open spec fn lists(r: Seq<(Seq<char>, nat)>, name: Seq<char>) -> bool {
    exists|i: int| 0 <= i < r.len() && (#[trigger] r[i]).0 == name
}

/// Whether `r` lists each name of `names` once, with its count, in rank order.
pub open spec fn is_ranking(r: Seq<(Seq<char>, nat)>, names: Seq<Seq<char>>) -> bool {
    &&& is_ranked(r)
    &&& forall|i: int|
        0 <= i < r.len() ==> (#[trigger] r[i]).1 > 0 && r[i].1 == occurrences(names, r[i].0)
    &&& forall|k: int|
        0 <= k < names.len() ==> lists(r, #[trigger] names[k])
}

/// The ranking of a list of names.
pub open spec fn ranking(names: Seq<Seq<char>>) -> Seq<(Seq<char>, nat)> {
    choose|r: Seq<(Seq<char>, nat)>| is_ranking(r, names)
}

/// A list of exec entries as a sequence of mathematical ones.
pub open spec fn entries(v: Seq<(String, usize)>) -> Seq<(Seq<char>, nat)> {
    v.map_values(|e: (String, usize)| (e.0@, e.1 as nat))
}

/// What occurs in a list occurs at some place in it.
pub proof fn occurring_is_listed(names: Seq<Seq<char>>, name: Seq<char>) -> (k: int)
    requires
        occurrences(names, name) > 0,
    ensures
        0 <= k < names.len(),
        names[k] == name,
    decreases names.len(),
{
    if names.last() == name {
        names.len() - 1
    } else {
        let k = occurring_is_listed(names.drop_last(), name);
        k
    }
}

/// Appending a name raises its own count by one and no other.
proof fn occurrences_push(names: Seq<Seq<char>>, x: Seq<char>, name: Seq<char>)
    ensures
        occurrences(names.push(x), name) == occurrences(names, name) + if x == name {
            1nat
        } else {
            0nat
        },
{
    assert(names.push(x).drop_last() == names);
}

proof fn rank_is_total(a: (Seq<char>, nat), b: (Seq<char>, nat))
    requires
        a.0 != b.0,
    ensures
        ranks_before(a, b) != ranks_before(b, a),
{
    order_is_total(a.0, b.0);
}

proof fn rank_is_transitive(a: (Seq<char>, nat), b: (Seq<char>, nat), c: (Seq<char>, nat))
    requires
        ranks_before(a, b),
        ranks_before(b, c),
    ensures
        ranks_before(a, c),
{
    if a.1 == b.1 && b.1 == c.1 {
        order_is_transitive(a.0, b.0, c.0);
    }
}

/// The place of an entry of one ranking in another of the same names.
proof fn entry_in_other(
    r: Seq<(Seq<char>, nat)>,
    s: Seq<(Seq<char>, nat)>,
    names: Seq<Seq<char>>,
    i: int,
) -> (j: int)
    requires
        is_ranking(r, names),
        is_ranking(s, names),
        0 <= i < r.len(),
    ensures
        0 <= j < s.len(),
        s[j] == r[i],
{
    let k = occurring_is_listed(names, r[i].0);
    assert(lists(s, names[k]));
    let j = choose|j: int| 0 <= j < s.len() && (#[trigger] s[j]).0 == names[k];
    assert(s[j].1 == r[i].1);
    j
}

/// Two rankings of the same names agree on their first `n` entries.
proof fn rankings_agree(
    r: Seq<(Seq<char>, nat)>,
    s: Seq<(Seq<char>, nat)>,
    names: Seq<Seq<char>>,
    n: int,
)
    requires
        is_ranking(r, names),
        is_ranking(s, names),
        0 <= n <= r.len(),
    ensures
        n <= s.len(),
        forall|i: int| 0 <= i < n ==> r[i] == s[i],
    decreases n,
{
    if n > 0 {
        let m = n - 1;
        rankings_agree(r, s, names, m);
        let j = entry_in_other(r, s, names, m);
        if j < m {
            assert(r[j] == r[m]);
            assert(ranks_before(r[j], r[m]));
            order_is_total(r[m].0, r[m].0);
        }
        if j > m {
            let i = entry_in_other(s, r, names, m);
            if i < m {
                assert(s[i] == s[m]);
                assert(ranks_before(s[i], s[m]));
                order_is_total(s[m].0, s[m].0);
            }
            if i > m {
                assert(ranks_before(r[m], r[i]));
                assert(ranks_before(s[m], s[j]));
                rank_is_transitive(r[m], r[i], r[m]);
                order_is_total(r[m].0, r[m].0);
            }
        }
    }
}

/// A list of names has one ranking only.
pub proof fn ranking_is_unique(
    r: Seq<(Seq<char>, nat)>,
    s: Seq<(Seq<char>, nat)>,
    names: Seq<Seq<char>>,
)
    requires
        is_ranking(r, names),
        is_ranking(s, names),
    ensures
        r == s,
{
    rankings_agree(r, s, names, r.len() as int);
    rankings_agree(s, r, names, s.len() as int);
}

/// The place of an entry with a new name in a ranked list.
proof fn place(r: Seq<(Seq<char>, nat)>, e: (Seq<char>, nat)) -> (p: int)
    requires
        is_ranked(r),
        !lists(r, e.0),
    ensures
        0 <= p <= r.len(),
        is_ranked(r.insert(p, e)),
    decreases r.len(),
{
    if r.len() == 0 {
        0
    } else {
        let last = r.last();
        let rest = r.drop_last();
        assert(r[r.len() - 1].0 != e.0);
        rank_is_total(e, last);
        if ranks_before(last, e) {
            assert forall|i: int, j: int| 0 <= i < j < r.len() + 1 implies ranks_before(
                #[trigger] r.insert(r.len() as int, e)[i],
                #[trigger] r.insert(r.len() as int, e)[j],
            ) by {
                if j == r.len() && i < r.len() - 1 {
                    assert(ranks_before(r[i], r[r.len() - 1]));
                    rank_is_transitive(r[i], last, e);
                }
            }
            r.len() as int
        } else {
            assert forall|i: int| 0 <= i < rest.len() implies (#[trigger] rest[i]).0 != e.0 by {
                assert(r[i].0 != e.0);
            }
            let p = place(rest, e);
            assert(r.insert(p, e) == rest.insert(p, e).push(last));
            let n = rest.insert(p, e);
            assert forall|i: int| 0 <= i < n.len() implies ranks_before(#[trigger] n[i], last) by {
                if i < p {
                    assert(n[i] == r[i]);
                } else if i > p {
                    assert(n[i] == r[i - 1]);
                }
            }
            assert forall|i: int, j: int| 0 <= i < j < n.len() + 1 implies ranks_before(
                #[trigger] n.push(last)[i],
                #[trigger] n.push(last)[j],
            ) by {
                assert(n.push(last)[i] == n[i]);
                if j < n.len() {
                    assert(n.push(last)[j] == n[j]);
                }
            }
            p
        }
    }
}

/// Whether an entry has the count of its name.
spec fn tells(e: (Seq<char>, nat), names: Seq<Seq<char>>) -> bool {
    e.1 > 0 && e.1 == occurrences(names, e.0)
}

/// A ranking with the entry of one more occurrence of a name put in its place.
proof fn ranking_with(
    r: Seq<(Seq<char>, nat)>,
    names: Seq<Seq<char>>,
    x: Seq<char>,
) -> (s: Seq<(Seq<char>, nat)>)
    requires
        is_ranked(r),
        !lists(r, x),
        forall|i: int| 0 <= i < r.len() ==> tells(#[trigger] r[i], names),
        forall|k: int| 0 <= k < names.len() ==> #[trigger] names[k] == x || lists(r, names[k]),
    ensures
        is_ranking(s, names.push(x)),
{
    let now = names.push(x);
    let e = (x, occurrences(now, x));
    occurrences_push(names, x, x);
    let p = place(r, e);
    let s = r.insert(p, e);
    assert(s[p] == e);
    assert forall|i: int| 0 <= i < s.len() implies (#[trigger] s[i]).1 > 0 && s[i].1 == occurrences(
        now,
        s[i].0,
    ) by {
        if i != p {
            let j = if i < p {
                i
            } else {
                i - 1
            };
            assert(s[i] == r[j]);
            assert(tells(r[j], names));
            occurrences_push(names, x, r[j].0);
        }
    }
    assert forall|k: int| 0 <= k < now.len() implies lists(s, #[trigger] now[k]) by {
        if now[k] == x {
            assert(s[p].0 == now[k]);
        } else {
            assert(names[k] == now[k]);
            let j = choose|j: int| 0 <= j < r.len() && (#[trigger] r[j]).0 == names[k];
            if j < p {
                assert(s[j].0 == now[k]);
            } else {
                assert(s[j + 1].0 == now[k]);
            }
        }
    }
    s
}

/// Every list of names has a ranking.
proof fn some_ranking(names: Seq<Seq<char>>) -> (r: Seq<(Seq<char>, nat)>)
    ensures
        is_ranking(r, names),
    decreases names.len(),
{
    if names.len() == 0 {
        Seq::empty()
    } else {
        let rest = names.drop_last();
        let x = names.last();
        let r = some_ranking(rest);
        assert(names == rest.push(x));
        if lists(r, x) {
            let i = choose|i: int| 0 <= i < r.len() && (#[trigger] r[i]).0 == x;
            let s = r.remove(i);
            assert forall|a: int| 0 <= a < s.len() implies tells(#[trigger] s[a], rest) && s[a].0
                != x by {
                let b = if a < i {
                    a
                } else {
                    a + 1
                };
                assert(s[a] == r[b]);
                if b < i {
                    assert(ranks_before(r[b], r[i]));
                } else {
                    assert(ranks_before(r[i], r[b]));
                }
                if r[b].0 == x {
                    order_is_total(x, x);
                }
            }
            assert forall|a: int, b: int| 0 <= a < b < s.len() implies ranks_before(
                #[trigger] s[a],
                #[trigger] s[b],
            ) by {
                let a0 = if a < i {
                    a
                } else {
                    a + 1
                };
                let b0 = if b < i {
                    b
                } else {
                    b + 1
                };
                assert(s[a] == r[a0] && s[b] == r[b0]);
            }
            assert forall|k: int| 0 <= k < rest.len() implies #[trigger] rest[k] == x || lists(
                s,
                rest[k],
            ) by {
                if rest[k] != x {
                    assert(lists(r, rest[k]));
                    let j = choose|j: int| 0 <= j < r.len() && (#[trigger] r[j]).0 == rest[k];
                    if j < i {
                        assert(s[j].0 == rest[k]);
                    } else {
                        assert(s[j - 1].0 == rest[k]);
                    }
                }
            }
            ranking_with(s, rest, x)
        } else {
            assert forall|a: int| 0 <= a < r.len() implies tells(#[trigger] r[a], rest) by {}
            assert forall|k: int| 0 <= k < rest.len() implies #[trigger] rest[k] == x || lists(
                r,
                rest[k],
            ) by {
                assert(lists(r, rest[k]));
            }
            ranking_with(r, rest, x)
        }
    }
}

/// The ranking of a list of names is one: each name once, with its count, in rank
/// order.
pub proof fn ranking_ranks(names: Seq<Seq<char>>)
    ensures
        is_ranking(ranking(names), names),
{
    let r = some_ranking(names);
    assert(is_ranking(r, names));
}

/// Whether the entry `a` stands before the entry `b`.
fn before(a: &(String, usize), name: &String, count: usize) -> (r: bool)
    ensures
        r == ranks_before((a.0@, a.1 as nat), (name@, count as nat)),
{
    a.1 > count || (a.1 == count && less(a.0.as_str(), name.as_str()))
}

/// The index of a name in a list, or the list's length where it is not in it.
fn find(names: &Vec<String>, name: &String) -> (r: usize)
    ensures
        r <= names.len(),
        r < names.len() ==> names@[r as int]@ == name@,
        forall|j: int| 0 <= j < r ==> (#[trigger] names@[j])@ != name@,
{
    let mut i: usize = 0;
    while i < names.len()
        invariant
            i <= names.len(),
            forall|j: int| 0 <= j < i ==> (#[trigger] names@[j])@ != name@,
        decreases names.len() - i,
    {
        if names[i] == *name {
            return i;
        }
        i += 1;
    }
    i
}

/// Whether a name is in a list.
spec fn holds(found: Seq<String>, name: Seq<char>) -> bool {
    exists|i: int| 0 <= i < found.len() && (#[trigger] found[i])@ == name
}

/// Whether `counts` holds at index `i` how often the name there occurs.
spec fn counted(found: Seq<String>, counts: Seq<usize>, names: Seq<Seq<char>>, i: int) -> bool {
    counts[i] > 0 && counts[i] == occurrences(names, found[i]@)
}

/// Whether `found` holds each name of `names` once and `counts` its count.
spec fn is_census(found: Seq<String>, counts: Seq<usize>, names: Seq<Seq<char>>) -> bool {
    &&& found.len() == counts.len()
    &&& forall|i: int, j: int| 0 <= i < j < found.len() ==> (#[trigger] found[i])@ != (#[trigger] found[j])@
    &&& forall|i: int| 0 <= i < found.len() ==> #[trigger] counted(found, counts, names, i)
    &&& forall|k: int|
        0 <= k < names.len() ==> holds(found, #[trigger] names[k])
}

proof fn occurrences_bound(names: Seq<Seq<char>>, name: Seq<char>)
    ensures
        occurrences(names, name) <= names.len(),
    decreases names.len(),
{
    if names.len() > 0 {
        occurrences_bound(names.drop_last(), name);
    }
}

/// A census after one more occurrence of a name that it holds.
proof fn census_known(
    found: Seq<String>,
    counts: Seq<usize>,
    more: Seq<usize>,
    names: Seq<Seq<char>>,
    name: Seq<char>,
    at: int,
)
    requires
        is_census(found, counts, names),
        0 <= at < found.len(),
        found[at]@ == name,
        more.len() == counts.len(),
        more[at] == counts[at] + 1,
        forall|i: int| 0 <= i < counts.len() && i != at ==> more[i] == counts[i],
    ensures
        is_census(found, more, names.push(name)),
{
    let now = names.push(name);
    assert forall|i: int| 0 <= i < found.len() implies #[trigger] counted(
        found,
        more,
        now,
        i,
    ) by {
        assert(counted(found, counts, names, i));
        occurrences_push(names, name, found[i]@);
        if i < at {
            assert(found[i]@ != found[at]@);
        } else if i > at {
            assert(found[at]@ != found[i]@);
        }
    }
    assert forall|k: int| 0 <= k < now.len() implies holds(found, #[trigger] now[k]) by {
        if k < names.len() {
            assert(holds(found, names[k]));
        } else {
            assert(found[at]@ == now[k]);
        }
    }
}

/// A census after the first occurrence of a name.
proof fn census_new(
    found: Seq<String>,
    counts: Seq<usize>,
    names: Seq<Seq<char>>,
    s: String,
)
    requires
        is_census(found, counts, names),
        !holds(found, s@),
    ensures
        is_census(found.push(s), counts.push(1), names.push(s@)),
{
    let now = names.push(s@);
    let f = found.push(s);
    let c = counts.push(1);
    if occurrences(names, s@) > 0 {
        let k = occurring_is_listed(names, s@);
        assert(holds(found, names[k]));
    }
    assert forall|i: int| 0 <= i < f.len() implies #[trigger] counted(f, c, now, i) by {
        occurrences_push(names, s@, f[i]@);
        if i < found.len() {
            assert(counted(found, counts, names, i));
            assert(f[i] == found[i]);
        }
    }
    assert forall|i: int, j: int| 0 <= i < j < f.len() implies (#[trigger] f[i])@ != (#[trigger] f[j])@ by {
        assert(f[i] == found[i]);
        if j < found.len() {
            assert(f[j] == found[j]);
        }
    }
    assert forall|k: int| 0 <= k < now.len() implies holds(f, #[trigger] now[k]) by {
        if k < names.len() {
            assert(holds(found, names[k]));
            let i = choose|i: int| 0 <= i < found.len() && (#[trigger] found[i])@ == names[k];
            assert(f[i]@ == now[k]);
        } else {
            assert(f[found.len() as int]@ == now[k]);
        }
    }
}

/// Each name of a list once, with its count.
fn census(names: &Vec<String>) -> (r: (Vec<String>, Vec<usize>))
    ensures
        is_census(r.0@, r.1@, texts(names@)),
{
    let mut found: Vec<String> = Vec::new();
    let mut counts: Vec<usize> = Vec::new();
    let mut i: usize = 0;
    while i < names.len()
        invariant
            i <= names.len(),
            is_census(found@, counts@, texts(names@).take(i as int)),
        decreases names.len() - i,
    {
        let name = &names[i];
        let ghost seen = texts(names@).take(i as int);
        let at = find(&found, name);
        assert(texts(names@).take(i + 1) == seen.push(name@));
        if at < found.len() {
            let ghost before = counts@;
            let c: usize = counts[at];
            proof {
                assert(counted(found@, counts@, seen, at as int));
                occurrences_bound(seen, found@[at as int]@);
            }
            counts.set(at, c + 1);
            proof {
                census_known(found@, before, counts@, seen, name@, at as int);
            }
        } else {
            proof {
                census_new(found@, counts@, seen, *name);
            }
            found.push(name.clone());
            counts.push(1);
        }
        i += 1;
    }
    assert(texts(names@).take(names.len() as int) == texts(names@));
    (found, counts)
}

/// Puts an entry with a new name at its place in a ranked list.
fn insert_ranked(out: &mut Vec<(String, usize)>, name: &String, count: usize) -> (p: usize)
    requires
        is_ranked(entries(old(out)@)),
        forall|a: int| 0 <= a < old(out)@.len() ==> (#[trigger] entries(old(out)@)[a]).0 != name@,
    ensures
        p <= old(out)@.len(),
        entries(final(out)@) == entries(old(out)@).insert(p as int, (name@, count as nat)),
        is_ranked(entries(final(out)@)),
{
    let ghost o = entries(out@);
    let ghost e = (name@, count as nat);
    let mut p: usize = 0;
    while p < out.len() && before(&out[p], name, count)
        invariant
            p <= out.len(),
            e == (name@, count as nat),
            o == entries(out@),
            forall|a: int| 0 <= a < p ==> ranks_before(#[trigger] o[a], e),
        decreases out.len() - p,
    {
        assert(o[p as int] == (out@[p as int].0@, out@[p as int].1 as nat));
        p += 1;
    }
    proof {
        assert forall|a: int| p <= a < o.len() implies ranks_before(e, #[trigger] o[a]) by {
            assert(o[p as int] == (out@[p as int].0@, out@[p as int].1 as nat));
            rank_is_total(e, o[p as int]);
            if a > p {
                rank_is_transitive(e, o[p as int], o[a]);
            }
        }
    }
    out.insert(p, (name.clone(), count));
    proof {
        let n = entries(out@);
        assert(n == o.insert(p as int, e));
        assert forall|a: int, b: int| 0 <= a < b < n.len() implies ranks_before(
            #[trigger] n[a],
            #[trigger] n[b],
        ) by {
            let a0 = if a < p { a } else { a - 1 };
            let b0 = if b < p { b } else { b - 1 };
            if a != p {
                assert(n[a] == o[a0]);
            }
            if b != p {
                assert(n[b] == o[b0]);
            }
        }
    }
    p
}

/// The entry for the name at index `k` of a census.
spec fn census_entry(found: Seq<String>, counts: Seq<usize>, k: int) -> (Seq<char>, nat) {
    (found[k]@, counts[k] as nat)
}

/// Whether an entry is one of the first `n` of a census.
spec fn in_census(found: Seq<String>, counts: Seq<usize>, n: int, e: (Seq<char>, nat)) -> bool {
    exists|k: int| 0 <= k < n && #[trigger] census_entry(found, counts, k) == e
}

/// A census in rank order is a ranking.
proof fn ranked_census_is_ranking(
    found: Seq<String>,
    counts: Seq<usize>,
    names: Seq<Seq<char>>,
    r: Seq<(Seq<char>, nat)>,
)
    requires
        is_census(found, counts, names),
        is_ranked(r),
        forall|a: int| 0 <= a < r.len() ==> in_census(found, counts, found.len() as int, #[trigger] r[a]),
        forall|k: int| 0 <= k < found.len() ==> r.contains(#[trigger] census_entry(found, counts, k)),
    ensures
        is_ranking(r, names),
{
    assert forall|i: int| 0 <= i < r.len() implies (#[trigger] r[i]).1 > 0 && r[i].1
        == occurrences(names, r[i].0) by {
        let k = choose|k: int|
            0 <= k < found.len() && #[trigger] census_entry(found, counts, k) == r[i];
        assert(counted(found, counts, names, k));
    }
    assert forall|k: int| 0 <= k < names.len() implies lists(r, #[trigger] names[k]) by {
        assert(holds(found, names[k]));
        let j = choose|j: int| 0 <= j < found.len() && (#[trigger] found[j])@ == names[k];
        assert(r.contains(census_entry(found, counts, j)));
        let i = choose|i: int| 0 <= i < r.len() && r[i] == census_entry(found, counts, j);
        assert(r[i].0 == names[k]);
    }
}

/// Each name of a list once, with its count, the most frequent first and equal
/// counts in the order of the names.
pub fn rank(names: &Vec<String>) -> (r: Vec<(String, usize)>)
    ensures
        is_ranking(entries(r@), texts(names@)),
        entries(r@) == ranking(texts(names@)),
{
    let (found, counts) = census(names);
    let ghost all = texts(names@);
    let mut out: Vec<(String, usize)> = Vec::new();
    let mut i: usize = 0;
    while i < found.len()
        invariant
            i <= found.len(),
            is_census(found@, counts@, all),
            is_ranked(entries(out@)),
            forall|a: int|
                0 <= a < out.len() ==> in_census(found@, counts@, i as int, #[trigger] entries(out@)[a]),
            forall|k: int|
                0 <= k < i ==> entries(out@).contains(#[trigger] census_entry(found@, counts@, k)),
        decreases found.len() - i,
    {
        let ghost o = entries(out@);
        let ghost e = census_entry(found@, counts@, i as int);
        proof {
            assert forall|a: int| 0 <= a < o.len() implies (#[trigger] o[a]).0 != e.0 by {
                let k = choose|k: int|
                    0 <= k < i && #[trigger] census_entry(found@, counts@, k) == o[a];
                assert(found@[k]@ != found@[i as int]@);
            }
        }
        let p = insert_ranked(&mut out, &found[i], counts[i]);
        proof {
            let n = entries(out@);
            assert forall|a: int| 0 <= a < n.len() implies in_census(
                found@,
                counts@,
                i + 1,
                #[trigger] n[a],
            ) by {
                if a == p {
                    assert(census_entry(found@, counts@, i as int) == n[a]);
                } else {
                    let a0 = if a < p { a } else { a - 1 };
                    assert(n[a] == o[a0]);
                    let k = choose|k: int|
                        0 <= k < i && #[trigger] census_entry(found@, counts@, k) == o[a0];
                    assert(census_entry(found@, counts@, k) == n[a]);
                }
            }
            assert forall|k: int| 0 <= k < i + 1 implies n.contains(
                #[trigger] census_entry(found@, counts@, k),
            ) by {
                if k == i {
                    assert(n[p as int] == census_entry(found@, counts@, k));
                } else {
                    let a = choose|a: int|
                        0 <= a < o.len() && o[a] == census_entry(found@, counts@, k);
                    let b = if a < p { a } else { a + 1 };
                    assert(n[b] == o[a]);
                }
            }
        }
        i += 1;
    }
    proof {
        ranked_census_is_ranking(found@, counts@, all, entries(out@));
        ranking_is_unique(entries(out@), ranking(all), all);
    }
    out
}

/// How often a name occurs is how many places of the list hold it.
pub proof fn occurrences_count_places(names: Seq<Seq<char>>, name: Seq<char>)
    ensures
        occurrences(names, name) == names.filter(|x: Seq<char>| x == name).len(),
    decreases names.len(),
{
    reveal(Seq::filter);
    if names.len() > 0 {
        occurrences_count_places(names.drop_last(), name);
    }
}

/// A ranking tells of each of its names how many places of the list hold it, and
/// holds no name that none does.
pub proof fn ranking_counts_places(names: Seq<Seq<char>>, i: int)
    requires
        0 <= i < ranking(names).len(),
    ensures
        ({
            let name = ranking(names)[i].0;
            &&& ranking(names)[i].1 == names.filter(|x: Seq<char>| x == name).len()
            &&& names.contains(name)
        }),
{
    ranking_ranks(names);
    let name = ranking(names)[i].0;
    occurrences_count_places(names, name);
    let k = occurring_is_listed(names, name);
    assert(names[k] == name);
}

/// In a ranking the more frequent names come first, and equally frequent ones in
/// their order, so that none comes twice.
pub proof fn ranking_is_by_count_and_name(names: Seq<Seq<char>>, i: int, j: int)
    requires
        0 <= i < j < ranking(names).len(),
    ensures
        ranking(names)[i].1 > ranking(names)[j].1 || ranking(names)[i].1 == ranking(names)[j].1
            && precedes(ranking(names)[i].0, ranking(names)[j].0),
{
    ranking_ranks(names);
    assert(ranks_before(ranking(names)[i], ranking(names)[j]));
}

/// No name of the list is missing in its ranking.
pub proof fn ranking_misses_none(names: Seq<Seq<char>>, k: int)
    requires
        0 <= k < names.len(),
    ensures
        exists|i: int|
            0 <= i < ranking(names).len() && (#[trigger] ranking(names)[i]).0 == names[k],
{
    ranking_ranks(names);
    assert(lists(ranking(names), names[k]));
}

} // verus!
