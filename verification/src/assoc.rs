//! Association lists kept in strictly increasing key order: the shape in
//! which the INI store holds its sections and its entries.

use vstd::prelude::*;
use crate::text::{str_lt, lemma_str_lt_order, str_less, str_equal};

verus! {

/// The keys of an association list, in order.
pub open spec fn keys_of<W>(s: Seq<(Seq<char>, W)>) -> Seq<Seq<char>> {
    Seq::new(s.len(), |i: int| s[i].0)
}

/// The keys of a list of owned pairs, in order.
pub open spec fn key_views<V>(v: Seq<(String, V)>) -> Seq<Seq<char>> {
    Seq::new(v.len(), |i: int| v[i].0@)
}

/// `ks` is strictly increasing in the order of `String`.
pub open spec fn strictly_sorted(ks: Seq<Seq<char>>) -> bool {
    forall|i: int, j: int| 0 <= i < j < ks.len() ==> str_lt(#[trigger] ks[i], #[trigger] ks[j])
}

/// The keys of `s` are strictly increasing.
pub open spec fn keys_sorted<W>(s: Seq<(Seq<char>, W)>) -> bool {
    strictly_sorted(keys_of(s))
}

/// No two pairs of `s` share a key.
pub open spec fn keys_unique<W>(s: Seq<(Seq<char>, W)>) -> bool {
    forall|i: int, j: int| 0 <= i < s.len() && 0 <= j < s.len() && i != j ==> #[trigger] s[i].0
        != #[trigger] s[j].0
}

/// The map that an association list stands for: each key to the value
/// paired with it.
pub open spec fn assoc_map<W>(s: Seq<(Seq<char>, W)>) -> Map<Seq<char>, W> {
    Map::new(
        |k: Seq<char>| exists|i: int| 0 <= i < s.len() && s[i].0 == k,
        |k: Seq<char>| s[choose|i: int| 0 <= i < s.len() && s[i].0 == k].1,
    )
}

/// Increasing keys are distinct keys.
pub proof fn lemma_sorted_unique<W>(s: Seq<(Seq<char>, W)>)
    requires
        keys_sorted(s),
    ensures
        keys_unique(s),
{
    assert forall|i: int, j: int|
        0 <= i < s.len() && 0 <= j < s.len() && i != j implies #[trigger] s[i].0
        != #[trigger] s[j].0 by {
        lemma_str_lt_order(s[i].0, s[j].0, s[j].0);
        if i < j {
            assert(str_lt(keys_of(s)[i], keys_of(s)[j]));
        } else {
            assert(str_lt(keys_of(s)[j], keys_of(s)[i]));
        }
    }
}

/// In a list with distinct keys, a key maps to the value paired with it.
pub proof fn lemma_assoc_lookup<W>(s: Seq<(Seq<char>, W)>, j: int)
    requires
        keys_unique(s),
        0 <= j < s.len(),
    ensures
        assoc_map(s).contains_key(s[j].0),
        assoc_map(s)[s[j].0] == s[j].1,
{
    let k = s[j].0;
    assert(exists|i: int| 0 <= i < s.len() && s[i].0 == k);
    let i = choose|i: int| 0 <= i < s.len() && s[i].0 == k;
    assert(i == j);
}

/// A key that no pair holds is not in the map.
pub proof fn lemma_assoc_absent<W>(s: Seq<(Seq<char>, W)>, k: Seq<char>)
    requires
        forall|i: int| 0 <= i < s.len() ==> s[i].0 != k,
    ensures
        !assoc_map(s).contains_key(k),
{
}

/// Replacing the value of the pair at `i` replaces the value of its key.
pub proof fn lemma_assoc_update<W>(s: Seq<(Seq<char>, W)>, i: int, w: W)
    requires
        keys_unique(s),
        0 <= i < s.len(),
    ensures
        keys_unique(s.update(i, (s[i].0, w))),
        keys_of(s.update(i, (s[i].0, w))) == keys_of(s),
        assoc_map(s.update(i, (s[i].0, w))) == assoc_map(s).insert(s[i].0, w),
{
    let t = s.update(i, (s[i].0, w));
    assert(keys_of(t) =~= keys_of(s));
    assert forall|x: Seq<char>| #[trigger] assoc_map(t).contains_key(x) == assoc_map(s).insert(
        s[i].0,
        w,
    ).contains_key(x) by {
        if assoc_map(s).contains_key(x) {
            let j = choose|j: int| 0 <= j < s.len() && s[j].0 == x;
            assert(t[j].0 == x);
        }
        if assoc_map(t).contains_key(x) {
            let j = choose|j: int| 0 <= j < t.len() && t[j].0 == x;
            assert(s[j].0 == x);
        }
    }
    assert forall|x: Seq<char>| #[trigger] assoc_map(t).contains_key(x) implies assoc_map(t)[x]
        == assoc_map(s).insert(s[i].0, w)[x] by {
        let j = choose|j: int| 0 <= j < t.len() && t[j].0 == x;
        lemma_assoc_lookup(t, j);
        lemma_assoc_lookup(s, j);
    }
    assert(assoc_map(t) =~= assoc_map(s).insert(s[i].0, w));
}

/// Inserting a pair with a new key anywhere adds that key to the map.
pub proof fn lemma_assoc_insert<W>(s: Seq<(Seq<char>, W)>, p: int, k: Seq<char>, w: W)
    requires
        keys_unique(s),
        0 <= p <= s.len(),
        forall|i: int| 0 <= i < s.len() ==> s[i].0 != k,
    ensures
        keys_unique(s.insert(p, (k, w))),
        keys_of(s.insert(p, (k, w))) == keys_of(s).insert(p, k),
        assoc_map(s.insert(p, (k, w))) == assoc_map(s).insert(k, w),
{
    let t = s.insert(p, (k, w));
    assert(keys_of(t) =~= keys_of(s).insert(p, k));
    assert forall|a: int, b: int|
        0 <= a < t.len() && 0 <= b < t.len() && a != b implies #[trigger] t[a].0
        != #[trigger] t[b].0 by {
        let a0 = if a < p { a } else { a - 1 };
        let b0 = if b < p { b } else { b - 1 };
        if a != p && b != p {
            assert(t[a] == s[a0] && t[b] == s[b0]);
        } else if a == p {
            assert(t[b] == s[b0]);
        } else {
            assert(t[a] == s[a0]);
        }
    }
    assert forall|x: Seq<char>| #[trigger] assoc_map(t).contains_key(x) == assoc_map(s).insert(
        k,
        w,
    ).contains_key(x) by {
        if assoc_map(s).contains_key(x) {
            let j = choose|j: int| 0 <= j < s.len() && s[j].0 == x;
            if j < p {
                assert(t[j].0 == x);
            } else {
                assert(t[j + 1].0 == x);
            }
        }
        if x == k {
            assert(t[p].0 == x);
        }
        if assoc_map(t).contains_key(x) {
            let j = choose|j: int| 0 <= j < t.len() && t[j].0 == x;
            if j < p {
                assert(s[j].0 == x);
            } else if j > p {
                assert(s[j - 1].0 == x);
            }
        }
    }
    assert forall|x: Seq<char>| #[trigger] assoc_map(t).contains_key(x) implies assoc_map(t)[x]
        == assoc_map(s).insert(k, w)[x] by {
        let j = choose|j: int| 0 <= j < t.len() && t[j].0 == x;
        lemma_assoc_lookup(t, j);
        if j < p {
            lemma_assoc_lookup(s, j);
        } else if j > p {
            lemma_assoc_lookup(s, j - 1);
        }
    }
    assert(assoc_map(t) =~= assoc_map(s).insert(k, w));
}

/// Removing the pair at `i` removes its key from the map.
pub proof fn lemma_assoc_remove<W>(s: Seq<(Seq<char>, W)>, i: int)
    requires
        keys_unique(s),
        0 <= i < s.len(),
    ensures
        keys_unique(s.remove(i)),
        keys_of(s.remove(i)) == keys_of(s).remove(i),
        assoc_map(s.remove(i)) == assoc_map(s).remove(s[i].0),
{
    let t = s.remove(i);
    assert(keys_of(t) =~= keys_of(s).remove(i));
    assert forall|a: int, b: int|
        0 <= a < t.len() && 0 <= b < t.len() && a != b implies #[trigger] t[a].0
        != #[trigger] t[b].0 by {
        let a0 = if a < i { a } else { a + 1 };
        let b0 = if b < i { b } else { b + 1 };
        assert(t[a] == s[a0] && t[b] == s[b0]);
    }
    assert forall|x: Seq<char>| #[trigger] assoc_map(t).contains_key(x) == assoc_map(s).remove(
        s[i].0,
    ).contains_key(x) by {
        if assoc_map(s).contains_key(x) && x != s[i].0 {
            let j = choose|j: int| 0 <= j < s.len() && s[j].0 == x;
            if j < i {
                assert(t[j].0 == x);
            } else {
                assert(t[j - 1].0 == x);
            }
        }
        if assoc_map(t).contains_key(x) {
            let j = choose|j: int| 0 <= j < t.len() && t[j].0 == x;
            let j0 = if j < i { j } else { j + 1 };
            assert(s[j0].0 == x);
        }
    }
    assert forall|x: Seq<char>| #[trigger] assoc_map(t).contains_key(x) implies assoc_map(t)[x]
        == assoc_map(s).remove(s[i].0)[x] by {
        let j = choose|j: int| 0 <= j < t.len() && t[j].0 == x;
        lemma_assoc_lookup(t, j);
        lemma_assoc_lookup(s, if j < i { j } else { j + 1 });
    }
    assert(assoc_map(t) =~= assoc_map(s).remove(s[i].0));
}

/// Where `k` stands among the strictly increasing keys of `v`: `Ok(i)` when
/// `v[i]` holds it, else `Err(p)` with every key before `p` below `k` and
/// every key from `p` on above it.
pub fn find_key<V>(v: &Vec<(String, V)>, k: &str) -> (r: Result<usize, usize>)
    requires
        strictly_sorted(key_views(v@)),
    ensures
        match r {
            Ok(i) => i < v@.len() && v@[i as int].0@ == k@,
            Err(p) => p <= v@.len() && (forall|j: int| 0 <= j < p ==> str_lt(#[trigger] v@[j].0@, k@))
                && (forall|j: int| p <= j < v@.len() ==> str_lt(k@, #[trigger] v@[j].0@)),
        },
{
    let n = v.len();
    for i in 0..n
        invariant
            n == v@.len(),
            strictly_sorted(key_views(v@)),
            forall|j: int| 0 <= j < i ==> str_lt(#[trigger] v@[j].0@, k@),
    {
        if !str_less(v[i].0.as_str(), k) {
            if str_equal(v[i].0.as_str(), k) {
                return Ok(i);
            }
            proof {
                lemma_str_lt_order(k@, v@[i as int].0@, v@[i as int].0@);
                assert forall|j: int| i <= j < v@.len() implies str_lt(k@, #[trigger] v@[j].0@) by {
                    if j > i {
                        assert(str_lt(key_views(v@)[i as int], key_views(v@)[j]));
                        lemma_str_lt_order(k@, v@[i as int].0@, v@[j].0@);
                    }
                }
            }
            return Err(i);
        }
    }
    Err(n)
}


/// Putting `k` between the keys below it and those above it keeps the
/// order strict.
pub proof fn lemma_sorted_insert(ks: Seq<Seq<char>>, p: int, k: Seq<char>)
    requires
        strictly_sorted(ks),
        0 <= p <= ks.len(),
        forall|j: int| 0 <= j < p ==> str_lt(#[trigger] ks[j], k),
        forall|j: int| p <= j < ks.len() ==> str_lt(k, #[trigger] ks[j]),
    ensures
        strictly_sorted(ks.insert(p, k)),
{
    let t = ks.insert(p, k);
    assert forall|a: int, b: int| 0 <= a < b < t.len() implies str_lt(#[trigger] t[a], #[trigger] t[b]) by {
        if a < p && b < p {
            assert(t[a] == ks[a] && t[b] == ks[b]);
        } else if a < p && b == p {
            assert(t[a] == ks[a]);
        } else if a < p {
            assert(t[a] == ks[a] && t[b] == ks[b - 1]);
            lemma_str_lt_order(ks[a], k, ks[b - 1]);
        } else if a == p {
            assert(t[b] == ks[b - 1]);
        } else {
            assert(t[a] == ks[a - 1] && t[b] == ks[b - 1]);
        }
    }
}

/// Taking a key out keeps the order strict.
pub proof fn lemma_sorted_remove(ks: Seq<Seq<char>>, i: int)
    requires
        strictly_sorted(ks),
        0 <= i < ks.len(),
    ensures
        strictly_sorted(ks.remove(i)),
{
    let t = ks.remove(i);
    assert forall|a: int, b: int| 0 <= a < b < t.len() implies str_lt(#[trigger] t[a], #[trigger] t[b]) by {
        let a0 = if a < i { a } else { a + 1 };
        let b0 = if b < i { b } else { b + 1 };
        assert(t[a] == ks[a0] && t[b] == ks[b0]);
    }
}


/// Two strictly increasing key sequences with the same members are equal.
pub proof fn lemma_sorted_determined(a: Seq<Seq<char>>, b: Seq<Seq<char>>)
    requires
        strictly_sorted(a),
        strictly_sorted(b),
        forall|x: Seq<char>| a.contains(x) <==> b.contains(x),
    ensures
        a == b,
    decreases a.len(),
{
    if a.len() == 0 {
        if b.len() > 0 {
            assert(b.contains(b[0]));
        }
        assert(a =~= b);
    } else {
        assert(a.contains(a[0]));
        assert(b.len() > 0);
        assert(b.contains(b[0]));
        let j = choose|j: int| 0 <= j < b.len() && b[j] == a[0];
        let i = choose|i: int| 0 <= i < a.len() && a[i] == b[0];
        if j != 0 {
            assert(str_lt(b[0], b[j]));
            if i == 0 {
                lemma_str_lt_order(b[0], b[0], b[0]);
            } else {
                assert(str_lt(a[0], a[i]));
                lemma_str_lt_order(a[0], b[0], a[0]);
                lemma_str_lt_order(a[0], a[0], a[0]);
            }
        }
        let a1 = a.drop_first();
        let b1 = b.drop_first();
        assert forall|x: Seq<char>| a1.contains(x) <==> b1.contains(x) by {
            if a1.contains(x) {
                let t = choose|t: int| 0 <= t < a1.len() && a1[t] == x;
                assert(a[t + 1] == x);
                assert(str_lt(a[0], a[t + 1]));
                lemma_str_lt_order(x, x, x);
                assert(b.contains(x));
                let u = choose|u: int| 0 <= u < b.len() && b[u] == x;
                assert(u != 0);
                assert(b1[u - 1] == x);
            }
            if b1.contains(x) {
                let t = choose|t: int| 0 <= t < b1.len() && b1[t] == x;
                assert(b[t + 1] == x);
                assert(str_lt(b[0], b[t + 1]));
                lemma_str_lt_order(x, x, x);
                assert(a.contains(x));
                let u = choose|u: int| 0 <= u < a.len() && a[u] == x;
                assert(u != 0);
                assert(a1[u - 1] == x);
            }
        }
        assert forall|p: int, q: int| 0 <= p < q < a1.len() implies str_lt(#[trigger] a1[p], #[trigger] a1[q]) by {
            assert(a1[p] == a[p + 1] && a1[q] == a[q + 1]);
        }
        assert forall|p: int, q: int| 0 <= p < q < b1.len() implies str_lt(#[trigger] b1[p], #[trigger] b1[q]) by {
            assert(b1[p] == b[p + 1] && b1[q] == b[q + 1]);
        }
        lemma_sorted_determined(a1, b1);
        assert(a =~= b) by {
            assert forall|t: int| 0 <= t < a.len() implies a[t] == b[t] by {
                if t > 0 {
                    assert(a[t] == a1[t - 1] && b[t] == b1[t - 1]);
                }
            }
        }
    }
}

/// Two association lists in strict key order that stand for the same map
/// are equal.
pub proof fn lemma_assoc_determined<W>(s: Seq<(Seq<char>, W)>, t: Seq<(Seq<char>, W)>)
    requires
        keys_sorted(s),
        keys_sorted(t),
        assoc_map(s) == assoc_map(t),
    ensures
        s == t,
{
    lemma_sorted_unique(s);
    lemma_sorted_unique(t);
    assert forall|x: Seq<char>| keys_of(s).contains(x) <==> keys_of(t).contains(x) by {
        if keys_of(s).contains(x) {
            let i = choose|i: int| 0 <= i < keys_of(s).len() && keys_of(s)[i] == x;
            lemma_assoc_lookup(s, i);
            assert(assoc_map(t).contains_key(x));
            let j = choose|j: int| 0 <= j < t.len() && t[j].0 == x;
            assert(keys_of(t)[j] == x);
        }
        if keys_of(t).contains(x) {
            let i = choose|i: int| 0 <= i < keys_of(t).len() && keys_of(t)[i] == x;
            lemma_assoc_lookup(t, i);
            assert(assoc_map(s).contains_key(x));
            let j = choose|j: int| 0 <= j < s.len() && s[j].0 == x;
            assert(keys_of(s)[j] == x);
        }
    }
    lemma_sorted_determined(keys_of(s), keys_of(t));
    assert forall|i: int| 0 <= i < s.len() implies s[i] == t[i] by {
        assert(keys_of(s)[i] == keys_of(t)[i]);
        lemma_assoc_lookup(s, i);
        lemma_assoc_lookup(t, i);
    }
    assert(s =~= t);
}

} // verus!
