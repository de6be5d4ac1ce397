//! Association lists read as maps: sequences of (key, value) pairs with
//! distinct keys. The ledger, an operation's per-subscriber statuses, and the
//! operation registry all keep their entries this way.

use vstd::prelude::*;

verus! {

/// The members of a sequence of strings, as a set.
pub open spec fn items_set(s: Seq<Seq<char>>) -> Set<Seq<char>> {
    Set::new(|x: Seq<char>| s.contains(x))
}

/// Members do not repeat.
pub open spec fn items_unique(s: Seq<Seq<char>>) -> bool {
    forall|i: int, j: int| 0 <= i < j < s.len() ==> s[i] != s[j]
}

/// Whether some pair in `s` carries the key `k`.
pub open spec fn kv_has<V>(s: Seq<(Seq<char>, V)>, k: Seq<char>) -> bool {
    exists|i: int| 0 <= i < s.len() && s[i].0 == k
}

/// Keys do not repeat.
pub open spec fn kv_unique<V>(s: Seq<(Seq<char>, V)>) -> bool {
    forall|i: int, j: int| 0 <= i < j < s.len() ==> s[i].0 != s[j].0
}

/// The pairs of `s`, as a map.
pub open spec fn kv_map<V>(s: Seq<(Seq<char>, V)>) -> Map<Seq<char>, V> {
    Map::new(
        |k: Seq<char>| kv_has(s, k),
        |k: Seq<char>| s[choose|i: int| 0 <= i < s.len() && s[i].0 == k].1,
    )
}

/// With distinct keys, the pair at index `i` is what the map gives for its
/// key.
pub proof fn lemma_kv_lookup<V>(s: Seq<(Seq<char>, V)>, i: int)
    requires
        kv_unique(s),
        0 <= i < s.len(),
    ensures
        kv_has(s, s[i].0),
        kv_map(s).dom().contains(s[i].0),
        kv_map(s)[s[i].0] == s[i].1,
{
    let k = s[i].0;
    assert(kv_has(s, k));
    let j = choose|j: int| 0 <= j < s.len() && s[j].0 == k;
    assert(j == i);
}

/// Appending a pair with a fresh key inserts it into the map.
pub proof fn lemma_kv_push<V>(s: Seq<(Seq<char>, V)>, t: Seq<(Seq<char>, V)>, k: Seq<char>, v: V)
    requires
        kv_unique(s),
        !kv_has(s, k),
        t == s.push((k, v)),
    ensures
        kv_unique(t),
        kv_has(t, k),
        kv_map(t) == kv_map(s).insert(k, v),
{
    let n = s.len() as int;
    assert forall|i: int, j: int| 0 <= i < j < t.len() implies t[i].0 != t[j].0 by {
        if j < n {
            assert(t[i] == s[i]);
            assert(t[j] == s[j]);
        } else {
            assert(t[j].0 == k);
            assert(t[i] == s[i]);
            assert(kv_has(s, s[i].0));
        }
    }
    assert(t[n].0 == k);
    let m1 = kv_map(t);
    let m2 = kv_map(s).insert(k, v);
    assert forall|x: Seq<char>| #[trigger] m1.dom().contains(x) implies m2.dom().contains(x)
        && m1[x] == m2[x] by {
        let i = choose|i: int| 0 <= i < t.len() && t[i].0 == x;
        if x == k {
            lemma_kv_lookup(t, n);
        } else {
            assert(i < n);
            assert(s[i].0 == x);
            lemma_kv_lookup(s, i);
            lemma_kv_lookup(t, i);
        }
    }
    assert forall|x: Seq<char>| #[trigger] m2.dom().contains(x) implies m1.dom().contains(x) by {
        if x == k {
            assert(t[n].0 == x);
        } else {
            let i = choose|i: int| 0 <= i < s.len() && s[i].0 == x;
            assert(t[i].0 == x);
        }
    }
    assert(m1 =~= m2);
}

/// Removing the pair at index `i` removes its key from the map.
pub proof fn lemma_kv_remove<V>(s: Seq<(Seq<char>, V)>, t: Seq<(Seq<char>, V)>, i: int)
    requires
        kv_unique(s),
        0 <= i < s.len(),
        t == s.remove(i),
    ensures
        kv_unique(t),
        !kv_has(t, s[i].0),
        kv_map(t) == kv_map(s).remove(s[i].0),
{
    let n = s.len() as int;
    let k0 = s[i].0;
    assert forall|a: int, b: int| 0 <= a < b < t.len() implies t[a].0 != t[b].0 by {
        let a0: int = if a < i { a } else { a + 1 };
        let b0: int = if b < i { b } else { b + 1 };
        assert(t[a] == s[a0]);
        assert(t[b] == s[b0]);
    }
    assert forall|j: int| 0 <= j < t.len() implies t[j].0 != k0 by {
        let j0: int = if j < i { j } else { j + 1 };
        assert(t[j] == s[j0]);
    }
    let m1 = kv_map(t);
    let m2 = kv_map(s).remove(k0);
    assert forall|x: Seq<char>| #[trigger] m1.dom().contains(x) implies m2.dom().contains(x)
        && m1[x] == m2[x] by {
        let j = choose|j: int| 0 <= j < t.len() && t[j].0 == x;
        let j0: int = if j < i { j } else { j + 1 };
        assert(t[j] == s[j0]);
        lemma_kv_lookup(s, j0);
        lemma_kv_lookup(t, j);
    }
    assert forall|x: Seq<char>| #[trigger] m2.dom().contains(x) implies m1.dom().contains(x) by {
        let j0 = choose|j0: int| 0 <= j0 < s.len() && s[j0].0 == x;
        assert(j0 != i);
        let j: int = if j0 < i { j0 } else { j0 - 1 };
        assert(t[j] == s[j0]);
    }
    assert(m1 =~= m2);
}

} // verus!
