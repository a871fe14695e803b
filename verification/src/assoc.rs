//! Association lists: sequences of key/value pairs where the first entry
//! for a key is the one in force.

use vstd::prelude::*;

verus! {

/// Position of the first entry with key `k`.
pub open spec fn assoc_index<K, V>(s: Seq<(K, V)>, k: K) -> Option<int>
    decreases s.len(),
{
    if s.len() == 0 {
        None
    } else {
        match assoc_index(s.drop_last(), k) {
            Some(i) => Some(i),
            None => if s.last().0 == k {
                Some(s.len() - 1)
            } else {
                None
            },
        }
    }
}

/// The value of the first entry with key `k`.
pub open spec fn assoc_get<K, V>(s: Seq<(K, V)>, k: K) -> Option<V> {
    match assoc_index(s, k) {
        Some(i) => Some(s[i].1),
        None => None,
    }
}

/// What `assoc_index` finds: the first matching position, or none at all.
pub proof fn lemma_assoc_index<K, V>(s: Seq<(K, V)>, k: K)
    ensures
        match assoc_index(s, k) {
            Some(i) => 0 <= i < s.len() && s[i].0 == k && forall|j: int|
                0 <= j < i ==> #[trigger] s[j].0 != k,
            None => forall|j: int| 0 <= j < s.len() ==> #[trigger] s[j].0 != k,
        },
    decreases s.len(),
{
    if s.len() > 0 {
        let d = s.drop_last();
        lemma_assoc_index(d, k);
        match assoc_index(d, k) {
            Some(i) => {
                assert(s[i] == d[i]);
                assert forall|j: int| 0 <= j < i implies #[trigger] s[j].0 != k by {
                    assert(s[j] == d[j]);
                }
            },
            None => {
                assert forall|j: int| 0 <= j < s.len() - 1 implies #[trigger] s[j].0 != k by {
                    assert(s[j] == d[j]);
                }
            },
        }
    }
}

/// Appending an entry changes only the lookup of a key not present before.
pub proof fn lemma_assoc_push<K, V>(s: Seq<(K, V)>, x: (K, V), k: K)
    ensures
        assoc_get(s.push(x), k) == match assoc_get(s, k) {
            Some(v) => Some(v),
            None => if x.0 == k {
                Some(x.1)
            } else {
                None
            },
        },
{
    let t = s.push(x);
    assert(t.drop_last() =~= s);
    lemma_assoc_index(s, k);
    if let Some(i) = assoc_index(s, k) {
        assert(t[i] == s[i]);
    }
}

proof fn lemma_assoc_index_update<K, V>(s: Seq<(K, V)>, i: int, x: (K, V), k: K)
    requires
        assoc_index(s, x.0) == Some(i),
    ensures
        assoc_index(s.update(i, x), k) == assoc_index(s, k),
    decreases s.len(),
{
    lemma_assoc_index(s, x.0);
    let t = s.update(i, x);
    let d = s.drop_last();
    if i == s.len() - 1 {
        assert(t.drop_last() =~= d);
        lemma_assoc_index(d, x.0);
        if let Some(m) = assoc_index(d, x.0) {
            assert(s[m] == d[m]);
        }
    } else {
        assert(t.drop_last() =~= d.update(i, x));
        lemma_assoc_index(d, x.0);
        assert(d[i] == s[i]);
        assert forall|j: int| 0 <= j < i implies #[trigger] d[j].0 != x.0 by {
            assert(d[j] == s[j]);
        }
        if let Some(m) = assoc_index(d, x.0) {
            assert(d[m] == s[m]);
        }
        lemma_assoc_index_update(d, i, x, k);
    }
}

/// Overwriting the first entry of key `x.0` changes only that key's lookup.
pub proof fn lemma_assoc_update<K, V>(s: Seq<(K, V)>, i: int, x: (K, V), k: K)
    requires
        assoc_index(s, x.0) == Some(i),
    ensures
        assoc_get(s.update(i, x), k) == if k == x.0 {
            Some(x.1)
        } else {
            assoc_get(s, k)
        },
{
    lemma_assoc_index_update(s, i, x, k);
    lemma_assoc_index(s, k);
    lemma_assoc_index(s, x.0);
    if let Some(j) = assoc_index(s, k) {
        if k != x.0 {
            assert(j != i);
            assert(s.update(i, x)[j] == s[j]);
        }
    }
}

/// Keys of `s` are pairwise distinct.
pub open spec fn assoc_distinct<K, V>(s: Seq<(K, V)>) -> bool {
    forall|i: int, j: int| 0 <= i < j < s.len() ==> #[trigger] s[i].0 != #[trigger] s[j].0
}

} // verus!
