//! An insertion-ordered map from strings to strings.
//!
//! Keys are unique; inserting an existing key replaces its value in place,
//! a new key goes to the end. The abstract model is a `Map` of character
//! sequences, and `pairs()` gives the entries in their order.

use vstd::prelude::*;

use crate::text::str_eq;

verus! {

/// True when no two entries of `s` share a key.
pub open spec fn keys_distinct(s: Seq<(Seq<char>, Seq<char>)>) -> bool {
    forall|i: int, j: int|
        0 <= i < s.len() && 0 <= j < s.len() && i != j ==> #[trigger] s[i].0 != #[trigger] s[j].0
}

/// True when some entry of `s` has key `k`.
pub open spec fn seq_has_key(s: Seq<(Seq<char>, Seq<char>)>, k: Seq<char>) -> bool {
    exists|i: int| 0 <= i < s.len() && #[trigger] s[i].0 == k
}

/// The value stored under `k` (meaningful when `seq_has_key(s, k)`).
pub open spec fn seq_value_of(s: Seq<(Seq<char>, Seq<char>)>, k: Seq<char>) -> Seq<char> {
    s[choose|i: int| 0 <= i < s.len() && #[trigger] s[i].0 == k].1
}

/// The map that an entry sequence denotes.
pub open spec fn seq_to_map(s: Seq<(Seq<char>, Seq<char>)>) -> Map<Seq<char>, Seq<char>> {
    Map::new(|k: Seq<char>| seq_has_key(s, k), |k: Seq<char>| seq_value_of(s, k))
}

/// `m` with the entries of `pairs` inserted in order (later entries win).
pub open spec fn insert_all(
    m: Map<Seq<char>, Seq<char>>,
    pairs: Seq<(Seq<char>, Seq<char>)>,
) -> Map<Seq<char>, Seq<char>>
    decreases pairs.len(),
{
    if pairs.len() == 0 {
        m
    } else {
        insert_all(m, pairs.drop_last()).insert(pairs.last().0, pairs.last().1)
    }
}

/// Inserting entries never removes a key.
pub proof fn lemma_insert_all_keeps(
    m: Map<Seq<char>, Seq<char>>,
    pairs: Seq<(Seq<char>, Seq<char>)>,
    k: Seq<char>,
)
    requires
        m.dom().contains(k),
    ensures
        insert_all(m, pairs).dom().contains(k),
    decreases pairs.len(),
{
    if pairs.len() > 0 {
        lemma_insert_all_keeps(m, pairs.drop_last(), k);
    }
}

/// The entries after setting `k` to `v`: an existing entry for `k` is
/// replaced in place, otherwise the pair is appended.
pub open spec fn pairs_with(s: Seq<(Seq<char>, Seq<char>)>, k: Seq<char>, v: Seq<char>) -> Seq<
    (Seq<char>, Seq<char>),
> {
    if seq_has_key(s, k) {
        s.update(choose|i: int| 0 <= i < s.len() && #[trigger] s[i].0 == k, (k, v))
    } else {
        s.push((k, v))
    }
}

/// With distinct keys, the entry at `i` is what the map holds for its key.
pub proof fn lemma_entry_in_map(s: Seq<(Seq<char>, Seq<char>)>, i: int)
    requires
        keys_distinct(s),
        0 <= i < s.len(),
    ensures
        seq_to_map(s).dom().contains(s[i].0),
        seq_to_map(s)[s[i].0] == s[i].1,
{
    assert(seq_has_key(s, s[i].0));
    let j = choose|j: int| 0 <= j < s.len() && #[trigger] s[j].0 == s[i].0;
    assert(s[j].0 == s[i].0);
}

/// A string-to-string map that keeps its entries in insertion order.
pub struct StringMap {
    entries: Vec<(String, String)>,
}

impl StringMap {
    /// The stored entries as character sequences.
    closed spec fn entry_views(&self) -> Seq<(Seq<char>, Seq<char>)> {
        self.entries@.map_values(|e: (String, String)| (e.0@, e.1@))
    }

    /// The entries, in order, as character sequences; no key occurs twice.
    pub closed spec fn pairs(&self) -> Seq<(Seq<char>, Seq<char>)> {
        if keys_distinct(self.entry_views()) {
            self.entry_views()
        } else {
            Seq::empty()
        }
    }

    #[verifier::type_invariant]
    spec fn inv(self) -> bool {
        keys_distinct(self.entry_views())
    }

    /// For a map whose stored keys are distinct (every map is), the entries
    /// are the stored ones.
    proof fn lemma_pairs_are_entries(&self)
        requires
            keys_distinct(self.entry_views()),
        ensures
            self.pairs() == self.entry_views(),
    {
    }

    /// An empty map.
    pub fn new() -> (m: Self)
        ensures
            m.pairs() == Seq::<(Seq<char>, Seq<char>)>::empty(),
            m@ == Map::<Seq<char>, Seq<char>>::empty(),
    {
        let m = StringMap { entries: Vec::new() };
        assert(m.entry_views() =~= Seq::<(Seq<char>, Seq<char>)>::empty());
        assert(m.pairs() =~= Seq::<(Seq<char>, Seq<char>)>::empty());
        assert(m@ =~= Map::<Seq<char>, Seq<char>>::empty());
        m
    }

    /// Number of entries.
    pub fn len(&self) -> (n: usize)
        ensures
            n == self.pairs().len(),
    {
        proof {
            use_type_invariant(self);
            self.lemma_pairs_are_entries();
        }
        self.entries.len()
    }

    /// True when the map has no entry.
    pub fn is_empty(&self) -> (b: bool)
        ensures
            b == (self.pairs().len() == 0),
    {
        proof {
            use_type_invariant(self);
            self.lemma_pairs_are_entries();
        }
        self.entries.len() == 0
    }

    /// Position of the entry with key `key`, if any.
    fn find(&self, key: &str) -> (r: Option<usize>)
        ensures
            match r {
                Some(i) => i < self.pairs().len() && self.pairs()[i as int].0 == key@,
                None => !seq_has_key(self.pairs(), key@),
            },
    {
        proof {
            use_type_invariant(self);
            self.lemma_pairs_are_entries();
        }
        let n = self.entries.len();
        let mut i: usize = 0;
        while i < n
            invariant
                n == self.entries@.len(),
                self.pairs().len() == n,
                i <= n,
                forall|j: int| 0 <= j < i ==> #[trigger] self.pairs()[j].0 != key@,
            decreases n - i,
        {
            if str_eq(self.entries[i].0.as_str(), key) {
                return Some(i);
            }
            i = i + 1;
        }
        None
    }

    /// True when `key` has an entry.
    pub fn contains_key(&self, key: &str) -> (b: bool)
        ensures
            b == self@.dom().contains(key@),
    {
        self.find(key).is_some()
    }

    /// The value stored under `key`, cloned.
    pub fn get(&self, key: &str) -> (r: Option<String>)
        ensures
            match r {
                Some(v) => self@.dom().contains(key@) && self@[key@] == v@,
                None => !self@.dom().contains(key@),
            },
    {
        proof {
            use_type_invariant(self);
            self.lemma_pairs_are_entries();
        }
        match self.find(key) {
            Some(i) => {
                proof {
                    lemma_entry_in_map(self.pairs(), i as int);
                }
                Some(self.entries[i].1.clone())
            },
            None => None,
        }
    }

    /// Key and value of the entry at position `i`.
    pub fn entry_at(&self, i: usize) -> (r: (&String, &String))
        requires
            i < self.pairs().len(),
        ensures
            r.0@ == self.pairs()[i as int].0,
            r.1@ == self.pairs()[i as int].1,
    {
        proof {
            use_type_invariant(self);
            self.lemma_pairs_are_entries();
        }
        (&self.entries[i].0, &self.entries[i].1)
    }

    /// Sets `key` to `value`: an existing entry is replaced in place, a new
    /// key is appended at the end.
    pub fn insert(&mut self, key: String, value: String)
        ensures
            final(self)@ == old(self)@.insert(key@, value@),
            final(self).pairs() == pairs_with(old(self).pairs(), key@, value@),
    {
        proof {
            use_type_invariant(&*self);
            self.lemma_pairs_are_entries();
        }
        let ghost old_pairs = self.pairs();
        match self.find(key.as_str()) {
            Some(i) => {
                proof {
                    self.lemma_position_unique(i as int);
                }
                let ghost kv = key@;
                let ghost vv = value@;
                let mut entries: Vec<(String, String)> = Vec::new();
                std::mem::swap(&mut entries, &mut self.entries);
                entries.set(i, (key, value));
                let ghost new_pairs = entries@.map_values(|e: (String, String)| (e.0@, e.1@));
                assert(new_pairs =~= old_pairs.update(i as int, (kv, vv)));
                assert(keys_distinct(new_pairs));
                self.entries = entries;
                proof {
                    assert(self.entry_views() == new_pairs);
                    self.lemma_pairs_are_entries();
                    self.lemma_map_after_update(old_pairs, i as int, kv, vv);
                }
            },
            None => {
                let ghost kv = key@;
                let ghost vv = value@;
                let mut entries: Vec<(String, String)> = Vec::new();
                std::mem::swap(&mut entries, &mut self.entries);
                entries.push((key, value));
                let ghost new_pairs = entries@.map_values(|e: (String, String)| (e.0@, e.1@));
                assert(new_pairs =~= old_pairs.push((kv, vv)));
                assert(keys_distinct(new_pairs));
                self.entries = entries;
                proof {
                    assert(self.entry_views() == new_pairs);
                    self.lemma_pairs_are_entries();
                    lemma_map_after_push(old_pairs, kv, vv);
                }
            },
        }
    }

    proof fn lemma_position_unique(&self, i: int)
        requires
            keys_distinct(self.pairs()),
            0 <= i < self.pairs().len(),
        ensures
            (choose|j: int| 0 <= j < self.pairs().len() && #[trigger] self.pairs()[j].0
                == self.pairs()[i].0) == i,
            self@.dom().contains(self.pairs()[i].0),
    {
        let k = self.pairs()[i].0;
        assert(seq_has_key(self.pairs(), k));
        let j = choose|j: int| 0 <= j < self.pairs().len() && #[trigger] self.pairs()[j].0 == k;
        assert(self.pairs()[j].0 == k);
    }

    proof fn lemma_map_after_update(
        &self,
        old_pairs: Seq<(Seq<char>, Seq<char>)>,
        i: int,
        k: Seq<char>,
        v: Seq<char>,
    )
        requires
            keys_distinct(old_pairs),
            0 <= i < old_pairs.len(),
            old_pairs[i].0 == k,
            self.pairs() == old_pairs.update(i, (k, v)),
            keys_distinct(self.pairs()),
        ensures
            self@ == seq_to_map(old_pairs).insert(k, v),
    {
        let s = self.pairs();
        let a = seq_to_map(s);
        let b = seq_to_map(old_pairs).insert(k, v);
        assert forall|x: Seq<char>| a.dom().contains(x) <==> b.dom().contains(x) by {
            if seq_has_key(s, x) {
                let j = choose|j: int| 0 <= j < s.len() && #[trigger] s[j].0 == x;
                if j != i {
                    assert(old_pairs[j].0 == x);
                }
            }
            if seq_has_key(old_pairs, x) {
                let j = choose|j: int| 0 <= j < old_pairs.len() && #[trigger] old_pairs[j].0 == x;
                assert(s[j].0 == x);
            }
            if x == k {
                assert(s[i].0 == x);
            }
        }
        assert forall|x: Seq<char>| #[trigger] a.dom().contains(x) implies a[x] == b[x] by {
            let j = choose|j: int| 0 <= j < s.len() && #[trigger] s[j].0 == x;
            lemma_entry_in_map(s, j);
            if j != i {
                assert(old_pairs[j] == s[j]);
                lemma_entry_in_map(old_pairs, j);
            }
        }
        assert(a =~= b);
    }

    /// Inserts every entry of `other`, in order (a later entry wins).
    pub fn insert_pairs(&mut self, other: &StringMap)
        ensures
            final(self)@ == insert_all(old(self)@, other.pairs()),
    {
        let n = other.len();
        let mut i: usize = 0;
        while i < n
            invariant
                n == other.pairs().len(),
                i <= n,
                self@ == insert_all(old(self)@, other.pairs().take(i as int)),
            decreases n - i,
        {
            let (k, v) = other.entry_at(i);
            self.insert(k.clone(), v.clone());
            proof {
                let t = other.pairs().take(i + 1);
                assert(t.drop_last() =~= other.pairs().take(i as int));
            }
            i = i + 1;
        }
        assert(other.pairs().take(n as int) =~= other.pairs());
    }

    /// Clone with the same entries in the same order.
    pub fn clone_map(&self) -> (r: Self)
        ensures
            r.pairs() == self.pairs(),
            r@ == self@,
    {
        proof {
            use_type_invariant(self);
            self.lemma_pairs_are_entries();
        }
        let mut entries: Vec<(String, String)> = Vec::new();
        let n = self.entries.len();
        let mut i: usize = 0;
        while i < n
            invariant
                n == self.entries@.len(),
                i <= n,
                entries@.len() == i,
                forall|j: int|
                    0 <= j < i ==> #[trigger] entries@[j].0@ == self.entries@[j].0@
                        && entries@[j].1@ == self.entries@[j].1@,
            decreases n - i,
        {
            let k = self.entries[i].0.clone();
            let v = self.entries[i].1.clone();
            entries.push((k, v));
            i = i + 1;
        }
        let ghost p = entries@.map_values(|e: (String, String)| (e.0@, e.1@));
        assert(p =~= self.pairs());
        let r = StringMap { entries };
        proof {
            assert(r.entry_views() == p);
            r.lemma_pairs_are_entries();
        }
        r
    }
}

proof fn lemma_map_after_push(s: Seq<(Seq<char>, Seq<char>)>, k: Seq<char>, v: Seq<char>)
    requires
        keys_distinct(s),
        !seq_has_key(s, k),
    ensures
        seq_to_map(s.push((k, v))) == seq_to_map(s).insert(k, v),
{
    let t = s.push((k, v));
    let a = seq_to_map(t);
    let b = seq_to_map(s).insert(k, v);
    assert(keys_distinct(t));
    assert forall|x: Seq<char>| a.dom().contains(x) <==> b.dom().contains(x) by {
        if seq_has_key(t, x) {
            let j = choose|j: int| 0 <= j < t.len() && #[trigger] t[j].0 == x;
            if j < s.len() {
                assert(s[j].0 == x);
            }
        }
        if seq_has_key(s, x) {
            let j = choose|j: int| 0 <= j < s.len() && #[trigger] s[j].0 == x;
            assert(t[j].0 == x);
        }
        if x == k {
            assert(t[s.len() as int].0 == x);
        }
    }
    assert forall|x: Seq<char>| #[trigger] a.dom().contains(x) implies a[x] == b[x] by {
        let j = choose|j: int| 0 <= j < t.len() && #[trigger] t[j].0 == x;
        lemma_entry_in_map(t, j);
        if j < s.len() {
            assert(s[j] == t[j]);
            lemma_entry_in_map(s, j);
        }
    }
    assert(a =~= b);
}

/// No key occurs twice among the entries of a map.
pub proof fn lemma_pairs_keys_distinct(m: &StringMap)
    ensures
        keys_distinct(m.pairs()),
{
}

/// Each entry of a map is what the map holds under its key.
pub proof fn lemma_pair_in_map(m: &StringMap, i: int)
    requires
        0 <= i < m.pairs().len(),
    ensures
        m@.dom().contains(m.pairs()[i].0),
        m@[m.pairs()[i].0] == m.pairs()[i].1,
{
    lemma_pairs_keys_distinct(m);
    lemma_entry_in_map(m.pairs(), i);
}

/// Inserting entries with distinct keys: each entry's key maps to its value,
/// and any other key keeps what `m` had.
pub proof fn lemma_insert_all_distinct(
    m: Map<Seq<char>, Seq<char>>,
    s: Seq<(Seq<char>, Seq<char>)>,
)
    requires
        keys_distinct(s),
    ensures
        forall|i: int|
            0 <= i < s.len() ==> insert_all(m, s).dom().contains(#[trigger] s[i].0) && insert_all(
                m,
                s,
            )[s[i].0] == s[i].1,
        forall|k: Seq<char>|
            !seq_has_key(s, k) ==> (#[trigger] insert_all(m, s).dom().contains(k) == m.dom().contains(k))
                && (m.dom().contains(k) ==> insert_all(m, s)[k] == m[k]),
    decreases s.len(),
{
    if s.len() > 0 {
        let p = s.drop_last();
        assert forall|i: int, j: int|
            0 <= i < p.len() && 0 <= j < p.len() && i != j implies #[trigger] p[i].0 != #[trigger] p[j].0 by {
            assert(s[i].0 != s[j].0);
        }
        lemma_insert_all_distinct(m, p);
        let last = s.len() - 1;
        assert forall|i: int| 0 <= i < s.len() implies insert_all(m, s).dom().contains(#[trigger] s[i].0)
            && insert_all(m, s)[s[i].0] == s[i].1 by {
            if i < last {
                assert(p[i] == s[i]);
                assert(s[i].0 != s[last].0);
            }
        }
        assert forall|k: Seq<char>| !seq_has_key(s, k) implies (#[trigger] insert_all(m, s).dom().contains(k)
            == m.dom().contains(k)) && (m.dom().contains(k) ==> insert_all(m, s)[k] == m[k]) by {
            if seq_has_key(p, k) {
                let j = choose|j: int| 0 <= j < p.len() && #[trigger] p[j].0 == k;
                assert(s[j].0 == k);
                assert(seq_has_key(s, k));
            }
            if s[last].0 == k {
                assert(seq_has_key(s, k));
            }
            assert(s.last() == s[last]);
            assert(insert_all(m, s) == insert_all(m, p).insert(s[last].0, s[last].1));
        }
    }
}

impl View for StringMap {
    type V = Map<Seq<char>, Seq<char>>;

    open spec fn view(&self) -> Map<Seq<char>, Seq<char>> {
        seq_to_map(self.pairs())
    }
}

} // verus!
