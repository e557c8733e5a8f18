//! A keyed collection with at most one entry per key, modelled as a finite map.
use vstd::prelude::*;
use crate::text::str_eq;
use crate::types::SessionKey;

verus! {

/// Keys of a [`Registry`]: equality and copies that agree with the model.
pub trait RegistryKey: View + Sized {
    /// Whether the two keys are equal.
    fn key_eq(&self, other: &Self) -> (r: bool)
        ensures
            r == (self@ == other@);

    /// A copy with the same model.
    fn key_copy(&self) -> (r: Self)
        ensures
            r@ == self@;
}

impl RegistryKey for String {
    fn key_eq(&self, other: &Self) -> (r: bool) {
        str_eq(self.as_str(), other.as_str())
    }

    fn key_copy(&self) -> (r: Self) {
        self.clone()
    }
}

impl RegistryKey for SessionKey {
    fn key_eq(&self, other: &Self) -> (r: bool) {
        self.same_as(other)
    }

    fn key_copy(&self) -> (r: Self) {
        self.duplicate()
    }
}

/// The map of a sequence of entries; a later entry for a key replaces an earlier one.
pub open spec fn entries_map<A, B>(s: Seq<(A, B)>) -> Map<A, B>
    decreases s.len(),
{
    if s.len() == 0 {
        Map::empty()
    } else {
        entries_map(s.drop_last()).insert(s.last().0, s.last().1)
    }
}

/// No key occurs twice.
pub open spec fn keys_unique<A, B>(s: Seq<(A, B)>) -> bool {
    forall|i: int, j: int| 0 <= i < s.len() && 0 <= j < s.len() && i != j ==> #[trigger] s[i].0 != #[trigger] s[j].0
}

/// With unique keys, the map holds exactly the entries' keys, each with its entry's value.
pub proof fn lemma_entries_map<A, B>(s: Seq<(A, B)>)
    requires
        keys_unique(s),
    ensures
        forall|k: A| #[trigger] entries_map(s).dom().contains(k) <==> exists|i: int| 0 <= i < s.len() && s[i].0 == k,
        forall|i: int| 0 <= i < s.len() ==> #[trigger] entries_map(s)[s[i].0] == s[i].1,
        entries_map(s).dom().finite(),
    decreases s.len(),
{
    if s.len() > 0 {
        let t = s.drop_last();
        assert(keys_unique(t)) by {
            assert forall|i: int, j: int| 0 <= i < t.len() && 0 <= j < t.len() && i != j implies #[trigger] t[i].0 != #[trigger] t[j].0 by {
                assert(t[i] == s[i] && t[j] == s[j]);
            }
        }
        lemma_entries_map(t);
        let n = s.len() - 1;
        assert forall|k: A| #[trigger] entries_map(s).dom().contains(k) <==> exists|i: int| 0 <= i < s.len() && s[i].0 == k by {
            if entries_map(s).dom().contains(k) {
                if k == s[n].0 {
                } else {
                    assert(entries_map(t).dom().contains(k));
                    let i = choose|i: int| 0 <= i < t.len() && t[i].0 == k;
                    assert(s[i] == t[i]);
                }
            }
            if exists|i: int| 0 <= i < s.len() && s[i].0 == k {
                let i = choose|i: int| 0 <= i < s.len() && s[i].0 == k;
                if i < n {
                    assert(t[i] == s[i]);
                }
            }
        }
        assert forall|i: int| 0 <= i < s.len() implies #[trigger] entries_map(s)[s[i].0] == s[i].1 by {
            if i < n {
                assert(t[i] == s[i]);
                assert(s[i].0 != s[n].0);
            }
        }
    }
}

/// A collection of entries, at most one per key.
pub struct Registry<K: RegistryKey, V: View> {
    entries: Vec<(K, V)>,
}

impl<K: RegistryKey, V: View> Registry<K, V> {
    /// The models of the entries, in storage order.
    pub closed spec fn pairs(&self) -> Seq<(K::V, V::V)> {
        self.entries@.map_values(|e: (K, V)| (e.0@, e.1@))
    }

    #[verifier::type_invariant]
    closed spec fn unique(&self) -> bool {
        keys_unique(self.pairs())
    }
}

impl<K: RegistryKey, V: View> View for Registry<K, V> {
    type V = Map<K::V, V::V>;

    closed spec fn view(&self) -> Map<K::V, V::V> {
        entries_map(self.pairs())
    }
}

impl<K: RegistryKey, V: View> Registry<K, V> {
    /// The empty collection.
    pub fn new() -> (r: Self)
        ensures
            r@ == Map::<K::V, V::V>::empty(),
    {
        let r = Registry { entries: Vec::new() };
        assert(r.pairs() =~= Seq::<(K::V, V::V)>::empty());
        r
    }

    /// The number of entries.
    pub fn len(&self) -> (r: usize)
        ensures
            r == self.pairs().len(),
            r == self@.dom().len(),
            self@.dom().finite(),
            forall|k: K::V| #[trigger] self@.dom().contains(k) ==> exists|i: int| 0 <= i < r && self.pairs()[i].0 == k,
    {
        proof {
            use_type_invariant(self);
            lemma_entries_map(self.pairs());
            lemma_unique_len(self.pairs());
        }
        self.entries.len()
    }

    /// The entry at position `i` of the storage order.
    pub fn entry_at(&self, i: usize) -> (r: (&K, &V))
        requires
            i < self.pairs().len(),
        ensures
            (r.0@, r.1@) == self.pairs()[i as int],
            self@.dom().contains(r.0@),
            self@[r.0@] == r.1@,
    {
        proof {
            use_type_invariant(self);
            lemma_entries_map(self.pairs());
        }
        let e = &self.entries[i];
        (&e.0, &e.1)
    }

    /// The position of `k`, if present.
    fn find(&self, k: &K) -> (r: Option<usize>)
        ensures
            match r {
                Some(i) => i < self.pairs().len() && self.pairs()[i as int].0 == k@,
                None => forall|i: int| 0 <= i < self.pairs().len() ==> self.pairs()[i].0 != k@,
            },
    {
        let mut i: usize = 0;
        while i < self.entries.len()
            invariant
                i <= self.entries.len(),
                self.pairs().len() == self.entries.len(),
                forall|j: int| 0 <= j < i ==> self.pairs()[j].0 != k@,
            decreases self.entries.len() - i,
        {
            if self.entries[i].0.key_eq(k) {
                return Some(i);
            }
            i = i + 1;
        }
        None
    }

    /// The value stored under `k`.
    pub fn get(&self, k: &K) -> (r: Option<&V>)
        ensures
            match r {
                Some(v) => self@.dom().contains(k@) && self@[k@] == v@,
                None => !self@.dom().contains(k@),
            },
    {
        proof {
            use_type_invariant(self);
            lemma_entries_map(self.pairs());
        }
        match self.find(k) {
            Some(i) => Some(&self.entries[i].1),
            None => None,
        }
    }

    /// Whether `k` has an entry.
    pub fn contains_key(&self, k: &K) -> (r: bool)
        ensures
            r == self@.dom().contains(k@),
    {
        self.get(k).is_some()
    }

    /// Stores `v` under `k`, replacing an earlier value.
    pub fn insert(&mut self, k: K, v: V)
        ensures
            final(self)@ == old(self)@.insert(k@, v@),
    {
        proof {
            use_type_invariant(&*self);
            lemma_entries_map(self.pairs());
        }
        let ghost old_pairs = self.pairs();
        match self.find(&k) {
            Some(i) => {
                let ghost kv = k@;
                let ghost vv = v@;
                let mut entries: Vec<(K, V)> = Vec::new();
                std::mem::swap(&mut entries, &mut self.entries);
                entries.set(i, (k, v));
                let ghost new_pairs = entries@.map_values(|e: (K, V)| (e.0@, e.1@));
                assert(new_pairs =~= old_pairs.update(i as int, (kv, vv)));
                assert(keys_unique(new_pairs)) by {
                    assert forall|a: int, b: int| 0 <= a < new_pairs.len() && 0 <= b < new_pairs.len() && a != b implies #[trigger] new_pairs[a].0 != #[trigger] new_pairs[b].0 by {
                        assert(new_pairs[a].0 == old_pairs[a].0);
                        assert(new_pairs[b].0 == old_pairs[b].0);
                    }
                }
                self.entries = entries;
                proof {
                    lemma_entries_map(new_pairs);
                    lemma_same_keys_update(old_pairs, new_pairs, i as int, kv, vv);
                }
            },
            None => {
                let ghost kv = k@;
                let ghost vv = v@;
                let mut entries: Vec<(K, V)> = Vec::new();
                std::mem::swap(&mut entries, &mut self.entries);
                entries.push((k, v));
                let ghost new_pairs = entries@.map_values(|e: (K, V)| (e.0@, e.1@));
                assert(new_pairs =~= old_pairs.push((kv, vv)));
                assert(new_pairs.drop_last() =~= old_pairs);
                assert(keys_unique(new_pairs)) by {
                    assert forall|a: int, b: int| 0 <= a < new_pairs.len() && 0 <= b < new_pairs.len() && a != b implies #[trigger] new_pairs[a].0 != #[trigger] new_pairs[b].0 by {
                        if a < old_pairs.len() {
                            assert(new_pairs[a] == old_pairs[a]);
                        }
                        if b < old_pairs.len() {
                            assert(new_pairs[b] == old_pairs[b]);
                        }
                    }
                }
                self.entries = entries;
            },
        }
    }

    /// Removes the entry of `k`, if any.
    pub fn remove(&mut self, k: &K)
        ensures
            final(self)@ == old(self)@.remove(k@),
    {
        proof {
            use_type_invariant(&*self);
            lemma_entries_map(self.pairs());
        }
        let ghost old_pairs = self.pairs();
        match self.find(k) {
            Some(i) => {
                let mut entries: Vec<(K, V)> = Vec::new();
                std::mem::swap(&mut entries, &mut self.entries);
                let _ = entries.remove(i);
                let ghost new_pairs = entries@.map_values(|e: (K, V)| (e.0@, e.1@));
                assert(new_pairs =~= old_pairs.remove(i as int));
                assert(keys_unique(new_pairs)) by {
                    assert forall|a: int, b: int| 0 <= a < new_pairs.len() && 0 <= b < new_pairs.len() && a != b implies #[trigger] new_pairs[a].0 != #[trigger] new_pairs[b].0 by {
                        let a2 = if a < i { a } else { a + 1 };
                        let b2 = if b < i { b } else { b + 1 };
                        assert(new_pairs[a] == old_pairs[a2]);
                        assert(new_pairs[b] == old_pairs[b2]);
                    }
                }
                self.entries = entries;
                proof {
                    lemma_entries_map(new_pairs);
                    lemma_remove_at(old_pairs, new_pairs, i as int);
                }
            },
            None => {
                assert(old(self)@.remove(k@) =~= old(self)@);
            },
        }
    }
}

impl<K: RegistryKey, V: View> Registry<K, V> {
    /// Removes the entry of `k` and hands its value back.
    pub fn take(&mut self, k: &K) -> (r: Option<V>)
        ensures
            final(self)@ == old(self)@.remove(k@),
            match r {
                Some(v) => old(self)@.dom().contains(k@) && v@ == old(self)@[k@],
                None => !old(self)@.dom().contains(k@),
            },
    {
        proof {
            use_type_invariant(&*self);
            lemma_entries_map(self.pairs());
        }
        let ghost old_pairs = self.pairs();
        match self.find(k) {
            Some(i) => {
                let mut entries: Vec<(K, V)> = Vec::new();
                std::mem::swap(&mut entries, &mut self.entries);
                let (_, v) = entries.remove(i);
                let ghost new_pairs = entries@.map_values(|e: (K, V)| (e.0@, e.1@));
                assert(new_pairs =~= old_pairs.remove(i as int));
                assert(keys_unique(new_pairs)) by {
                    assert forall|a: int, b: int| 0 <= a < new_pairs.len() && 0 <= b < new_pairs.len() && a != b implies #[trigger] new_pairs[a].0 != #[trigger] new_pairs[b].0 by {
                        let a2 = if a < i { a } else { a + 1 };
                        let b2 = if b < i { b } else { b + 1 };
                        assert(new_pairs[a] == old_pairs[a2]);
                        assert(new_pairs[b] == old_pairs[b2]);
                    }
                }
                self.entries = entries;
                proof {
                    lemma_entries_map(new_pairs);
                    lemma_remove_at(old_pairs, new_pairs, i as int);
                }
                Some(v)
            },
            None => {
                assert(old(self)@.remove(k@) =~= old(self)@);
                None
            },
        }
    }
}

/// The models of a list of keys.
pub open spec fn key_views<K: View>(v: Seq<K>) -> Seq<K::V> {
    v.map_values(|k: K| k@)
}

impl<K: RegistryKey, V: View> Registry<K, V> {
    /// Keeps only the entries whose key is among `keep`.
    pub fn retain(&mut self, keep: &Vec<K>)
        ensures
            final(self)@ == old(self)@.restrict(key_views(keep@).to_set()),
    {
        proof {
            use_type_invariant(&*self);
            lemma_entries_map(self.pairs());
        }
        let ghost m0 = self@;
        let ghost kv = key_views(keep@);
        let ghost keepset = kv.to_set();
        let mut drop: Vec<K> = Vec::new();
        let mut i: usize = 0;
        while i < self.entries.len()
            invariant
                i <= self.entries.len(),
                self@ == m0,
                kv == key_views(keep@),
                keepset == kv.to_set(),
                keys_unique(self.pairs()),
                forall|k: K::V| #[trigger] m0.dom().contains(k) <==> exists|j: int| 0 <= j < self.pairs().len() && self.pairs()[j].0 == k,
                forall|k: K::V| #[trigger] key_views(drop@).contains(k) <==>
                    (exists|j: int| 0 <= j < i && #[trigger] self.pairs()[j].0 == k && !keepset.contains(k)),
            decreases self.entries.len() - i,
        {
            let ghost pk = self.pairs()[i as int].0;
            assert(self.entries@[i as int].0@ == pk);
            let mut kept = false;
            let mut j: usize = 0;
            while j < keep.len()
                invariant
                    j <= keep.len(),
                    i < self.entries.len(),
                    pk == self.entries@[i as int].0@,
                    kept == exists|x: int| 0 <= x < j && keep@[x]@ == pk,
                decreases keep.len() - j,
            {
                if keep[j].key_eq(&self.entries[i].0) {
                    kept = true;
                }
                j = j + 1;
            }
            proof {
                if kept {
                    let x = choose|x: int| 0 <= x < keep.len() && keep@[x]@ == pk;
                    assert(kv[x] == pk);
                    assert(keepset.contains(pk));
                } else {
                    if keepset.contains(pk) {
                        assert(kv.contains(pk));
                        let x = choose|x: int| 0 <= x < kv.len() && kv[x] == pk;
                        assert(keep@[x]@ == pk);
                    }
                }
            }
            let ghost before = key_views(drop@);
            if !kept {
                drop.push(self.entries[i].0.key_copy());
                assert(key_views(drop@) =~= before.push(pk));
            }
            assert forall|k: K::V| #[trigger] key_views(drop@).contains(k) <==>
                (exists|j: int| 0 <= j < i + 1 && #[trigger] self.pairs()[j].0 == k && !keepset.contains(k)) by {
                let dv = key_views(drop@);
                if dv.contains(k) {
                    let x = choose|x: int| 0 <= x < dv.len() && dv[x] == k;
                    if x < before.len() {
                        assert(before[x] == k);
                        assert(before.contains(k));
                    } else {
                        assert(k == pk);
                        assert(self.pairs()[i as int].0 == k);
                    }
                }
                if exists|j: int| 0 <= j < i + 1 && #[trigger] self.pairs()[j].0 == k && !keepset.contains(k) {
                    let j = choose|j: int| 0 <= j < i + 1 && #[trigger] self.pairs()[j].0 == k && !keepset.contains(k);
                    if j < i {
                        assert(before.contains(k));
                        let x = choose|x: int| 0 <= x < before.len() && before[x] == k;
                        assert(dv[x] == k);
                    } else {
                        assert(k == pk);
                        assert(!kept);
                        assert(dv[before.len() as int] == k);
                    }
                }
            }
            i = i + 1;
        }
        let ghost dropset = key_views(drop@).to_set();
        assert(dropset =~= m0.dom().filter(|k: K::V| !keepset.contains(k))) by {
            assert forall|k: K::V| dropset.contains(k) <==> m0.dom().filter(|k: K::V| !keepset.contains(k)).contains(k) by {
                let dv = key_views(drop@);
                if dropset.contains(k) {
                    assert(dv.contains(k));
                }
                if m0.dom().contains(k) && !keepset.contains(k) {
                    let j = choose|j: int| 0 <= j < self.pairs().len() && self.pairs()[j].0 == k;
                    assert(dv.contains(k));
                }
            }
        }
        let mut d: usize = 0;
        while d < drop.len()
            invariant
                d <= drop.len(),
                self@ == m0.remove_keys(key_views(drop@).take(d as int).to_set()),
            decreases drop.len() - d,
        {
            let ghost before = key_views(drop@).take(d as int);
            self.remove(&drop[d]);
            proof {
                let after = key_views(drop@).take(d + 1);
                assert(after =~= before.push(drop@[d as int]@));
                before.lemma_push_to_set_commute(drop@[d as int]@);
                assert(m0.remove_keys(after.to_set()) =~= m0.remove_keys(before.to_set()).remove(drop@[d as int]@));
            }
            d = d + 1;
        }
        assert(key_views(drop@).take(drop.len() as int) =~= key_views(drop@));
        assert(m0.remove_keys(dropset) =~= m0.restrict(keepset));
    }
}

/// With unique keys, there are as many entries as keys in the map.
proof fn lemma_unique_len<A, B>(s: Seq<(A, B)>)
    requires
        keys_unique(s),
    ensures
        entries_map(s).dom().len() == s.len(),
    decreases s.len(),
{
    if s.len() > 0 {
        let t = s.drop_last();
        assert(keys_unique(t)) by {
            assert forall|i: int, j: int| 0 <= i < t.len() && 0 <= j < t.len() && i != j implies #[trigger] t[i].0 != #[trigger] t[j].0 by {
                assert(t[i] == s[i] && t[j] == s[j]);
            }
        }
        lemma_unique_len(t);
        lemma_entries_map(t);
        let n = s.len() - 1;
        if entries_map(t).dom().contains(s[n].0) {
            let i = choose|i: int| 0 <= i < t.len() && t[i].0 == s[n].0;
            assert(t[i] == s[i]);
        }
    }
}

/// Replacing the value at position `i` (same key) replaces that key's value in the map.
proof fn lemma_same_keys_update<A, B>(old_pairs: Seq<(A, B)>, new_pairs: Seq<(A, B)>, i: int, k: A, v: B)
    requires
        keys_unique(old_pairs),
        keys_unique(new_pairs),
        0 <= i < old_pairs.len(),
        old_pairs[i].0 == k,
        new_pairs == old_pairs.update(i, (k, v)),
    ensures
        entries_map(new_pairs) == entries_map(old_pairs).insert(k, v),
{
    lemma_entries_map(old_pairs);
    lemma_entries_map(new_pairs);
    let m1 = entries_map(new_pairs);
    let m2 = entries_map(old_pairs).insert(k, v);
    assert forall|kk: A| #[trigger] m1.dom().contains(kk) <==> m2.dom().contains(kk) by {
        if m1.dom().contains(kk) {
            let j = choose|j: int| 0 <= j < new_pairs.len() && new_pairs[j].0 == kk;
            if j != i {
                assert(old_pairs[j] == new_pairs[j]);
                assert(entries_map(old_pairs).dom().contains(old_pairs[j].0));
            }
        }
        if m2.dom().contains(kk) {
            if kk != k {
                let j = choose|j: int| 0 <= j < old_pairs.len() && old_pairs[j].0 == kk;
                assert(old_pairs[j] == new_pairs[j]);
                assert(m1.dom().contains(new_pairs[j].0));
            } else {
                assert(new_pairs[i].0 == k);
                assert(m1.dom().contains(new_pairs[i].0));
            }
        }
    }
    assert forall|kk: A| #[trigger] m1.dom().contains(kk) implies m1[kk] == m2[kk] by {
        let j = choose|j: int| 0 <= j < new_pairs.len() && new_pairs[j].0 == kk;
        assert(m1[new_pairs[j].0] == new_pairs[j].1);
        if j != i {
            assert(old_pairs[j] == new_pairs[j]);
            assert(entries_map(old_pairs)[old_pairs[j].0] == old_pairs[j].1);
        }
    }
    assert(m1 =~= m2);
}

/// Removing the entry at position `i` removes its key from the map.
proof fn lemma_remove_at<A, B>(old_pairs: Seq<(A, B)>, new_pairs: Seq<(A, B)>, i: int)
    requires
        keys_unique(old_pairs),
        keys_unique(new_pairs),
        0 <= i < old_pairs.len(),
        new_pairs == old_pairs.remove(i),
    ensures
        entries_map(new_pairs) == entries_map(old_pairs).remove(old_pairs[i].0),
{
    lemma_entries_map(old_pairs);
    lemma_entries_map(new_pairs);
    let k = old_pairs[i].0;
    let m1 = entries_map(new_pairs);
    let m2 = entries_map(old_pairs).remove(k);
    assert forall|kk: A| #[trigger] m1.dom().contains(kk) <==> m2.dom().contains(kk) by {
        if m1.dom().contains(kk) {
            let j = choose|j: int| 0 <= j < new_pairs.len() && new_pairs[j].0 == kk;
            let j2 = if j < i { j } else { j + 1 };
            assert(new_pairs[j] == old_pairs[j2]);
            assert(j2 != i);
            assert(old_pairs[j2].0 != old_pairs[i].0);
            assert(entries_map(old_pairs).dom().contains(old_pairs[j2].0));
        }
        if m2.dom().contains(kk) {
            let j = choose|j: int| 0 <= j < old_pairs.len() && old_pairs[j].0 == kk;
            assert(j != i);
            let j1 = if j < i { j } else { j - 1 };
            assert(new_pairs[j1] == old_pairs[j]);
            assert(m1.dom().contains(new_pairs[j1].0));
        }
    }
    assert forall|kk: A| #[trigger] m1.dom().contains(kk) implies m1[kk] == m2[kk] by {
        let j = choose|j: int| 0 <= j < new_pairs.len() && new_pairs[j].0 == kk;
        let j2 = if j < i { j } else { j + 1 };
        assert(new_pairs[j] == old_pairs[j2]);
        assert(m1[new_pairs[j].0] == new_pairs[j].1);
        assert(entries_map(old_pairs)[old_pairs[j2].0] == old_pairs[j2].1);
    }
    assert(m1 =~= m2);
}

} // verus!
