//! A string-keyed map, held as an association list with pairwise-distinct
//! keys and viewed as a `Map<Seq<char>, V>`. It backs the entity and media
//! caches, whose keys are entity ids and media URLs.

use vstd::prelude::*;

verus! {

/// The map an association list describes, later pairs overriding earlier
/// ones.
pub open spec fn keyed<V>(pairs: Seq<(String, V)>) -> Map<Seq<char>, V>
    decreases pairs.len(),
{
    if pairs.len() == 0 {
        Map::empty()
    } else {
        keyed(pairs.drop_last()).insert(pairs.last().0@, pairs.last().1)
    }
}

/// No key occurs twice in the list.
pub open spec fn distinct_keys<V>(pairs: Seq<(String, V)>) -> bool {
    forall|i: int, j: int| 0 <= i < j < pairs.len() ==> pairs[i].0@ != pairs[j].0@
}

/// A key is in the map exactly when some pair carries it.
proof fn lemma_keyed_contains<V>(pairs: Seq<(String, V)>, k: Seq<char>)
    ensures
        keyed(pairs).contains_key(k) <==> exists|i: int| 0 <= i < pairs.len() && pairs[i].0@ == k,
    decreases pairs.len(),
{
    if pairs.len() > 0 {
        let prefix = pairs.drop_last();
        lemma_keyed_contains(prefix, k);
        if pairs.last().0@ == k {
            assert(pairs[pairs.len() - 1].0@ == k);
        } else {
            if keyed(prefix).contains_key(k) {
                let i = choose|i: int| 0 <= i < prefix.len() && prefix[i].0@ == k;
                assert(pairs[i].0@ == k);
            }
            if exists|i: int| 0 <= i < pairs.len() && pairs[i].0@ == k {
                let i = choose|i: int| 0 <= i < pairs.len() && pairs[i].0@ == k;
                assert(i < pairs.len() - 1);
                assert(prefix[i].0@ == k);
            }
        }
    }
}

/// With distinct keys, the pair that carries a key gives its value in the
/// map.
proof fn lemma_keyed_get<V>(pairs: Seq<(String, V)>, k: Seq<char>, i: int)
    requires
        distinct_keys(pairs),
        0 <= i < pairs.len(),
        pairs[i].0@ == k,
    ensures
        keyed(pairs).contains_key(k),
        keyed(pairs)[k] == pairs[i].1,
    decreases pairs.len(),
{
    let prefix = pairs.drop_last();
    if i == pairs.len() - 1 {
    } else {
        assert(pairs.last().0@ != k);
        assert(distinct_keys(prefix));
        assert(prefix[i].0@ == k);
        lemma_keyed_get(prefix, k, i);
    }
}

/// With distinct keys, replacing the pair that carries a key is an insert on
/// the map.
proof fn lemma_keyed_update<V>(pairs: Seq<(String, V)>, i: int, p: (String, V))
    requires
        distinct_keys(pairs),
        0 <= i < pairs.len(),
        pairs[i].0@ == p.0@,
    ensures
        keyed(pairs.update(i, p)) == keyed(pairs).insert(p.0@, p.1),
    decreases pairs.len(),
{
    let u = pairs.update(i, p);
    let prefix = pairs.drop_last();
    if i == pairs.len() - 1 {
        assert(u.drop_last() =~= prefix);
        assert(u.last() == p);
        assert(keyed(u) =~= keyed(pairs).insert(p.0@, p.1));
    } else {
        assert(u.drop_last() =~= prefix.update(i, p));
        assert(u.last() == pairs.last());
        assert(distinct_keys(prefix));
        assert(prefix[i].0@ == p.0@);
        lemma_keyed_update(prefix, i, p);
        assert(pairs.last().0@ != p.0@);
        assert(keyed(prefix).insert(p.0@, p.1).insert(pairs.last().0@, pairs.last().1) =~= keyed(
            prefix,
        ).insert(pairs.last().0@, pairs.last().1).insert(p.0@, p.1));
    }
}

/// A string-keyed map with unique keys, the backing store of the caches.
pub struct IdMap<V> {
    pairs: Vec<(String, V)>,
}

impl<V> IdMap<V> {
    /// The map held.
    pub closed spec fn view(self) -> Map<Seq<char>, V> {
        keyed(self.pairs@)
    }

    /// Keys are pairwise distinct.
    pub closed spec fn wf(self) -> bool {
        distinct_keys(self.pairs@)
    }

    /// An empty map.
    pub fn new() -> (r: IdMap<V>)
        ensures
            r.wf(),
            r.view() == Map::<Seq<char>, V>::empty(),
    {
        IdMap { pairs: Vec::new() }
    }

    /// Look a key up; `None` means the key was never stored.
    pub fn get<'a>(&'a self, k: &String) -> (r: Option<&'a V>)
        requires
            self.wf(),
        ensures
            match r {
                Some(v) => self.view().contains_key(k@) && *v == self.view()[k@],
                None => !self.view().contains_key(k@),
            },
    {
        let n = self.pairs.len();
        for i in 0..n
            invariant
                n == self.pairs.len(),
                self.wf(),
                forall|j: int| 0 <= j < i ==> self.pairs@[j].0@ != k@,
        {
            if self.pairs[i].0 == *k {
                proof {
                    lemma_keyed_get(self.pairs@, k@, i as int);
                }
                return Some(&self.pairs[i].1);
            }
        }
        proof {
            lemma_keyed_contains(self.pairs@, k@);
        }
        None
    }

    /// Store a value under a key, overriding any earlier value (last write
    /// wins).
    pub fn insert(&mut self, k: String, v: V)
        requires
            old(self).wf(),
        ensures
            final(self).wf(),
            final(self).view() == old(self).view().insert(k@, v),
    {
        let ghost before = self.pairs@;
        let n = self.pairs.len();
        let mut found: Option<usize> = None;
        for i in 0..n
            invariant
                n == self.pairs.len(),
                self.pairs@ == before,
                distinct_keys(before),
                match found {
                    Some(fi) => fi < n && before[fi as int].0@ == k@,
                    None => forall|j: int| 0 <= j < i ==> before[j].0@ != k@,
                },
        {
            if found.is_none() && self.pairs[i].0 == k {
                found = Some(i);
            }
        }
        match found {
            Some(i) => {
                let ghost p: (String, V) = (k, v);
                proof {
                    lemma_keyed_update(before, i as int, p);
                }
                self.pairs[i] = (k, v);
                proof {
                    assert(self.pairs@ == before.update(i as int, p));
                    assert(forall|j: int|
                        0 <= j < self.pairs@.len() ==> self.pairs@[j].0@ == (if j == i as int {
                            p.0@
                        } else {
                            before[j].0@
                        }));
                    assert(keyed(self.pairs@) == keyed(before).insert(k@, v));
                }
            },
            None => {
                proof {
                    lemma_keyed_contains(before, k@);
                    assert(!keyed(before).contains_key(k@));
                    assert(before.push((k, v)).drop_last() =~= before);
                    assert(keyed(before.push((k, v))) == keyed(before).insert(k@, v));
                }
                self.pairs.push((k, v));
            },
        }
    }

    /// Forget every entry.
    pub fn clear(&mut self)
        ensures
            final(self).wf(),
            final(self).view() == Map::<Seq<char>, V>::empty(),
    {
        self.pairs = Vec::new();
    }
}

} // verus!
