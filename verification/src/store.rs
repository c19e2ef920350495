//! A small keyed store for loaded asset data.
//!
//! The asset-loading collaborator decodes files outside the library and
//! registers the plain data here; the resource caches synthesize new
//! instances from it. Modelled as a map from key values to data values.

use crate::cache::CacheKey;
use vstd::prelude::*;

verus! {

/// Keys compare by deep value; at most one row per key value.
pub struct AssetStore<K, V> {
    pub keys: Vec<K>,
    pub values: Vec<V>,
}

impl<K: CacheKey, V: View> AssetStore<K, V> {
    pub open spec fn len_ok(self) -> bool {
        self.values@.len() == self.keys@.len()
    }

    pub open spec fn distinct_keys(self) -> bool {
        forall|i: int, j: int|
            0 <= i < j < self.keys@.len() ==> (#[trigger] self.keys@[i])@ != (
            #[trigger] self.keys@[j])@
    }

    pub open spec fn wf(self) -> bool {
        self.len_ok() && self.distinct_keys()
    }

    /// The map built from the first `k` rows.
    pub open spec fn map_prefix(self, k: int) -> Map<K::V, V::V>
        decreases k,
    {
        if k <= 0 {
            Map::empty()
        } else {
            self.map_prefix(k - 1).insert(self.keys@[k - 1]@, self.values@[k - 1]@)
        }
    }

    /// The map model of the store.
    pub open spec fn map(self) -> Map<K::V, V::V> {
        self.map_prefix(self.keys@.len() as int)
    }

    pub fn new() -> (s: AssetStore<K, V>)
        ensures
            s.wf(),
            s.map() == Map::<K::V, V::V>::empty(),
    {
        AssetStore { keys: Vec::new(), values: Vec::new() }
    }

    proof fn lemma_prefix_contains(self, k: int, i: int)
        requires
            self.len_ok(),
            self.distinct_keys(),
            0 <= i < k <= self.keys@.len(),
        ensures
            self.map_prefix(k).contains_key(self.keys@[i]@),
            self.map_prefix(k)[self.keys@[i]@] == self.values@[i]@,
        decreases k,
    {
        if k - 1 > i {
            self.lemma_prefix_contains(k - 1, i);
        }
    }

    proof fn lemma_prefix_domain(self, k: int)
        requires
            self.len_ok(),
            0 <= k <= self.keys@.len(),
        ensures
            forall|kv: <K as View>::V|
                self.map_prefix(k).contains_key(kv) ==> exists|i: int|
                    0 <= i < k && (#[trigger] self.keys@[i])@ == kv,
        decreases k,
    {
        if k > 0 {
            self.lemma_prefix_domain(k - 1);
            assert forall|kv: <K as View>::V| self.map_prefix(k).contains_key(kv) implies exists|
                i: int,
            | 0 <= i < k && (#[trigger] self.keys@[i])@ == kv by {
                if kv == self.keys@[k - 1]@ {
                    assert(0 <= k - 1 < k && self.keys@[k - 1]@ == kv);
                } else {
                    assert(self.map_prefix(k - 1).contains_key(kv));
                }
            }
        }
    }

    proof fn lemma_prefix_agree(c0: Self, c1: Self, k: int)
        requires
            c0.len_ok(),
            c1.len_ok(),
            0 <= k <= c0.keys@.len(),
            k <= c1.keys@.len(),
            forall|j: int|
                0 <= j < k ==> (#[trigger] c1.keys@[j])@ == c0.keys@[j]@ && c1.values@[j]@
                    == c0.values@[j]@,
        ensures
            c1.map_prefix(k) == c0.map_prefix(k),
        decreases k,
    {
        if k > 0 {
            Self::lemma_prefix_agree(c0, c1, k - 1);
        }
    }

    proof fn lemma_map_update(c0: Self, c1: Self, i: int, k: int)
        requires
            c0.len_ok(),
            c1.len_ok(),
            c0.distinct_keys(),
            c0.keys@.len() == c1.keys@.len(),
            0 <= i < k <= c0.keys@.len(),
            forall|j: int|
                0 <= j < c0.keys@.len() && j != i ==> (#[trigger] c1.keys@[j])@ == c0.keys@[j]@
                    && c1.values@[j]@ == c0.values@[j]@,
            c1.keys@[i]@ == c0.keys@[i]@,
        ensures
            c1.map_prefix(k) == c0.map_prefix(k).insert(c0.keys@[i]@, c1.values@[i]@),
        decreases k,
    {
        if k == i + 1 {
            Self::lemma_prefix_agree(c0, c1, i);
            assert(c1.map_prefix(k) =~= c0.map_prefix(k).insert(c0.keys@[i]@, c1.values@[i]@));
        } else {
            Self::lemma_map_update(c0, c1, i, k - 1);
            assert(c0.keys@[k - 1]@ != c0.keys@[i]@);
            assert(c1.map_prefix(k) =~= c0.map_prefix(k).insert(c0.keys@[i]@, c1.values@[i]@));
        }
    }

    fn find(&self, key: &K) -> (r: Option<usize>)
        requires
            self.wf(),
        ensures
            match r {
                Some(i) => {
                    &&& i < self.keys@.len()
                    &&& self.keys@[i as int]@ == key@
                    &&& self.map().contains_key(key@)
                    &&& self.map()[key@] == self.values@[i as int]@
                },
                None => !self.map().contains_key(key@),
            },
    {
        let n = self.keys.len();
        let mut i: usize = 0;
        while i < n
            invariant
                self.wf(),
                n == self.keys@.len(),
                0 <= i <= n,
                forall|j: int| 0 <= j < i ==> (#[trigger] self.keys@[j])@ != key@,
            decreases n - i,
        {
            if self.keys[i].key_eq(key) {
                proof {
                    self.lemma_prefix_contains(self.keys@.len() as int, i as int);
                }
                return Some(i);
            }
            i = i + 1;
        }
        proof {
            self.lemma_prefix_domain(self.keys@.len() as int);
        }
        None
    }

    /// Register asset data under `key`, replacing any earlier data.
    pub fn register(&mut self, key: K, value: V)
        requires
            old(self).wf(),
        ensures
            final(self).wf(),
            final(self).map() == old(self).map().insert(key@, value@),
    {
        let ghost c0 = *self;
        match self.find(&key) {
            Some(i) => {
                self.values[i] = value;
                proof {
                    Self::lemma_map_update(c0, *self, i as int, self.keys@.len() as int);
                }
            },
            None => {
                self.keys.push(key);
                self.values.push(value);
                proof {
                    let n = c0.keys@.len() as int;
                    Self::lemma_prefix_agree(c0, *self, n);
                    assert forall|a: int, b: int|
                        0 <= a < b < self.keys@.len() implies (#[trigger] self.keys@[a])@ != (
                    #[trigger] self.keys@[b])@ by {
                        if b == n {
                            c0.lemma_prefix_domain(n);
                            if self.keys@[a]@ == self.keys@[b]@ {
                                c0.lemma_prefix_contains(n, a);
                            }
                        }
                    }
                }
            },
        }
    }

    /// Read the data registered under `key`, if any.
    pub fn lookup(&self, key: &K) -> (r: Option<&V>)
        requires
            self.wf(),
        ensures
            match r {
                Some(v) => self.map().contains_key(key@) && v@ == self.map()[key@],
                None => !self.map().contains_key(key@),
            },
    {
        let n = self.keys.len();
        match self.find(key) {
            Some(i) => Some(&self.values[i]),
            None => None,
        }
    }
}

} // verus!
