//! A descriptor-keyed store of shared resources with reclaimable slots.
//!
//! Each distinct descriptor owns at most one live resource instance at a
//! time. Acquiring bumps a strong count and returns a handle naming the
//! instance; releasing the last strong reference destroys the instance and
//! leaves a stale slot that a later acquire replaces with a fresh instance.
//! The store's behaviour is specified as transitions over a map model, and
//! the identity, renewal and discrimination laws are proved over those
//! transitions.

use vstd::prelude::*;

verus! {

/// A strong reference to a cached resource instance.
///
/// Two handles refer to the same underlying instance exactly when their
/// ids are equal; ids are never reused across instances of one store.
#[derive(Clone, Copy, PartialEq, Eq, Structural, Debug)]
pub struct Handle {
    pub id: u64,
}

/// Descriptor keys: value types whose deep equality is decidable in
/// executable code.
pub trait CacheKey: View + Sized {
    /// Deep equality of descriptor values.
    fn key_eq(&self, other: &Self) -> (r: bool)
        ensures
            r == (self@ == other@),
    ;

    /// A copy with the same value.
    fn dup(&self) -> (r: Self)
        ensures
            r@ == self@,
    ;
}

impl CacheKey for String {
    fn key_eq(&self, other: &Self) -> (r: bool)
        ensures
            r == (self@ == other@),
    {
        *self == *other
    }

    fn dup(&self) -> (r: Self)
        ensures
            r@ == self@,
    {
        self.clone()
    }
}

/// The model of one cache slot: instance id, strong count, and the
/// resource value while the instance is alive.
pub struct EntryModel<RV> {
    pub id: int,
    pub strong: int,
    pub data: Option<RV>,
}

/// A slot holds a live instance for descriptor `d`.
pub open spec fn live_at<DV, RV>(t: Map<DV, EntryModel<RV>>, d: DV) -> bool {
    t.contains_key(d) && t[d].strong > 0
}

/// The strong count recorded for `d` (zero when `d` has no slot).
pub open spec fn strong_at<DV, RV>(t: Map<DV, EntryModel<RV>>, d: DV) -> int {
    if t.contains_key(d) {
        t[d].strong
    } else {
        0
    }
}

/// Some live slot carries instance id `id`.
pub open spec fn has_live_id<DV, RV>(t: Map<DV, EntryModel<RV>>, id: int) -> bool {
    exists|d: DV| #![auto] live_at(t, d) && t[d].id == id
}

/// The descriptor whose live slot carries instance id `id`.
pub open spec fn owner_of<DV, RV>(t: Map<DV, EntryModel<RV>>, id: int) -> DV {
    choose|d: DV| #![auto] live_at(t, d) && t[d].id == id
}

/// A well-formed table: distinct slots carry distinct instance ids, ids
/// stay below the next fresh id, and exactly the live slots hold data.
pub open spec fn wf_table<DV, RV>(t: Map<DV, EntryModel<RV>>, next: int) -> bool {
    &&& 0 <= next
    &&& forall|d1: DV, d2: DV|
        #![trigger t[d1], t[d2]]
        t.contains_key(d1) && t.contains_key(d2) && d1 != d2 ==> t[d1].id != t[d2].id
    &&& forall|d: DV| #![trigger t[d]]
        t.contains_key(d) ==> 0 <= t[d].strong && 0 <= t[d].id < next
    &&& forall|d: DV| #![trigger t[d]] t.contains_key(d) ==> (t[d].strong > 0 <==> t[d].data is Some)
}

/// What one successful acquire does to the table.
///
/// A hit returns the live instance and bumps its strong count; a miss
/// installs `data` as a fresh instance under the next id.
pub open spec fn acquire_post<DV, RV>(
    t0: Map<DV, EntryModel<RV>>,
    n0: int,
    d: DV,
    t1: Map<DV, EntryModel<RV>>,
    n1: int,
    h: int,
    data: RV,
) -> bool {
    if live_at(t0, d) {
        &&& h == t0[d].id
        &&& t0[d].data == Some(data)
        &&& t1 == t0.insert(
            d,
            EntryModel { id: t0[d].id, strong: t0[d].strong + 1, data: t0[d].data },
        )
        &&& n1 == n0
    } else {
        &&& h == n0
        &&& t1 == t0.insert(d, EntryModel { id: n0, strong: 1, data: Some(data) })
        &&& n1 == n0 + 1
    }
}

/// What releasing the handle with id `id` does to the table: the owning
/// live slot loses one strong reference, and loses its data when the
/// count reaches zero; a stale or unknown id changes nothing.
pub open spec fn release_post<DV, RV>(
    t0: Map<DV, EntryModel<RV>>,
    n0: int,
    t1: Map<DV, EntryModel<RV>>,
    n1: int,
    id: int,
) -> bool {
    &&& n1 == n0
    &&& if has_live_id(t0, id) {
        let d = owner_of(t0, id);
        t1 == t0.insert(
            d,
            EntryModel {
                id: t0[d].id,
                strong: t0[d].strong - 1,
                data: if t0[d].strong == 1 {
                    None
                } else {
                    t0[d].data
                },
            },
        )
    } else {
        t1 == t0
    }
}

/// Acquire preserves table well-formedness.
pub proof fn lemma_acquire_preserves_wf<DV, RV>(
    t0: Map<DV, EntryModel<RV>>,
    n0: int,
    d: DV,
    t1: Map<DV, EntryModel<RV>>,
    n1: int,
    h: int,
    data: RV,
)
    requires
        wf_table(t0, n0),
        acquire_post(t0, n0, d, t1, n1, h, data),
    ensures
        wf_table(t1, n1),
{
    if live_at(t0, d) {
        assert forall|d1: DV, d2: DV|
            t1.contains_key(d1) && t1.contains_key(d2) && d1 != d2 implies #[trigger] t1[d1].id
            != #[trigger] t1[d2].id by {
            assert(t1[d1].id == t0[d1].id);
            assert(t1[d2].id == t0[d2].id);
        }
    } else {
        assert forall|d1: DV, d2: DV|
            t1.contains_key(d1) && t1.contains_key(d2) && d1 != d2 implies #[trigger] t1[d1].id
            != #[trigger] t1[d2].id by {
            if d1 != d && d2 != d {
                assert(t1[d1].id == t0[d1].id);
                assert(t1[d2].id == t0[d2].id);
            } else if d1 == d {
                assert(t1[d2].id == t0[d2].id < n0);
            } else {
                assert(t1[d1].id == t0[d1].id < n0);
            }
        }
    }
    assert forall|dd: DV| t1.contains_key(dd) implies 0 <= #[trigger] t1[dd].strong && 0
        <= t1[dd].id < n1 by {
        if dd != d {
            assert(t1[dd] == t0[dd]);
        } else if live_at(t0, d) {
            assert(0 <= t0[d].strong && 0 <= t0[d].id < n0);
        }
    }
    assert forall|dd: DV| t1.contains_key(dd) implies (#[trigger] t1[dd].strong > 0 <==> t1[dd].data
        is Some) by {
        if dd != d {
            assert(t1[dd] == t0[dd]);
        } else if live_at(t0, d) {
            assert(t0[d].data is Some);
        }
    }
}

/// Releasing the handle an acquire just returned restores every strong
/// count to what it was before the acquire.
pub proof fn lemma_acquire_release_strongs<DV, RV>(
    t0: Map<DV, EntryModel<RV>>,
    n0: int,
    d: DV,
    t1: Map<DV, EntryModel<RV>>,
    n1: int,
    h: int,
    data: RV,
    t2: Map<DV, EntryModel<RV>>,
    n2: int,
)
    requires
        wf_table(t0, n0),
        acquire_post(t0, n0, d, t1, n1, h, data),
        release_post(t1, n1, t2, n2, h),
    ensures
        forall|dv: DV| #[trigger] strong_at(t2, dv) == strong_at(t0, dv),
{
    lemma_acquire_preserves_wf(t0, n0, d, t1, n1, h, data);
    assert(live_at(t1, d) && t1[d].id == h);
    assert(has_live_id(t1, h));
    let dw = owner_of(t1, h);
    assert(live_at(t1, dw) && t1[dw].id == h);
    assert(dw == d);
    assert forall|dv: DV| #[trigger] strong_at(t2, dv) == strong_at(t0, dv) by {
        if dv != d {
            assert(t2[dv] == t1[dv]);
        }
    }
}

/// Descriptor discrimination: acquiring two distinct descriptors, one
/// after the other, never yields handles to the same instance.
pub proof fn lemma_descriptor_discrimination<DV, RV>(
    t0: Map<DV, EntryModel<RV>>,
    n0: int,
    d1: DV,
    d2: DV,
    t1: Map<DV, EntryModel<RV>>,
    n1: int,
    h1: int,
    data1: RV,
    t2: Map<DV, EntryModel<RV>>,
    n2: int,
    h2: int,
    data2: RV,
)
    requires
        wf_table(t0, n0),
        d1 != d2,
        acquire_post(t0, n0, d1, t1, n1, h1, data1),
        acquire_post(t1, n1, d2, t2, n2, h2, data2),
    ensures
        h1 != h2,
{
    lemma_acquire_preserves_wf(t0, n0, d1, t1, n1, h1, data1);
    if live_at(t0, d1) {
        if live_at(t1, d2) {
            assert(t1[d1].id == t0[d1].id);
            assert(h2 == t1[d2].id);
        }
    } else {
        if live_at(t1, d2) {
            assert(h2 == t1[d2].id == t0[d2].id < n0 == h1);
        }
    }
}

/// The descriptor-keyed store itself: four parallel columns, one row per
/// slot, plus the next fresh instance id.
pub struct Cache<D, R> {
    pub descriptors: Vec<D>,
    pub ids: Vec<u64>,
    pub strongs: Vec<u64>,
    pub resources: Vec<Option<R>>,
    pub next_id: u64,
}

impl<D: CacheKey, R: View> Cache<D, R> {
    /// The four columns have one row each per slot.
    pub open spec fn len_ok(self) -> bool {
        &&& self.ids@.len() == self.descriptors@.len()
        &&& self.strongs@.len() == self.descriptors@.len()
        &&& self.resources@.len() == self.descriptors@.len()
    }

    /// The model of row `i`.
    pub open spec fn model_at(self, i: int) -> EntryModel<R::V> {
        EntryModel {
            id: self.ids@[i] as int,
            strong: self.strongs@[i] as int,
            data: match self.resources@[i] {
                Some(r) => Some(r@),
                None => None,
            },
        }
    }

    /// The table built from the first `k` rows.
    pub open spec fn table_prefix(self, k: int) -> Map<D::V, EntryModel<R::V>>
        decreases k,
    {
        if k <= 0 {
            Map::empty()
        } else {
            self.table_prefix(k - 1).insert(self.descriptors@[k - 1]@, self.model_at(k - 1))
        }
    }

    /// The table model of the whole store.
    pub open spec fn table(self) -> Map<D::V, EntryModel<R::V>> {
        self.table_prefix(self.descriptors@.len() as int)
    }

    pub open spec fn next(self) -> int {
        self.next_id as int
    }

    /// Rows carry pairwise distinct descriptors.
    pub open spec fn distinct_keys(self) -> bool {
        forall|i: int, j: int|
            0 <= i < j < self.descriptors@.len() ==> (#[trigger] self.descriptors@[i])@ != (
            #[trigger] self.descriptors@[j])@
    }

    /// Well-formed store: equal columns, distinct descriptors, distinct
    /// ids below `next_id`, and data exactly on live rows.
    pub open spec fn wf(self) -> bool {
        &&& self.len_ok()
        &&& self.distinct_keys()
        &&& forall|i: int, j: int|
            0 <= i < j < self.descriptors@.len() ==> (#[trigger] self.ids@[i]) != (
            #[trigger] self.ids@[j])
        &&& forall|i: int|
            0 <= i < self.descriptors@.len() ==> (#[trigger] self.ids@[i]) < self.next_id
        &&& forall|i: int|
            0 <= i < self.descriptors@.len() ==> ((#[trigger] self.strongs@[i]) > 0
                <==> self.resources@[i] is Some)
    }

    /// An empty store.
    pub fn new() -> (c: Cache<D, R>)
        ensures
            c.wf(),
            c.table() == Map::<D::V, EntryModel<R::V>>::empty(),
            c.next() == 0,
    {
        Cache {
            descriptors: Vec::new(),
            ids: Vec::new(),
            strongs: Vec::new(),
            resources: Vec::new(),
            next_id: 0,
        }
    }

    /// Row `i` appears in every prefix table beyond it, with its model.
    proof fn lemma_prefix_contains(self, k: int, i: int)
        requires
            self.len_ok(),
            self.distinct_keys(),
            0 <= i < k <= self.descriptors@.len(),
        ensures
            self.table_prefix(k).contains_key(self.descriptors@[i]@),
            self.table_prefix(k)[self.descriptors@[i]@] == self.model_at(i),
        decreases k,
    {
        if k - 1 > i {
            self.lemma_prefix_contains(k - 1, i);
        }
    }

    /// Every key of a prefix table comes from one of its rows.
    proof fn lemma_prefix_domain(self, k: int)
        requires
            self.len_ok(),
            0 <= k <= self.descriptors@.len(),
        ensures
            forall|dv: <D as View>::V|
                self.table_prefix(k).contains_key(dv) ==> exists|i: int|
                    0 <= i < k && (#[trigger] self.descriptors@[i])@ == dv,
        decreases k,
    {
        if k > 0 {
            self.lemma_prefix_domain(k - 1);
            assert forall|dv: <D as View>::V| self.table_prefix(k).contains_key(dv) implies exists|
                i: int,
            | 0 <= i < k && (#[trigger] self.descriptors@[i])@ == dv by {
                if dv == self.descriptors@[k - 1]@ {
                    assert(0 <= k - 1 < k && self.descriptors@[k - 1]@ == dv);
                } else {
                    assert(self.table_prefix(k - 1).contains_key(dv));
                }
            }
        }
    }

    /// Stores that agree on their first `k` rows have the same prefix table.
    proof fn lemma_prefix_agree(c0: Self, c1: Self, k: int)
        requires
            c0.len_ok(),
            c1.len_ok(),
            0 <= k <= c0.descriptors@.len(),
            k <= c1.descriptors@.len(),
            forall|j: int|
                0 <= j < k ==> (#[trigger] c1.descriptors@[j])@ == c0.descriptors@[j]@
                    && c1.model_at(j) == c0.model_at(j),
        ensures
            c1.table_prefix(k) == c0.table_prefix(k),
        decreases k,
    {
        if k > 0 {
            Self::lemma_prefix_agree(c0, c1, k - 1);
        }
    }

    /// Replacing row `i` (same descriptor) inserts its new model.
    proof fn lemma_table_update(c0: Self, c1: Self, i: int, k: int)
        requires
            c0.len_ok(),
            c1.len_ok(),
            c0.distinct_keys(),
            c0.descriptors@.len() == c1.descriptors@.len(),
            0 <= i < k <= c0.descriptors@.len(),
            forall|j: int|
                0 <= j < c0.descriptors@.len() && j != i ==> (#[trigger] c1.descriptors@[j])@
                    == c0.descriptors@[j]@ && c1.model_at(j) == c0.model_at(j),
            c1.descriptors@[i]@ == c0.descriptors@[i]@,
        ensures
            c1.table_prefix(k) == c0.table_prefix(k).insert(
                c0.descriptors@[i]@,
                c1.model_at(i),
            ),
        decreases k,
    {
        if k == i + 1 {
            Self::lemma_prefix_agree(c0, c1, i);
            assert(c1.table_prefix(k) =~= c0.table_prefix(k).insert(
                c0.descriptors@[i]@,
                c1.model_at(i),
            ));
        } else {
            Self::lemma_table_update(c0, c1, i, k - 1);
            assert(c0.descriptors@[k - 1]@ != c0.descriptors@[i]@);
            assert(c1.table_prefix(k) =~= c0.table_prefix(k).insert(
                c0.descriptors@[i]@,
                c1.model_at(i),
            ));
        }
    }

    /// Appending a row inserts its model under its descriptor.
    proof fn lemma_table_push(c0: Self, c1: Self)
        requires
            c0.len_ok(),
            c1.len_ok(),
            c1.descriptors@.len() == c0.descriptors@.len() + 1,
            forall|j: int|
                0 <= j < c0.descriptors@.len() ==> (#[trigger] c1.descriptors@[j])@
                    == c0.descriptors@[j]@ && c1.model_at(j) == c0.model_at(j),
        ensures
            c1.table() == c0.table().insert(
                c1.descriptors@[c0.descriptors@.len() as int]@,
                c1.model_at(c0.descriptors@.len() as int),
            ),
    {
        let n = c0.descriptors@.len() as int;
        Self::lemma_prefix_agree(c0, c1, n);
        assert(c1.table_prefix(n + 1) == c1.table_prefix(n).insert(
            c1.descriptors@[n]@,
            c1.model_at(n),
        ));
    }

    /// A well-formed store has a well-formed table model.
    pub proof fn lemma_wf_table(self)
        requires
            self.wf(),
        ensures
            wf_table(self.table(), self.next()),
    {
        let t = self.table();
        let n = self.descriptors@.len() as int;
        self.lemma_prefix_domain(n);
        assert forall|d1: <D as View>::V, d2: <D as View>::V|
            t.contains_key(d1) && t.contains_key(d2) && d1 != d2 implies #[trigger] t[d1].id
            != #[trigger] t[d2].id by {
            let i = choose|i: int| 0 <= i < n && (#[trigger] self.descriptors@[i])@ == d1;
            let j = choose|j: int| 0 <= j < n && (#[trigger] self.descriptors@[j])@ == d2;
            self.lemma_prefix_contains(n, i);
            self.lemma_prefix_contains(n, j);
        }
        assert forall|d: <D as View>::V| t.contains_key(d) implies 0 <= #[trigger] t[d].strong && 0
            <= t[d].id < self.next() by {
            let i = choose|i: int| 0 <= i < n && (#[trigger] self.descriptors@[i])@ == d;
            self.lemma_prefix_contains(n, i);
        }
        assert forall|d: <D as View>::V| t.contains_key(d) implies (#[trigger] t[d].strong > 0
            <==> t[d].data is Some) by {
            let i = choose|i: int| 0 <= i < n && (#[trigger] self.descriptors@[i])@ == d;
            self.lemma_prefix_contains(n, i);
        }
    }

    /// Find the row holding descriptor `d`, if any.
    fn find(&self, d: &D) -> (r: Option<usize>)
        requires
            self.wf(),
        ensures
            match r {
                Some(i) => {
                    &&& i < self.descriptors@.len()
                    &&& self.descriptors@[i as int]@ == d@
                    &&& self.table().contains_key(d@)
                    &&& self.table()[d@] == self.model_at(i as int)
                },
                None => !self.table().contains_key(d@),
            },
    {
        let n = self.descriptors.len();
        let mut i: usize = 0;
        while i < n
            invariant
                self.wf(),
                n == self.descriptors@.len(),
                0 <= i <= n,
                forall|j: int| 0 <= j < i ==> (#[trigger] self.descriptors@[j])@ != d@,
            decreases n - i,
        {
            if self.descriptors[i].key_eq(d) {
                proof {
                    self.lemma_prefix_contains(self.descriptors@.len() as int, i as int);
                }
                return Some(i);
            }
            i = i + 1;
        }
        proof {
            self.lemma_prefix_domain(self.descriptors@.len() as int);
        }
        None
    }

    /// Find the row holding the live instance with id `id`, if any.
    fn find_live_id(&self, id: u64) -> (r: Option<usize>)
        requires
            self.wf(),
        ensures
            match r {
                Some(i) => {
                    &&& i < self.descriptors@.len()
                    &&& self.strongs@[i as int] > 0
                    &&& self.ids@[i as int] == id
                    &&& has_live_id(self.table(), id as int)
                    &&& owner_of(self.table(), id as int) == self.descriptors@[i as int]@
                },
                None => !has_live_id(self.table(), id as int),
            },
    {
        let n = self.descriptors.len();
        let mut i: usize = 0;
        while i < n
            invariant
                self.wf(),
                n == self.descriptors@.len(),
                0 <= i <= n,
                forall|j: int| 0 <= j < i ==> !((#[trigger] self.strongs@[j]) > 0 && self.ids@[j] == id),
            decreases n - i,
        {
            if self.strongs[i] > 0 && self.ids[i] == id {
                proof {
                    self.lemma_prefix_contains(self.descriptors@.len() as int, i as int);
                    let dv = self.descriptors@[i as int]@;
                    assert(live_at(self.table(), dv) && self.table()[dv].id == id as int);
                    let dw = owner_of(self.table(), id as int);
                    assert(live_at(self.table(), dw) && self.table()[dw].id == id as int);
                    if dw != dv {
                        self.lemma_prefix_domain(self.descriptors@.len() as int);
                        let j = choose|j: int|
                            0 <= j < self.descriptors@.len() && (#[trigger] self.descriptors@[j])@
                                == dw;
                        self.lemma_prefix_contains(self.descriptors@.len() as int, j);
                        assert(self.ids@[j] == self.ids@[i as int]);
                    }
                }
                return Some(i);
            }
            i = i + 1;
        }
        proof {
            if has_live_id(self.table(), id as int) {
                let dw = owner_of(self.table(), id as int);
                assert(live_at(self.table(), dw) && self.table()[dw].id == id as int);
                self.lemma_prefix_domain(self.descriptors@.len() as int);
                let j = choose|j: int|
                    0 <= j < self.descriptors@.len() && (#[trigger] self.descriptors@[j])@ == dw;
                self.lemma_prefix_contains(self.descriptors@.len() as int, j);
            }
        }
        None
    }

    /// Return a new strong reference to `d`'s live instance, if one exists;
    /// the miss case changes nothing and the caller installs a fresh
    /// resource with `install`.
    pub fn acquire_live(&mut self, d: &D) -> (r: Option<Handle>)
        requires
            old(self).wf(),
            strong_at(old(self).table(), d@) < u64::MAX,
        ensures
            final(self).wf(),
            final(self).next() == old(self).next(),
            match r {
                Some(h) => {
                    &&& live_at(old(self).table(), d@)
                    &&& acquire_post(
                        old(self).table(),
                        old(self).next(),
                        d@,
                        final(self).table(),
                        final(self).next(),
                        h.id as int,
                        old(self).table()[d@].data->0,
                    )
                },
                None => {
                    &&& !live_at(old(self).table(), d@)
                    &&& *final(self) == *old(self)
                },
            },
    {
        let ghost c0 = *self;
        match self.find(d) {
            Some(i) => {
                if self.strongs[i] > 0 {
                    let id = self.ids[i];
                    self.strongs[i] = self.strongs[i] + 1;
                    proof {
                        Self::lemma_table_update(
                            c0,
                            *self,
                            i as int,
                            self.descriptors@.len() as int,
                        );
                    }
                    Some(Handle { id })
                } else {
                    proof {
                        assert(*self =~= c0);
                    }
                    None
                }
            },
            None => None,
        }
    }

    /// Install a fresh instance of `resource` for `d`, which must have no
    /// live instance; a stale slot for `d` is replaced, otherwise a new
    /// slot is appended.
    pub fn install(&mut self, d: D, resource: R) -> (h: Handle)
        requires
            old(self).wf(),
            !live_at(old(self).table(), d@),
            old(self).next() < u64::MAX,
        ensures
            final(self).wf(),
            acquire_post(
                old(self).table(),
                old(self).next(),
                d@,
                final(self).table(),
                final(self).next(),
                h.id as int,
                resource@,
            ),
    {
        let ghost c0 = *self;
        let id = self.next_id;
        match self.find(&d) {
            Some(i) => {
                self.ids[i] = id;
                self.strongs[i] = 1;
                self.resources[i] = Some(resource);
                self.next_id = self.next_id + 1;
                proof {
                    Self::lemma_table_update(c0, *self, i as int, self.descriptors@.len() as int);
                }
                Handle { id }
            },
            None => {
                self.descriptors.push(d);
                self.ids.push(id);
                self.strongs.push(1);
                self.resources.push(Some(resource));
                self.next_id = self.next_id + 1;
                proof {
                    Self::lemma_table_push(c0, *self);
                    let n = c0.descriptors@.len() as int;
                    assert forall|a: int, b: int|
                        0 <= a < b < self.descriptors@.len() implies (
                    #[trigger] self.descriptors@[a])@ != (#[trigger] self.descriptors@[b])@ by {
                        if b == n {
                            c0.lemma_prefix_domain(n);
                            if self.descriptors@[a]@ == self.descriptors@[b]@ {
                                c0.lemma_prefix_contains(n, a);
                            }
                        }
                    }
                }
                Handle { id }
            },
        }
    }

    /// Drop one strong reference to the instance named by `h`.
    pub fn release(&mut self, h: Handle)
        requires
            old(self).wf(),
        ensures
            final(self).wf(),
            release_post(
                old(self).table(),
                old(self).next(),
                final(self).table(),
                final(self).next(),
                h.id as int,
            ),
    {
        let ghost c0 = *self;
        match self.find_live_id(h.id) {
            Some(i) => {
                proof {
                    c0.lemma_prefix_contains(c0.descriptors@.len() as int, i as int);
                }
                let s = self.strongs[i];
                self.strongs[i] = s - 1;
                if s == 1 {
                    self.resources[i] = None;
                }
                proof {
                    Self::lemma_table_update(c0, *self, i as int, self.descriptors@.len() as int);
                }
            },
            None => {
            },
        }
    }

    /// Read the resource of the live instance named by `h`.
    pub fn get(&self, h: Handle) -> (r: Option<&R>)
        requires
            self.wf(),
        ensures
            match r {
                Some(res) => {
                    &&& has_live_id(self.table(), h.id as int)
                    &&& res@ == self.table()[owner_of(self.table(), h.id as int)].data->0
                },
                None => !has_live_id(self.table(), h.id as int),
            },
    {
        match self.find_live_id(h.id) {
            Some(i) => {
                proof {
                    self.lemma_prefix_contains(self.descriptors@.len() as int, i as int);
                }
                self.resources[i].as_ref()
            },
            None => None,
        }
    }

    /// The strong count currently recorded for `d`.
    pub fn strong_count(&self, d: &D) -> (r: u64)
        requires
            self.wf(),
        ensures
            r == strong_at(self.table(), d@),
    {
        match self.find(d) {
            Some(i) => self.strongs[i],
            None => 0,
        }
    }
}

} // verus!
