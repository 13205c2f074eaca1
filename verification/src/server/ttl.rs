use std::collections::HashMap;
use vstd::std_specs::hash::spec_hash_map_iter;
use vstd::std_specs::iter::IteratorSpec;
use vstd::prelude::*;

verus! {

broadcast use {vstd::std_specs::hash::group_hash_axioms, vstd::std_specs::hash::axiom_spec_hash_map_iter};

/// When an id was last touched and how long it may stay untouched, in
/// milliseconds
#[derive(Clone, Copy, Debug, PartialEq, Eq, Structural)]
pub struct TtlEntry {
    pub last_touched: u64,
    pub ttl: u64,
}

/// An entry has expired once its time to live has passed since it was last
/// touched
pub open spec fn spec_expired(e: TtlEntry, now: u64) -> bool {
    now >= e.last_touched + e.ttl
}

/// The entries of `m` that have not expired at `now`
pub open spec fn spec_unexpired(m: Map<u32, TtlEntry>, now: u64) -> Map<u32, TtlEntry> {
    m.restrict(m.dom().filter(|id: u32| !spec_expired(m[id], now)))
}

/// The ids of `m` whose entries have expired at `now`
pub open spec fn spec_expired_ids(m: Map<u32, TtlEntry>, now: u64) -> Set<u32> {
    m.dom().filter(|id: u32| spec_expired(m[id], now))
}

/// Tracks ids together with the time each was last touched and how long it
/// may stay untouched
#[derive(Debug)]
pub struct TtlIds {
    entries: HashMap<u32, TtlEntry>,
}

impl TtlIds {
    /// The ids tracked, with their entries
    pub closed spec fn spec_entries(self) -> Map<u32, TtlEntry> {
        self.entries@
    }

    /// No id tracked
    pub fn new() -> (t: Self)
        ensures
            t.spec_entries() == Map::<u32, TtlEntry>::empty(),
    {
        TtlIds { entries: HashMap::new() }
    }

    /// Creates or updates the entry of `id`: touched at `now`, to live `ttl`
    pub fn touch(&mut self, id: u32, ttl: u64, now: u64)
        ensures
            final(self).spec_entries() == old(self).spec_entries().insert(
                id,
                TtlEntry { last_touched: now, ttl },
            ),
    {
        self.entries.insert(id, TtlEntry { last_touched: now, ttl });
    }

    /// Stops tracking `id`
    pub fn remove(&mut self, id: u32)
        ensures
            final(self).spec_entries() == old(self).spec_entries().remove(id),
    {
        self.entries.remove(&id);
    }

    /// The entry of `id`, if it is tracked
    pub fn get(&self, id: u32) -> (r: Option<TtlEntry>)
        ensures
            r is None <==> !self.spec_entries().contains_key(id),
            r matches Some(e) ==> e == self.spec_entries()[id],
    {
        match self.entries.get(&id) {
            Some(e) => Some(*e),
            None => None,
        }
    }

    /// Whether `id` is tracked
    pub fn contains(&self, id: u32) -> (b: bool)
        ensures
            b == self.spec_entries().contains_key(id),
    {
        self.entries.contains_key(&id)
    }

    /// Stops tracking every id whose entry has expired at `now`, and returns
    /// those ids
    pub fn evict(&mut self, now: u64) -> (expired: Vec<u32>)
        ensures
            final(self).spec_entries() == spec_unexpired(old(self).spec_entries(), now),
            expired@.to_set() == spec_expired_ids(old(self).spec_entries(), now),
    {
        let ghost m = self.entries@;
        let mut expired: Vec<u32> = Vec::new();
        for pair in it: self.entries.iter()
            invariant
                m == self.entries@,
                it.seq() == spec_hash_map_iter(&self.entries).remaining(),
                forall|k: u32| #[trigger]
                    expired@.contains(k) ==> m.contains_key(k) && spec_expired(m[k], now),
                forall|i: int|
                    0 <= i < it.index() ==> spec_expired(*(#[trigger] it.seq()[i]).1, now)
                        ==> expired@.contains(*it.seq()[i].0),
        {
            proof {
                let v = spec_hash_map_iter(&self.entries).remaining();
                let i = it.index();
                assert(pair == v[i]);
                assert(m.contains_key(*v[i].0));
                assert(m[*v[i].0] == *v[i].1);
            }
            let ghost before = expired@;
            let (id, entry) = pair;
            if now >= entry.last_touched && now - entry.last_touched >= entry.ttl {
                expired.push(*id);
            }
            proof {
                assert forall|k: u32| #[trigger] expired@.contains(k) implies m.contains_key(k)
                    && spec_expired(m[k], now) by {
                    let j = choose|j: int| 0 <= j < expired@.len() && expired@[j] == k;
                    if j < before.len() {
                        assert(before[j] == k);
                        assert(before.contains(k));
                    }
                }
                assert forall|x: u32| before.contains(x) implies expired@.contains(x) by {
                    let j = choose|j: int| 0 <= j < before.len() && before[j] == x;
                    assert(expired@[j] == x);
                }
                assert(spec_expired(*it.seq()[it.index() as int].1, now) ==> expired@[expired@.len()
                    - 1] == *it.seq()[it.index() as int].0);
            }
        }
        let ghost ex = expired@;
        assert(ex.to_set() =~= spec_expired_ids(m, now)) by {
            assert forall|k: u32| spec_expired_ids(m, now).contains(k) implies ex.to_set().contains(
                k,
            ) by {
                let v = spec_hash_map_iter(&self.entries).remaining();
                assert(v.contains((&k, &m[k])));
                let i = choose|i: int| 0 <= i < v.len() && v[i] == (&k, &m[k]);
                assert(spec_expired(*v[i].1, now));
            }
        }
        let mut j: usize = 0;
        while j < expired.len()
            invariant
                j <= ex.len(),
                expired@ == ex,
                self.entries@ == m.remove_keys(ex.take(j as int).to_set()),
            decreases ex.len() - j,
        {
            let id = expired[j];
            self.entries.remove(&id);
            assert(m.remove_keys(ex.take(j + 1).to_set()) =~= m.remove_keys(
                ex.take(j as int).to_set(),
            ).remove(id)) by {
                assert(ex.take(j + 1) =~= ex.take(j as int).push(id));
                assert(ex.take(j + 1).to_set() =~= ex.take(j as int).to_set().insert(id)) by {
                    ex.take(j as int).lemma_push_to_set_commute(id);
                }
            }
            j += 1;
        }
        assert(ex.take(ex.len() as int) =~= ex);
        assert(self.entries@ =~= spec_unexpired(m, now));
        expired
    }
}

} // verus!
