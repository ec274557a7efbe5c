//! Bounded session cache with least-recently-used eviction.
//!
//! The host keeps one embedded-engine session per logical database. The
//! cache maps a database identifier to a session handle (an opaque token the
//! caller associates with the real session) and maintains a recency order:
//! the entry at the front is the least recently used, the entry at the back
//! the most recently used. At most `capacity` entries are ever held; an
//! insertion at capacity evicts the least recently used entry first.

use vstd::prelude::*;

verus! {

/// The recency-ordered entries of a cache model: front is least recently
/// used, back is most recently used.
pub open spec fn model_keys(s: Seq<(u32, u64)>) -> Seq<u32> {
    s.map_values(|p: (u32, u64)| p.0)
}

/// Whether some entry of `s` has key `id`.
pub open spec fn has_key(s: Seq<(u32, u64)>, id: u32) -> bool {
    exists|i: int| 0 <= i < s.len() && s[i].0 == id
}

/// The index of the entry with key `id` (meaningful only when `has_key`
/// holds and keys are distinct).
pub open spec fn key_index(s: Seq<(u32, u64)>, id: u32) -> int {
    choose|i: int| 0 <= i < s.len() && s[i].0 == id
}

/// Entry keys are pairwise distinct.
pub open spec fn distinct_keys(s: Seq<(u32, u64)>) -> bool {
    forall|i: int, j: int| 0 <= i < j < s.len() ==> s[i].0 != s[j].0
}

/// A well-formed cache model: distinct keys, within capacity.
pub open spec fn wf_model(s: Seq<(u32, u64)>, cap: nat) -> bool {
    &&& 1 <= cap
    &&& s.len() <= cap
    &&& distinct_keys(s)
}

/// The model of a lookup hit: the entry moves to the most-recently-used
/// position; everything else keeps its relative order.
pub open spec fn spec_touch(s: Seq<(u32, u64)>, id: u32) -> Seq<(u32, u64)> {
    if has_key(s, id) {
        let i = key_index(s, id);
        s.remove(i).push((id, s[i].1))
    } else {
        s
    }
}

/// The model of inserting a fresh key: at capacity the least recently used
/// entry (the front) leaves first.
pub open spec fn spec_insert(s: Seq<(u32, u64)>, cap: nat, id: u32, handle: u64) -> (
    Seq<(u32, u64)>,
    Option<(u32, u64)>,
) {
    if s.len() >= cap {
        (s.skip(1).push((id, handle)), Some(s[0]))
    } else {
        (s.push((id, handle)), None)
    }
}

/// One `acquire` step on the model: a present key is touched, an absent key
/// is inserted (with `fresh` as its handle), evicting under pressure.
pub open spec fn spec_acquire(s: Seq<(u32, u64)>, cap: nat, id: u32, fresh: u64) -> (
    Seq<(u32, u64)>,
    Option<(u32, u64)>,
) {
    if has_key(s, id) {
        (spec_touch(s, id), None)
    } else {
        spec_insert(s, cap, id, fresh)
    }
}

/// A run of `acquire` steps over a sequence of database identifiers, all
/// misses supplied with handle 0 (the handle value is irrelevant to the
/// ordering and capacity behaviour).
pub open spec fn spec_run(s: Seq<(u32, u64)>, cap: nat, ids: Seq<u32>) -> Seq<(u32, u64)>
    decreases ids.len(),
{
    if ids.len() == 0 {
        s
    } else {
        spec_run(spec_acquire(s, cap, ids[0], 0).0, cap, ids.skip(1))
    }
}

/// The reference capacity of the session cache: one engine session per
/// logical database, for up to this many databases at once.
pub const DEFAULT_SESSION_CACHE_CAPACITY: usize = 128;

/// Bounded key-to-handle cache with strict least-recently-used eviction.
pub struct SessionCache {
    capacity: usize,
    entries: Vec<(u32, u64)>,
}

impl SessionCache {
    /// The recency-ordered entries, least recently used first.
    pub closed spec fn model(&self) -> Seq<(u32, u64)> {
        self.entries@
    }

    /// The configured capacity.
    pub closed spec fn cap(&self) -> nat {
        self.capacity as nat
    }

    /// Structural invariant: distinct keys, never more than `capacity`
    /// entries.
    pub open spec fn inv(&self) -> bool {
        wf_model(self.model(), self.cap())
    }

    pub fn new(capacity: usize) -> (r: Self)
        requires
            1 <= capacity,
        ensures
            r.inv(),
            r.model() == Seq::<(u32, u64)>::empty(),
            r.cap() == capacity,
    {
        let r = SessionCache { capacity, entries: Vec::new() };
        proof {
            assert(r.model() =~= Seq::<(u32, u64)>::empty());
        }
        r
    }

    /// The number of cached sessions.
    pub fn len(&self) -> (r: usize)
        ensures
            r == self.model().len(),
    {
        self.entries.len()
    }

    /// The index of the entry with key `id`, if present.
    fn find(&self, id: u32) -> (r: Option<usize>)
        ensures
            match r {
                Some(i) => i < self.model().len() && self.model()[i as int].0 == id,
                None => !has_key(self.model(), id),
            },
    {
        let n = self.entries.len();
        let mut i: usize = 0;
        while i < n
            invariant
                i <= n,
                n == self.model().len(),
                forall|j: int| 0 <= j < i ==> self.model()[j].0 != id,
            decreases n - i,
        {
            if self.entries[i].0 == id {
                return Some(i);
            }
            i = i + 1;
        }
        None
    }

    /// Whether a session for `id` is cached.
    pub fn contains(&self, id: u32) -> (r: bool)
        ensures
            r == has_key(self.model(), id),
    {
        self.find(id).is_some()
    }

    /// Looks up `id` and, on a hit, moves it to the most-recently-used
    /// position and returns its handle. A miss leaves the cache unchanged;
    /// the caller then opens a session and records it with `insert`.
    pub fn acquire(&mut self, id: u32) -> (r: Option<u64>)
        requires
            old(self).inv(),
        ensures
            final(self).inv(),
            final(self).cap() == old(self).cap(),
            final(self).model() == spec_touch(old(self).model(), id),
            match r {
                Some(h) => has_key(old(self).model(), id) && h == old(self).model()[
                    key_index(old(self).model(), id)
                ].1,
                None => !has_key(old(self).model(), id),
            },
    {
        proof {
            lemma_touch_wf(self.model(), self.cap(), id);
        }
        match self.find(id) {
            Some(i) => {
                let entry = self.entries[i];
                let ghost s = self.model();
                proof {
                    assert(has_key(s, id));
                    lemma_key_index_unique(s, id, i as int);
                }
                self.entries.remove(i);
                self.entries.push(entry);
                Some(entry.1)
            },
            None => None,
        }
    }

    /// Records a freshly opened session for a key that is not cached. At
    /// capacity the least recently used entry is removed first and returned
    /// so the caller can close its session.
    pub fn insert(&mut self, id: u32, handle: u64) -> (evicted: Option<(u32, u64)>)
        requires
            old(self).inv(),
            !has_key(old(self).model(), id),
        ensures
            final(self).inv(),
            final(self).cap() == old(self).cap(),
            (final(self).model(), evicted) == spec_insert(
                old(self).model(),
                old(self).cap(),
                id,
                handle,
            ),
    {
        proof {
            lemma_insert_wf(self.model(), self.cap(), id, handle);
        }
        let evicted = if self.entries.len() >= self.capacity {
            Some(self.entries.remove(0))
        } else {
            None
        };
        self.entries.push((id, handle));
        evicted
    }

    /// The cached handles in recency order (least recently used first), for
    /// the caller to walk when every in-flight session must be interrupted.
    pub fn handles(&self) -> (r: Vec<u64>)
        ensures
            r@ == self.model().map_values(|p: (u32, u64)| p.1),
    {
        let mut r: Vec<u64> = Vec::new();
        let n = self.entries.len();
        let mut i: usize = 0;
        while i < n
            invariant
                i <= n,
                n == self.model().len(),
                r@ == self.model().take(i as int).map_values(|p: (u32, u64)| p.1),
            decreases n - i,
        {
            r.push(self.entries[i].1);
            proof {
                assert(self.model().take(i + 1 as int) =~= self.model().take(i as int).push(
                    self.model()[i as int],
                ));
                assert(r@ =~= self.model().take(i + 1 as int).map_values(|p: (u32, u64)| p.1));
            }
            i = i + 1;
        }
        proof {
            assert(self.model().take(n as int) =~= self.model());
        }
        r
    }

    /// The cached keys in recency order (least recently used first).
    pub fn keys(&self) -> (r: Vec<u32>)
        ensures
            r@ == model_keys(self.model()),
    {
        let mut r: Vec<u32> = Vec::new();
        let n = self.entries.len();
        let mut i: usize = 0;
        while i < n
            invariant
                i <= n,
                n == self.model().len(),
                r@ == model_keys(self.model().take(i as int)),
            decreases n - i,
        {
            r.push(self.entries[i].0);
            proof {
                assert(self.model().take(i + 1 as int) =~= self.model().take(i as int).push(
                    self.model()[i as int],
                ));
                assert(r@ =~= model_keys(self.model().take(i + 1 as int)));
            }
            i = i + 1;
        }
        proof {
            assert(self.model().take(n as int) =~= self.model());
        }
        r
    }
}

/// `key_index` picks exactly the index where a distinct-keyed model holds
/// `id`.
proof fn lemma_key_index_unique(s: Seq<(u32, u64)>, id: u32, i: int)
    requires
        distinct_keys(s),
        0 <= i < s.len(),
        s[i].0 == id,
    ensures
        key_index(s, id) == i,
{
    assert(has_key(s, id));
    let j = key_index(s, id);
    assert(0 <= j < s.len() && s[j].0 == id);
    if i < j {
        assert(s[i].0 != s[j].0);
        assert(false);
    } else if j < i {
        assert(s[j].0 != s[i].0);
        assert(false);
    }
}

/// Touching preserves well-formedness, the set of keys, and the length.
pub proof fn lemma_touch_wf(s: Seq<(u32, u64)>, cap: nat, id: u32)
    requires
        wf_model(s, cap),
    ensures
        wf_model(spec_touch(s, id), cap),
        spec_touch(s, id).len() == s.len(),
        forall|k: u32| has_key(spec_touch(s, id), k) == has_key(s, k),
{
    if has_key(s, id) {
        let i = key_index(s, id);
        assert(0 <= i < s.len() && s[i].0 == id);
        let t = s.remove(i).push((id, s[i].1));
        assert forall|p: int, q: int| 0 <= p < q < t.len() implies t[p].0 != t[q].0 by {
            lemma_remove_keeps(s, i, p);
            if q < t.len() - 1 {
                lemma_remove_keeps(s, i, q);
            }
        }
        assert forall|k: u32| has_key(t, k) implies has_key(s, k) by {
            let p = choose|p: int| 0 <= p < t.len() && t[p].0 == k;
            if p < t.len() - 1 {
                lemma_remove_keeps(s, i, p);
            }
        }
        assert forall|k: u32| has_key(s, k) implies has_key(t, k) by {
            let p = choose|p: int| 0 <= p < s.len() && s[p].0 == k;
            if p == i {
                assert(t[t.len() - 1].0 == k);
            } else if p < i {
                assert(t[p] == s[p]);
            } else {
                assert(t[p - 1] == s[p]);
            }
        }
    }
}

/// Relates the entries of `s.remove(i)` back to `s`.
proof fn lemma_remove_keeps(s: Seq<(u32, u64)>, i: int, p: int)
    requires
        0 <= i < s.len(),
        0 <= p < s.len() - 1,
    ensures
        s.remove(i)[p] == (if p < i {
            s[p]
        } else {
            s[p + 1]
        }),
{
}

/// Inserting a fresh key preserves well-formedness; at capacity the least
/// recently used entry leaves.
pub proof fn lemma_insert_wf(s: Seq<(u32, u64)>, cap: nat, id: u32, handle: u64)
    requires
        wf_model(s, cap),
        !has_key(s, id),
    ensures
        wf_model(spec_insert(s, cap, id, handle).0, cap),
        spec_insert(s, cap, id, handle).0.len() <= cap,
        has_key(spec_insert(s, cap, id, handle).0, id),
{
    let (t, ev) = spec_insert(s, cap, id, handle);
    if s.len() >= cap {
        let u = s.skip(1);
        assert forall|p: int, q: int| 0 <= p < q < t.len() implies t[p].0 != t[q].0 by {
            if q < t.len() - 1 {
                assert(s[p + 1].0 != s[q + 1].0);
            } else {
                assert(t[p] == s[p + 1]);
                assert(s[p + 1].0 != id) by {
                    if s[p + 1].0 == id {
                        assert(has_key(s, id));
                    }
                }
            }
        }
        assert(t[t.len() - 1].0 == id);
    } else {
        assert forall|p: int, q: int| 0 <= p < q < t.len() implies t[p].0 != t[q].0 by {
            if q == t.len() - 1 {
                assert(t[p] == s[p]);
                assert(s[p].0 != id) by {
                    if s[p].0 == id {
                        assert(has_key(s, id));
                    }
                }
            }
        }
        assert(t[t.len() - 1].0 == id);
    }
}

/// One acquire step preserves well-formedness; the cache never exceeds its
/// capacity.
pub proof fn lemma_acquire_wf(s: Seq<(u32, u64)>, cap: nat, id: u32, fresh: u64)
    requires
        wf_model(s, cap),
    ensures
        wf_model(spec_acquire(s, cap, id, fresh).0, cap),
{
    if has_key(s, id) {
        lemma_touch_wf(s, cap, id);
    } else {
        lemma_insert_wf(s, cap, id, fresh);
    }
}

/// Capacity invariant for whole call sequences: however many `acquire`
/// calls are made, over however many distinct database identifiers, a
/// well-formed cache stays well formed and never holds more than `cap`
/// entries.
pub proof fn lemma_run_capacity(s: Seq<(u32, u64)>, cap: nat, ids: Seq<u32>)
    requires
        wf_model(s, cap),
    ensures
        wf_model(spec_run(s, cap, ids), cap),
        spec_run(s, cap, ids).len() <= cap,
    decreases ids.len(),
{
    if ids.len() > 0 {
        lemma_acquire_wf(s, cap, ids[0], 0);
        lemma_run_capacity(spec_acquire(s, cap, ids[0], 0).0, cap, ids.skip(1));
    }
}

/// Strict LRU eviction order: an eviction happens only at capacity, and it
/// removes exactly the least recently used entry (the front of the recency
/// order); the evicted key is never the key just acquired.
pub proof fn lemma_eviction_is_lru(s: Seq<(u32, u64)>, cap: nat, id: u32, fresh: u64)
    requires
        wf_model(s, cap),
    ensures
        match spec_acquire(s, cap, id, fresh).1 {
            Some(ev) => {
                &&& !has_key(s, id)
                &&& s.len() == cap
                &&& ev == s[0]
                &&& ev.0 != id
            },
            None => has_key(s, id) || s.len() < cap,
        },
{
    if !has_key(s, id) && s.len() >= cap {
        assert(s[0].0 != id) by {
            if s[0].0 == id {
                assert(has_key(s, id));
            }
        }
    }
}

/// Reordering on a hit: acquiring an already-cached identifier moves it to
/// the most-recently-used position, and a subsequent capacity-triggered
/// eviction removes some other, less recently used key, never the one just
/// acquired (as long as more than one entry is cached).
pub proof fn lemma_touch_then_evict(s: Seq<(u32, u64)>, cap: nat, id: u32, id2: u32, fresh: u64)
    requires
        wf_model(s, cap),
        has_key(s, id),
        !has_key(s, id2),
        s.len() >= 2,
    ensures
        model_keys(spec_touch(s, id)).last() == id,
        match spec_acquire(spec_touch(s, id), cap, id2, fresh).1 {
            Some(ev) => ev.0 != id,
            None => true,
        },
{
    lemma_touch_wf(s, cap, id);
    let t = spec_touch(s, id);
    let i = key_index(s, id);
    assert(t[t.len() - 1] == (id, s[i].1));
    assert(model_keys(t).last() == id);
    assert(!has_key(t, id2));
    if t.len() >= cap {
        assert(t.len() >= 2);
        assert(t[0].0 != t[t.len() - 1].0);
    }
}

/// A run over one more identifier is one more acquire step after the run.
proof fn lemma_run_snoc(s: Seq<(u32, u64)>, cap: nat, ids: Seq<u32>, x: u32)
    ensures
        spec_run(s, cap, ids.push(x)) == spec_acquire(spec_run(s, cap, ids), cap, x, 0).0,
    decreases ids.len(),
{
    let whole = ids.push(x);
    assert(whole.len() == ids.len() + 1);
    if ids.len() == 0 {
        assert(whole[0] == x);
        assert(whole.skip(1) =~= Seq::<u32>::empty());
        assert(spec_run(s, cap, whole) == spec_run(
            spec_acquire(s, cap, x, 0).0,
            cap,
            whole.skip(1),
        ));
        assert(spec_run(spec_acquire(s, cap, x, 0).0, cap, whole.skip(1)) == spec_acquire(
            s,
            cap,
            x,
            0,
        ).0);
        assert(spec_run(s, cap, ids) == s);
    } else {
        assert(whole[0] == ids[0]);
        assert(whole.skip(1) =~= ids.skip(1).push(x));
        let stepped = spec_acquire(s, cap, ids[0], 0).0;
        assert(spec_run(s, cap, whole) == spec_run(stepped, cap, whole.skip(1)));
        lemma_run_snoc(stepped, cap, ids.skip(1), x);
        assert(spec_run(stepped, cap, ids.skip(1).push(x)) == spec_acquire(
            spec_run(stepped, cap, ids.skip(1)),
            cap,
            x,
            0,
        ).0);
        assert(spec_run(s, cap, ids) == spec_run(stepped, cap, ids.skip(1)));
    }
}

/// The exact content after filling an empty cache with pairwise distinct
/// database identifiers: the cache holds the most recent `cap` of them (all
/// of them while they fit), in acquisition order, so it never exceeds its
/// capacity and the least recently acquired identifiers are exactly the
/// ones no longer present.
pub proof fn lemma_run_keeps_most_recent(cap: nat, ids: Seq<u32>)
    requires
        1 <= cap,
        forall|i: int, j: int| 0 <= i < j < ids.len() ==> ids[i] != ids[j],
    ensures
        model_keys(spec_run(Seq::empty(), cap, ids)) == if ids.len() <= cap {
            ids
        } else {
            ids.skip(ids.len() - cap)
        },
        spec_run(Seq::empty(), cap, ids).len() == if ids.len() <= cap {
            ids.len()
        } else {
            cap
        },
    decreases ids.len(),
{
    let empty = Seq::<(u32, u64)>::empty();
    if ids.len() == 0 {
        assert(model_keys(spec_run(empty, cap, ids)) =~= ids);
    } else {
        let pre = ids.drop_last();
        let x = ids.last();
        assert(ids =~= pre.push(x));
        lemma_run_keeps_most_recent(cap, pre);
        lemma_run_capacity(empty, cap, pre);
        lemma_run_snoc(empty, cap, pre, x);
        let run_pre = spec_run(empty, cap, pre);
        let keys_pre = model_keys(run_pre);
        // the identifier being acquired is fresh: it differs from every
        // earlier one, and every cached key is an earlier one
        assert(!has_key(run_pre, x)) by {
            if has_key(run_pre, x) {
                let i = choose|i: int| 0 <= i < run_pre.len() && run_pre[i].0 == x;
                assert(keys_pre[i] == x);
                if pre.len() <= cap {
                    assert(pre[i] == x);
                    assert(ids[i] != ids[ids.len() - 1]);
                } else {
                    assert(pre.skip(pre.len() - cap)[i] == x);
                    assert(ids[i + pre.len() - cap] != ids[ids.len() - 1]);
                }
                assert(false);
            }
        }
        let stepped = spec_acquire(run_pre, cap, x, 0).0;
        if run_pre.len() >= cap {
            assert(stepped == run_pre.skip(1).push((x, 0u64)));
            assert(model_keys(stepped) =~= keys_pre.skip(1).push(x));
            assert(pre.len() >= cap);
            if pre.len() == cap {
                assert(keys_pre =~= pre.skip(0));
                assert(keys_pre.skip(1).push(x) =~= pre.skip(1).push(x));
                assert(pre.skip(1).push(x) =~= ids.skip(ids.len() - cap));
            } else {
                assert(keys_pre =~= pre.skip(pre.len() - cap));
                assert(keys_pre.skip(1).push(x) =~= pre.skip(pre.len() - cap + 1).push(x));
                assert(pre.skip(pre.len() - cap + 1).push(x) =~= ids.skip(ids.len() - cap));
            }
        } else {
            assert(stepped == run_pre.push((x, 0u64)));
            assert(model_keys(stepped) =~= keys_pre.push(x));
            assert(pre.len() < cap);
            assert(keys_pre.push(x) =~= pre.push(x));
        }
    }
}

} // verus!
