//! The player deduplicator.
//!
//! Ranking rows arrive three times per player, once per scoring convention.
//! Enrichment work must be issued once per distinct player, so the
//! deduplicator remembers every player id it was offered and reports an id
//! as fresh only the first time.

use vstd::prelude::*;

verus! {

/// The set of player ids already scheduled for enrichment.
#[derive(Debug, Clone)]
pub struct Deduplicator {
    pub seen: Vec<i32>,
}

impl Deduplicator {
    /// The ids kept hold no duplicates, so their number is the number of
    /// distinct players offered.
    pub open spec fn wf(self) -> bool {
        self.seen@.no_duplicates()
    }

    /// The set of ids this deduplicator has been offered.
    pub open spec fn ids(self) -> Set<i32> {
        self.seen@.to_set()
    }

    /// How many distinct ids were offered.
    pub open spec fn spec_len(self) -> nat {
        self.seen@.len()
    }

    pub fn new() -> (r: Deduplicator)
        ensures
            r.wf(),
            r.ids() =~= Set::<i32>::empty(),
            r.spec_len() == 0,
    {
        let r = Deduplicator { seen: Vec::new() };
        proof {
            assert(r.seen@.to_set() =~= Set::<i32>::empty());
        }
        r
    }

    /// Offers an id; reports whether it was fresh, remembering it either
    /// way. A fresh report is what issues an enrichment task.
    #[verifier::loop_isolation(false)]
    pub fn offer(&mut self, id: i32) -> (fresh: bool)
        requires
            old(self).wf(),
        ensures
            final(self).wf(),
            fresh == !old(self).ids().contains(id),
            final(self).ids() == old(self).ids().insert(id),
            final(self).spec_len() == old(self).spec_len() + if fresh {
                1int
            } else {
                0int
            },
    {
        let n = self.seen.len();
        let mut i: usize = 0;
        while i < n
            invariant
                0 <= i <= n == self.seen@.len(),
                forall|j: int| 0 <= j < i ==> self.seen@[j] != id,
            decreases n - i,
        {
            if self.seen[i] == id {
                proof {
                    assert(self.seen@.contains(id));
                    assert(self.seen@.to_set().contains(id));
                    assert(self.ids().insert(id) =~= self.ids());
                }
                return false;
            }
            i = i + 1;
        }
        proof {
            assert(!self.seen@.contains(id));
            assert(!self.seen@.to_set().contains(id));
        }
        let ghost before = self.seen@;
        self.seen.push(id);
        proof {
            assert(self.seen@ =~= before.push(id));
            assert(self.seen@.to_set() =~= before.to_set().insert(id)) by {
                assert forall|x: i32| self.seen@.to_set().contains(x) implies before.to_set().insert(
                    id,
                ).contains(x) by {
                    let k = choose|k: int| 0 <= k < self.seen@.len() && self.seen@[k] == x;
                    if k < before.len() {
                        assert(before[k] == x);
                    }
                }
                assert forall|x: i32|
                    before.to_set().insert(id).contains(x) implies self.seen@.to_set().contains(
                    x,
                ) by {
                    if x == id {
                        assert(self.seen@[before.len() as int] == id);
                    } else {
                        let k = choose|k: int| 0 <= k < before.len() && before[k] == x;
                        assert(self.seen@[k] == x);
                    }
                }
            }
            assert(before.push(id).drop_last() =~= before);
        }
        true
    }

    /// The number of distinct players offered so far, which is the number of
    /// enrichment tasks issued when every fresh report became one.
    pub fn len(&self) -> (r: usize)
        ensures
            r == self.spec_len(),
    {
        self.seen.len()
    }

    /// The count kept is exactly the cardinality of the id set: offering a
    /// player a second or third time adds nothing.
    pub proof fn lemma_len_is_distinct_count(self)
        requires
            self.wf(),
        ensures
            self.spec_len() == self.ids().len(),
    {
        self.seen@.unique_seq_to_set();
    }
}

/// Pushing an id onto a sequence adds exactly it to the id set.
pub proof fn lemma_to_set_push(s: Seq<i32>, x: i32)
    ensures
        s.push(x).to_set() == s.to_set().insert(x),
{
    let t = s.push(x);
    assert forall|y: i32| t.to_set().contains(y) implies s.to_set().insert(x).contains(y) by {
        let k = choose|k: int| 0 <= k < t.len() && t[k] == y;
        if k < s.len() {
            assert(s[k] == y);
        }
    }
    assert forall|y: i32| s.to_set().insert(x).contains(y) implies t.to_set().contains(y) by {
        if y == x {
            assert(t[s.len() as int] == x);
        } else {
            let k = choose|k: int| 0 <= k < s.len() && s[k] == y;
            assert(t[k] == y);
        }
    }
    assert(t.to_set() =~= s.to_set().insert(x));
}

/// The indices of the first `k` ids that are fresh: not yet in `seen0` and
/// not named by any earlier index. These are exactly the rows for which an
/// enrichment task is issued.
pub open spec fn fresh_idx(ids: Seq<i32>, seen0: Set<i32>, k: int) -> Seq<int>
    recommends
        0 <= k <= ids.len(),
    decreases k,
{
    if k <= 0 {
        Seq::<int>::empty()
    } else {
        let prev = fresh_idx(ids, seen0, k - 1);
        if !seen0.union(ids.take(k - 1).to_set()).contains(ids[k - 1]) {
            prev.push(k - 1)
        } else {
            prev
        }
    }
}

pub proof fn lemma_fresh_idx_bounds(ids: Seq<i32>, seen0: Set<i32>, k: int)
    requires
        0 <= k <= ids.len(),
    ensures
        forall|t: int|
            0 <= t < fresh_idx(ids, seen0, k).len() ==> 0 <= #[trigger] fresh_idx(
                ids,
                seen0,
                k,
            )[t] < k,
    decreases k,
{
    if k > 0 {
        lemma_fresh_idx_bounds(ids, seen0, k - 1);
        let prev = fresh_idx(ids, seen0, k - 1);
        assert forall|t: int| 0 <= t < fresh_idx(ids, seen0, k).len() implies 0 <= #[trigger] fresh_idx(
            ids,
            seen0,
            k,
        )[t] < k by {
            if t < prev.len() {
                assert(fresh_idx(ids, seen0, k)[t] == prev[t]);
            }
        }
    }
}

/// Deduplication in one pass: the number of fresh ids among the first `k`
/// offered is the growth of the seen set, so tasks are issued once per
/// distinct player, not once per row.
pub proof fn lemma_fresh_idx_count(ids: Seq<i32>, seen0: Set<i32>, k: int)
    requires
        0 <= k <= ids.len(),
        seen0.finite(),
    ensures
        fresh_idx(ids, seen0, k).len() + seen0.len() == seen0.union(ids.take(k).to_set()).len(),
        seen0.union(ids.take(k).to_set()).finite(),
    decreases k,
{
    broadcast use vstd::seq_lib::seq_to_set_is_finite;

    if k == 0 {
        assert(ids.take(0).to_set() =~= Set::<i32>::empty()) by {
            assert(ids.take(0).len() == 0);
            if exists|y: i32| ids.take(0).to_set().contains(y) {
                let y = choose|y: i32| ids.take(0).to_set().contains(y);
                let j = choose|j: int| 0 <= j < ids.take(0).len() && ids.take(0)[j] == y;
            }
        }
        assert(seen0.union(ids.take(0).to_set()) =~= seen0);
    } else {
        lemma_fresh_idx_count(ids, seen0, k - 1);
        let id = ids[k - 1];
        let before = seen0.union(ids.take(k - 1).to_set());
        assert(ids.take(k) =~= ids.take(k - 1).push(id));
        lemma_to_set_push(ids.take(k - 1), id);
        assert(seen0.union(ids.take(k).to_set()) =~= before.insert(id));
        if before.contains(id) {
            assert(before.insert(id) =~= before);
        } else {
            assert(before.insert(id).len() == before.len() + 1);
        }
    }
}

} // verus!
