//! The transaction dedup cache: a bounded recent-history membership
//! filter over transaction identifier strings.
//!
//! A fixed-length circular slot array holds the most recent identifiers
//! in insertion order; a parallel lookup set answers membership in
//! constant time. When the write cursor reaches an occupied slot, the
//! next eighth of the slots is evicted in one batch. Exclusive access
//! for writes comes through `&mut self`; shared reads through `&self`.

use vstd::prelude::*;
use vstd::hash_set::StringHashSet;

verus! {

/// Bounded at-most-once filter for inbound transaction identifiers.
pub struct TransactionIDCache {
    array: Vec<String>,
    array_ptr: usize,
    hash: StringHashSet,
}

/// The mathematical state of the cache: the slots, the write cursor,
/// and the set of identifiers reported as processed.
pub ghost struct CacheView {
    pub slots: Seq<Seq<char>>,
    pub cursor: int,
    pub seen: Set<Seq<char>>,
}

impl CacheView {
    pub open spec fn wf(self) -> bool {
        &&& self.slots.len() > 0
        &&& 0 <= self.cursor < self.slots.len()
    }
}

impl View for TransactionIDCache {
    type V = CacheView;

    closed spec fn view(&self) -> CacheView {
        CacheView {
            slots: self.array.deep_view(),
            cursor: self.array_ptr as int,
            seen: self.hash@,
        }
    }
}

/// The identifiers held in slots `lo..hi`.
pub open spec fn evicted_ids(slots: Seq<Seq<char>>, lo: int, hi: int) -> Set<Seq<char>> {
    Set::new(|x: Seq<char>| exists|i: int| lo <= i < hi && slots[i] == x)
}

/// The slot array with slots `lo..hi` cleared.
pub open spec fn cleared(slots: Seq<Seq<char>>, lo: int, hi: int) -> Seq<Seq<char>> {
    Seq::new(
        slots.len(),
        |i: int|
            if lo <= i < hi {
                Seq::<char>::empty()
            } else {
                slots[i]
            },
    )
}

/// One `mark_processed` step: when the cursor's slot is occupied, the
/// next eighth of the slots is evicted from the set and cleared; then
/// the identifier is stored at the cursor, added to the set, and the
/// cursor advances.
pub open spec fn spec_mark(c: CacheView, id: Seq<char>) -> CacheView {
    let n = c.slots.len() as int;
    let hi = if c.cursor + n / 8 < n {
        c.cursor + n / 8
    } else {
        n
    };
    let slots1 = if c.slots[c.cursor].len() > 0 {
        cleared(c.slots, c.cursor, hi)
    } else {
        c.slots
    };
    let seen1 = if c.slots[c.cursor].len() > 0 {
        c.seen.difference(evicted_ids(c.slots, c.cursor, hi))
    } else {
        c.seen
    };
    CacheView {
        slots: slots1.update(c.cursor, id),
        cursor: (c.cursor + 1) % n,
        seen: seen1.insert(id),
    }
}

impl TransactionIDCache {
    /// A cache of `size` slots, all vacant, remembering nothing.
    pub fn new(size: usize) -> (r: Self)
        requires
            size > 0,
        ensures
            r@.wf(),
            r@.slots.len() == size,
            r@.cursor == 0,
            r@.seen == Set::<Seq<char>>::empty(),
            forall|i: int| 0 <= i < size ==> #[trigger] r@.slots[i] == Seq::<char>::empty(),
    {
        let mut array: Vec<String> = Vec::new();
        let mut i: usize = 0;
        while i < size
            invariant
                0 <= i <= size,
                array@.len() == i,
                forall|k: int|
                    0 <= k < i ==> #[trigger] array.deep_view()[k] == Seq::<char>::empty(),
            decreases size - i,
        {
            let ghost dv0 = array.deep_view();
            array.push(String::new());
            proof {
                assert forall|k: int|
                    0 <= k <= i implies #[trigger] array.deep_view()[k]
                    == Seq::<char>::empty() by {
                    if k < i {
                        assert(array.deep_view()[k] == dv0[k]);
                    } else {
                        assert(array.deep_view()[k] == array@[i as int]@);
                    }
                }
            }
            i = i + 1;
        }
        TransactionIDCache { array, array_ptr: 0, hash: StringHashSet::new() }
    }

    /// Whether `txn_id` is in the recent history: a shared read.
    pub fn is_processed(&self, txn_id: &str) -> (r: bool)
        ensures
            r == self@.seen.contains(txn_id@),
    {
        self.hash.contains(txn_id)
    }

    /// Records `txn_id` as processed, evicting the oldest block of
    /// slots first when the cursor's slot is occupied.
    #[verifier::loop_isolation(false)]
    pub fn mark_processed(&mut self, txn_id: String)
        requires
            old(self)@.wf(),
        ensures
            final(self)@.wf(),
            final(self)@ == spec_mark(old(self)@, txn_id@),
    {
        let ghost c0 = self@;
        let n = self.array.len();
        let block = n / 8;
        let ptr = self.array_ptr;
        let ghost hi = if c0.cursor + (n as int) / 8 < n as int {
            c0.cursor + (n as int) / 8
        } else {
            n as int
        };
        if !self.array[ptr].as_str().is_empty() {
            let mut k: usize = 0;
            while k < block && k < n - ptr
                invariant
                    0 <= k <= block,
                    ptr + k <= n,
                    self.array_ptr == ptr,
                    self.array@.len() == n,
                    self.array.deep_view() =~~= cleared(c0.slots, ptr as int, ptr + k),
                    self.hash@ =~= c0.seen.difference(
                        evicted_ids(c0.slots, ptr as int, ptr + k),
                    ),
                decreases block - k,
            {
                let idx = ptr + k;
                proof {
                    assert(self.array.deep_view()[idx as int] == c0.slots[idx as int]);
                }
                let ghost dv_pre = self.array.deep_view();
                self.hash.remove(self.array[idx].as_str());
                self.array.set(idx, String::new());
                proof {
                    assert forall|j: int|
                        0 <= j < dv_pre.len() implies #[trigger] self.array.deep_view()[j]
                        == cleared(c0.slots, ptr as int, idx + 1)[j] by {
                        if j == idx {
                            assert(self.array@[j]@ =~= Seq::<char>::empty());
                        } else {
                            assert(self.array.deep_view()[j] == dv_pre[j]);
                        }
                    }
                    assert(self.array.deep_view() =~~= cleared(c0.slots, ptr as int, idx + 1));
                    assert(self.hash@ =~= c0.seen.difference(
                        evicted_ids(c0.slots, ptr as int, idx + 1),
                    ));
                }
                k = k + 1;
            }
            proof {
                assert(ptr + k == hi);
            }
        }
        self.hash.insert(txn_id.clone());
        self.array.set(ptr, txn_id);
        self.array_ptr = if ptr + 1 == n {
            0
        } else {
            ptr + 1
        };
        proof {
            if ptr + 1 == n {
                vstd::arithmetic::div_mod::lemma_mod_self_0(n as int);
            } else {
                vstd::arithmetic::div_mod::lemma_small_mod((ptr + 1) as nat, n as nat);
            }
            assert(self@.slots =~~= spec_mark(c0, txn_id@).slots);
            assert(self@.seen =~= spec_mark(c0, txn_id@).seen);
            assert(self@.cursor == spec_mark(c0, txn_id@).cursor);
        }
    }
}

/// An identifier just recorded is reported as processed: marking and
/// then asking about the same identifier always answers true.
pub proof fn lemma_mark_then_is_processed(c: CacheView, id: Seq<char>)
    ensures
        spec_mark(c, id).seen.contains(id),
{
}

/// A fresh cache of `n` vacant slots.
pub open spec fn fresh_cache(n: int) -> CacheView {
    CacheView {
        slots: Seq::new(n as nat, |i: int| Seq::<char>::empty()),
        cursor: 0,
        seen: Set::<Seq<char>>::empty(),
    }
}

/// The state after marking each identifier of `ids` in order.
pub open spec fn mark_all(c: CacheView, ids: Seq<Seq<char>>) -> CacheView
    decreases ids.len(),
{
    if ids.len() == 0 {
        c
    } else {
        spec_mark(mark_all(c, ids.drop_last()), ids.last())
    }
}

/// The set of the first `k` identifiers.
pub open spec fn ids_before(ids: Seq<Seq<char>>, k: int) -> Set<Seq<char>> {
    Set::new(|x: Seq<char>| exists|i: int| 0 <= i < k && ids[i] == x)
}

/// While a fresh cache is only being filled, each identifier lands in
/// the next slot, the cursor advances, and nothing is evicted.
proof fn lemma_fill(ids: Seq<Seq<char>>, n: int, k: int)
    requires
        0 < n,
        0 <= k <= ids.len(),
        k <= n,
    ensures
        mark_all(fresh_cache(n), ids.subrange(0, k)) == (CacheView {
            slots: Seq::new(
                n as nat,
                |i: int|
                    if i < k {
                        ids[i]
                    } else {
                        Seq::<char>::empty()
                    },
            ),
            cursor: k % n,
            seen: ids_before(ids, k),
        }),
    decreases k,
{
    let target = CacheView {
        slots: Seq::new(
            n as nat,
            |i: int|
                if i < k {
                    ids[i]
                } else {
                    Seq::<char>::empty()
                },
        ),
        cursor: k % n,
        seen: ids_before(ids, k),
    };
    if k == 0 {
        assert(ids.subrange(0, 0) =~= Seq::<Seq<char>>::empty());
        vstd::arithmetic::div_mod::lemma_small_mod(0, n as nat);
        assert(fresh_cache(n).slots =~~= target.slots);
        assert(fresh_cache(n).seen =~= target.seen);
    } else {
        lemma_fill(ids, n, k - 1);
        let state_prev = mark_all(fresh_cache(n), ids.subrange(0, k - 1));
        let pre = ids.subrange(0, k);
        assert(pre.drop_last() =~= ids.subrange(0, k - 1));
        assert(pre.last() == ids[k - 1]);
        assert(mark_all(fresh_cache(n), pre) == spec_mark(state_prev, ids[k - 1]));
        vstd::arithmetic::div_mod::lemma_small_mod((k - 1) as nat, n as nat);
        assert(state_prev.cursor == k - 1);
        assert(state_prev.slots[k - 1] == Seq::<char>::empty());
        let marked = spec_mark(state_prev, ids[k - 1]);
        assert(marked.slots =~~= target.slots);
        assert(marked.seen =~= target.seen);
        assert(marked.cursor == target.cursor);
    }
}

/// Filling a fresh cache of `n` slots (`n >= 8`) with `n + 1`
/// distinct identifiers evicts the oldest block: the first identifier
/// is no longer reported as processed, while every identifier from
/// the block boundary `n / 8` on still is.
pub proof fn lemma_overflow_evicts_oldest(ids: Seq<Seq<char>>, n: int)
    requires
        8 <= n,
        ids.len() == n + 1,
        ids[0].len() > 0,
        forall|i: int, j: int| 0 <= i < j < ids.len() ==> ids[i] != ids[j],
    ensures
        !mark_all(fresh_cache(n), ids).seen.contains(ids[0]),
        forall|j: int|
            n / 8 <= j <= n ==> mark_all(fresh_cache(n), ids).seen.contains(#[trigger] ids[j]),
{
    lemma_fill(ids, n, n);
    let state_n = mark_all(fresh_cache(n), ids.subrange(0, n));
    assert(ids.drop_last() =~= ids.subrange(0, n));
    assert(mark_all(fresh_cache(n), ids) == spec_mark(state_n, ids[n as int]));
    vstd::arithmetic::div_mod::lemma_mod_self_0(n);
    assert(state_n.cursor == 0);
    assert(state_n.slots[0] == ids[0]);
    let b = n / 8;
    vstd::arithmetic::div_mod::lemma_fundamental_div_mod(n, 8);
    assert(b < n) by (nonlinear_arith)
        requires
            n == 8 * (n / 8) + n % 8,
            0 <= n % 8 < 8,
            8 <= n,
            b == n / 8,
    ;
    assert(b >= 1) by (nonlinear_arith)
        requires
            n == 8 * (n / 8) + n % 8,
            0 <= n % 8 < 8,
            8 <= n,
            b == n / 8,
    ;
    let result = spec_mark(state_n, ids[n as int]);
    assert(result.seen == state_n.seen.difference(evicted_ids(state_n.slots, 0, b)).insert(
        ids[n as int],
    ));
    assert(evicted_ids(state_n.slots, 0, b).contains(ids[0])) by {
        assert(0 <= 0 < b && state_n.slots[0] == ids[0]);
    }
    assert(ids[0] != ids[n as int]);
    assert(!result.seen.contains(ids[0]));
    assert forall|j: int| n / 8 <= j <= n implies result.seen.contains(#[trigger] ids[j]) by {
        if j == n {
            assert(result.seen.contains(ids[n as int]));
        } else {
            assert(ids_before(ids, n).contains(ids[j])) by {
                assert(0 <= j < n && ids[j] == ids[j]);
            }
            assert(!evicted_ids(state_n.slots, 0, b).contains(ids[j])) by {
                if evicted_ids(state_n.slots, 0, b).contains(ids[j]) {
                    let i = choose|i: int| 0 <= i < b && state_n.slots[i] == ids[j];
                    assert(state_n.slots[i] == ids[i]);
                    assert(ids[i] != ids[j]);
                    assert(false);
                }
            }
            assert(ids[j] != ids[n as int]);
        }
    }
}

} // verus!
