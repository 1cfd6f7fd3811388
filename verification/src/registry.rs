//! The waker registry: suspension token to executor wake handle.
//!
//! The registry is the bridge's central synchronization point.  A future
//! registers (or overwrites) its wake handle under its own token on every
//! poll cycle before it reads state, and removes the entry exactly once,
//! on its terminal transition.  The reducer loop broadcasts by walking
//! every registered handle after each snapshot publication; it does not
//! filter by predicate.
//!
//! Tokens are minted here, from a counter, so that no two futures can
//! ever share a wake slot.

use vstd::prelude::*;
use crate::types::SuspensionToken;

verus! {

/// Table mapping each suspension token to the wake handle supplied by the
/// executor on the owning task's most recent poll.  `W` is the executor's
/// wake-handle type; the library never invokes a handle, it only stores
/// them and hands them back for the broadcast.
#[derive(Debug)]
pub struct WakerRegistry<W> {
    next_token: u64,
    entries: Vec<(SuspensionToken, W)>,
}

impl<W> WakerRegistry<W> {
    /// The registered entries in registration order.
    pub closed spec fn entries_seq(self) -> Seq<(SuspensionToken, W)> {
        self.entries@
    }

    /// The counter the next minted token will take its value from.
    pub closed spec fn next(self) -> u64 {
        self.next_token
    }

    /// Well-formedness: tokens are pairwise distinct and all minted, i.e.
    /// below the counter.
    pub open spec fn wf(self) -> bool {
        &&& forall|i: int, j: int|
            0 <= i < j < self.entries_seq().len()
                ==> (#[trigger] self.entries_seq()[i]).0 != (#[trigger] self.entries_seq()[j]).0
        &&& forall|i: int|
            0 <= i < self.entries_seq().len()
                ==> (#[trigger] self.entries_seq()[i]).0.n < self.next()
    }

    /// Whether some entry carries token `t`.
    pub open spec fn spec_contains(self, t: SuspensionToken) -> bool {
        exists|i: int|
            0 <= i < self.entries_seq().len() && (#[trigger] self.entries_seq()[i]).0 == t
    }

    /// Index of the entry carrying token `t` (unique when `wf()`).
    pub closed spec fn index_of(self, t: SuspensionToken) -> int {
        choose|i: int|
            0 <= i < self.entries_seq().len() && (#[trigger] self.entries_seq()[i]).0 == t
    }

    /// The registry's abstract state: the map from registered token to the
    /// wake handle most recently stored under it.
    pub closed spec fn wakers(self) -> Map<SuspensionToken, W> {
        Map::new(
            |t: SuspensionToken| self.spec_contains(t),
            |t: SuspensionToken| self.entries_seq()[self.index_of(t)].1,
        )
    }

    /// In a well-formed registry, an entry's index is the index `wakers()`
    /// reads through, so each entry is a pair of the map.
    pub proof fn lemma_entry_in_map(self, i: int)
        requires
            self.wf(),
            0 <= i < self.entries_seq().len(),
        ensures
            self.wakers().dom().contains(self.entries_seq()[i].0),
            self.wakers()[self.entries_seq()[i].0] == self.entries_seq()[i].1,
    {
        let t = self.entries_seq()[i].0;
        assert(self.spec_contains(t));
        let k = self.index_of(t);
        assert(0 <= k < self.entries_seq().len() && self.entries_seq()[k].0 == t);
        if k != i {
            assert(self.entries_seq()[k].0 != self.entries_seq()[i].0);
        }
    }

    /// Every registered token owns one entry among those the broadcast
    /// walks, carrying the latest wake handle stored under it.
    pub proof fn lemma_broadcast_reaches(self, t: SuspensionToken)
        requires
            self.wf(),
            self.wakers().dom().contains(t),
        ensures
            exists|i: int|
                0 <= i < self.entries_seq().len() && (#[trigger] self.entries_seq()[i]).0 == t
                    && self.entries_seq()[i].1 == self.wakers()[t],
    {
        assert(self.spec_contains(t));
        let k = choose|k: int|
            0 <= k < self.entries_seq().len() && (#[trigger] self.entries_seq()[k]).0 == t;
        self.lemma_entry_in_map(k);
        assert(self.entries_seq()[k].0 == t && self.entries_seq()[k].1 == self.wakers()[t]);
    }

    /// A fresh, empty registry.
    pub fn new() -> (r: WakerRegistry<W>)
        ensures
            r.wf(),
            r.wakers() == Map::<SuspensionToken, W>::empty(),
            r.next() == 0,
    {
        let r = WakerRegistry { next_token: 0u64, entries: Vec::new() };
        proof {
            assert(r.wakers() =~= Map::<SuspensionToken, W>::empty());
        }
        r
    }

    /// Mint a process-unique suspension token.  The fresh token is not
    /// registered and differs from every token minted before it.
    pub fn mint_token(&mut self) -> (t: SuspensionToken)
        requires
            old(self).wf(),
            old(self).next() < u64::MAX,
        ensures
            final(self).wf(),
            t.n == old(self).next(),
            final(self).next() == old(self).next() + 1,
            final(self).entries_seq() == old(self).entries_seq(),
            final(self).wakers() == old(self).wakers(),
            !final(self).wakers().dom().contains(t),
    {
        let t = SuspensionToken { n: self.next_token };
        self.next_token = self.next_token + 1;
        proof {
            assert(self.wakers() =~= old(self).wakers());
            assert(!self.spec_contains(t));
        }
        t
    }

    /// Index of the entry carrying `t`, if one is registered.
    fn find_index(&self, t: SuspensionToken) -> (r: Option<usize>)
        ensures
            match r {
                Some(i) => i < self.entries_seq().len() && self.entries_seq()[i as int].0 == t,
                None => !self.spec_contains(t),
            },
    {
        let mut i: usize = 0;
        while i < self.entries.len()
            invariant
                i <= self.entries.len(),
                forall|j: int| 0 <= j < i ==> (#[trigger] self.entries@[j]).0 != t,
            decreases self.entries.len() - i,
        {
            if self.entries[i].0 == t {
                return Some(i);
            }
            i += 1;
        }
        None
    }

    /// Insert or overwrite: the latest wake handle stored under a token
    /// always wins, since only the most recent poll's waiting context is
    /// still valid.  Callable for any minted token; no error conditions.
    pub fn register(&mut self, t: SuspensionToken, w: W)
        requires
            old(self).wf(),
            t.n < old(self).next(),
        ensures
            final(self).wf(),
            final(self).next() == old(self).next(),
            final(self).wakers() == old(self).wakers().insert(t, w),
    {
        let found = self.find_index(t);
        match found {
            Some(i) => {
                let ghost prev = self.entries@;
                self.entries[i] = (t, w);
                proof {
                    assert(self.entries@ == prev.update(i as int, (t, w)));
                    self.lemma_update_is_insert(*old(self), i as int, t, w);
                }
            }
            None => {
                let ghost prev = self.entries@;
                self.entries.push((t, w));
                proof {
                    self.lemma_push_is_insert(*old(self), t, w);
                }
            }
        }
    }

    /// After overwriting the unique entry of `t` in place, the map view is
    /// the old map with `t` re-bound to `w`.
    proof fn lemma_update_is_insert(self, pre: WakerRegistry<W>, i: int, t: SuspensionToken, w: W)
        requires
            pre.wf(),
            0 <= i < pre.entries_seq().len(),
            pre.entries_seq()[i].0 == t,
            self.next() == pre.next(),
            self.entries_seq() == pre.entries_seq().update(i, (t, w)),
        ensures
            self.wf(),
            self.wakers() == pre.wakers().insert(t, w),
    {
        assert forall|u: SuspensionToken| self.spec_contains(u) <==> pre.spec_contains(u) by {
            if self.spec_contains(u) {
                let k = choose|k: int|
                    0 <= k < self.entries_seq().len() && (#[trigger] self.entries_seq()[k]).0 == u;
                assert(pre.entries_seq()[if k == i { i } else { k }].0 == u);
            }
            if pre.spec_contains(u) {
                let k = choose|k: int|
                    0 <= k < pre.entries_seq().len() && (#[trigger] pre.entries_seq()[k]).0 == u;
                assert(self.entries_seq()[if k == i { i } else { k }].0 == u);
            }
        }
        assert forall|u: SuspensionToken| #[trigger] self.wakers().dom().contains(u) implies
            self.wakers()[u] == pre.wakers().insert(t, w)[u] by {
            let k = self.index_of(u);
            assert(0 <= k < self.entries_seq().len() && self.entries_seq()[k].0 == u);
            if u == t {
                assert(k == i) by {
                    if k != i {
                        assert(pre.entries_seq()[k].0 == u);
                        assert(pre.entries_seq()[k].0 != pre.entries_seq()[i].0);
                    }
                }
            } else {
                assert(k != i);
                assert(pre.entries_seq()[k].0 == u);
                pre.lemma_entry_in_map(k);
                let k2 = pre.index_of(u);
                if k2 != k {
                    assert(pre.entries_seq()[k2].0 != pre.entries_seq()[k].0);
                }
            }
        }
        assert(self.wakers() =~= pre.wakers().insert(t, w));
    }

    /// After appending a fresh entry for `t`, the map view is the old map
    /// with `t` bound to `w`.
    proof fn lemma_push_is_insert(self, pre: WakerRegistry<W>, t: SuspensionToken, w: W)
        requires
            pre.wf(),
            !pre.spec_contains(t),
            t.n < pre.next(),
            self.next() == pre.next(),
            self.entries_seq() == pre.entries_seq().push((t, w)),
        ensures
            self.wf(),
            self.wakers() == pre.wakers().insert(t, w),
    {
        let n = pre.entries_seq().len() as int;
        assert forall|u: SuspensionToken| #[trigger] self.spec_contains(u) implies
            u == t || pre.spec_contains(u) by {
            let k = choose|k: int|
                0 <= k < self.entries_seq().len() && (#[trigger] self.entries_seq()[k]).0 == u;
            if k < n {
                assert(pre.entries_seq()[k].0 == u);
            }
        }
        assert forall|u: SuspensionToken| pre.spec_contains(u) implies self.spec_contains(u) by {
            let k = choose|k: int|
                0 <= k < pre.entries_seq().len() && (#[trigger] pre.entries_seq()[k]).0 == u;
            assert(self.entries_seq()[k].0 == u);
        }
        assert(self.entries_seq()[n].0 == t);
        assert(self.spec_contains(t));
        assert forall|u: SuspensionToken| #[trigger] self.wakers().dom().contains(u) implies
            self.wakers()[u] == pre.wakers().insert(t, w)[u] by {
            let k = self.index_of(u);
            assert(0 <= k < self.entries_seq().len() && self.entries_seq()[k].0 == u);
            if u == t {
                assert(k == n) by {
                    if k < n {
                        assert(pre.entries_seq()[k].0 == t);
                    }
                }
            } else {
                assert(k < n);
                assert(pre.entries_seq()[k].0 == u);
                pre.lemma_entry_in_map(k);
                let k2 = pre.index_of(u);
                if k2 != k {
                    assert(pre.entries_seq()[k2].0 != pre.entries_seq()[k].0);
                }
            }
        }
        assert(self.wakers() =~= pre.wakers().insert(t, w));
    }

    /// Remove the entry of `t` if present; idempotent — a future may reach
    /// a terminal state without ever having suspended, so removing an
    /// unregistered token is a no-op, not an error.
    pub fn unregister(&mut self, t: SuspensionToken)
        requires
            old(self).wf(),
        ensures
            final(self).wf(),
            final(self).next() == old(self).next(),
            final(self).wakers() == old(self).wakers().remove(t),
    {
        let found = self.find_index(t);
        match found {
            Some(i) => {
                self.entries.remove(i);
                proof {
                    self.lemma_remove_is_remove(*old(self), i as int, t);
                }
            }
            None => {
                proof {
                    assert(!old(self).wakers().dom().contains(t));
                    assert(self.wakers() =~= old(self).wakers().remove(t));
                }
            }
        }
    }

    /// After deleting the unique entry of `t`, the map view is the old map
    /// without `t`.
    proof fn lemma_remove_is_remove(self, pre: WakerRegistry<W>, i: int, t: SuspensionToken)
        requires
            pre.wf(),
            0 <= i < pre.entries_seq().len(),
            pre.entries_seq()[i].0 == t,
            self.next() == pre.next(),
            self.entries_seq() == pre.entries_seq().remove(i),
        ensures
            self.wf(),
            self.wakers() == pre.wakers().remove(t),
    {
        let n = pre.entries_seq().len() as int;
        assert forall|k: int| 0 <= k < n - 1 implies #[trigger] self.entries_seq()[k]
            == pre.entries_seq()[if k < i { k } else { k + 1 }] by {}
        assert forall|u: SuspensionToken| #[trigger] self.spec_contains(u) implies
            pre.spec_contains(u) && u != t by {
            let k = choose|k: int|
                0 <= k < self.entries_seq().len() && (#[trigger] self.entries_seq()[k]).0 == u;
            let k0 = if k < i { k } else { k + 1 };
            assert(pre.entries_seq()[k0].0 == u);
            if u == t {
                assert(pre.entries_seq()[k0].0 == pre.entries_seq()[i].0);
                assert(k0 != i);
            }
        }
        assert forall|u: SuspensionToken| pre.spec_contains(u) && u != t implies
            #[trigger] self.spec_contains(u) by {
            let k = choose|k: int|
                0 <= k < pre.entries_seq().len() && (#[trigger] pre.entries_seq()[k]).0 == u;
            assert(k != i);
            let k1 = if k < i { k } else { k - 1 };
            assert(self.entries_seq()[k1].0 == u);
        }
        assert forall|u: SuspensionToken| #[trigger] self.wakers().dom().contains(u) implies
            self.wakers()[u] == pre.wakers().remove(t)[u] by {
            let k = self.index_of(u);
            assert(0 <= k < self.entries_seq().len() && self.entries_seq()[k].0 == u);
            let k0 = if k < i { k } else { k + 1 };
            assert(pre.entries_seq()[k0].0 == u);
            pre.lemma_entry_in_map(k0);
            let k2 = pre.index_of(u);
            if k2 != k0 {
                assert(pre.entries_seq()[k2].0 != pre.entries_seq()[k0].0);
            }
        }
        assert(self.wakers() =~= pre.wakers().remove(t));
    }

    /// Whether `t` currently has a registered wake handle.
    pub fn is_registered(&self, t: SuspensionToken) -> (r: bool)
        requires
            self.wf(),
        ensures
            r == self.wakers().dom().contains(t),
    {
        let found = self.find_index(t);
        match found {
            Some(i) => {
                proof {
                    self.lemma_entry_in_map(i as int);
                }
                true
            }
            None => false,
        }
    }

    /// Number of registered wake handles.
    pub fn waker_count(&self) -> (r: usize)
        ensures
            r == self.entries_seq().len(),
    {
        self.entries.len()
    }

    /// The token of the `i`-th registered entry.
    pub fn token_at(&self, i: usize) -> (r: SuspensionToken)
        requires
            i < self.entries_seq().len(),
        ensures
            r == self.entries_seq()[i as int].0,
    {
        self.entries[i].0
    }

    /// The wake handle of the `i`-th registered entry.  The broadcast after
    /// a snapshot publication walks every index and invokes each handle:
    /// at-least-once, unfiltered notification.
    pub fn waker_at(&self, i: usize) -> (r: &W)
        requires
            i < self.entries_seq().len(),
        ensures
            *r == self.entries_seq()[i as int].1,
    {
        &self.entries[i].1
    }
}

} // verus!
