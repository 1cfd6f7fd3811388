//! Immutable shared-state snapshots.
//!
//! A snapshot is published whole by the reducer after each processed
//! action; readers never observe partial mutation.  Two sub-views matter
//! to the bridge: the holding set (append-only membership of replicated
//! aspects) and the operation-response map (transient entries keyed by
//! correlation id, each written once by the reducer for exactly one
//! waiting caller).

use vstd::prelude::*;
use crate::types::{ActionResponse, Aspect, CorrelationId};

verus! {

/// One immutable, point-in-time copy of the shared state.
#[derive(Clone, Debug)]
pub struct Snapshot {
    /// Identifiers of the replicated aspects this node currently holds.
    pub holding: Vec<Aspect>,
    /// Operation-response map: correlation id to the response the reducer
    /// wrote for that action.
    pub responses: Vec<(CorrelationId, ActionResponse)>,
    /// Whether the network subsystem has finished initializing.
    pub network_ready: bool,
}

impl Snapshot {
    /// The reducer writes exactly one response entry per correlation id,
    /// so a well-formed snapshot never keys two entries the same way.
    pub open spec fn wf(self) -> bool {
        forall|i: int, j: int|
            0 <= i < j < self.responses@.len()
                ==> (#[trigger] self.responses@[i]).0 != (#[trigger] self.responses@[j]).0
    }

    /// Membership in the holding set.
    pub open spec fn holds(self, a: Aspect) -> bool {
        self.holding@.contains(a)
    }

    /// Whether the operation-response map has an entry under `id`.
    pub open spec fn has_response(self, id: CorrelationId) -> bool {
        exists|i: int| 0 <= i < self.responses@.len() && (#[trigger] self.responses@[i]).0 == id
    }

    /// The response stored under `id` (meaningful when `has_response(id)`
    /// and the snapshot is well-formed, which makes the entry unique).
    pub open spec fn response_of(self, id: CorrelationId) -> ActionResponse {
        self.responses@[choose|i: int|
            0 <= i < self.responses@.len() && (#[trigger] self.responses@[i]).0 == id].1
    }

    /// Non-blocking read of the holding set: is `a` held?
    pub fn contains_aspect(&self, a: Aspect) -> (r: bool)
        ensures
            r == self.holds(a),
    {
        let mut i: usize = 0;
        while i < self.holding.len()
            invariant
                i <= self.holding.len(),
                forall|j: int| 0 <= j < i ==> self.holding@[j] != a,
            decreases self.holding.len() - i,
        {
            if self.holding[i] == a {
                assert(self.holding@.contains(a));
                return true;
            }
            i += 1;
        }
        assert(forall|j: int| 0 <= j < self.holding@.len() ==> self.holding@[j] != a);
        false
    }

    /// Non-blocking read of the operation-response map.
    pub fn lookup_response(&self, id: CorrelationId) -> (r: Option<ActionResponse>)
        requires
            self.wf(),
        ensures
            match r {
                Some(resp) => self.has_response(id) && resp == self.response_of(id),
                None => !self.has_response(id),
            },
    {
        let mut i: usize = 0;
        while i < self.responses.len()
            invariant
                self.wf(),
                i <= self.responses.len(),
                forall|j: int| 0 <= j < i ==> (#[trigger] self.responses@[j]).0 != id,
            decreases self.responses.len() - i,
        {
            if self.responses[i].0 == id {
                proof {
                    let k = choose|k: int|
                        0 <= k < self.responses@.len() && (#[trigger] self.responses@[k]).0 == id;
                    assert(self.responses@[k].0 == id && self.responses@[i as int].0 == id);
                    assert(k == i as int);
                }
                return Some(self.responses[i].1);
            }
            i += 1;
        }
        None
    }
}

} // verus!
