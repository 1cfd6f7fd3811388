//! The shared runtime context: the one handle a pending-operation future
//! needs.
//!
//! It bundles the action channel, the waker registry, the latest published
//! snapshot and the correlation-id counter.  The registry and the channel
//! are the only mutable shared resources of the bridge; the snapshot is
//! only ever replaced whole.  The reducer loop drives the context from the
//! other side: it consumes actions, publishes snapshots and then walks the
//! registered wake handles.

use vstd::prelude::*;
use crate::channel::ActionChannel;
use crate::registry::WakerRegistry;
use crate::snapshot::Snapshot;
use crate::types::{Action, ActionWrapper, CoreError, CorrelationId, SuspensionToken};

verus! {

/// Shared runtime context, explicitly owned and injectable so that each
/// test or executor can run an isolated instance.  `W` is the executor's
/// wake-handle type.
#[derive(Debug)]
pub struct Context<W> {
    /// Delivery path into the single-writer reducer loop.
    pub chan: ActionChannel,
    /// Suspension token to wake handle.
    pub registry: WakerRegistry<W>,
    /// The latest published snapshot; none only during startup.
    pub state: Option<Snapshot>,
    /// Counter the next action-correlation id is minted from; a namespace
    /// of its own, distinct from suspension tokens.
    pub next_correlation: u64,
}

impl<W> Context<W> {
    /// Well-formedness: the registry invariant holds and any published
    /// snapshot keys its response map uniquely.
    pub open spec fn wf(self) -> bool {
        &&& self.registry.wf()
        &&& (self.state matches Some(s) ==> s.wf())
    }

    /// A fresh context: open channel, empty registry, no snapshot yet.
    pub fn new() -> (c: Context<W>)
        ensures
            c.wf(),
            !c.chan.is_closed(),
            c.chan.sent() == Seq::<ActionWrapper>::empty(),
            c.registry.wakers() == Map::<SuspensionToken, W>::empty(),
            c.registry.next() == 0,
            c.state is None,
            c.next_correlation == 0,
    {
        Context {
            chan: ActionChannel::new(),
            registry: WakerRegistry::new(),
            state: None,
            next_correlation: 0u64,
        }
    }

    /// Tag an action with a fresh correlation id, under which the reducer
    /// will key its eventual response.
    pub fn new_wrapper(&mut self, action: Action) -> (w: ActionWrapper)
        requires
            old(self).next_correlation < u64::MAX,
        ensures
            w.action == action,
            w.id.n == old(self).next_correlation,
            final(self).next_correlation == old(self).next_correlation + 1,
            final(self).chan == old(self).chan,
            final(self).registry == old(self).registry,
            final(self).state == old(self).state,
    {
        let id = CorrelationId { n: self.next_correlation };
        self.next_correlation = self.next_correlation + 1;
        ActionWrapper { action, id }
    }

    /// Non-blocking query of the dispatch path's terminal failure, if any.
    pub fn action_channel_error(&self) -> (r: Option<CoreError>)
        ensures
            self.chan.is_closed() ==> r == Some(CoreError::ChannelError),
            !self.chan.is_closed() ==> r is None,
    {
        self.chan.channel_error()
    }

    /// Non-blocking read of the latest snapshot; none only while the state
    /// store is still initializing.
    pub fn try_state(&self) -> (r: Option<&Snapshot>)
        ensures
            match r {
                Some(s) => self.state matches Some(ss) && *s == ss,
                None => self.state is None,
            },
    {
        match &self.state {
            Some(s) => Some(s),
            None => None,
        }
    }

    /// Store `wake` under `t`, overwriting any earlier registration.
    pub fn register_waker(&mut self, t: SuspensionToken, wake: W)
        requires
            old(self).wf(),
            t.n < old(self).registry.next(),
        ensures
            final(self).wf(),
            final(self).registry.next() == old(self).registry.next(),
            final(self).registry.wakers() == old(self).registry.wakers().insert(t, wake),
            final(self).chan == old(self).chan,
            final(self).state == old(self).state,
            final(self).next_correlation == old(self).next_correlation,
    {
        self.registry.register(t, wake);
    }

    /// Drop the registration of `t`, if any; idempotent.
    pub fn unregister_waker(&mut self, t: SuspensionToken)
        requires
            old(self).wf(),
        ensures
            final(self).wf(),
            final(self).registry.next() == old(self).registry.next(),
            final(self).registry.wakers() == old(self).registry.wakers().remove(t),
            final(self).chan == old(self).chan,
            final(self).state == old(self).state,
            final(self).next_correlation == old(self).next_correlation,
    {
        self.registry.unregister(t);
    }

    /// Reducer side: replace the shared state with a freshly published
    /// snapshot.  The reducer broadcasts afterwards by walking
    /// `registry.waker_count()` / `registry.waker_at(i)`.
    pub fn publish_snapshot(&mut self, s: Snapshot)
        requires
            old(self).wf(),
            s.wf(),
        ensures
            final(self).wf(),
            final(self).state == Some(s),
            final(self).chan == old(self).chan,
            final(self).registry == old(self).registry,
            final(self).next_correlation == old(self).next_correlation,
    {
        self.state = Some(s);
    }

    /// Reducer side: consume the oldest dispatched action, if any.
    pub fn take_action(&mut self) -> (r: Option<ActionWrapper>)
        requires
            old(self).wf(),
        ensures
            final(self).wf(),
            final(self).chan.is_closed() == old(self).chan.is_closed(),
            old(self).chan.sent().len() == 0 ==> r is None
                && final(self).chan.sent() == old(self).chan.sent(),
            old(self).chan.sent().len() > 0 ==> r == Some(old(self).chan.sent()[0])
                && final(self).chan.sent()
                    == old(self).chan.sent().subrange(1, old(self).chan.sent().len() as int),
            final(self).registry == old(self).registry,
            final(self).state == old(self).state,
            final(self).next_correlation == old(self).next_correlation,
    {
        self.chan.take_next()
    }

    /// The writer loop has terminated: the dispatch path becomes
    /// permanently unusable.
    pub fn close_channel(&mut self)
        requires
            old(self).wf(),
        ensures
            final(self).wf(),
            final(self).chan.is_closed(),
            final(self).chan.sent() == old(self).chan.sent(),
            final(self).registry == old(self).registry,
            final(self).state == old(self).state,
            final(self).next_correlation == old(self).next_correlation,
    {
        self.chan.close();
    }
}

} // verus!
