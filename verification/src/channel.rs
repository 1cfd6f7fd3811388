//! The action channel: an ordered, multi-producer delivery path into the
//! single-writer reducer loop.
//!
//! Dispatch never blocks; once the writer loop is gone the channel is
//! permanently unusable, dispatch silently drops, and the failure is
//! reported through the non-blocking error query.

use vstd::prelude::*;
use crate::types::{ActionWrapper, CoreError};

verus! {

/// Delivery path into the reducer loop, modelled as the sequence of
/// enqueued, not yet consumed actions plus a closed flag.
#[derive(Debug)]
pub struct ActionChannel {
    queue: Vec<ActionWrapper>,
    closed: bool,
}

impl ActionChannel {
    /// The actions enqueued and not yet consumed by the reducer, oldest first.
    pub closed spec fn sent(self) -> Seq<ActionWrapper> {
        self.queue@
    }

    /// Whether the channel is permanently unusable.
    pub closed spec fn is_closed(self) -> bool {
        self.closed
    }

    /// A fresh, open, empty channel.
    pub fn new() -> (c: ActionChannel)
        ensures
            c.sent() == Seq::<ActionWrapper>::empty(),
            !c.is_closed(),
    {
        ActionChannel { queue: Vec::new(), closed: false }
    }

    /// Enqueue an action.  Never blocks; silently a no-op once the channel
    /// is closed (the failure is observed via `channel_error`).
    pub fn dispatch(&mut self, a: ActionWrapper)
        ensures
            final(self).is_closed() == old(self).is_closed(),
            old(self).is_closed() ==> final(self).sent() == old(self).sent(),
            !old(self).is_closed() ==> final(self).sent() == old(self).sent().push(a),
    {
        if !self.closed {
            self.queue.push(a);
        }
    }

    /// Non-blocking query: the terminal failure reason if the dispatch
    /// path has become permanently unusable, else none.
    pub fn channel_error(&self) -> (r: Option<CoreError>)
        ensures
            self.is_closed() ==> r == Some(CoreError::ChannelError),
            !self.is_closed() ==> r is None,
    {
        if self.closed {
            Some(CoreError::ChannelError)
        } else {
            None
        }
    }

    /// Reducer side: consume the oldest enqueued action, if any.
    pub fn take_next(&mut self) -> (r: Option<ActionWrapper>)
        ensures
            final(self).is_closed() == old(self).is_closed(),
            old(self).sent().len() == 0 ==> r is None && final(self).sent() == old(self).sent(),
            old(self).sent().len() > 0 ==> r == Some(old(self).sent()[0])
                && final(self).sent() == old(self).sent().subrange(1, old(self).sent().len() as int),
    {
        if self.queue.len() == 0 {
            None
        } else {
            let a = self.queue.remove(0);
            Some(a)
        }
    }

    /// The writer loop has terminated: the channel becomes permanently
    /// unusable.
    pub fn close(&mut self)
        ensures
            final(self).is_closed(),
            final(self).sent() == old(self).sent(),
    {
        self.closed = true;
    }
}

} // verus!
