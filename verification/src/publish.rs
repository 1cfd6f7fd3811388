//! Wait for a correlated response: dispatch a publish action, then
//! suspend until the reducer writes a response under this action's
//! correlation id, hand the result to the caller and reclaim the
//! transient response-map entry.
//!
//! The future checks the network subsystem's initialization state before
//! its predicate: an uninitialized subsystem is not a transient condition,
//! so it fails immediately instead of waiting.  A response of any kind
//! other than the publish-specific one under this correlation id is a
//! correlation-integrity fault — a bug in the reducer's bookkeeping, never
//! silently swallowed.

use vstd::prelude::*;
use crate::context::Context;
use crate::types::{
    Action, ActionResponse, ActionWrapper, Address, CoreError, CorrelationId, DomainError,
    PollOutcome, SuspensionToken,
};

verus! {

/// Suspendable computation waiting for the response the reducer computes
/// for one specific publish action.
#[derive(Clone, Copy, Debug)]
pub struct PublishFuture {
    /// This future's own wake slot; never shared with another future.
    pub token: SuspensionToken,
    /// The correlation id of the dispatched publish action; exactly one
    /// response-map entry will ever be keyed by it.
    pub correlation_id: CorrelationId,
    /// Whether a terminal state has been reached; terminal states are
    /// entered exactly once and the future is not polled afterwards.
    pub done: bool,
}

/// What one poll cycle of a publish future decides, given the context it
/// observes.  Channel death fails the future before any state is read; a
/// missing snapshot suspends; an unready network subsystem fails
/// immediately; a missing response suspends; the publish-kind response
/// completes with its domain-level result; any other response kind under
/// this correlation id is a fatal internal-consistency fault.
pub open spec fn publish_outcome<W>(f: PublishFuture, ctx: Context<W>)
    -> PollOutcome<Result<Address, DomainError>> {
    if ctx.chan.is_closed() {
        PollOutcome::Failed(CoreError::ChannelError)
    } else {
        match ctx.state {
            None => PollOutcome::Pending,
            Some(s) => if !s.network_ready {
                PollOutcome::Failed(CoreError::SubsystemNotReady)
            } else if !s.has_response(f.correlation_id) {
                PollOutcome::Pending
            } else {
                match s.response_of(f.correlation_id) {
                    ActionResponse::Publish(result) => PollOutcome::Ready(result),
                    ActionResponse::Other => PollOutcome::Failed(
                        CoreError::CorrelationIntegrityFault,
                    ),
                }
            },
        }
    }
}

/// The registry after one poll cycle: a suspending poll leaves the latest
/// wake handle registered under the future's token, a terminal poll leaves
/// the token absent.
pub open spec fn publish_wakers_after<W>(f: PublishFuture, ctx: Context<W>, wake: W)
    -> Map<SuspensionToken, W> {
    if publish_outcome(f, ctx) is Pending {
        ctx.registry.wakers().insert(f.token, wake)
    } else {
        ctx.registry.wakers().remove(f.token)
    }
}

/// The channel after one poll cycle: completing with a result dispatches a
/// fire-and-forget cleanup action that bounds the response map, asking the
/// reducer to delete this correlation id's entry; every other outcome
/// leaves the queue alone.
pub open spec fn publish_queue_after<W>(f: PublishFuture, ctx: Context<W>)
    -> Seq<ActionWrapper> {
    if publish_outcome(f, ctx) is Ready {
        ctx.chan.sent().push(
            ActionWrapper {
                action: Action::ClearActionResponse(f.correlation_id),
                id: CorrelationId { n: ctx.next_correlation },
            },
        )
    } else {
        ctx.chan.sent()
    }
}

/// Dispatch a publish action for `address` and build the future that
/// waits for its correlated response.  Correlation id and suspension
/// token are minted here, from their two separate namespaces.
pub fn publish<W>(address: Address, ctx: &mut Context<W>) -> (f: PublishFuture)
    requires
        old(ctx).wf(),
        old(ctx).registry.next() < u64::MAX,
        old(ctx).next_correlation < u64::MAX,
    ensures
        final(ctx).wf(),
        !f.done,
        f.correlation_id.n == old(ctx).next_correlation,
        f.token.n == old(ctx).registry.next(),
        f.token.n < final(ctx).registry.next(),
        final(ctx).registry.next() == old(ctx).registry.next() + 1,
        final(ctx).registry.wakers() == old(ctx).registry.wakers(),
        !final(ctx).registry.wakers().dom().contains(f.token),
        final(ctx).state == old(ctx).state,
        final(ctx).chan.is_closed() == old(ctx).chan.is_closed(),
        final(ctx).next_correlation == old(ctx).next_correlation + 1,
        old(ctx).chan.is_closed() ==> final(ctx).chan.sent() == old(ctx).chan.sent(),
        !old(ctx).chan.is_closed() ==> final(ctx).chan.sent().len() == old(ctx).chan.sent().len() + 1
            && final(ctx).chan.sent().last().action == Action::Publish(address)
            && final(ctx).chan.sent().last().id == f.correlation_id
            && final(ctx).chan.sent().subrange(0, old(ctx).chan.sent().len() as int)
                == old(ctx).chan.sent(),
{
    let wrapper = ctx.new_wrapper(Action::Publish(address));
    let correlation_id = wrapper.id;
    ctx.chan.dispatch(wrapper);
    let token = ctx.registry.mint_token();
    proof {
        if !old(ctx).chan.is_closed() {
            assert(ctx.chan.sent().subrange(0, old(ctx).chan.sent().len() as int)
                =~= old(ctx).chan.sent());
        }
    }
    PublishFuture { token, correlation_id, done: false }
}

impl PublishFuture {
    /// One poll cycle.  In order: query channel death, register the
    /// current wake handle, read the latest snapshot, check the network
    /// subsystem, look the correlation id up in the operation-response
    /// map, and on completion dispatch the cleanup action and unregister.
    /// Outcome, registry and queue are exactly `publish_outcome`,
    /// `publish_wakers_after` and `publish_queue_after`.
    pub fn poll<W>(&mut self, ctx: &mut Context<W>, wake: W)
        -> (r: PollOutcome<Result<Address, DomainError>>)
        requires
            !old(self).done,
            old(ctx).wf(),
            old(self).token.n < old(ctx).registry.next(),
            old(ctx).next_correlation < u64::MAX,
        ensures
            final(ctx).wf(),
            final(self).token == old(self).token,
            final(self).correlation_id == old(self).correlation_id,
            final(self).token.n < final(ctx).registry.next(),
            r == publish_outcome(*old(self), *old(ctx)),
            final(self).done == !(r is Pending),
            final(ctx).registry.wakers() == publish_wakers_after(*old(self), *old(ctx), wake),
            final(ctx).registry.next() == old(ctx).registry.next(),
            final(ctx).chan.is_closed() == old(ctx).chan.is_closed(),
            final(ctx).chan.sent() == publish_queue_after(*old(self), *old(ctx)),
            final(ctx).state == old(ctx).state,
            r is Ready ==> final(ctx).next_correlation == old(ctx).next_correlation + 1,
            !(r is Ready) ==> final(ctx).next_correlation == old(ctx).next_correlation,
    {
        if let Some(err) = ctx.action_channel_error() {
            ctx.unregister_waker(self.token);
            self.done = true;
            return PollOutcome::Failed(err);
        }
        ctx.register_waker(self.token, wake);
        let network_ready: bool;
        let response: Option<ActionResponse>;
        match ctx.try_state() {
            None => {
                return PollOutcome::Pending;
            }
            Some(s) => {
                network_ready = s.network_ready;
                response = s.lookup_response(self.correlation_id);
            }
        }
        if !network_ready {
            ctx.unregister_waker(self.token);
            self.done = true;
            proof {
                assert(ctx.registry.wakers()
                    =~= old(ctx).registry.wakers().remove(old(self).token));
            }
            return PollOutcome::Failed(CoreError::SubsystemNotReady);
        }
        match response {
            None => PollOutcome::Pending,
            Some(ActionResponse::Publish(result)) => {
                let cleanup = ctx.new_wrapper(Action::ClearActionResponse(self.correlation_id));
                ctx.chan.dispatch(cleanup);
                ctx.unregister_waker(self.token);
                self.done = true;
                proof {
                    assert(ctx.registry.wakers()
                        =~= old(ctx).registry.wakers().remove(old(self).token));
                }
                PollOutcome::Ready(result)
            }
            Some(ActionResponse::Other) => {
                ctx.unregister_waker(self.token);
                self.done = true;
                proof {
                    assert(ctx.registry.wakers()
                        =~= old(ctx).registry.wakers().remove(old(self).token));
                }
                PollOutcome::Failed(CoreError::CorrelationIntegrityFault)
            }
        }
    }
}

} // verus!
