//! Wait for replication: dispatch a hold action, then suspend until the
//! node's holding set contains the aspect.
//!
//! Completion is observed structurally — membership in the holding set of
//! the latest snapshot — so there is no response handoff and no side
//! effect on completion beyond unregistration.

use vstd::prelude::*;
use crate::context::Context;
use crate::types::{Action, Aspect, CoreError, PollOutcome, SuspensionToken};

verus! {

/// Suspendable computation waiting for an aspect to enter the holding set.
#[derive(Clone, Copy, Debug)]
pub struct HoldAspectFuture {
    /// This future's own wake slot; never shared with another future.
    pub token: SuspensionToken,
    /// The aspect whose holding-set membership completes the wait.
    pub aspect: Aspect,
    /// Whether a terminal state has been reached; terminal states are
    /// entered exactly once and the future is not polled afterwards.
    pub done: bool,
}

/// What one poll cycle of a hold-aspect future decides, given the context
/// it observes: channel death fails the future before any state is read;
/// a missing snapshot or a false predicate suspends; membership completes.
pub open spec fn hold_outcome<W>(f: HoldAspectFuture, ctx: Context<W>) -> PollOutcome<()> {
    if ctx.chan.is_closed() {
        PollOutcome::Failed(CoreError::ChannelError)
    } else {
        match ctx.state {
            None => PollOutcome::Pending,
            Some(s) => if s.holds(f.aspect) {
                PollOutcome::Ready(())
            } else {
                PollOutcome::Pending
            },
        }
    }
}

/// The registry after one poll cycle: a suspending poll leaves the latest
/// wake handle registered under the future's token, a terminal poll leaves
/// the token absent.
pub open spec fn hold_wakers_after<W>(f: HoldAspectFuture, ctx: Context<W>, wake: W)
    -> Map<SuspensionToken, W> {
    if hold_outcome(f, ctx) is Pending {
        ctx.registry.wakers().insert(f.token, wake)
    } else {
        ctx.registry.wakers().remove(f.token)
    }
}

/// Dispatch a hold action for `aspect` and build the future that waits
/// for the holding set to contain it.  The future's suspension token is
/// minted here, fresh and unregistered.
pub fn hold_aspect<W>(aspect: Aspect, ctx: &mut Context<W>) -> (f: HoldAspectFuture)
    requires
        old(ctx).wf(),
        old(ctx).registry.next() < u64::MAX,
        old(ctx).next_correlation < u64::MAX,
    ensures
        final(ctx).wf(),
        f.aspect == aspect,
        !f.done,
        f.token.n == old(ctx).registry.next(),
        f.token.n < final(ctx).registry.next(),
        final(ctx).registry.next() == old(ctx).registry.next() + 1,
        final(ctx).registry.wakers() == old(ctx).registry.wakers(),
        !final(ctx).registry.wakers().dom().contains(f.token),
        final(ctx).state == old(ctx).state,
        final(ctx).chan.is_closed() == old(ctx).chan.is_closed(),
        final(ctx).next_correlation == old(ctx).next_correlation + 1,
        old(ctx).chan.is_closed() ==> final(ctx).chan.sent() == old(ctx).chan.sent(),
        !old(ctx).chan.is_closed() ==> final(ctx).chan.sent().len() == old(ctx).chan.sent().len() + 1
            && final(ctx).chan.sent().last().action == Action::HoldAspect(aspect)
            && final(ctx).chan.sent().last().id.n == old(ctx).next_correlation
            && final(ctx).chan.sent().subrange(0, old(ctx).chan.sent().len() as int)
                == old(ctx).chan.sent(),
{
    let wrapper = ctx.new_wrapper(Action::HoldAspect(aspect));
    ctx.chan.dispatch(wrapper);
    let token = ctx.registry.mint_token();
    proof {
        if !old(ctx).chan.is_closed() {
            assert(ctx.chan.sent().subrange(0, old(ctx).chan.sent().len() as int)
                =~= old(ctx).chan.sent());
        }
    }
    HoldAspectFuture { token, aspect, done: false }
}

impl HoldAspectFuture {
    /// One poll cycle.  In order: query channel death (a dead writer loop
    /// must not hang the caller), register the current wake handle, read
    /// the latest snapshot, evaluate the membership predicate.  The
    /// outcome and the registry's new state are exactly `hold_outcome`
    /// and `hold_wakers_after`; nothing else in the context changes.
    pub fn poll<W>(&mut self, ctx: &mut Context<W>, wake: W) -> (r: PollOutcome<()>)
        requires
            !old(self).done,
            old(ctx).wf(),
            old(self).token.n < old(ctx).registry.next(),
        ensures
            final(ctx).wf(),
            final(self).token == old(self).token,
            final(self).aspect == old(self).aspect,
            final(self).token.n < final(ctx).registry.next(),
            r == hold_outcome(*old(self), *old(ctx)),
            final(self).done == !(r is Pending),
            final(ctx).registry.wakers() == hold_wakers_after(*old(self), *old(ctx), wake),
            final(ctx).registry.next() == old(ctx).registry.next(),
            final(ctx).chan == old(ctx).chan,
            final(ctx).state == old(ctx).state,
            final(ctx).next_correlation == old(ctx).next_correlation,
    {
        if let Some(err) = ctx.action_channel_error() {
            ctx.unregister_waker(self.token);
            self.done = true;
            return PollOutcome::Failed(err);
        }
        ctx.register_waker(self.token, wake);
        let held: bool;
        match ctx.try_state() {
            None => {
                return PollOutcome::Pending;
            }
            Some(s) => {
                held = s.contains_aspect(self.aspect);
            }
        }
        if held {
            ctx.unregister_waker(self.token);
            self.done = true;
            proof {
                assert(ctx.registry.wakers()
                    =~= old(ctx).registry.wakers().remove(old(self).token));
            }
            PollOutcome::Ready(())
        } else {
            PollOutcome::Pending
        }
    }
}

} // verus!
