//! Laws of the bridge, stated over the same spec functions the poll
//! contracts use, so that each one holds of the executable futures by
//! their `ensures` alone.

use vstd::prelude::*;
use crate::context::Context;
use crate::hold_aspect::{hold_outcome, hold_wakers_after, HoldAspectFuture};
use crate::publish::{publish_outcome, publish_queue_after, publish_wakers_after, PublishFuture};
use crate::registry::WakerRegistry;
use crate::types::{
    Action, ActionResponse, Address, CoreError, DomainError, PollOutcome, SuspensionToken,
};

verus! {

/// No missed wakeup, broadcast side: a token registered at the moment a
/// snapshot is published is reached by the broadcast that follows, with
/// the latest wake handle stored under it — `wake_all` walks every entry
/// index, and every registered token owns one.
pub proof fn no_missed_wakeup_broadcast<W>(reg: WakerRegistry<W>, t: SuspensionToken)
    requires
        reg.wf(),
        reg.wakers().dom().contains(t),
    ensures
        exists|i: int|
            0 <= i < reg.entries_seq().len() && (#[trigger] reg.entries_seq()[i]).0 == t
                && reg.entries_seq()[i].1 == reg.wakers()[t],
{
    reg.lemma_broadcast_reaches(t);
}

/// No missed wakeup, hold side: once a snapshot whose holding set
/// contains the aspect is published and the channel is alive, the very
/// next poll cycle reaches `Ready` — registration happens before the
/// state read inside every cycle, and the broadcast after a publication
/// re-polls every registered future, so no stall can outlive one
/// publication that makes the predicate true.
pub proof fn no_missed_wakeup_hold<W>(f: HoldAspectFuture, ctx: Context<W>)
    requires
        !ctx.chan.is_closed(),
        ctx.state matches Some(s) && s.holds(f.aspect),
    ensures
        hold_outcome(f, ctx) == PollOutcome::<()>::Ready(()),
{
}

/// No missed wakeup, publish side: once a snapshot carrying the response
/// under the future's correlation id is published, the subsystem is ready
/// and the channel is alive, the very next poll cycle reaches `Ready`
/// with exactly that response's result.
pub proof fn no_missed_wakeup_publish<W>(f: PublishFuture, ctx: Context<W>, result: Result<
    Address,
    DomainError,
>)
    requires
        !ctx.chan.is_closed(),
        ctx.state matches Some(s) && s.network_ready && s.has_response(f.correlation_id)
            && s.response_of(f.correlation_id) == ActionResponse::Publish(result),
    ensures
        publish_outcome(f, ctx) == PollOutcome::<Result<Address, DomainError>>::Ready(result),
{
}

/// No double-consumption: a poll cycle of one future neither resolves nor
/// starves another future with a different token — the other token's
/// registration state and stored wake handle are untouched, whatever the
/// first future's outcome.  Distinct futures always have different
/// tokens, because every token is minted fresh at construction.
pub proof fn no_double_consumption_hold<W>(
    f: HoldAspectFuture,
    other: HoldAspectFuture,
    ctx: Context<W>,
    wake: W,
)
    requires
        f.token != other.token,
    ensures
        hold_wakers_after(f, ctx, wake).dom().contains(other.token)
            == ctx.registry.wakers().dom().contains(other.token),
        ctx.registry.wakers().dom().contains(other.token)
            ==> hold_wakers_after(f, ctx, wake)[other.token]
                == ctx.registry.wakers()[other.token],
{
}

/// No double-consumption, publish side: as for the hold side, with a
/// publish future doing the polling.
pub proof fn no_double_consumption_publish<W>(
    f: PublishFuture,
    other: PublishFuture,
    ctx: Context<W>,
    wake: W,
)
    requires
        f.token != other.token,
    ensures
        publish_wakers_after(f, ctx, wake).dom().contains(other.token)
            == ctx.registry.wakers().dom().contains(other.token),
        ctx.registry.wakers().dom().contains(other.token)
            ==> publish_wakers_after(f, ctx, wake)[other.token]
                == ctx.registry.wakers()[other.token],
{
}

/// Registry cleanup, hold side: a poll cycle that reaches a terminal
/// state leaves the future's token absent from the registry; and for a
/// token that was never registered, the removal is a no-op, so the
/// fast path — terminal on the first poll — leaks nothing either.
pub proof fn registry_cleanup_hold<W>(f: HoldAspectFuture, ctx: Context<W>, wake: W)
    ensures
        !(hold_outcome(f, ctx) is Pending)
            ==> !hold_wakers_after(f, ctx, wake).dom().contains(f.token),
        !ctx.registry.wakers().dom().contains(f.token)
            ==> ctx.registry.wakers().remove(f.token) == ctx.registry.wakers(),
{
    if !ctx.registry.wakers().dom().contains(f.token) {
        assert(ctx.registry.wakers().remove(f.token) =~= ctx.registry.wakers());
    }
}

/// Registry cleanup, publish side: as for the hold side.
pub proof fn registry_cleanup_publish<W>(f: PublishFuture, ctx: Context<W>, wake: W)
    ensures
        !(publish_outcome(f, ctx) is Pending)
            ==> !publish_wakers_after(f, ctx, wake).dom().contains(f.token),
        !ctx.registry.wakers().dom().contains(f.token)
            ==> ctx.registry.wakers().remove(f.token) == ctx.registry.wakers(),
{
    if !ctx.registry.wakers().dom().contains(f.token) {
        assert(ctx.registry.wakers().remove(f.token) =~= ctx.registry.wakers());
    }
}

/// Response-map boundedness: a publish future that completes with a
/// result dispatches, in the same poll cycle, the cleanup action asking
/// the reducer to delete its correlation id's response-map entry — and
/// dispatches nothing otherwise.
pub proof fn response_map_boundedness<W>(f: PublishFuture, ctx: Context<W>)
    ensures
        publish_outcome(f, ctx) is Ready
            ==> publish_queue_after(f, ctx).len() == ctx.chan.sent().len() + 1
                && publish_queue_after(f, ctx).last().action
                    == Action::ClearActionResponse(f.correlation_id),
        !(publish_outcome(f, ctx) is Ready)
            ==> publish_queue_after(f, ctx) == ctx.chan.sent(),
{
}

/// Channel death short-circuits waiting: with the dispatch channel dead,
/// both futures fail with `ChannelError` on any poll cycle — including
/// the very first — whatever the snapshot holds, and even before any
/// snapshot exists: the outcome never depends on predicate state.
pub proof fn channel_death_short_circuits<W>(
    fh: HoldAspectFuture,
    fp: PublishFuture,
    ctx: Context<W>,
)
    requires
        ctx.chan.is_closed(),
    ensures
        hold_outcome(fh, ctx) == PollOutcome::<()>::Failed(CoreError::ChannelError),
        publish_outcome(fp, ctx) == PollOutcome::<Result<Address, DomainError>>::Failed(
            CoreError::ChannelError,
        ),
{
}

} // verus!
