use action_future::context::Context;
use action_future::hold_aspect::hold_aspect;
use action_future::publish::publish;
use action_future::snapshot::Snapshot;
use action_future::types::{
    Action, ActionResponse, Address, Aspect, CoreError, DomainError, PollOutcome,
};

fn ready_snapshot(
    holding: Vec<Aspect>,
    responses: Vec<(action_future::types::CorrelationId, ActionResponse)>,
) -> Snapshot {
    Snapshot { holding, responses, network_ready: true }
}

#[test]
fn publish_success_scenario() {
    // Dispatch publish(id=X) while the subsystem is ready and the reducer
    // writes Ok(X) under X's correlation id within one state transition.
    let mut ctx: Context<u64> = Context::new();
    let mut f = publish(Address { n: 7 }, &mut ctx);

    let dispatched = ctx.take_action().expect("publish action should be enqueued");
    assert_eq!(dispatched.action, Action::Publish(Address { n: 7 }));
    assert_eq!(dispatched.id, f.correlation_id);

    // First poll: no snapshot yet, so the future suspends, registered.
    assert_eq!(f.poll(&mut ctx, 1u64), PollOutcome::Pending);
    assert_eq!(ctx.registry.waker_count(), 1);

    // The reducer processes the action and publishes the response.
    let snap = ready_snapshot(
        vec![],
        vec![(dispatched.id, ActionResponse::Publish(Ok(Address { n: 7 })))],
    );
    ctx.publish_snapshot(snap);

    // The poll triggered by that publication resolves Ready(Ok(X)).
    assert_eq!(f.poll(&mut ctx, 2u64), PollOutcome::Ready(Ok(Address { n: 7 })));
    assert!(f.done);

    // A cleanup action for that correlation id was subsequently dispatched.
    let cleanup = ctx.take_action().expect("cleanup action should be enqueued");
    assert_eq!(cleanup.action, Action::ClearActionResponse(f.correlation_id));
    assert_eq!(ctx.registry.waker_count(), 0);
}

#[test]
fn hold_then_check_scenario() {
    // Holding set starts empty; the reducer adds A on its next transition;
    // the future resolves on the poll following that transition, not before.
    let mut ctx: Context<u64> = Context::new();
    let aspect = Aspect { n: 42 };
    let mut f = hold_aspect(aspect, &mut ctx);

    let dispatched = ctx.take_action().expect("hold action should be enqueued");
    assert_eq!(dispatched.action, Action::HoldAspect(aspect));

    ctx.publish_snapshot(ready_snapshot(vec![], vec![]));
    assert_eq!(f.poll(&mut ctx, 1u64), PollOutcome::Pending);
    assert!(!f.done);

    ctx.publish_snapshot(ready_snapshot(vec![aspect], vec![]));
    assert_eq!(f.poll(&mut ctx, 2u64), PollOutcome::Ready(()));
    assert!(f.done);
    assert_eq!(ctx.registry.waker_count(), 0);
}

#[test]
fn concurrent_duplicate_publish() {
    // Two callers publish the same identifier: distinct correlation ids,
    // distinct suspension tokens, each consumes only its own entry.
    let mut ctx: Context<u64> = Context::new();
    let x = Address { n: 5 };
    let mut f1 = publish(x, &mut ctx);
    let mut f2 = publish(x, &mut ctx);

    assert_ne!(f1.correlation_id, f2.correlation_id);
    assert_ne!(f1.token, f2.token);

    assert_eq!(f1.poll(&mut ctx, 11u64), PollOutcome::Pending);
    assert_eq!(f2.poll(&mut ctx, 22u64), PollOutcome::Pending);
    assert_eq!(ctx.registry.waker_count(), 2);

    // The reducer answers both, under their own correlation ids.
    let snap = ready_snapshot(
        vec![],
        vec![
            (f1.correlation_id, ActionResponse::Publish(Ok(x))),
            (f2.correlation_id, ActionResponse::Publish(Err(DomainError { code: 9 }))),
        ],
    );
    ctx.publish_snapshot(snap);

    assert_eq!(f1.poll(&mut ctx, 11u64), PollOutcome::Ready(Ok(x)));
    assert_eq!(
        f2.poll(&mut ctx, 22u64),
        PollOutcome::Ready(Err(DomainError { code: 9 }))
    );
    assert_eq!(ctx.registry.waker_count(), 0);
}

#[test]
fn channel_death_short_circuits() {
    // With the dispatch channel already dead, both futures resolve to
    // ChannelError on their very first poll, before any snapshot exists.
    let mut ctx: Context<u64> = Context::new();
    let mut fh = hold_aspect(Aspect { n: 1 }, &mut ctx);
    let mut fp = publish(Address { n: 2 }, &mut ctx);
    ctx.close_channel();

    assert_eq!(
        fh.poll(&mut ctx, 1u64),
        PollOutcome::Failed(CoreError::ChannelError)
    );
    assert_eq!(
        fp.poll(&mut ctx, 2u64),
        PollOutcome::Failed(CoreError::ChannelError)
    );
    assert!(fh.done && fp.done);
    assert_eq!(ctx.registry.waker_count(), 0);
}

#[test]
fn registry_cleanup_on_terminal_and_fast_path() {
    // A terminal transition always clears the token; a fast-path future
    // that never suspended unregisters a token that was never present.
    let mut ctx: Context<u64> = Context::new();
    let aspect = Aspect { n: 3 };
    // Predicate already true on the first check: fast path.
    ctx.publish_snapshot(ready_snapshot(vec![aspect], vec![]));
    let mut f = hold_aspect(aspect, &mut ctx);
    assert_eq!(f.poll(&mut ctx, 1u64), PollOutcome::Ready(()));
    assert_eq!(ctx.registry.waker_count(), 0);
    assert!(!ctx.registry.is_registered(f.token));
    // Unregistering a token that is not present is a safe no-op.
    ctx.unregister_waker(f.token);
    assert_eq!(ctx.registry.waker_count(), 0);
}

#[test]
fn no_missed_wakeup_after_publication() {
    // Registered before the satisfying snapshot is published, the future
    // reaches Ready on the single poll that publication triggers.
    let mut ctx: Context<u64> = Context::new();
    let aspect = Aspect { n: 8 };
    let mut f = hold_aspect(aspect, &mut ctx);

    assert_eq!(f.poll(&mut ctx, 5u64), PollOutcome::Pending);
    assert!(ctx.registry.is_registered(f.token));

    ctx.publish_snapshot(ready_snapshot(vec![aspect], vec![]));
    // The broadcast walks every registered handle; ours is among them.
    let mut woken: Vec<u64> = Vec::new();
    for i in 0..ctx.registry.waker_count() {
        woken.push(*ctx.registry.waker_at(i));
    }
    assert_eq!(woken, vec![5u64]);

    assert_eq!(f.poll(&mut ctx, 6u64), PollOutcome::Ready(()));
}

#[test]
fn independent_futures_keep_their_own_wake_slots() {
    // Two pending futures with different predicates: resolving one leaves
    // the other registered under its own token with its own handle.
    let mut ctx: Context<u64> = Context::new();
    let a1 = Aspect { n: 1 };
    let a2 = Aspect { n: 2 };
    let mut f1 = hold_aspect(a1, &mut ctx);
    let mut f2 = hold_aspect(a2, &mut ctx);
    assert_ne!(f1.token, f2.token);

    ctx.publish_snapshot(ready_snapshot(vec![], vec![]));
    assert_eq!(f1.poll(&mut ctx, 101u64), PollOutcome::Pending);
    assert_eq!(f2.poll(&mut ctx, 202u64), PollOutcome::Pending);

    // Only f1's predicate becomes true.
    ctx.publish_snapshot(ready_snapshot(vec![a1], vec![]));
    assert_eq!(f1.poll(&mut ctx, 101u64), PollOutcome::Ready(()));
    assert_eq!(f2.poll(&mut ctx, 203u64), PollOutcome::Pending);

    // f2 still owns its slot, now carrying its latest handle.
    assert_eq!(ctx.registry.waker_count(), 1);
    assert_eq!(ctx.registry.token_at(0), f2.token);
    assert_eq!(*ctx.registry.waker_at(0), 203u64);
}

#[test]
fn subsystem_not_ready_fails_immediately() {
    let mut ctx: Context<u64> = Context::new();
    let mut f = publish(Address { n: 4 }, &mut ctx);
    ctx.publish_snapshot(Snapshot { holding: vec![], responses: vec![], network_ready: false });
    assert_eq!(
        f.poll(&mut ctx, 1u64),
        PollOutcome::Failed(CoreError::SubsystemNotReady)
    );
    assert!(f.done);
    assert_eq!(ctx.registry.waker_count(), 0);
}

#[test]
fn wrong_response_kind_is_a_correlation_integrity_fault() {
    let mut ctx: Context<u64> = Context::new();
    let mut f = publish(Address { n: 4 }, &mut ctx);
    ctx.publish_snapshot(ready_snapshot(
        vec![],
        vec![(f.correlation_id, ActionResponse::Other)],
    ));
    assert_eq!(
        f.poll(&mut ctx, 1u64),
        PollOutcome::Failed(CoreError::CorrelationIntegrityFault)
    );
    assert!(f.done);
    assert_eq!(ctx.registry.waker_count(), 0);
}

#[test]
fn domain_failure_travels_inside_ready() {
    // A publish the reducer processed but rejected resolves Ready(Err),
    // not Failed: the mechanism itself worked.
    let mut ctx: Context<u64> = Context::new();
    let mut f = publish(Address { n: 6 }, &mut ctx);
    ctx.publish_snapshot(ready_snapshot(
        vec![],
        vec![(f.correlation_id, ActionResponse::Publish(Err(DomainError { code: 3 })))],
    ));
    assert_eq!(
        f.poll(&mut ctx, 1u64),
        PollOutcome::Ready(Err(DomainError { code: 3 }))
    );
    // The transient entry is still reclaimed on a domain failure.
    let first = ctx.take_action().expect("publish action");
    assert_eq!(first.action, Action::Publish(Address { n: 6 }));
    let cleanup = ctx.take_action().expect("cleanup action");
    assert_eq!(cleanup.action, Action::ClearActionResponse(f.correlation_id));
}

#[test]
fn dispatch_on_closed_channel_is_a_silent_noop() {
    let mut ctx: Context<u64> = Context::new();
    ctx.close_channel();
    let _ = hold_aspect(Aspect { n: 1 }, &mut ctx);
    let _ = publish(Address { n: 2 }, &mut ctx);
    assert!(ctx.take_action().is_none());
    assert_eq!(ctx.action_channel_error(), Some(CoreError::ChannelError));
}

#[test]
fn latest_wake_handle_wins_on_resuspension() {
    // Every suspending poll overwrites the slot: only the most recent
    // poll's waiting context is still valid.
    let mut ctx: Context<u64> = Context::new();
    let mut f = hold_aspect(Aspect { n: 9 }, &mut ctx);
    assert_eq!(f.poll(&mut ctx, 1u64), PollOutcome::Pending);
    assert_eq!(*ctx.registry.waker_at(0), 1u64);
    assert_eq!(f.poll(&mut ctx, 2u64), PollOutcome::Pending);
    assert_eq!(ctx.registry.waker_count(), 1);
    assert_eq!(*ctx.registry.waker_at(0), 2u64);
}
