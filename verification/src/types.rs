//! Plain identifier and outcome types shared across the bridge.
//!
//! Suspension tokens and action-correlation ids are kept as distinct types:
//! conflating them would let two unrelated waiters share a wake slot.

use vstd::prelude::*;

verus! {

/// Identifier linking a waiting task to its wake handle in the registry.
/// Minted once per pending-operation future, at construction time.
#[derive(Clone, Copy, PartialEq, Eq, Structural, Debug, Hash)]
pub struct SuspensionToken {
    pub n: u64,
}

/// Identifier linking a dispatched action to its eventual response entry
/// in the operation-response map.
#[derive(Clone, Copy, PartialEq, Eq, Structural, Debug, Hash)]
pub struct CorrelationId {
    pub n: u64,
}

/// A unit of replicated content a node can hold on behalf of the network.
#[derive(Clone, Copy, PartialEq, Eq, Structural, Debug, Hash)]
pub struct Aspect {
    pub n: u64,
}

/// Content address of a published item.
#[derive(Clone, Copy, PartialEq, Eq, Structural, Debug, Hash)]
pub struct Address {
    pub n: u64,
}

/// Domain-level failure the reducer reports for an operation it did
/// process; surfaced to the caller as a normal result value, not a fault.
#[derive(Clone, Copy, PartialEq, Eq, Structural, Debug, Hash)]
pub struct DomainError {
    pub code: u64,
}

/// Terminal faults of the dispatch-and-wait mechanism itself.
#[derive(Clone, Copy, PartialEq, Eq, Structural, Debug)]
pub enum CoreError {
    /// The dispatch channel is permanently unusable: the writer loop is gone.
    ChannelError,
    /// The network subsystem has not finished initializing (publish only).
    SubsystemNotReady,
    /// A response of the wrong kind sat under this future's correlation id:
    /// an internal-consistency violation in the reducer's bookkeeping.
    CorrelationIntegrityFault,
}

/// A request for a state transition, submitted to the single-writer reducer.
#[derive(Clone, Copy, PartialEq, Eq, Structural, Debug)]
pub enum Action {
    /// Ask the replication machinery to start holding an aspect.
    HoldAspect(Aspect),
    /// Ask the network to publish the content behind an address.
    Publish(Address),
    /// Ask the reducer to delete a correlation id's response-map entry.
    ClearActionResponse(CorrelationId),
}

/// An action tagged with the correlation id the reducer will key its
/// response under.
#[derive(Clone, Copy, PartialEq, Eq, Structural, Debug)]
pub struct ActionWrapper {
    pub action: Action,
    pub id: CorrelationId,
}

/// A response value the reducer wrote into the operation-response map.
#[derive(Clone, Copy, PartialEq, Eq, Debug)]
pub enum ActionResponse {
    /// The publish-specific response kind: the published address, or a
    /// domain-level failure.
    Publish(Result<Address, DomainError>),
    /// Any other response kind; under a publish future's correlation id
    /// this is a correlation-integrity violation.
    Other,
}

/// Outcome of one poll cycle of a pending-operation future.
/// `Ready` and `Failed` are terminal; domain-level failures travel inside
/// `Ready`, only channel errors and internal-consistency faults are `Failed`.
#[derive(Clone, Copy, PartialEq, Eq, Debug)]
pub enum PollOutcome<T> {
    /// Not yet decided: the task stays suspended, its wake handle registered.
    Pending,
    /// The operation reached its outcome.
    Ready(T),
    /// The mechanism itself failed; no retry happens at this layer.
    Failed(CoreError),
}

} // verus!
