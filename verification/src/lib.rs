//! Action-to-future bridge: dispatch an action to a single-writer reducer
//! loop, then suspend until a predicate over the evolving shared state
//! becomes true.
//!
//! The bridge is modelled over plain values so that every decision a poll
//! cycle makes — channel-death short-circuit, waker registration, snapshot
//! lookup, predicate evaluation, terminal cleanup — is stated in a contract
//! and proved.  The executor, the reducer loop and the real wake handles
//! live outside the library and drive it through the `Context` methods.

pub mod types;
pub mod snapshot;
pub mod channel;
pub mod registry;
pub mod context;
pub mod hold_aspect;
pub mod publish;
pub mod laws;
pub mod zome;
