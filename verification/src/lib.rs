//! Verified core of a local telemetry relay.
//!
//! The relay queries a host-information provider and streams each snapshot,
//! as text, to every subscribed network client over a persistent connection.
//! This crate holds the decision core of that server and proves its rules:
//! the drain-and-clear event buffer shared with the provider's callbacks
//! ([`buffer`]), the one-shot cooperative shutdown notification and its
//! trigger policy ([`shutdown`]), the count of open subscriber sessions
//! ([`registry`]), the per-client session state machine with its disconnect
//! classification ([`session`], [`classify`]), the accept-loop policy
//! ([`server`]), and the provider handle's lifecycle ([`provider`]).
//!
//! Everything that touches a socket, a clock, the console or the provider's
//! native entry points lives outside this crate and feeds plain values into
//! the functions here.

use vstd::prelude::*;

pub mod buffer;
pub mod classify;
pub mod provider;
pub mod registry;
pub mod server;
pub mod session;
pub mod shutdown;

verus! {

/// When set, provider log lines are surfaced on the console as they drain.
pub const DEBUG_MODE: bool = false;

/// When set, the relay runs detached from an interactive console, so the
/// keyboard shutdown chord is not watched and only the sentinel file stops it.
pub const BACKGROUND_MODE: bool = false;

/// When set, the first snapshot is displayed once at startup.
pub const JSON_MODE: bool = false;

} // verus!
