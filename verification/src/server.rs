//! The accept loop's policy: whether to keep admitting connections, spawn a
//! session for one just accepted, or stop because shutdown fired.

use vstd::prelude::*;

verus! {

/// What the accept loop does after one wakeup.
#[derive(Clone, Copy, PartialEq, Eq, Structural, Debug)]
pub enum AcceptDecision {
    /// Shutdown has fired: admit no further connections and leave the loop.
    StopAccepting,
    /// A connection was accepted: give it its own independent session and
    /// keep accepting, so one slow client cannot stall the others.
    SpawnSession,
    /// The wakeup brought no usable connection (a failed accept): tolerate
    /// it and keep accepting.
    KeepAccepting,
}

/// The accept loop stops the moment shutdown fires; otherwise an accepted
/// connection gets a session, and a failed accept is tolerated.
pub open spec fn spec_accept_step(shutdown_fired: bool, accepted: bool) -> AcceptDecision {
    if shutdown_fired {
        AcceptDecision::StopAccepting
    } else if accepted {
        AcceptDecision::SpawnSession
    } else {
        AcceptDecision::KeepAccepting
    }
}

/// Decide what one wakeup of the accept loop means.
pub fn accept_step(shutdown_fired: bool, accepted: bool) -> (r: AcceptDecision)
    ensures
        r == spec_accept_step(shutdown_fired, accepted),
{
    if shutdown_fired {
        AcceptDecision::StopAccepting
    } else if accepted {
        AcceptDecision::SpawnSession
    } else {
        AcceptDecision::KeepAccepting
    }
}

} // verus!
