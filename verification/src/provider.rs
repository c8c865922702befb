//! The provider handle's lifecycle: `Uninitialized -> Initialized ->
//! CleanedUp`, one way only. Queries and push-listener registration are
//! valid only while `Initialized`; teardown happens at most once. The
//! native calls themselves live outside this crate; the runtime consults
//! this record before each of them.

use vstd::prelude::*;

verus! {

/// Where the provider handle stands in its life.
#[derive(Clone, Copy, PartialEq, Eq, Structural, Debug)]
pub enum ProviderPhase {
    /// No connection to the information source yet; nothing may be called.
    Uninitialized,
    /// The source is loaded, sinks are registered: queries are valid.
    Initialized,
    /// All provider resources are released; nothing may be called again.
    CleanedUp,
}

/// The lifecycle record of the process-wide provider handle.
pub struct ProviderLifecycle {
    /// Where the handle stands.
    pub phase: ProviderPhase,
    /// Whether the push-notification listener is currently registered.
    pub listener_registered: bool,
}

impl ProviderLifecycle {
    /// A listener exists only while the handle is initialized.
    pub open spec fn wf(&self) -> bool {
        self.listener_registered ==> self.phase == ProviderPhase::Initialized
    }

    /// Before startup: uninitialized, no listener.
    pub fn new() -> (r: ProviderLifecycle)
        ensures
            r.wf(),
            r.phase == ProviderPhase::Uninitialized,
            !r.listener_registered,
    {
        ProviderLifecycle { phase: ProviderPhase::Uninitialized, listener_registered: false }
    }

    /// The source was loaded and primed. Valid exactly once, before
    /// anything else.
    pub fn mark_initialized(&mut self)
        requires
            old(self).wf(),
            old(self).phase == ProviderPhase::Uninitialized,
        ensures
            final(self).wf(),
            final(self).phase == ProviderPhase::Initialized,
            !final(self).listener_registered,
    {
        self.phase = ProviderPhase::Initialized;
    }

    /// Whether a snapshot query (or error accessor) is valid now.
    pub fn can_query(&self) -> (r: bool)
        ensures
            r == (self.phase == ProviderPhase::Initialized),
    {
        match self.phase {
            ProviderPhase::Initialized => true,
            _ => false,
        }
    }

    /// The push-notification listener was registered.
    pub fn mark_listener_registered(&mut self)
        requires
            old(self).wf(),
            old(self).phase == ProviderPhase::Initialized,
        ensures
            final(self).wf(),
            final(self).phase == old(self).phase,
            final(self).listener_registered,
    {
        self.listener_registered = true;
    }

    /// The push-notification listener was unregistered.
    pub fn mark_listener_unregistered(&mut self)
        requires
            old(self).wf(),
            old(self).phase == ProviderPhase::Initialized,
        ensures
            final(self).wf(),
            final(self).phase == old(self).phase,
            !final(self).listener_registered,
    {
        self.listener_registered = false;
    }

    /// All provider resources were released. Valid only from `Initialized`,
    /// so it can happen at most once; afterwards nothing is valid again.
    pub fn mark_cleaned(&mut self)
        requires
            old(self).wf(),
            old(self).phase == ProviderPhase::Initialized,
        ensures
            final(self).wf(),
            final(self).phase == ProviderPhase::CleanedUp,
            !final(self).listener_registered,
    {
        self.phase = ProviderPhase::CleanedUp;
        self.listener_registered = false;
    }
}

} // verus!
