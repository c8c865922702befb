//! Cooperative shutdown: a one-shot, level-triggered notification that
//! merges independent trigger sources (keyboard chord, sentinel file, any
//! external signal), and the watcher policy that polls those sources.

use vstd::prelude::*;

verus! {

/// One-shot shutdown notification shared by every trigger source and every
/// waiter. Level-triggered: once fired it stays fired, so a waiter that
/// looks late still observes it.
pub struct ShutdownController {
    pub fired: bool,
}

impl ShutdownController {
    /// A fresh controller has not fired.
    pub fn new() -> (r: ShutdownController)
        ensures
            !r.fired,
    {
        ShutdownController { fired: false }
    }

    /// Fire the notification. Reports whether this call was the one that
    /// fired it; on an already-fired controller it is a no-op.
    pub fn notify_once(&mut self) -> (first: bool)
        ensures
            final(self).fired,
            first == !old(self).fired,
    {
        let first = !self.fired;
        self.fired = true;
        first
    }

    /// Whether the notification has fired.
    pub fn is_fired(&self) -> (r: bool)
        ensures
            r == self.fired,
    {
        self.fired
    }
}

/// The controller's state after `k` further fires.
pub open spec fn state_after_fires(fired: bool, k: nat) -> bool
    decreases k,
{
    if k == 0 {
        fired
    } else {
        state_after_fires(true, (k - 1) as nat)
    }
}

/// How many of `k` fires on a controller in state `fired` observe the
/// transition (that is, are the first).
pub open spec fn transitions_seen(fired: bool, k: nat) -> nat
    decreases k,
{
    if k == 0 {
        0
    } else {
        (if fired {
            0nat
        } else {
            1nat
        }) + transitions_seen(true, (k - 1) as nat)
    }
}

/// Shutdown idempotence: however many trigger sources fire — keyboard chord,
/// sentinel file, an external signal — once at least one has, the controller
/// is fired for every past and future observer; exactly one fire observes
/// the transition, and every fire on an already-fired controller is a no-op.
pub proof fn lemma_shutdown_idempotence(k: nat)
    requires
        k >= 1,
    ensures
        state_after_fires(false, k),
        state_after_fires(true, k),
        transitions_seen(false, k) == 1,
        transitions_seen(true, k) == 0,
    decreases k,
{
    if k == 1 {
        assert(state_after_fires(false, 1) == state_after_fires(true, 0));
        assert(state_after_fires(true, 1) == state_after_fires(true, 0));
        assert(transitions_seen(false, 1) == 1 + transitions_seen(true, 0));
        assert(transitions_seen(true, 1) == transitions_seen(true, 0));
    } else {
        lemma_shutdown_idempotence((k - 1) as nat);
    }
}

/// What the shutdown watcher does after one poll of its trigger sources.
#[derive(Clone, Copy, PartialEq, Eq, Structural, Debug)]
pub enum TriggerCheck {
    /// The keyboard chord fired: notify and stop watching.
    FireFromChord,
    /// The sentinel file appeared: delete it (best-effort, a failed delete
    /// is only logged), notify, stop watching.
    FireFromSentinel,
    /// Nothing yet: sleep one poll interval and look again.
    KeepWatching,
}

/// The keyboard shutdown chord: Ctrl+Shift+X.
pub open spec fn spec_is_shutdown_chord(key: char, ctrl: bool, shift: bool) -> bool {
    key == 'X' && ctrl && shift
}

/// Whether a key press is the shutdown chord.
pub fn is_shutdown_chord(key: char, ctrl: bool, shift: bool) -> (r: bool)
    ensures
        r == spec_is_shutdown_chord(key, ctrl, shift),
{
    key == 'X' && ctrl && shift
}

/// One poll of the trigger sources: the chord counts only when the process
/// is attached to an interactive console (not in background mode), and is
/// looked at before the sentinel file.
pub open spec fn spec_poll_triggers(
    background_mode: bool,
    chord_pressed: bool,
    sentinel_present: bool,
) -> TriggerCheck {
    if !background_mode && chord_pressed {
        TriggerCheck::FireFromChord
    } else if sentinel_present {
        TriggerCheck::FireFromSentinel
    } else {
        TriggerCheck::KeepWatching
    }
}

/// Decide what one poll of the trigger sources means.
pub fn poll_triggers(background_mode: bool, chord_pressed: bool, sentinel_present: bool) -> (r:
    TriggerCheck)
    ensures
        r == spec_poll_triggers(background_mode, chord_pressed, sentinel_present),
{
    if !background_mode && chord_pressed {
        TriggerCheck::FireFromChord
    } else if sentinel_present {
        TriggerCheck::FireFromSentinel
    } else {
        TriggerCheck::KeepWatching
    }
}

} // verus!
