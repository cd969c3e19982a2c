//! The switch signal: a coalesced cross-process wakeup.
//!
//! Any number of synthetic switch messages arriving before the pending
//! wakeup is consumed collapse into a single wakeup, so repeated requests
//! never queue up and never cause a duplicate activation.

use vstd::prelude::*;

use crate::dispatch::Atoms;
use crate::focustracker::switch_next;
use crate::focustracker::FocusTracker;
use crate::focustracker::FocusView;

verus! {

/// Mathematical state of the switch signal: whether a wakeup is pending.
pub struct SignalView {
    pub signaled: bool,
}

/// State after one notification: a wakeup is pending.
pub open spec fn notify_next(s: SignalView) -> SignalView {
    SignalView { signaled: true }
}

/// State after the pending wakeup (if any) has been consumed.
pub open spec fn consume_next(s: SignalView) -> SignalView {
    SignalView { signaled: false }
}

/// A coalescing wakeup flag. Notifications arriving while one is already
/// pending collapse into that one pending wakeup.
pub struct SwitchSignal {
    signaled: bool,
}

impl View for SwitchSignal {
    type V = SignalView;

    closed spec fn view(&self) -> SignalView {
        SignalView { signaled: self.signaled }
    }
}

impl SwitchSignal {
    /// A fresh signal with no pending wakeup.
    pub fn new() -> (s: Self)
        ensures
            !s@.signaled,
    {
        SwitchSignal { signaled: false }
    }

    /// Record that a switch was requested. Requests coalesce: the state
    /// after any number of consecutive notifications is the same.
    pub fn notify(&mut self)
        ensures
            final(self)@ == notify_next(old(self)@),
    {
        self.signaled = true;
    }

    /// Take the pending wakeup, if one is pending. Returns whether a wakeup
    /// was pending; afterwards none is, so at most one activation follows
    /// any burst of notifications.
    pub fn consume(&mut self) -> (was_signaled: bool)
        ensures
            was_signaled == old(self)@.signaled,
            final(self)@ == consume_next(old(self)@),
    {
        let was: bool = self.signaled;
        self.signaled = false;
        was
    }
}

/// Notifications coalesce: a second notification before the wakeup is
/// consumed changes nothing, and after consumption exactly nothing is
/// pending, so a burst of requests yields at most one activation.
pub proof fn lemma_notify_coalesces(s: SignalView)
    ensures
        notify_next(notify_next(s)) == notify_next(s),
        !consume_next(notify_next(s)).signaled,
{
}

/// Source indication of a pager or window-switching tool, per the desktop
/// activation conventions the window manager honours.
pub const ACTIVATION_SOURCE_PAGER: u32 = 2;

/// The content of a synthetic client message: the window it names, the
/// atom tagging it, the first 32-bit datum it carries, and the root window
/// the send is addressed to.
#[derive(Clone, Copy, Debug, PartialEq, Eq, Structural)]
pub struct SyntheticMessage {
    pub destination: u32,
    pub window: u32,
    pub message_type: u32,
    pub first_datum: u32,
}

/// The activation broadcast for a switch target: addressed to the window
/// manager via the root window, naming the target window, tagged with the
/// active-window atom, and hinting a pager source so any standards-
/// compliant manager honours it.
pub fn activation_message(target: u32, root: u32, atoms: Atoms) -> (m: SyntheticMessage)
    ensures
        m.destination == root,
        m.window == target,
        m.message_type == atoms.net_active_window,
        m.first_datum == ACTIVATION_SOURCE_PAGER,
{
    SyntheticMessage {
        destination: root,
        window: target,
        message_type: atoms.net_active_window,
        first_datum: ACTIVATION_SOURCE_PAGER,
    }
}

/// The cross-process switch request: a message addressed to the shared
/// root window, tagged with the private switch marker, carrying no data.
pub fn switch_message(root: u32, atoms: Atoms) -> (m: SyntheticMessage)
    ensures
        m.destination == root,
        m.window == root,
        m.message_type == atoms.switch_command,
        m.first_datum == 0,
{
    SyntheticMessage {
        destination: root,
        window: root,
        message_type: atoms.switch_command,
        first_datum: 0,
    }
}

/// What one servicing of the switch signal produces: nothing when no wakeup
/// was pending or no prior window exists, else the activation broadcast for
/// the window being switched to.
pub open spec fn switch_service_result(
    sig: SignalView,
    t: FocusView,
    root: u32,
    atoms: Atoms,
) -> Option<SyntheticMessage> {
    if sig.signaled {
        match t.last {
            Some(w) => Some(
                SyntheticMessage {
                    destination: root,
                    window: w,
                    message_type: atoms.net_active_window,
                    first_datum: ACTIVATION_SOURCE_PAGER,
                },
            ),
            None => None,
        }
    } else {
        None
    }
}

/// Service the switch signal once: consume the pending wakeup if there is
/// one, exchange the tracker's `last` and `current`, and produce the
/// activation broadcast for the new current window. With no pending wakeup
/// the tracker is untouched; with no prior window nothing is produced —
/// "nothing to switch to" is a non-fatal outcome.
pub fn handle_switch(
    signal: &mut SwitchSignal,
    tracker: &mut FocusTracker,
    root: u32,
    atoms: Atoms,
) -> (m: Option<SyntheticMessage>)
    ensures
        final(signal)@ == consume_next(old(signal)@),
        final(tracker)@ == (if old(signal)@.signaled {
            switch_next(old(tracker)@)
        } else {
            old(tracker)@
        }),
        m == switch_service_result(old(signal)@, old(tracker)@, root, atoms),
{
    if !signal.consume() {
        return None;
    }
    match tracker.switch() {
        Some(target) => Some(activation_message(target, root, atoms)),
        None => None,
    }
}

} // verus!
