//! The reactor's dispatch rules.
//!
//! Each wake the reactor drains the connection's queued events and routes
//! every one by its type and its originating window: active-window property
//! changes on a root window begin a tracking chain, client messages tagged
//! with the private switch marker wake the switch signal, keyboard-state
//! notifications publish the new modifier mask, and everything else is
//! dropped — silently when it concerns a window outside the root set,
//! logged when it is of an unexpected type.

use vstd::prelude::*;

verus! {

/// The two atoms the daemon interns at startup and never changes: the
/// active-window property's name and the private switch marker.
#[derive(Clone, Copy, Debug, PartialEq, Eq, Structural)]
pub struct Atoms {
    pub net_active_window: u32,
    pub switch_command: u32,
}

/// A drained protocol event, reduced to what the dispatch rules read.
#[derive(Clone, Copy, Debug, PartialEq, Eq, Structural)]
pub enum Event {
    /// A property changed on some window; `is_new_value` says the
    /// notification reports a new value rather than a deletion.
    PropertyChanged { window: u32, atom: u32, is_new_value: bool },
    /// A client message arrived for some window, tagged with a type atom.
    ClientMessage { window: u32, message_type: u32 },
    /// The keyboard extension reports the current modifier mask.
    ModifierState { mods: u32 },
    /// Any event of a type the daemon does not handle.
    Unknown,
}

/// What the reactor does with one drained event.
#[derive(Clone, Copy, Debug, PartialEq, Eq, Structural)]
pub enum Action {
    /// Begin a focus-tracking chain for this root window.
    TrackFocus { root: u32 },
    /// Wake the switch signal.
    WakeSwitch,
    /// Publish this modifier mask to the modifier watch.
    PublishModifiers { mods: u32 },
    /// Drop the event silently.
    Ignore,
    /// Drop the event, noting it as unexpected.
    LogUnexpected,
}

/// The dispatch table: the action for one event, given the immutable root
/// window set and atom table.
pub open spec fn dispatch_spec(roots: Seq<u32>, atoms: Atoms, ev: Event) -> Action {
    match ev {
        Event::PropertyChanged { window, atom, is_new_value } => {
            if !roots.contains(window) {
                Action::Ignore
            } else if is_new_value && atom == atoms.net_active_window {
                Action::TrackFocus { root: window }
            } else {
                Action::Ignore
            }
        },
        Event::ClientMessage { window, message_type } => {
            if roots.contains(window) && message_type == atoms.switch_command {
                Action::WakeSwitch
            } else {
                Action::Ignore
            }
        },
        Event::ModifierState { mods } => Action::PublishModifiers { mods },
        Event::Unknown => Action::LogUnexpected,
    }
}

/// Whether a window is one of the per-screen root windows.
pub fn is_root(roots: &Vec<u32>, window: u32) -> (r: bool)
    ensures
        r == roots@.contains(window),
{
    let mut i: usize = 0;
    while i < roots.len()
        invariant
            i <= roots@.len(),
            forall|j: int| 0 <= j < i ==> roots@[j] != window,
        decreases roots@.len() - i,
    {
        if roots[i] == window {
            assert(roots@[i as int] == window);
            return true;
        }
        i = i + 1;
    }
    false
}

/// Route one drained event per the dispatch table.
pub fn dispatch(roots: &Vec<u32>, atoms: Atoms, ev: Event) -> (a: Action)
    ensures
        a == dispatch_spec(roots@, atoms, ev),
{
    match ev {
        Event::PropertyChanged { window, atom, is_new_value } => {
            if !is_root(roots, window) {
                Action::Ignore
            } else if is_new_value && atom == atoms.net_active_window {
                Action::TrackFocus { root: window }
            } else {
                Action::Ignore
            }
        },
        Event::ClientMessage { window, message_type } => {
            if is_root(roots, window) && message_type == atoms.switch_command {
                Action::WakeSwitch
            } else {
                Action::Ignore
            }
        },
        Event::ModifierState { mods } => Action::PublishModifiers { mods },
        Event::Unknown => Action::LogUnexpected,
    }
}

} // verus!
