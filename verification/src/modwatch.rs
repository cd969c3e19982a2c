//! The modifier state watcher.
//!
//! Debounce waits share one lazily created subscription to the keyboard's
//! modifier-change notification stream. The first subscriber enables the
//! underlying stream; when the count returns to zero — or a notification
//! arrives with nobody left to deliver to — the stream is disabled again,
//! so no publish attempt reaches a watcher without subscribers.
//!
//! The watcher holds only the counting and enabling decisions; the caller
//! performs the protocol request that an `EnableStream` / `DisableStream`
//! effect calls for and broadcasts the mask that a `Deliver` effect carries.

use vstd::prelude::*;

verus! {

/// Mathematical state of the watcher: how many subscriptions are live and
/// whether the underlying notification stream is selected.
pub struct WatchView {
    pub subscribers: u64,
    pub stream_enabled: bool,
}

/// State after one new subscription.
pub open spec fn subscribe_next(s: WatchView) -> WatchView {
    WatchView {
        subscribers: (s.subscribers + 1) as u64,
        stream_enabled: s.subscribers == 0 || s.stream_enabled,
    }
}

/// The protocol work a new subscription requires: the first subscriber
/// enables the underlying stream.
pub open spec fn subscribe_effect(s: WatchView) -> WatchEffect {
    if s.subscribers == 0 {
        WatchEffect::EnableStream
    } else {
        WatchEffect::NoChange
    }
}

/// State after one subscription ends.
pub open spec fn unsubscribe_next(s: WatchView) -> WatchView {
    if s.subscribers == 1 {
        WatchView { subscribers: 0, stream_enabled: false }
    } else {
        WatchView { subscribers: (s.subscribers - 1) as u64, stream_enabled: s.stream_enabled }
    }
}

/// The protocol work the ending subscription requires: the last subscriber
/// leaving disables the underlying stream.
pub open spec fn unsubscribe_effect(s: WatchView) -> WatchEffect {
    if s.subscribers == 1 {
        WatchEffect::DisableStream
    } else {
        WatchEffect::NoChange
    }
}

/// State after a modifier notification arrives: with no subscriber left the
/// stream is shut instead of delivering.
pub open spec fn publish_next(s: WatchView) -> WatchView {
    if s.subscribers == 0 {
        WatchView { subscribers: 0, stream_enabled: false }
    } else {
        s
    }
}

/// What happens to an arriving mask: delivered to the subscribers, or — if
/// none remain — dropped while the stream is shut.
pub open spec fn publish_effect(s: WatchView, mods: u32) -> PublishEffect {
    if s.subscribers == 0 {
        PublishEffect::DisableStream
    } else {
        PublishEffect::Deliver { mods }
    }
}

/// Protocol work a subscription change asks of the caller.
#[derive(Clone, Copy, Debug, PartialEq, Eq, Structural)]
pub enum WatchEffect {
    /// Select modifier-change notifications on the connection.
    EnableStream,
    /// Deselect them: nobody is listening any more.
    DisableStream,
    /// The stream stays as it is.
    NoChange,
}

/// What the caller does with an arriving modifier notification.
#[derive(Clone, Copy, Debug, PartialEq, Eq, Structural)]
pub enum PublishEffect {
    /// Broadcast this mask to every live subscriber.
    Deliver { mods: u32 },
    /// No subscriber is left: deselect the stream, deliver nothing.
    DisableStream,
}

/// Reference-counted shared subscription to the modifier-change stream.
pub struct ModifierWatch {
    subscribers: u64,
    stream_enabled: bool,
}

impl View for ModifierWatch {
    type V = WatchView;

    closed spec fn view(&self) -> WatchView {
        WatchView { subscribers: self.subscribers, stream_enabled: self.stream_enabled }
    }
}

impl ModifierWatch {
    /// Well-formed: while anyone subscribes, the stream is selected.
    pub open spec fn wf(&self) -> bool {
        self@.subscribers > 0 ==> self@.stream_enabled
    }

    /// A watcher with no subscription and the stream unselected.
    pub fn new() -> (w: Self)
        ensures
            w@.subscribers == 0,
            !w@.stream_enabled,
            w.wf(),
    {
        ModifierWatch { subscribers: 0, stream_enabled: false }
    }

    /// Register one more debounce wait. The returned effect says whether
    /// the caller must enable the underlying stream.
    pub fn subscribe(&mut self) -> (e: WatchEffect)
        requires
            old(self)@.subscribers < u64::MAX,
        ensures
            final(self)@ == subscribe_next(old(self)@),
            e == subscribe_effect(old(self)@),
            old(self).wf() ==> final(self).wf(),
    {
        let first = self.subscribers == 0;
        self.subscribers = self.subscribers + 1;
        if first {
            self.stream_enabled = true;
            WatchEffect::EnableStream
        } else {
            WatchEffect::NoChange
        }
    }

    /// One debounce wait ended. The returned effect says whether the caller
    /// must disable the underlying stream because nobody is left.
    pub fn unsubscribe(&mut self) -> (e: WatchEffect)
        requires
            old(self)@.subscribers > 0,
        ensures
            final(self)@ == unsubscribe_next(old(self)@),
            e == unsubscribe_effect(old(self)@),
            old(self).wf() ==> final(self).wf(),
    {
        self.subscribers = self.subscribers - 1;
        if self.subscribers == 0 {
            self.stream_enabled = false;
            WatchEffect::DisableStream
        } else {
            WatchEffect::NoChange
        }
    }

    /// A modifier notification arrived carrying this mask. It is delivered
    /// to the subscribers; with none left, the stream is shut instead.
    pub fn publish(&mut self, mods: u32) -> (e: PublishEffect)
        ensures
            final(self)@ == publish_next(old(self)@),
            e == publish_effect(old(self)@, mods),
            old(self).wf() ==> final(self).wf(),
    {
        if self.subscribers == 0 {
            self.stream_enabled = false;
            PublishEffect::DisableStream
        } else {
            PublishEffect::Deliver { mods }
        }
    }

    /// How many debounce waits currently share the subscription.
    pub fn subscriber_count(&self) -> (r: u64)
        ensures
            r == self@.subscribers,
    {
        self.subscribers
    }

    /// Whether the underlying notification stream is currently selected.
    pub fn stream_enabled(&self) -> (r: bool)
        ensures
            r == self@.stream_enabled,
    {
        self.stream_enabled
    }
}

/// The subscriber count returning to zero disables the underlying stream,
/// and no mask is delivered while nobody subscribes — an arriving one only
/// shuts the stream — until a new subscription enables it again.
pub proof fn lemma_teardown_on_zero(s: WatchView, mods: u32)
    ensures
        s.subscribers == 1 ==> unsubscribe_next(s).subscribers == 0
            && !unsubscribe_next(s).stream_enabled,
        s.subscribers == 0 ==> publish_effect(s, mods) == PublishEffect::DisableStream
            && !publish_next(s).stream_enabled,
        s.subscribers == 0 ==> subscribe_next(s).stream_enabled && subscribe_effect(s)
            == WatchEffect::EnableStream,
{
}

} // verus!
