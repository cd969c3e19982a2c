//! The focus tracker: a debounce state machine over active-window changes.
//!
//! A chorded window switcher may cycle through several candidate windows
//! while a keyboard modifier is held; only the window that is current at the
//! moment all modifiers are released has "settled" and may later become the
//! `last` window that a switch returns to. Every new observation bumps a
//! generation counter; an in-flight chain that sees a newer generation at
//! one of its checkpoints abandons itself without touching the state.
//!
//! The tracker itself is pure state: the reactor feeds it the replies of the
//! protocol requests (the active-window value and the modifier mask) and the
//! published modifier masks as plain values, and performs the I/O that the
//! returned outcomes call for.

use vstd::prelude::*;

verus! {

/// Mathematical state of the tracker.
pub struct FocusView {
    /// Monotonically increasing counter; stale chains detect supersession
    /// by comparing their captured value against it.
    pub generation: u64,
    /// The most recently observed active window.
    pub current: Option<u32>,
    /// False exactly while a debounce wait for the current generation is
    /// outstanding.
    pub current_accepted: bool,
    /// The previously settled window: the switch target.
    pub last: Option<u32>,
}

/// The state a tracker starts in: nothing observed, nothing settled.
pub open spec fn initial_view() -> FocusView {
    FocusView { generation: 0, current: None, current_accepted: false, last: None }
}

/// State after a new focus observation begins: only the generation moves,
/// superseding every older in-flight chain.
pub open spec fn begin_next(s: FocusView) -> FocusView {
    FocusView {
        generation: (s.generation + 1) as u64,
        current: s.current,
        current_accepted: s.current_accepted,
        last: s.last,
    }
}

/// State after the replies for the chain of generation `g` arrive, carrying
/// the newly observed active window and the modifier mask read at that
/// moment. A stale chain changes nothing. A re-observation of the current
/// window only confirms it. Otherwise the window becomes current, the old
/// current is promoted to `last` only if it had been accepted, and the new
/// window is accepted immediately exactly when the mask is empty.
pub open spec fn observe_next(s: FocusView, g: u64, window: u32, mods: u32) -> FocusView {
    if g != s.generation {
        s
    } else if s.current == Some(window) {
        FocusView {
            generation: s.generation,
            current: s.current,
            current_accepted: true,
            last: s.last,
        }
    } else {
        FocusView {
            generation: s.generation,
            current: Some(window),
            current_accepted: mods == 0,
            last: (if s.current_accepted {
                s.current
            } else {
                s.last
            }),
        }
    }
}

/// What the chain of generation `g` should do after its replies arrive.
pub open spec fn observe_outcome(s: FocusView, g: u64, window: u32, mods: u32) -> ObserveOutcome {
    if g != s.generation {
        ObserveOutcome::Stale
    } else if s.current == Some(window) {
        ObserveOutcome::Reconfirmed
    } else if mods == 0 {
        ObserveOutcome::Accepted
    } else {
        ObserveOutcome::AwaitingRelease
    }
}

/// State after the chain of generation `g` sees a published modifier mask
/// while waiting for release: an empty mask settles the current window, a
/// nonempty mask and a stale generation change nothing.
pub open spec fn wait_next(s: FocusView, g: u64, mods: u32) -> FocusView {
    if g != s.generation {
        s
    } else if mods == 0 {
        FocusView {
            generation: s.generation,
            current: s.current,
            current_accepted: true,
            last: s.last,
        }
    } else {
        s
    }
}

/// What the waiting chain of generation `g` should do on a published mask.
pub open spec fn wait_outcome(s: FocusView, g: u64, mods: u32) -> WaitOutcome {
    if g != s.generation {
        WaitOutcome::Stale
    } else if mods == 0 {
        WaitOutcome::Settled
    } else {
        WaitOutcome::KeepWaiting
    }
}

/// State after a switch: `last` and `current` exchange places.
pub open spec fn switch_next(s: FocusView) -> FocusView {
    FocusView {
        generation: s.generation,
        current: s.last,
        current_accepted: s.current_accepted,
        last: s.current,
    }
}

/// What a tracking chain does once the replies for its observation arrive.
#[derive(Clone, Copy, Debug, PartialEq, Eq, Structural)]
pub enum ObserveOutcome {
    /// A newer observation superseded this chain; it did nothing.
    Stale,
    /// The observed window was already current; it is confirmed as settled.
    Reconfirmed,
    /// The modifier mask was empty: the window settled immediately.
    Accepted,
    /// Modifiers are held: the chain must wait for published masks.
    AwaitingRelease,
}

/// What a waiting chain does on a published modifier mask.
#[derive(Clone, Copy, Debug, PartialEq, Eq, Structural)]
pub enum WaitOutcome {
    /// A newer observation superseded this chain; it did nothing.
    Stale,
    /// All modifiers were released: the current window settled.
    Settled,
    /// Some modifier is still held: keep waiting.
    KeepWaiting,
}

/// Reconciles a stream of active-window observations into a stable
/// `(current, last)` pair, debounced by the modifier mask.
pub struct FocusTracker {
    generation: u64,
    current: Option<u32>,
    current_accepted: bool,
    last: Option<u32>,
}

impl View for FocusTracker {
    type V = FocusView;

    closed spec fn view(&self) -> FocusView {
        FocusView {
            generation: self.generation,
            current: self.current,
            current_accepted: self.current_accepted,
            last: self.last,
        }
    }
}

impl FocusTracker {
    /// A tracker that has seen nothing yet.
    pub fn new() -> (t: Self)
        ensures
            t@ == initial_view(),
    {
        FocusTracker { generation: 0, current: None, current_accepted: false, last: None }
    }

    /// Begin a new tracking chain for a fresh focus observation: the
    /// generation strictly increases, superseding every older in-flight
    /// chain, and the captured value is returned as the chain's token.
    pub fn track(&mut self) -> (g: u64)
        requires
            old(self)@.generation < u64::MAX,
        ensures
            final(self)@ == begin_next(old(self)@),
            g == final(self)@.generation,
            g == old(self)@.generation + 1,
    {
        self.generation = self.generation + 1;
        self.generation
    }

    /// Feed the chain of generation `g` the replies of its two requests:
    /// the observed active window and the modifier mask read at that moment.
    pub fn observe(&mut self, g: u64, window: u32, mods: u32) -> (r: ObserveOutcome)
        ensures
            final(self)@ == observe_next(old(self)@, g, window, mods),
            r == observe_outcome(old(self)@, g, window, mods),
    {
        if g != self.generation {
            return ObserveOutcome::Stale;
        }
        let same: bool = match self.current {
            Some(c) => c == window,
            None => false,
        };
        if same {
            self.current_accepted = true;
            return ObserveOutcome::Reconfirmed;
        }
        if self.current_accepted {
            self.last = self.current;
        }
        self.current = Some(window);
        if mods == 0 {
            self.current_accepted = true;
            ObserveOutcome::Accepted
        } else {
            self.current_accepted = false;
            ObserveOutcome::AwaitingRelease
        }
    }

    /// Feed the waiting chain of generation `g` a published modifier mask.
    pub fn modifier_update(&mut self, g: u64, mods: u32) -> (r: WaitOutcome)
        ensures
            final(self)@ == wait_next(old(self)@, g, mods),
            r == wait_outcome(old(self)@, g, mods),
    {
        if g != self.generation {
            return WaitOutcome::Stale;
        }
        if mods == 0 {
            self.current_accepted = true;
            WaitOutcome::Settled
        } else {
            WaitOutcome::KeepWaiting
        }
    }

    /// Exchange `last` and `current` and return the new current window —
    /// the window to activate. When no prior window exists the result is
    /// `None`: nothing to switch to, a non-fatal outcome.
    pub fn switch(&mut self) -> (r: Option<u32>)
        ensures
            final(self)@ == switch_next(old(self)@),
            r == old(self)@.last,
    {
        let swapped: Option<u32> = self.current;
        self.current = self.last;
        self.last = swapped;
        self.current
    }

    /// The most recently observed active window.
    pub fn current(&self) -> (r: Option<u32>)
        ensures
            r == self@.current,
    {
        self.current
    }

    /// The previously settled window: what the next switch activates.
    pub fn last_window(&self) -> (r: Option<u32>)
        ensures
            r == self@.last,
    {
        self.last
    }

    /// Whether the current window has settled (no debounce wait is
    /// outstanding for the current generation).
    pub fn is_accepted(&self) -> (r: bool)
        ensures
            r == self@.current_accepted,
    {
        self.current_accepted
    }

    /// The generation of the newest observation.
    pub fn generation(&self) -> (r: u64)
        ensures
            r == self@.generation,
    {
        self.generation
    }
}

/// One whole observation as the reactor performs it: begin a chain, then
/// feed it its replies under the generation it captured.
pub open spec fn step_observation(s: FocusView, window: u32, mods: u32) -> FocusView {
    observe_next(begin_next(s), begin_next(s).generation, window, mods)
}

/// The state after a whole sequence of observations, each a pair of the
/// observed window and the modifier mask read for it.
pub open spec fn run_observations(s: FocusView, obs: Seq<(u32, u32)>) -> FocusView
    decreases obs.len(),
{
    if obs.len() == 0 {
        s
    } else {
        run_observations(step_observation(s, obs[0].0, obs[0].1), obs.skip(1))
    }
}

/// No two consecutive observations name the same window.
pub open spec fn no_consecutive_repeats(obs: Seq<(u32, u32)>) -> bool {
    forall|i: int| 0 <= i && i + 1 < obs.len() ==> (#[trigger] obs[i]).0 != obs[i + 1].0
}

/// Every observation in the sequence read an empty modifier mask.
pub open spec fn all_released(obs: Seq<(u32, u32)>) -> bool {
    forall|i: int| 0 <= i < obs.len() ==> (#[trigger] obs[i]).1 == 0
}

/// Every observation in the sequence read a nonempty modifier mask.
pub open spec fn all_held(obs: Seq<(u32, u32)>) -> bool {
    forall|i: int| 0 <= i < obs.len() ==> (#[trigger] obs[i]).1 != 0
}

proof fn lemma_run_settled(s: FocusView, obs: Seq<(u32, u32)>)
    requires
        s.current_accepted,
        obs.len() >= 1,
        all_released(obs),
        no_consecutive_repeats(obs),
        s.current != Some(obs[0].0),
    ensures
        run_observations(s, obs).current == Some(obs.last().0),
        run_observations(s, obs).current_accepted,
        run_observations(s, obs).last == (if obs.len() >= 2 {
            Some(obs[obs.len() - 2].0)
        } else {
            s.current
        }),
    decreases obs.len(),
{
    let s1 = step_observation(s, obs[0].0, obs[0].1);
    assert(s1.current == Some(obs[0].0));
    assert(s1.current_accepted);
    assert(s1.last == s.current);
    if obs.len() == 1 {
        assert(obs.last() == obs[0]);
    } else {
        let rest = obs.skip(1);
        assert forall|i: int| 0 <= i < rest.len() implies (#[trigger] rest[i]).1 == 0 by {
            assert(rest[i] == obs[i + 1]);
        }
        assert forall|i: int| 0 <= i && i + 1 < rest.len() implies (#[trigger] rest[i]).0 != rest[
            i + 1
        ].0 by {
            assert(rest[i] == obs[i + 1]);
            assert(rest[i + 1] == obs[i + 2]);
        }
        assert(rest[0] == obs[1]);
        assert(s1.current != Some(rest[0].0));
        lemma_run_settled(s1, rest);
        assert(rest.last() == obs.last());
        if rest.len() >= 2 {
            assert(rest[rest.len() - 2] == obs[obs.len() - 2]);
        }
    }
}

/// With modifiers empty throughout, a deduplicated focus sequence leaves
/// the last observed window current and settled, and the one before it (if
/// any) as the switch target.
pub proof fn lemma_settled_sequence(obs: Seq<(u32, u32)>)
    requires
        obs.len() >= 1,
        all_released(obs),
        no_consecutive_repeats(obs),
    ensures
        run_observations(initial_view(), obs).current == Some(obs.last().0),
        run_observations(initial_view(), obs).current_accepted,
        run_observations(initial_view(), obs).last == (if obs.len() >= 2 {
            Some(obs[obs.len() - 2].0)
        } else {
            None::<u32>
        }),
{
    let s0 = initial_view();
    let s1 = step_observation(s0, obs[0].0, obs[0].1);
    assert(s1.current == Some(obs[0].0));
    assert(s1.current_accepted);
    assert(s1.last == None::<u32>);
    if obs.len() == 1 {
        assert(obs.last() == obs[0]);
    } else {
        let rest = obs.skip(1);
        assert forall|i: int| 0 <= i < rest.len() implies (#[trigger] rest[i]).1 == 0 by {
            assert(rest[i] == obs[i + 1]);
        }
        assert forall|i: int| 0 <= i && i + 1 < rest.len() implies (#[trigger] rest[i]).0 != rest[
            i + 1
        ].0 by {
            assert(rest[i] == obs[i + 1]);
            assert(rest[i + 1] == obs[i + 2]);
        }
        assert(rest[0] == obs[1]);
        lemma_run_settled(s1, rest);
        assert(rest.last() == obs.last());
        if rest.len() >= 2 {
            assert(rest[rest.len() - 2] == obs[obs.len() - 2]);
        }
    }
}

proof fn lemma_run_held_pending(s: FocusView, obs: Seq<(u32, u32)>)
    requires
        !s.current_accepted,
        all_held(obs),
        no_consecutive_repeats(obs),
        obs.len() >= 1 ==> s.current != Some(obs[0].0),
    ensures
        run_observations(s, obs).current == (if obs.len() >= 1 {
            Some(obs.last().0)
        } else {
            s.current
        }),
        !run_observations(s, obs).current_accepted,
        run_observations(s, obs).last == s.last,
    decreases obs.len(),
{
    if obs.len() == 0 {
    } else {
        let s1 = step_observation(s, obs[0].0, obs[0].1);
        assert(s1.current == Some(obs[0].0));
        assert(!s1.current_accepted);
        assert(s1.last == s.last);
        let rest = obs.skip(1);
        assert forall|i: int| 0 <= i < rest.len() implies (#[trigger] rest[i]).1 != 0 by {
            assert(rest[i] == obs[i + 1]);
        }
        assert forall|i: int| 0 <= i && i + 1 < rest.len() implies (#[trigger] rest[i]).0 != rest[
            i + 1
        ].0 by {
            assert(rest[i] == obs[i + 1]);
            assert(rest[i + 1] == obs[i + 2]);
        }
        if rest.len() >= 1 {
            assert(rest[0] == obs[1]);
        }
        lemma_run_held_pending(s1, rest);
        if rest.len() >= 1 {
            assert(rest.last() == obs.last());
        } else {
            assert(obs.last() == obs[0]);
        }
    }
}

/// With modifiers held when a new window is first observed and for every
/// further observation of the chain, the window current at the moment the
/// mask finally clears is the one that settles; the previously accepted
/// window is the only one promoted to `last`, so the intermediate windows
/// of the chord never become a switch target.
pub proof fn lemma_held_chain(s: FocusView, obs: Seq<(u32, u32)>)
    requires
        s.current_accepted,
        obs.len() >= 1,
        all_held(obs),
        no_consecutive_repeats(obs),
        s.current != Some(obs[0].0),
    ensures
        run_observations(s, obs).current == Some(obs.last().0),
        !run_observations(s, obs).current_accepted,
        run_observations(s, obs).last == s.current,
        wait_next(
            run_observations(s, obs),
            run_observations(s, obs).generation,
            0,
        ).current == Some(obs.last().0),
        wait_next(run_observations(s, obs), run_observations(s, obs).generation, 0).current_accepted,
        wait_next(run_observations(s, obs), run_observations(s, obs).generation, 0).last
            == s.current,
{
    let s1 = step_observation(s, obs[0].0, obs[0].1);
    assert(s1.current == Some(obs[0].0));
    assert(!s1.current_accepted);
    assert(s1.last == s.current);
    let rest = obs.skip(1);
    assert forall|i: int| 0 <= i < rest.len() implies (#[trigger] rest[i]).1 != 0 by {
        assert(rest[i] == obs[i + 1]);
    }
    assert forall|i: int| 0 <= i && i + 1 < rest.len() implies (#[trigger] rest[i]).0 != rest[i
        + 1].0 by {
        assert(rest[i] == obs[i + 1]);
        assert(rest[i + 1] == obs[i + 2]);
    }
    if rest.len() >= 1 {
        assert(rest[0] == obs[1]);
    }
    lemma_run_held_pending(s1, rest);
    if rest.len() >= 1 {
        assert(rest.last() == obs.last());
    } else {
        assert(obs.last() == obs[0]);
    }
}

/// Observing the window that is already current is only a re-confirmation,
/// not a new focus event: besides the generation, the pair stays as it is.
/// A focus sequence with consecutive repeats therefore tracks exactly as
/// its deduplicated form does.
pub proof fn lemma_repeat_reconfirms(s: FocusView, w: u32, mods: u32)
    requires
        s.current == Some(w),
    ensures
        step_observation(s, w, mods).current == s.current,
        step_observation(s, w, mods).last == s.last,
        step_observation(s, w, mods).current_accepted,
{
}

/// A mask published while some modifier is still held changes nothing: the
/// chain merely keeps waiting.
pub proof fn lemma_wait_ignores_held(s: FocusView, g: u64, mods: u32)
    requires
        mods != 0,
    ensures
        wait_next(s, g, mods) == s,
{
}

/// A superseding observation strictly increases the generation, and a chain
/// whose captured generation no longer matches mutates nothing: stale
/// chains are silent no-ops.
pub proof fn lemma_stale_generation_noop(s: FocusView, g: u64, window: u32, mods: u32)
    requires
        g != s.generation,
    ensures
        observe_next(s, g, window, mods) == s,
        wait_next(s, g, mods) == s,
        observe_outcome(s, g, window, mods) == ObserveOutcome::Stale,
        wait_outcome(s, g, mods) == WaitOutcome::Stale,
        s.generation < u64::MAX ==> begin_next(s).generation > s.generation,
{
}

/// Two consecutive switches with no observation in between leave the
/// `(current, last)` pair as it began: a switch is self-inverse.
pub proof fn lemma_switch_self_inverse(s: FocusView)
    ensures
        switch_next(switch_next(s)) == s,
{
}

} // verus!
