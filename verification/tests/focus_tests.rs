use x11_alternate_focus::focustracker::FocusTracker;
use x11_alternate_focus::focustracker::ObserveOutcome;
use x11_alternate_focus::focustracker::WaitOutcome;

const A: u32 = 0x0040_0001;
const B: u32 = 0x0040_0002;
const C: u32 = 0x0040_0003;

#[test]
fn settled_sequence_tracks_current_and_last() {
    let mut t = FocusTracker::new();
    let g = t.track();
    assert_eq!(t.observe(g, A, 0), ObserveOutcome::Accepted);
    assert_eq!(t.current(), Some(A));
    assert_eq!(t.last_window(), None);

    let g = t.track();
    assert_eq!(t.observe(g, B, 0), ObserveOutcome::Accepted);
    let g = t.track();
    assert_eq!(t.observe(g, C, 0), ObserveOutcome::Accepted);

    assert_eq!(t.current(), Some(C));
    assert_eq!(t.last_window(), Some(B));
    assert!(t.is_accepted());
}

#[test]
fn reconfirmation_is_not_a_new_focus_event() {
    let mut t = FocusTracker::new();
    let g = t.track();
    assert_eq!(t.observe(g, A, 0), ObserveOutcome::Accepted);
    let g = t.track();
    assert_eq!(t.observe(g, B, 0), ObserveOutcome::Accepted);

    // The same window observed again only reconfirms; `last` stays put.
    let g = t.track();
    assert_eq!(t.observe(g, B, 0), ObserveOutcome::Reconfirmed);
    assert_eq!(t.current(), Some(B));
    assert_eq!(t.last_window(), Some(A));
}

#[test]
fn switch_exchanges_and_reports_the_target() {
    let mut t = FocusTracker::new();
    let g = t.track();
    t.observe(g, A, 0);
    let g = t.track();
    t.observe(g, B, 0);
    let g = t.track();
    t.observe(g, C, 0);
    assert_eq!(t.current(), Some(C));
    assert_eq!(t.last_window(), Some(B));

    let target = t.switch();
    assert_eq!(target, Some(B));
    assert_eq!(t.current(), Some(B));
    assert_eq!(t.last_window(), Some(C));
}

#[test]
fn double_switch_restores_the_pair() {
    let mut t = FocusTracker::new();
    let g = t.track();
    t.observe(g, A, 0);
    let g = t.track();
    t.observe(g, B, 0);

    assert_eq!(t.current(), Some(B));
    assert_eq!(t.last_window(), Some(A));
    t.switch();
    t.switch();
    assert_eq!(t.current(), Some(B));
    assert_eq!(t.last_window(), Some(A));
}

#[test]
fn switch_with_no_prior_window_returns_none() {
    let mut t = FocusTracker::new();
    assert_eq!(t.switch(), None);

    let mut t = FocusTracker::new();
    let g = t.track();
    t.observe(g, A, 0);
    // Only one window ever settled: nothing to switch to.
    assert_eq!(t.switch(), None);
    assert_eq!(t.last_window(), Some(A));
}

#[test]
fn held_modifiers_defer_acceptance_until_release() {
    let mut t = FocusTracker::new();
    let g = t.track();
    assert_eq!(t.observe(g, A, 0), ObserveOutcome::Accepted);

    // A modifier chord begins: B and C are observed while the mask is held.
    let g_b = t.track();
    assert_eq!(t.observe(g_b, B, 0x4), ObserveOutcome::AwaitingRelease);
    assert!(!t.is_accepted());
    let g_c = t.track();
    assert_eq!(t.observe(g_c, C, 0x4), ObserveOutcome::AwaitingRelease);

    // A nonempty mask keeps the wait going; the superseded chain is stale.
    assert_eq!(t.modifier_update(g_b, 0), WaitOutcome::Stale);
    assert_eq!(t.modifier_update(g_c, 0x4), WaitOutcome::KeepWaiting);
    assert!(!t.is_accepted());

    // The mask clears: the window current at that moment settles, and the
    // intermediate B never became the switch target.
    assert_eq!(t.modifier_update(g_c, 0), WaitOutcome::Settled);
    assert_eq!(t.current(), Some(C));
    assert_eq!(t.last_window(), Some(A));
    assert!(t.is_accepted());
}

#[test]
fn stale_generation_mutates_nothing() {
    let mut t = FocusTracker::new();
    let g_old = t.track();
    assert_eq!(t.observe(g_old, A, 0), ObserveOutcome::Accepted);

    // A superseding observation strictly increases the generation.
    let g_new = t.track();
    assert!(g_new > g_old);

    // The stale chain's replies arrive afterwards: silent no-ops.
    assert_eq!(t.observe(g_old, B, 0), ObserveOutcome::Stale);
    assert_eq!(t.modifier_update(g_old, 0), WaitOutcome::Stale);
    assert_eq!(t.current(), Some(A));
    assert_eq!(t.last_window(), None);
    assert_eq!(t.generation(), g_new);

    // The live chain still works.
    assert_eq!(t.observe(g_new, B, 0), ObserveOutcome::Accepted);
    assert_eq!(t.current(), Some(B));
    assert_eq!(t.last_window(), Some(A));
}

#[test]
fn window_never_accepted_never_becomes_last() {
    let mut t = FocusTracker::new();
    let g = t.track();
    assert_eq!(t.observe(g, A, 0), ObserveOutcome::Accepted);

    // B is observed under a held chord and never settles before C arrives
    // with the mask already clear: B must not be promoted.
    let g = t.track();
    assert_eq!(t.observe(g, B, 0x8), ObserveOutcome::AwaitingRelease);
    let g = t.track();
    assert_eq!(t.observe(g, C, 0), ObserveOutcome::Accepted);
    assert_eq!(t.current(), Some(C));
    assert_eq!(t.last_window(), Some(A));
}
