use x11_alternate_focus::dispatch::dispatch;
use x11_alternate_focus::dispatch::is_root;
use x11_alternate_focus::dispatch::Action;
use x11_alternate_focus::dispatch::Atoms;
use x11_alternate_focus::dispatch::Event;
use x11_alternate_focus::focustracker::FocusTracker;
use x11_alternate_focus::modwatch::ModifierWatch;
use x11_alternate_focus::modwatch::PublishEffect;
use x11_alternate_focus::modwatch::WatchEffect;
use x11_alternate_focus::signal::activation_message;
use x11_alternate_focus::signal::handle_switch;
use x11_alternate_focus::signal::switch_message;
use x11_alternate_focus::signal::SwitchSignal;
use x11_alternate_focus::signal::ACTIVATION_SOURCE_PAGER;

const ROOT: u32 = 0x15A;

fn test_atoms() -> Atoms {
    Atoms { net_active_window: 41, switch_command: 42 }
}

#[test]
fn root_set_membership() {
    let roots = vec![ROOT, 0x2B4];
    assert!(is_root(&roots, ROOT));
    assert!(is_root(&roots, 0x2B4));
    assert!(!is_root(&roots, 0x999));
    assert!(!is_root(&Vec::new(), ROOT));
}

#[test]
fn active_window_change_on_root_begins_tracking() {
    let roots = vec![ROOT];
    let ev = Event::PropertyChanged { window: ROOT, atom: 41, is_new_value: true };
    assert_eq!(dispatch(&roots, test_atoms(), ev), Action::TrackFocus { root: ROOT });
}

#[test]
fn other_property_changes_are_ignored() {
    let roots = vec![ROOT];
    // Another atom on the root window.
    let ev = Event::PropertyChanged { window: ROOT, atom: 77, is_new_value: true };
    assert_eq!(dispatch(&roots, test_atoms(), ev), Action::Ignore);
    // A deletion notification for the active-window atom.
    let ev = Event::PropertyChanged { window: ROOT, atom: 41, is_new_value: false };
    assert_eq!(dispatch(&roots, test_atoms(), ev), Action::Ignore);
    // Outside the root window set: dropped silently.
    let ev = Event::PropertyChanged { window: 0x999, atom: 41, is_new_value: true };
    assert_eq!(dispatch(&roots, test_atoms(), ev), Action::Ignore);
}

#[test]
fn switch_marker_on_root_wakes_the_signal() {
    let roots = vec![ROOT];
    let ev = Event::ClientMessage { window: ROOT, message_type: 42 };
    assert_eq!(dispatch(&roots, test_atoms(), ev), Action::WakeSwitch);
    // Wrong tag, or a window outside the root set: ignored.
    let ev = Event::ClientMessage { window: ROOT, message_type: 43 };
    assert_eq!(dispatch(&roots, test_atoms(), ev), Action::Ignore);
    let ev = Event::ClientMessage { window: 0x999, message_type: 42 };
    assert_eq!(dispatch(&roots, test_atoms(), ev), Action::Ignore);
}

#[test]
fn keyboard_state_publishes_and_unknown_is_logged() {
    let roots = vec![ROOT];
    let ev = Event::ModifierState { mods: 0x11 };
    assert_eq!(dispatch(&roots, test_atoms(), ev), Action::PublishModifiers { mods: 0x11 });
    assert_eq!(dispatch(&roots, test_atoms(), Event::Unknown), Action::LogUnexpected);
}

#[test]
fn first_subscriber_enables_last_one_disables() {
    let mut w = ModifierWatch::new();
    assert!(!w.stream_enabled());
    assert_eq!(w.subscribe(), WatchEffect::EnableStream);
    assert_eq!(w.subscribe(), WatchEffect::NoChange);
    assert!(w.stream_enabled());
    assert_eq!(w.subscriber_count(), 2);

    assert_eq!(w.publish(0x4), PublishEffect::Deliver { mods: 0x4 });

    assert_eq!(w.unsubscribe(), WatchEffect::NoChange);
    assert_eq!(w.unsubscribe(), WatchEffect::DisableStream);
    assert!(!w.stream_enabled());
    assert_eq!(w.subscriber_count(), 0);
}

#[test]
fn publish_without_subscribers_disables_the_stream() {
    let mut w = ModifierWatch::new();
    assert_eq!(w.subscribe(), WatchEffect::EnableStream);
    assert_eq!(w.unsubscribe(), WatchEffect::DisableStream);

    // A notification straggles in with nobody listening: no delivery, the
    // stream is shut until someone subscribes again.
    assert_eq!(w.publish(0x2), PublishEffect::DisableStream);
    assert!(!w.stream_enabled());
    assert_eq!(w.subscribe(), WatchEffect::EnableStream);
    assert!(w.stream_enabled());
}

#[test]
fn notifications_coalesce_into_one_wakeup() {
    let mut s = SwitchSignal::new();
    assert!(!s.consume());
    s.notify();
    s.notify();
    s.notify();
    assert!(s.consume());
    assert!(!s.consume());
}

#[test]
fn message_builders_fill_every_field() {
    let m = activation_message(0xB00, ROOT, test_atoms());
    assert_eq!(m.destination, ROOT);
    assert_eq!(m.window, 0xB00);
    assert_eq!(m.message_type, 41);
    assert_eq!(m.first_datum, ACTIVATION_SOURCE_PAGER);
    assert_eq!(ACTIVATION_SOURCE_PAGER, 2);

    let m = switch_message(ROOT, test_atoms());
    assert_eq!(m.destination, ROOT);
    assert_eq!(m.window, ROOT);
    assert_eq!(m.message_type, 42);
    assert_eq!(m.first_datum, 0);
}

#[test]
fn servicing_the_signal_activates_the_previous_window() {
    let mut t = FocusTracker::new();
    let g = t.track();
    t.observe(g, 0xA1, 0);
    let g = t.track();
    t.observe(g, 0xA2, 0);

    let mut s = SwitchSignal::new();
    // No wakeup pending: the tracker is untouched.
    assert_eq!(handle_switch(&mut s, &mut t, ROOT, test_atoms()), None);
    assert_eq!(t.current(), Some(0xA2));

    s.notify();
    let m = handle_switch(&mut s, &mut t, ROOT, test_atoms()).unwrap();
    assert_eq!(m.destination, ROOT);
    assert_eq!(m.window, 0xA1);
    assert_eq!(m.message_type, 41);
    assert_eq!(m.first_datum, 2);
    assert_eq!(t.current(), Some(0xA1));
    assert_eq!(t.last_window(), Some(0xA2));
    // The wakeup was consumed with it.
    assert!(!s.consume());
}

#[test]
fn servicing_with_no_target_is_not_an_error() {
    let mut t = FocusTracker::new();
    let g = t.track();
    t.observe(g, 0xA1, 0);

    let mut s = SwitchSignal::new();
    s.notify();
    // Only one window ever settled: nothing to switch to, no message.
    assert_eq!(handle_switch(&mut s, &mut t, ROOT, test_atoms()), None);
}
