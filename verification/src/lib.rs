//! Decision core of an "alternate focus" helper for X11-style desktops.
//!
//! The library holds the verified logic of the daemon: the focus-tracking
//! debounce state machine, the cookie-correlated request completion queue,
//! the reference-counted modifier-state watch, the coalescing switch signal,
//! and the reactor's event dispatch rules. All protocol I/O and the async
//! runtime live outside the library and drive these decisions with plain
//! values.

pub mod dispatch;
pub mod focustracker;
pub mod modwatch;
pub mod rqueue;
pub mod signal;

pub use dispatch::Atoms;
pub use focustracker::FocusTracker;
pub use modwatch::ModifierWatch;
pub use rqueue::Queue;
pub use signal::SwitchSignal;
