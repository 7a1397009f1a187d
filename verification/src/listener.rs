//! The global input listener's decision: which events trigger a sample.
//!
//! The listener itself — a dedicated background thread blocking on the
//! system-wide event subscription — is host plumbing.  What it decides is
//! verified here: only a left-button press triggers a sample; every other
//! event kind is ignored.

use vstd::prelude::*;

verus! {

/// A pointer button, as reported by the global event subscription.
#[derive(Clone, Copy, Debug, PartialEq, Eq, Structural)]
pub enum PointerButton {
    Left,
    Right,
    Middle,
    Other,
}

/// The kind of a system-wide input event.
#[derive(Clone, Copy, Debug, PartialEq, Eq, Structural)]
pub enum InputEventKind {
    ButtonPress(PointerButton),
    ButtonRelease(PointerButton),
    KeyPress,
    KeyRelease,
    PointerMove,
    Wheel,
}

/// Whether an event is the left-button-press transition that triggers a
/// sample.
pub open spec fn spec_is_sample_trigger(e: InputEventKind) -> bool {
    e == InputEventKind::ButtonPress(PointerButton::Left)
}

/// Filters the global event stream: a left-button press triggers a sample,
/// everything else is ignored.
pub fn is_sample_trigger(e: &InputEventKind) -> (r: bool)
    ensures
        r == spec_is_sample_trigger(*e),
{
    match e {
        InputEventKind::ButtonPress(PointerButton::Left) => true,
        _ => false,
    }
}

/// Failure to establish the global event subscription (platform permission
/// denial, unsupported platform).  Fatal to the listener's background
/// context only: the host surfaces it as a degraded-mode signal and must
/// not crash.
#[derive(Clone, Copy, Debug, PartialEq, Eq, Structural)]
pub enum ListenerError {
    InitError,
}

} // verus!
