//! Plain input events, as the trackers consume them.
//!
//! The platform's raw event stream is translated into these values at the
//! application's edge; the trackers state their behaviour over them. Events
//! the platform cannot resolve (a key press with no identifier, a wheel
//! motion in pixel form) are dropped before translation, as the trackers
//! tolerate partial or unknown platform input by design.

use vstd::prelude::*;

verus! {

/// One resolved input event.
///
/// Fractional quantities (raw motion, wheel lines) are carried in
/// thousandths, so that accumulation stays exact.
pub enum InputEvent {
    /// A key transition on the key with the given resolved identifier.
    /// `pressed` is true for key-down (auto-repeat included) and false
    /// for key-up.
    Key { code: u32, pressed: bool },
    /// The cursor moved to an absolute position within the window.
    CursorMoved { x: i32, y: i32 },
    /// A mouse button transition; button indices at or above 10 are
    /// silently dropped by the tracker.
    Button { index: u16, pressed: bool },
    /// Wheel motion in line-delta form, in thousandths of a line. By
    /// convention the first component carries the vertical lines and the
    /// second the horizontal ones.
    Wheel { dx: i64, dy: i64 },
    /// Raw device motion, in thousandths of a pixel.
    Motion { dx: i64, dy: i64 },
    /// The window gained or lost focus.
    Focused { focused: bool },
}

} // verus!
