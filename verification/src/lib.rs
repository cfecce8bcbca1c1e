//! Frame scheduling and retained-window lifecycle support for an
//! immediate-mode GUI application loop.
//!
//! The crate provides a tick-gated [`timer::Timer`] with a rolling FPS
//! estimate, edge-triggered input trackers ([`keyboard::Keyboard`],
//! [`mouse::Mouse`]) fed by plain [`events::InputEvent`] values, and a
//! [`window::PersistentWindowManager`] that lets long-lived, self-deciding
//! UI elements persist across immediate-mode frames until they vote to
//! terminate. The [`driver`] module holds the application loop's
//! decisions: how an update callback's outcome is answered, and which
//! window events the GUI layer receives.

pub mod driver;
pub mod events;
pub mod keyboard;
pub mod mouse;
pub mod timer;
pub mod window;
