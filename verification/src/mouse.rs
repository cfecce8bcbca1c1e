//! An edge-triggered mouse tracker: position, accumulated motion and
//! scroll, and per-frame button press/release/hold state.
//!
//! Buttons live in fixed-size arrays of ten entries — hardware gives mouse
//! buttons a small bounded cardinality, unlike keys — and indices at or
//! above ten are silently dropped. Motion and scroll are accumulated in
//! thousandths (of a pixel, of a line) and only while the window is
//! focused; button state is tracked regardless of focus.

use vstd::prelude::*;

use crate::events::InputEvent;

verus! {

/// The number of tracked mouse buttons: 0 = left, 1 = middle, 2 = right,
/// 3..=9 auxiliary.
pub const BUTTON_COUNT: usize = 10;

/// `a + b`, clamped to the `i64` range.
pub open spec fn sat_add_i64(a: i64, b: i64) -> i64 {
    if a + b > i64::MAX {
        i64::MAX
    } else if a + b < i64::MIN {
        i64::MIN
    } else {
        (a + b) as i64
    }
}

/// Exact saturating addition on `i64`.
pub fn add_saturating(a: i64, b: i64) -> (r: i64)
    ensures
        r == sat_add_i64(a, b),
{
    if b >= 0 {
        if a <= i64::MAX - b {
            a + b
        } else {
            i64::MAX
        }
    } else {
        if a >= i64::MIN - b {
            a + b
        } else {
            i64::MIN
        }
    }
}

/// The logical content of a [`Mouse`].
pub struct MouseModel {
    /// Which buttons transitioned since the last tick reset.
    pub this_frame: Seq<bool>,
    /// Which buttons are currently down.
    pub pressed: Seq<bool>,
    /// Last known absolute cursor position.
    pub pos: (i32, i32),
    /// Accumulated raw motion since the last tick reset, in thousandths of
    /// a pixel.
    pub delta: (i64, i64),
    /// Accumulated wheel motion since the last tick reset, in thousandths
    /// of a line.
    pub wheel: (i64, i64),
    /// Whether the window is focused; gates motion and scroll
    /// accumulation only.
    pub focused: bool,
}

/// The mouse state after one event.
///
/// A cursor move overwrites the position (deliberately without feeding the
/// motion accumulator); raw motion and wheel lines accumulate only under
/// focus; a button transition below [`BUTTON_COUNT`] records its level and
/// marks its edge, and any other index leaves the state untouched; a focus
/// change overwrites the focus flag; key events are not the mouse's.
pub open spec fn mouse_after(m: MouseModel, e: InputEvent) -> MouseModel {
    match e {
        InputEvent::CursorMoved { x, y } => MouseModel { pos: (x, y), ..m },
        InputEvent::Button { index, pressed } => {
            if index < 10 {
                MouseModel {
                    this_frame: m.this_frame.update(index as int, true),
                    pressed: m.pressed.update(index as int, pressed),
                    ..m
                }
            } else {
                m
            }
        },
        InputEvent::Wheel { dx, dy } => {
            if m.focused {
                MouseModel {
                    wheel: (sat_add_i64(m.wheel.0, dx), sat_add_i64(m.wheel.1, dy)),
                    ..m
                }
            } else {
                m
            }
        },
        InputEvent::Motion { dx, dy } => {
            if m.focused {
                MouseModel {
                    delta: (sat_add_i64(m.delta.0, dx), sat_add_i64(m.delta.1, dy)),
                    ..m
                }
            } else {
                m
            }
        },
        InputEvent::Focused { focused } => MouseModel { focused, ..m },
        InputEvent::Key { .. } => m,
    }
}

/// Tracks the mouse: cursor position, accumulated motion and scroll, and
/// ten buttons' level and edge state.
pub struct Mouse {
    this_frame: Vec<bool>,
    pressed: Vec<bool>,
    pos: (i32, i32),
    delta: (i64, i64),
    wheel: (i64, i64),
    focused: bool,
}

impl View for Mouse {
    type V = MouseModel;

    closed spec fn view(&self) -> MouseModel {
        MouseModel {
            this_frame: self.this_frame@,
            pressed: self.pressed@,
            pos: self.pos,
            delta: self.delta,
            wheel: self.wheel,
            focused: self.focused,
        }
    }
}

impl Mouse {
    /// Both button arrays hold exactly [`BUTTON_COUNT`] entries.
    pub open spec fn wf(&self) -> bool {
        &&& self@.this_frame.len() == BUTTON_COUNT
        &&& self@.pressed.len() == BUTTON_COUNT
    }

    /// A tracker that has seen no events: every button up and unchanged,
    /// position at the origin, accumulators empty, window assumed focused.
    pub fn new() -> (m: Mouse)
        ensures
            m.wf(),
            m@ == (MouseModel {
                this_frame: Seq::new(BUTTON_COUNT as nat, |i: int| false),
                pressed: Seq::new(BUTTON_COUNT as nat, |i: int| false),
                pos: (0, 0),
                delta: (0, 0),
                wheel: (0, 0),
                focused: true,
            }),
    {
        let mut this_frame: Vec<bool> = Vec::new();
        let mut pressed: Vec<bool> = Vec::new();
        let mut i: usize = 0;
        while i < BUTTON_COUNT
            invariant
                i <= BUTTON_COUNT,
                this_frame@ =~= Seq::new(i as nat, |j: int| false),
                pressed@ =~= Seq::new(i as nat, |j: int| false),
            decreases BUTTON_COUNT - i,
        {
            this_frame.push(false);
            pressed.push(false);
            i = i + 1;
        }
        proof {
            assert(this_frame@ =~= Seq::new(BUTTON_COUNT as nat, |j: int| false));
            assert(pressed@ =~= Seq::new(BUTTON_COUNT as nat, |j: int| false));
        }
        Mouse {
            this_frame,
            pressed,
            pos: (0, 0),
            delta: (0, 0),
            wheel: (0, 0),
            focused: true,
        }
    }

    fn press_button(&mut self, button: usize)
        requires
            old(self).wf(),
            button < BUTTON_COUNT,
        ensures
            final(self).wf(),
            final(self)@ == (MouseModel {
                this_frame: old(self)@.this_frame.update(button as int, true),
                pressed: old(self)@.pressed.update(button as int, true),
                ..old(self)@
            }),
    {
        self.this_frame.set(button, true);
        self.pressed.set(button, true);
    }

    fn release_button(&mut self, button: usize)
        requires
            old(self).wf(),
            button < BUTTON_COUNT,
        ensures
            final(self).wf(),
            final(self)@ == (MouseModel {
                this_frame: old(self)@.this_frame.update(button as int, true),
                pressed: old(self)@.pressed.update(button as int, false),
                ..old(self)@
            }),
    {
        self.this_frame.set(button, true);
        self.pressed.set(button, false);
    }

    /// Add raw motion to the accumulated delta, regardless of focus. The
    /// application loop gates this on focus before calling; see
    /// [`Mouse::handle_event`].
    pub fn translate(&mut self, delta: (i64, i64))
        ensures
            final(self)@ == (MouseModel {
                delta: (
                    sat_add_i64(old(self)@.delta.0, delta.0),
                    sat_add_i64(old(self)@.delta.1, delta.1),
                ),
                ..old(self)@
            }),
    {
        self.delta.0 = add_saturating(self.delta.0, delta.0);
        self.delta.1 = add_saturating(self.delta.1, delta.1);
    }

    fn scroll(&mut self, wheel: (i64, i64))
        ensures
            final(self)@ == (if old(self)@.focused {
                MouseModel {
                    wheel: (
                        sat_add_i64(old(self)@.wheel.0, wheel.0),
                        sat_add_i64(old(self)@.wheel.1, wheel.1),
                    ),
                    ..old(self)@
                }
            } else {
                old(self)@
            }),
    {
        if !self.focused {
            return ;
        }
        self.wheel.0 = add_saturating(self.wheel.0, wheel.0);
        self.wheel.1 = add_saturating(self.wheel.1, wheel.1);
    }

    fn update_pos(&mut self, pos: (i32, i32))
        ensures
            final(self)@ == (MouseModel { pos, ..old(self)@ }),
    {
        self.pos = pos;
    }

    /// Record one event, exactly as [`mouse_after`] describes. In
    /// particular a button index at or above [`BUTTON_COUNT`] is silently
    /// dropped: the state is untouched and nothing is raised.
    ///
    /// This is called automatically in the application loop; you should not
    /// call it yourself.
    pub fn handle_event(&mut self, event: &InputEvent)
        requires
            old(self).wf(),
        ensures
            final(self).wf(),
            final(self)@ == mouse_after(old(self)@, *event),
    {
        match *event {
            InputEvent::CursorMoved { x, y } => {
                self.update_pos((x, y));
            },
            InputEvent::Button { index, pressed } => {
                if index > 9 {
                    return ;
                }
                if pressed {
                    self.press_button(index as usize);
                } else {
                    self.release_button(index as usize);
                }
            },
            InputEvent::Wheel { dx, dy } => {
                self.scroll((dx, dy));
            },
            InputEvent::Motion { dx, dy } => {
                if self.focused {
                    self.translate((dx, dy));
                }
            },
            InputEvent::Focused { focused } => {
                self.focused = focused;
            },
            InputEvent::Key { .. } => {},
        }
    }

    /// Reset the tracker for the next tick: motion and scroll accumulators
    /// and the whole edge array are zeroed, exactly once per tick; button
    /// levels and position survive. The application loop calls this
    /// automatically.
    pub fn next_frame(&mut self)
        requires
            old(self).wf(),
        ensures
            final(self).wf(),
            final(self)@ == (MouseModel {
                this_frame: Seq::new(BUTTON_COUNT as nat, |i: int| false),
                delta: (0, 0),
                wheel: (0, 0),
                ..old(self)@
            }),
    {
        self.delta = (0, 0);
        self.wheel = (0, 0);
        let mut cleared: Vec<bool> = Vec::new();
        let mut i: usize = 0;
        while i < BUTTON_COUNT
            invariant
                i <= BUTTON_COUNT,
                cleared@ =~= Seq::new(i as nat, |j: int| false),
            decreases BUTTON_COUNT - i,
        {
            cleared.push(false);
            i = i + 1;
        }
        proof {
            assert(cleared@ =~= Seq::new(BUTTON_COUNT as nat, |j: int| false));
        }
        self.this_frame = cleared;
    }

    /// Get the x and y position of the cursor inside the window.
    pub fn get_pos(&self) -> (r: (i32, i32))
        ensures
            r == self@.pos,
    {
        self.pos
    }

    /// Get the accumulated raw motion since the last tick reset, in
    /// thousandths of a pixel.
    pub fn get_delta(&self) -> (r: (i64, i64))
        ensures
            r == self@.delta,
    {
        self.delta
    }

    /// Get the accumulated wheel motion since the last tick reset, in
    /// thousandths of a line.
    pub fn get_scroll(&self) -> (r: (i64, i64))
        ensures
            r == self@.wheel,
    {
        self.wheel
    }

    /// Returns whether the button is currently held down.
    pub fn is_pressed(&self, button: usize) -> (r: bool)
        requires
            self.wf(),
            button < BUTTON_COUNT,
        ensures
            r == self@.pressed[button as int],
    {
        self.pressed[button]
    }

    /// Returns whether the button went down during the current tick.
    pub fn pressed_this_frame(&self, button: usize) -> (r: bool)
        requires
            self.wf(),
            button < BUTTON_COUNT,
        ensures
            r == (self@.pressed[button as int] && self@.this_frame[button as int]),
    {
        self.pressed[button] && self.this_frame[button]
    }

    /// Returns whether the button went up during the current tick.
    pub fn released_this_frame(&self, button: usize) -> (r: bool)
        requires
            self.wf(),
            button < BUTTON_COUNT,
        ensures
            r == (!self@.pressed[button as int] && self@.this_frame[button as int]),
    {
        !self.pressed[button] && self.this_frame[button]
    }
}

/// A button index at or above [`BUTTON_COUNT`] is rejected: the event
/// leaves the whole mouse state — both button arrays included — exactly as
/// it was.
pub proof fn lemma_out_of_range_button_dropped(m: MouseModel, index: u16, pressed: bool)
    requires
        index >= BUTTON_COUNT,
    ensures
        mouse_after(m, InputEvent::Button { index, pressed }) == m,
{
}

} // verus!
