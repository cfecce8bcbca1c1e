//! A tick-gated timer: turns a free-running event stream into a bounded-rate
//! sequence of update ticks, with a rolling frames-per-second estimate.
//!
//! All durations are whole microseconds.

use vstd::prelude::*;

verus! {

/// The logical content of a [`Timer`]: every field except the opaque
/// platform timestamp of the last accepted tick.
pub struct TimerModel {
    /// Most recent frames-per-second estimate.
    pub fps: u32,
    /// Microseconds elapsed in the most recently accepted tick.
    pub last_delta: u64,
    /// Minimum microseconds required between accepted ticks.
    pub tick_duration: u64,
    /// Ticks accepted since the FPS estimate was last refreshed.
    pub frame_count: u32,
    /// Microseconds accumulated since the FPS estimate was last refreshed.
    pub frame_time: u64,
    /// Microseconds of accumulated frame time that trigger an FPS refresh.
    pub fps_update_time: u64,
    /// Cumulative time: the sum of earlier deltas, one tick behind.
    pub abs_time: u64,
}

/// `a + b`, clamped to `u64::MAX`.
pub open spec fn sat_add64(a: u64, b: u64) -> u64 {
    if a + b > u64::MAX { u64::MAX } else { (a + b) as u64 }
}

/// `a + 1`, clamped to `u32::MAX`.
pub open spec fn sat_inc32(a: u32) -> u32 {
    if a == u32::MAX { u32::MAX } else { (a + 1) as u32 }
}

/// Frames per second from `frames` frames over `micros` microseconds,
/// rounded down and clamped to `u32::MAX`.
pub open spec fn fps_estimate(frames: u32, micros: u64) -> u32 {
    let q = (frames as int * 1_000_000) / (micros as int);
    if q > u32::MAX as int { u32::MAX } else { q as u32 }
}

/// The state an accepted tick of `delta` microseconds leads to from `t`:
/// the previous delta is folded into the cumulative time (one-tick lag),
/// the tick is counted toward the FPS window, and the window is folded
/// into a fresh FPS estimate once it exceeds `fps_update_time`.
pub open spec fn tick_step(t: TimerModel, delta: u64) -> TimerModel {
    let abs = sat_add64(t.abs_time, t.last_delta);
    let count = sat_inc32(t.frame_count);
    let time = sat_add64(t.frame_time, delta);
    if time > t.fps_update_time {
        TimerModel {
            fps: fps_estimate(count, time),
            last_delta: delta,
            frame_count: 0,
            frame_time: 0,
            abs_time: abs,
            ..t
        }
    } else {
        TimerModel {
            last_delta: delta,
            frame_count: count,
            frame_time: time,
            abs_time: abs,
            ..t
        }
    }
}

/// Declares `std::time::Instant` — an opaque monotonic timestamp — so
/// that the timer can hold one. Nothing of its inside is visible here.
#[verifier::external_type_specification]
#[verifier::external_body]
pub struct ExInstant(std::time::Instant);

/// Relies on `std::time::Instant::now`: an opaque monotonic timestamp.
/// Nothing is promised of the value.
#[verifier::external_body]
fn instant_now() -> std::time::Instant {
    std::time::Instant::now()
}

/// Relies on `std::time::Instant::elapsed`: the wall-clock time since the
/// timestamp, reported here in whole microseconds (clamped to `u64::MAX`).
/// The value depends on the clock, so nothing is promised of it.
#[verifier::external_body]
fn elapsed_micros(since: &std::time::Instant) -> u64 {
    let us = since.elapsed().as_micros();
    if us > u64::MAX as u128 {
        u64::MAX
    } else {
        us as u64
    }
}

/// Keeps track of timing.
///
/// `go` accepts at most one tick per `tick_duration` microseconds of
/// wall-clock time; the FPS estimate is refreshed only at
/// `fps_update_time` granularity, never every tick.
pub struct Timer {
    last: std::time::Instant,
    fps: u32,
    last_delta: u64,
    tick_duration: u64,
    frame_count: u32,
    frame_time: u64,
    fps_update_time: u64,
    abs_time: u64,
}

impl View for Timer {
    type V = TimerModel;

    closed spec fn view(&self) -> TimerModel {
        TimerModel {
            fps: self.fps,
            last_delta: self.last_delta,
            tick_duration: self.tick_duration,
            frame_count: self.frame_count,
            frame_time: self.frame_time,
            fps_update_time: self.fps_update_time,
            abs_time: self.abs_time,
        }
    }
}

impl Timer {
    /// A timer whose gate opens every millisecond and whose FPS estimate
    /// refreshes every quarter second.
    pub fn new() -> (t: Timer)
        ensures
            t@ == (TimerModel {
                fps: 0,
                last_delta: 0,
                tick_duration: 1_000,
                frame_count: 0,
                frame_time: 0,
                fps_update_time: 250_000,
                abs_time: 0,
            }),
    {
        Timer {
            last: instant_now(),
            fps: 0,
            last_delta: 0,
            tick_duration: 1_000,
            frame_count: 0,
            frame_time: 0,
            fps_update_time: 250_000,
            abs_time: 0,
        }
    }

    /// Zero the cumulative time and begin a fresh gate interval, leaving
    /// the configuration and the FPS estimator state untouched.
    pub fn reset(&mut self)
        ensures
            final(self)@ == (TimerModel { abs_time: 0, ..old(self)@ }),
    {
        self.last = instant_now();
        self.abs_time = 0;
    }

    /// The time since `go` last returned a value, if at least
    /// `tick_duration` microseconds of it have passed.
    ///
    /// When less has elapsed, nothing is returned and nothing changes: the
    /// caller must retry on a later event. Otherwise the elapsed time is
    /// returned and folded into the state as [`tick_step`] describes. How
    /// much time has elapsed is the clock's to decide; whatever it reports,
    /// an accepted delta is at least `tick_duration`.
    pub fn go(&mut self) -> (r: Option<u64>)
        ensures
            match r {
                None => final(self)@ == old(self)@,
                Some(delta) => {
                    &&& delta >= old(self)@.tick_duration
                    &&& final(self)@ == tick_step(old(self)@, delta)
                },
            },
    {
        let delta = elapsed_micros(&self.last);

        if delta < self.tick_duration {
            return None;
        }

        self.abs_time = if self.abs_time <= u64::MAX - self.last_delta {
            self.abs_time + self.last_delta
        } else {
            u64::MAX
        };

        self.frame_count = if self.frame_count < u32::MAX {
            self.frame_count + 1
        } else {
            u32::MAX
        };
        self.frame_time = if self.frame_time <= u64::MAX - delta {
            self.frame_time + delta
        } else {
            u64::MAX
        };
        if self.frame_time > self.fps_update_time {
            let scaled: u64 = (self.frame_count as u64) * 1_000_000;
            let estimate: u64 = scaled / self.frame_time;
            self.fps = if estimate > u32::MAX as u64 {
                u32::MAX
            } else {
                estimate as u32
            };
            self.frame_count = 0;
            self.frame_time = 0;
        }

        self.last_delta = delta;
        self.last = instant_now();
        Some(delta)
    }

    /// Set how many microseconds must pass before the next tick. This is a
    /// rate ceiling, not a target rate, and the value is not validated.
    pub fn set_tick_duration(&mut self, dur: u64)
        ensures
            final(self)@ == (TimerModel { tick_duration: dur, ..old(self)@ }),
    {
        self.tick_duration = dur;
    }

    /// Set how many microseconds of accumulated frame time refresh the FPS
    /// estimate. Shorter periods update the count more often; longer ones
    /// are generally more consistent and accurate. Not validated.
    pub fn set_fps_update_time(&mut self, dur: u64)
        ensures
            final(self)@ == (TimerModel { fps_update_time: dur, ..old(self)@ }),
    {
        self.fps_update_time = dur;
    }

    /// Approximate frames per second.
    pub fn fps(&self) -> (r: u32)
        ensures
            r == self@.fps,
    {
        self.fps
    }

    /// The microseconds that passed between the last two accepted ticks:
    /// the value `go` last returned, updated only when `go` succeeds.
    pub fn delta(&self) -> (r: u64)
        ensures
            r == self@.last_delta,
    {
        self.last_delta
    }

    /// Cumulative microseconds since this timer was created or last reset.
    /// The sum runs one tick behind: each accepted tick folds in the
    /// previous tick's delta, not its own.
    pub fn absolute_time(&self) -> (r: u64)
        ensures
            r == self@.abs_time,
    {
        self.abs_time
    }
}

} // verus!
