//! The frame clock: per-frame delta time at a target rate.
//!
//! The clock itself never reads a wall clock; the platform loop samples
//! the elapsed time and hands it in, and performs the actual waiting.
//! Times are fixed-point seconds (thousandths, i.e. milliseconds).

use crate::fixed::{SCALE, TIME_LIMIT};
use vstd::prelude::*;

verus! {

/// Abstract state of the frame clock.
#[verifier::ext_equal]
pub ghost struct TimeModel {
    pub time_scale: i64,
    pub target_frame_rate: u32,
    pub frame_time: i64,
    pub previous_time: i64,
    pub current_time: i64,
}

/// Game time manager.
pub struct Time {
    /// Speed factor user code may apply to its own simulation steps
    /// (fixed-point, `SCALE` = real time).
    pub time_scale: i64,
    /// Frames per second the loop aims for.
    pub target_frame_rate: u32,
    frame_time: i64,
    previous_time: i64,
    current_time: i64,
}

impl View for Time {
    type V = TimeModel;

    closed spec fn view(&self) -> TimeModel {
        TimeModel {
            time_scale: self.time_scale,
            target_frame_rate: self.target_frame_rate,
            frame_time: self.frame_time,
            previous_time: self.previous_time,
            current_time: self.current_time,
        }
    }
}

impl Time {
    /// The clock's bookkeeping stays inside the range updates can handle.
    pub open spec fn inv(self) -> bool {
        &&& self@.target_frame_rate >= 1
        &&& 0 <= self@.previous_time <= TIME_LIMIT
        &&& 0 <= self@.current_time <= TIME_LIMIT + SCALE
        &&& -TIME_LIMIT <= self@.frame_time <= TIME_LIMIT
    }

    /// A fresh clock: real-time scale, 60 frames per second, no frame
    /// observed yet.
    pub fn new() -> (t: Self)
        ensures
            t@ == (TimeModel {
                time_scale: SCALE,
                target_frame_rate: 60,
                frame_time: 0,
                previous_time: 0,
                current_time: 0,
            }),
            t.inv(),
    {
        Time {
            time_scale: SCALE,
            target_frame_rate: 60,
            frame_time: 0,
            previous_time: 0,
            current_time: 0,
        }
    }

    /// Length of the last frame in fixed-point seconds.
    pub fn frame_time(&self) -> (r: i64)
        ensures
            r == self@.frame_time,
    {
        self.frame_time
    }

    /// Expected frame length at the target rate, in fixed-point seconds,
    /// rounded down.
    pub fn fixed_frame_time(&self) -> (r: i64)
        requires
            self@.target_frame_rate >= 1,
        ensures
            r == (SCALE as int) / (self@.target_frame_rate as int),
    {
        ((SCALE as u64) / (self.target_frame_rate as u64)) as i64
    }

    /// Frames per second the last frame corresponds to, rounded down; a
    /// frame of no measurable length reads as the largest expressible rate.
    pub fn frame_rate(&self) -> (r: u32)
        ensures
            self@.frame_time > 0 ==> r == (SCALE as int) / (self@.frame_time as int),
            self@.frame_time <= 0 ==> r == u32::MAX,
    {
        if self.frame_time > 0 {
            ((SCALE as u64) / (self.frame_time as u64)) as u32
        } else {
            u32::MAX
        }
    }

    /// Advance the clock at the end of a frame. `now` is the elapsed time
    /// since startup, sampled by the loop driver in fixed-point seconds:
    /// the frame time becomes the distance from the previous sample, and
    /// the next frame is scheduled one target frame length after `now`.
    pub fn update(&mut self, now: i64)
        requires
            old(self).inv(),
            0 <= now <= TIME_LIMIT,
        ensures
            final(self).inv(),
            final(self)@.time_scale == old(self)@.time_scale,
            final(self)@.target_frame_rate == old(self)@.target_frame_rate,
            final(self)@.frame_time == now - old(self)@.previous_time,
            final(self)@.previous_time == now,
            final(self)@.current_time == now + (SCALE as int) / (old(self)@.target_frame_rate
                as int),
    {
        self.current_time = now;
        self.frame_time = self.current_time - self.previous_time;
        self.previous_time = self.current_time;
        let step: i64 = ((SCALE as u64) / (self.target_frame_rate as u64)) as i64;
        self.current_time = self.current_time + step;
    }

    /// How many fixed-point seconds the loop should still wait after a
    /// frame that took `elapsed`: the remainder of the frame budget, or
    /// nothing when the frame overran it.
    pub fn wait_time(&self, elapsed: i64) -> (r: i64)
        requires
            self@.target_frame_rate >= 1,
            0 <= elapsed,
        ensures
            r == if (SCALE as int) / (self@.target_frame_rate as int) >= elapsed {
                (SCALE as int) / (self@.target_frame_rate as int) - elapsed
            } else {
                0
            },
    {
        let budget: i64 = ((SCALE as u64) / (self.target_frame_rate as u64)) as i64;
        if budget >= elapsed {
            budget - elapsed
        } else {
            0
        }
    }
}

} // verus!
