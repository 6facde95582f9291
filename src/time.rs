use vstd::prelude::*;

use std::time::{Duration, Instant};

verus! {

#[verifier::external_type_specification]
#[verifier::external_body]
pub struct ExInstant(Instant);

/// Relies on std::time::Instant::now: a reading of the monotonic clock.
#[verifier::external_body]
fn clock_now() -> (r: Instant) {
    Instant::now()
}

/// Relies on std::time::Instant::elapsed: the time since `start`.
#[verifier::external_body]
fn time_since(start: &Instant) -> (r: Duration) {
    start.elapsed()
}

/// Relies on std::time::Instant::duration_since: the time from `earlier` to `later`.
#[verifier::external_body]
fn time_between(later: &Instant, earlier: &Instant) -> (r: Duration) {
    later.duration_since(*earlier)
}

/// Relies on std::time::Duration::as_nanos: the whole nanoseconds in `d`.
#[verifier::external_body]
fn whole_nanos(d: &Duration) -> (r: u128) {
    d.as_nanos()
}

/// Nanoseconds in one second.
pub const NANOS_PER_SECOND: u64 = 1_000_000_000;

/// Paces the game loop and measures the time between frames.
pub struct Timer {
    last_frame: Instant,
    target_frame_nanos: u64,
}

/// A frame is due once `elapsed_nanos` has reached the frame time.
pub fn frame_due(elapsed_nanos: u128, target_frame_nanos: u64) -> (r: bool)
    ensures
        r == (elapsed_nanos >= target_frame_nanos),
{
    elapsed_nanos >= target_frame_nanos as u128
}

/// Whole microseconds in `nanos`, capped at `u32::MAX`.
pub fn micros_from_nanos(nanos: u128) -> (r: u32)
    ensures
        r == (if nanos / 1000 > u32::MAX { u32::MAX as int } else { (nanos / 1000) as int }),
{
    let micros: u128 = nanos / 1000;
    if micros > u32::MAX as u128 {
        u32::MAX
    } else {
        micros as u32
    }
}

impl Timer {
    /// A timer for `fps_target` frames per second, started now.
    pub fn new(fps_target: u64) -> (r: Timer)
        requires
            fps_target > 0,
        ensures
            r.target_frame_nanos() == NANOS_PER_SECOND / fps_target,
    {
        Timer { last_frame: clock_now(), target_frame_nanos: NANOS_PER_SECOND / fps_target }
    }

    pub closed spec fn target_frame_nanos(&self) -> u64 {
        self.target_frame_nanos
    }

    /// The length of one frame, in nanoseconds.
    pub fn frame_nanos(&self) -> (r: u64)
        ensures
            r == self.target_frame_nanos(),
    {
        self.target_frame_nanos
    }

    /// Whether a frame's time has passed since the last measured frame.
    pub fn should_update(&self) -> (r: bool) {
        frame_due(whole_nanos(&time_since(&self.last_frame)), self.target_frame_nanos)
    }

    /// Microseconds since the last measured frame (capped at `u32::MAX`);
    /// now becomes the last measured frame.
    pub fn delta_time(&mut self) -> (r: u32)
        ensures
            final(self).target_frame_nanos() == old(self).target_frame_nanos(),
    {
        let now = clock_now();
        let elapsed = time_between(&now, &self.last_frame);
        self.last_frame = now;
        micros_from_nanos(whole_nanos(&elapsed))
    }

    /// The same measurement as `delta_time`.
    pub fn get_delta_time(&mut self) -> (r: u32)
        ensures
            final(self).target_frame_nanos() == old(self).target_frame_nanos(),
    {
        self.delta_time()
    }
}

} // verus!
