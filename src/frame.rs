use vstd::prelude::*;

verus! {

/// Microseconds in one second.
pub const MICROS_PER_SECOND: u64 = 1_000_000;

/// The frame rate that the loop throttles to.
pub const TARGET_FPS: u64 = 120;

/// The timing state of the frame loop, on a monotonic clock in microseconds.
#[derive(Clone, Copy, Debug, PartialEq, Eq, Structural)]
pub struct FrameClock {
    /// The simulation has been advanced up to this time.
    pub simulated_until_us: u64,
    /// When the shown statistics were last refreshed.
    pub stats_since_us: u64,
    /// The frame rate shown.
    pub fps: i32,
    /// The frame time shown, in microseconds.
    pub frame_time_us: u64,
}

/// The whole milliseconds from `from` to `to`, none when `to` is earlier, and
/// at most `u32::MAX`.
pub open spec fn elapsed_ms(from: u64, to: u64) -> int {
    if to <= from {
        0
    } else if (to - from) / 1000 > u32::MAX {
        u32::MAX as int
    } else {
        (to - from) / 1000
    }
}

/// How long to sleep so that a frame begun at `start` lasts a full frame
/// period of `1 / fps` seconds, rounded down to a microsecond; nothing once
/// the period is over, and nothing when `fps` is 0.
pub open spec fn throttle_us(fps: u64, start: u64, now: u64) -> int {
    let elapsed: int = if now <= start { 0 } else { now - start };
    if fps == 0 || elapsed >= MICROS_PER_SECOND / fps {
        0
    } else {
        MICROS_PER_SECOND / fps - elapsed
    }
}

impl FrameClock {
    pub fn new(now_us: u64) -> (r: Self)
        ensures
            r == (FrameClock { simulated_until_us: now_us, stats_since_us: now_us, fps: 0, frame_time_us: 0 }),
    {
        FrameClock { simulated_until_us: now_us, stats_since_us: now_us, fps: 0, frame_time_us: 0 }
    }

    /// Starts a frame at `now_us` and returns the milliseconds to simulate.
    /// What is left below a millisecond is carried to the next frame, so the
    /// simulated time never drifts from the clock.
    pub fn begin_frame(&mut self, now_us: u64) -> (r: u32)
        ensures
            r == elapsed_ms(old(self).simulated_until_us, now_us),
            final(self).simulated_until_us == old(self).simulated_until_us + r * 1000,
            final(self).simulated_until_us <= now_us || now_us <= old(self).simulated_until_us,
            final(self).stats_since_us == old(self).stats_since_us,
            final(self).fps == old(self).fps,
            final(self).frame_time_us == old(self).frame_time_us,
    {
        if now_us <= self.simulated_until_us {
            return 0;
        }
        let whole = (now_us - self.simulated_until_us) / 1000;
        let ms: u32 = if whole > u32::MAX as u64 {
            u32::MAX
        } else {
            whole as u32
        };
        self.simulated_until_us = self.simulated_until_us + ms as u64 * 1000;
        ms
    }

    /// Shows the measured `fps` and `frame_time_us` once a second has passed
    /// since the last refresh, and tells whether it did.
    pub fn refresh_stats(&mut self, now_us: u64, fps: i32, frame_time_us: u64) -> (r: bool)
        ensures
            r == (now_us >= old(self).stats_since_us && now_us - old(self).stats_since_us >= MICROS_PER_SECOND),
            final(self).simulated_until_us == old(self).simulated_until_us,
            r ==> final(self).stats_since_us == now_us && final(self).fps == fps && final(self).frame_time_us == frame_time_us,
            !r ==> *final(self) == *old(self),
    {
        if now_us >= self.stats_since_us && now_us - self.stats_since_us >= MICROS_PER_SECOND {
            self.stats_since_us = now_us;
            self.fps = fps;
            self.frame_time_us = frame_time_us;
            true
        } else {
            false
        }
    }
}

/// How long, in microseconds, to sleep at the end of a frame begun at
/// `start_us` when it is `now_us`, so that the loop runs at most `fps` frames a
/// second. A frame that ran long is never cut short: it gets no sleep.
pub fn frame_sleep_us(fps: u64, start_us: u64, now_us: u64) -> (r: u64)
    ensures
        r == throttle_us(fps, start_us, now_us),
{
    if fps == 0 {
        return 0;
    }
    let period = MICROS_PER_SECOND / fps;
    let elapsed = if now_us <= start_us {
        0
    } else {
        now_us - start_us
    };
    if elapsed >= period {
        0
    } else {
        period - elapsed
    }
}

} // verus!
