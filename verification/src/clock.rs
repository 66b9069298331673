//! The frame clock: where simulation time stands between two confirmed
//! frames.
//!
//! The clock is anchored at the last confirmed frame and at the reading of a
//! monotonic wall clock, in nanoseconds, taken when that frame was confirmed.
//! The caller supplies every later reading; the clock itself never looks at
//! the time.

use crate::time::{nanos_to_ticks, FrameOffset, Second, TICKS_PER_FRAME};
use vstd::prelude::*;

verus! {

/// Nanoseconds in one frame.
pub const FRAME_NANOS: u64 = 100_000_000;

/// The last confirmed frame and the wall-clock reading at which it was
/// confirmed.
#[derive(Clone, Copy, Debug, PartialEq, Eq, Structural, Hash)]
pub struct FrameClock {
    pub frame: u64,
    pub anchored_at: u64,
}

impl FrameClock {
    /// Nanoseconds from the anchor to the reading `wall`; none if the reading
    /// lies before the anchor.
    pub open spec fn since_anchor(self, wall: u64) -> int {
        if wall >= self.anchored_at {
            wall - self.anchored_at
        } else {
            0
        }
    }

    /// Simulation time at the reading `wall`: the start of the anchor frame
    /// plus the time since the anchor, but at most one frame, so that a
    /// stalled tick does not run the estimate away.
    pub open spec fn now_spec(self, wall: u64) -> FrameOffset {
        let run = nanos_to_ticks(self.since_anchor(wall));
        let capped = if run < TICKS_PER_FRAME {
            run
        } else {
            TICKS_PER_FRAME as int
        };
        (FrameOffset { frame: self.frame, offset: 0 }).add_spec(Second { ticks: capped as i128 })
    }

    /// A clock anchored at `frame` and at the reading `wall`.
    pub fn new(frame: u64, wall: u64) -> (r: FrameClock)
        ensures
            r == (FrameClock { frame, anchored_at: wall }),
    {
        FrameClock { frame, anchored_at: wall }
    }

    /// Moves the anchor to `frame` and to the reading `wall`.
    pub fn reanchor(&mut self, frame: u64, wall: u64)
        ensures
            *final(self) == (FrameClock { frame, anchored_at: wall }),
    {
        self.frame = frame;
        self.anchored_at = wall;
    }
}

impl FrameOffset {
    /// Simulation time on `clock` at the wall-clock reading `wall`.
    pub fn now(clock: &FrameClock, wall: u64) -> (r: FrameOffset)
        ensures
            r == clock.now_spec(wall),
            r.ticks() >= clock.frame * TICKS_PER_FRAME,
            r.ticks() <= (clock.frame + 1) * TICKS_PER_FRAME,
    {
        let since: u64 = if wall >= clock.anchored_at {
            wall - clock.anchored_at
        } else {
            0
        };
        let run = Second::from_nanos(since);
        let capped = if run.ticks < TICKS_PER_FRAME {
            run
        } else {
            Second { ticks: TICKS_PER_FRAME }
        };
        FrameOffset::start_of(clock.frame).add(capped)
    }
}

} // verus!
