//! Fixed-point simulation time.
//!
//! One frame lasts a tenth of a second and is divided into `2^32` ticks.  A
//! [`Second`] is a signed duration counted in ticks; a [`FrameOffset`] is a
//! point in time, a frame number together with the ticks elapsed inside that
//! frame.  All arithmetic is on integers, so replaying a frame reproduces its
//! time stamps bit for bit.

use core::cmp::Ordering;
use core::ops::{Add, AddAssign, Neg, Sub, SubAssign};
use vstd::prelude::*;
use vstd::std_specs::cmp::PartialOrdSpecImpl;
use vstd::std_specs::ops::{AddSpecImpl, NegSpecImpl, SubSpecImpl};

verus! {

/// Ticks in one frame.
pub const TICKS_PER_FRAME: i128 = 4294967296;

/// Frames in one second.
pub const FRAMES_PER_SECOND: i128 = 10;

/// Ticks in one second.
pub const TICKS_PER_SECOND: i128 = 42949672960;

/// The largest tick count a [`FrameOffset`] can denote: the last tick of the
/// last frame.
pub const MAX_TICKS: i128 = 79228162514264337593543950335;

/// The frame number that marks a [`FrameOffset`] as absent.
pub const INVALID_FRAME: u64 = 0xffff_ffff_ffff_ffff;

/// A signed duration.  `ticks / TICKS_PER_SECOND` is its length in seconds.
#[derive(Clone, Copy, Debug, PartialEq, Eq, Ord, Structural, Hash)]
pub struct Second {
    pub ticks: i128,
}

/// `t` limited to the tick counts a [`FrameOffset`] can denote.
pub open spec fn clamp_ticks(t: int) -> int {
    if t < 0 {
        0
    } else if t > MAX_TICKS {
        MAX_TICKS as int
    } else {
        t
    }
}

/// Ticks in `millis` milliseconds, rounded towards zero.
pub open spec fn millis_to_ticks(millis: int) -> int {
    if millis >= 0 {
        millis * TICKS_PER_SECOND as int / 1000
    } else {
        -((-millis) * TICKS_PER_SECOND as int / 1000)
    }
}

/// Ticks in `nanos` nanoseconds, rounded down.
pub open spec fn nanos_to_ticks(nanos: int) -> int {
    nanos * TICKS_PER_SECOND as int / 1_000_000_000
}

impl Second {
    /// The empty duration.
    pub fn zero() -> (r: Second)
        ensures
            r.ticks == 0,
    {
        Second { ticks: 0 }
    }

    /// The duration of `ticks` ticks.
    pub fn from_ticks(ticks: i128) -> (r: Second)
        ensures
            r.ticks == ticks,
    {
        Second { ticks }
    }

    /// The duration of `frames` whole frames.
    pub fn from_frames(frames: i64) -> (r: Second)
        ensures
            r.ticks == frames * TICKS_PER_FRAME,
    {
        Second { ticks: (frames as i128) * TICKS_PER_FRAME }
    }

    /// The duration of `millis` milliseconds, rounded towards zero to a whole
    /// tick: it is off by less than one tick.
    pub fn from_millis(millis: i64) -> (r: Second)
        ensures
            r.ticks == millis_to_ticks(millis as int),
            millis >= 0 ==> r.ticks * 1000 <= millis * TICKS_PER_SECOND < (r.ticks + 1) * 1000,
            millis < 0 ==> (r.ticks - 1) * 1000 < millis * TICKS_PER_SECOND <= r.ticks * 1000,
    {
        if millis >= 0 {
            Second { ticks: (millis as i128) * TICKS_PER_SECOND / 1000 }
        } else {
            let magnitude: i128 = -(millis as i128);
            Second { ticks: -(magnitude * TICKS_PER_SECOND / 1000) }
        }
    }

    /// The duration of `nanos` nanoseconds, rounded down to a whole tick: it
    /// is short by less than one tick.
    pub fn from_nanos(nanos: u64) -> (r: Second)
        ensures
            r.ticks == nanos_to_ticks(nanos as int),
            r.ticks * 1_000_000_000 <= nanos * TICKS_PER_SECOND < (r.ticks + 1) * 1_000_000_000,
    {
        Second { ticks: (nanos as i128) * TICKS_PER_SECOND / 1_000_000_000 }
    }

    /// The duration of equal length in the other direction.
    pub fn neg(self) -> (r: Second)
        requires
            self.ticks > i128::MIN,
        ensures
            r.ticks == -self.ticks,
    {
        Second { ticks: -self.ticks }
    }

    /// Length of this duration in ticks, without its direction.
    pub open spec fn magnitude(self) -> int {
        if self.ticks >= 0 {
            self.ticks as int
        } else {
            -(self.ticks as int)
        }
    }

    /// Length of this duration in ticks, without its direction.
    pub fn abs_ticks(self) -> (r: u128)
        ensures
            r == self.magnitude(),
    {
        if self.ticks >= 0 {
            self.ticks as u128
        } else if self.ticks == i128::MIN {
            170141183460469231731687303715884105728u128
        } else {
            (-self.ticks) as u128
        }
    }
}

/// A point in simulation time: `offset / 2^32` of the way through `frame`.
/// The frame number [`INVALID_FRAME`] stands for "no point at all".
#[derive(Clone, Copy, Debug, PartialEq, Eq, Ord, Structural, Hash)]
pub struct FrameOffset {
    pub frame: u64,
    pub offset: u32,
}

impl FrameOffset {
    /// Ticks between the start of frame zero and this point.
    pub open spec fn ticks(self) -> int {
        self.frame as int * TICKS_PER_FRAME as int + self.offset as int
    }

    /// The point that lies `t` ticks after the start of frame zero.
    pub open spec fn at(t: int) -> FrameOffset {
        FrameOffset {
            frame: (t / TICKS_PER_FRAME as int) as u64,
            offset: (t % TICKS_PER_FRAME as int) as u32,
        }
    }

    /// Whether this point sorts strictly before `other` by frame, then offset.
    pub open spec fn before(self, other: FrameOffset) -> bool {
        self.frame < other.frame || (self.frame == other.frame && self.offset < other.offset)
    }

    /// This point moved by `rhs`, stopping at either end of time.
    pub open spec fn add_spec(self, rhs: Second) -> FrameOffset {
        Self::at(clamp_ticks(self.ticks() + rhs.ticks as int))
    }

    /// This point moved against `rhs`, stopping at either end of time.
    pub open spec fn sub_spec(self, rhs: Second) -> FrameOffset {
        Self::at(clamp_ticks(self.ticks() - rhs.ticks as int))
    }

    /// The signed duration from this point to `future`.
    pub open spec fn elapsed_spec(self, future: FrameOffset) -> Second {
        Second { ticks: (future.ticks() - self.ticks()) as i128 }
    }

    /// The start of frame `frame`.
    pub fn start_of(frame: u64) -> (r: FrameOffset)
        ensures
            r == (FrameOffset { frame, offset: 0 }),
    {
        FrameOffset { frame, offset: 0 }
    }

    /// The marker for "no point at all".
    pub fn invalid() -> (r: FrameOffset)
        ensures
            r == (FrameOffset { frame: INVALID_FRAME, offset: 0 }),
            !r.is_valid(),
    {
        FrameOffset { frame: INVALID_FRAME, offset: 0 }
    }

    /// Whether this is a point in time rather than the marker for none.
    #[verifier::when_used_as_spec(is_valid_spec)]
    pub fn is_valid(&self) -> (r: bool)
        ensures
            r == self.is_valid_spec(),
    {
        self.frame != INVALID_FRAME
    }

    /// Whether this is a point in time rather than the marker for none.
    pub open spec fn is_valid_spec(&self) -> bool {
        self.frame != INVALID_FRAME
    }

    /// Moves this point by a signed duration.  The fraction is renormalised
    /// with exact carry into, or borrow from, the frame number; a result before
    /// frame zero or after the last frame stops at that end.
    pub fn add(self, rhs: Second) -> (r: FrameOffset)
        ensures
            r == self.add_spec(rhs),
            r.ticks() == clamp_ticks(self.ticks() + rhs.ticks as int),
    {
        let base: i128 = (self.frame as i128) * TICKS_PER_FRAME + (self.offset as i128);
        let total: i128 = if rhs.ticks > MAX_TICKS - base {
            MAX_TICKS
        } else if rhs.ticks < -base {
            0
        } else {
            base + rhs.ticks
        };
        FrameOffset {
            frame: (total / TICKS_PER_FRAME) as u64,
            offset: (total % TICKS_PER_FRAME) as u32,
        }
    }

    /// Moves this point against a signed duration, with the same carry and the
    /// same stops as [`FrameOffset::add`].
    pub fn sub(self, rhs: Second) -> (r: FrameOffset)
        ensures
            r == self.sub_spec(rhs),
            r.ticks() == clamp_ticks(self.ticks() - rhs.ticks as int),
    {
        let base: i128 = (self.frame as i128) * TICKS_PER_FRAME + (self.offset as i128);
        let total: i128 = if rhs.ticks < base - MAX_TICKS {
            MAX_TICKS
        } else if rhs.ticks > base {
            0
        } else {
            base - rhs.ticks
        };
        FrameOffset {
            frame: (total / TICKS_PER_FRAME) as u64,
            offset: (total % TICKS_PER_FRAME) as u32,
        }
    }

    /// Replaces this point by itself moved by `rhs`.
    pub fn add_assign(&mut self, rhs: Second)
        ensures
            *final(self) == old(self).add_spec(rhs),
    {
        *self = self.add(rhs);
    }

    /// Replaces this point by itself moved against `rhs`.
    pub fn sub_assign(&mut self, rhs: Second)
        ensures
            *final(self) == old(self).sub_spec(rhs),
    {
        *self = self.sub(rhs);
    }

    /// The signed duration from this point to `future`: positive when `future`
    /// is later, negative when it is earlier.
    pub fn get_offset_seconds(&self, future: &FrameOffset) -> (r: Second)
        ensures
            r == self.elapsed_spec(*future),
            r.ticks == future.ticks() - self.ticks(),
    {
        let here: i128 = (self.frame as i128) * TICKS_PER_FRAME + (self.offset as i128);
        let there: i128 = (future.frame as i128) * TICKS_PER_FRAME + (future.offset as i128);
        Second { ticks: there - here }
    }

    /// Whether this point sorts strictly after `other`.
    pub fn is_after(&self, other: &FrameOffset) -> (r: bool)
        ensures
            r == other.before(*self),
            r == (self.ticks() > other.ticks()),
    {
        proof {
            lemma_order_matches_ticks(*other, *self);
        }
        self.frame > other.frame || (self.frame == other.frame && self.offset > other.offset)
    }
}

impl PartialOrd for Second {
    /// Orders durations by their signed length.
    fn partial_cmp(&self, other: &Second) -> (r: Option<Ordering>) {
        if self.ticks < other.ticks {
            Some(Ordering::Less)
        } else if self.ticks > other.ticks {
            Some(Ordering::Greater)
        } else {
            Some(Ordering::Equal)
        }
    }
}

impl PartialOrdSpecImpl for Second {
    open spec fn obeys_partial_cmp_spec() -> bool {
        true
    }

    open spec fn partial_cmp_spec(&self, other: &Second) -> Option<Ordering> {
        if self.ticks < other.ticks {
            Some(Ordering::Less)
        } else if self.ticks > other.ticks {
            Some(Ordering::Greater)
        } else {
            Some(Ordering::Equal)
        }
    }
}

impl Neg for Second {
    type Output = Second;

    /// `-s` is [`Second::neg`].
    fn neg(self) -> (r: Second) {
        Second::neg(self)
    }
}

impl NegSpecImpl for Second {
    open spec fn obeys_neg_spec() -> bool {
        true
    }

    open spec fn neg_req(self) -> bool {
        self.ticks > i128::MIN
    }

    open spec fn neg_spec(self) -> Second {
        Second { ticks: (-self.ticks) as i128 }
    }
}

impl Add<FrameOffset> for Second {
    type Output = FrameOffset;

    /// `s + p` is `p` moved by `s`.
    fn add(self, rhs: FrameOffset) -> (r: FrameOffset) {
        FrameOffset::add(rhs, self)
    }
}

impl AddSpecImpl<FrameOffset> for Second {
    open spec fn obeys_add_spec() -> bool {
        true
    }

    open spec fn add_req(self, rhs: FrameOffset) -> bool {
        true
    }

    open spec fn add_spec(self, rhs: FrameOffset) -> FrameOffset {
        FrameOffset::add_spec(rhs, self)
    }
}

impl Sub<FrameOffset> for Second {
    type Output = FrameOffset;

    /// `s - p` is `p` moved against `s`.
    fn sub(self, rhs: FrameOffset) -> (r: FrameOffset) {
        FrameOffset::sub(rhs, self)
    }
}

impl SubSpecImpl<FrameOffset> for Second {
    open spec fn obeys_sub_spec() -> bool {
        true
    }

    open spec fn sub_req(self, rhs: FrameOffset) -> bool {
        true
    }

    open spec fn sub_spec(self, rhs: FrameOffset) -> FrameOffset {
        FrameOffset::sub_spec(rhs, self)
    }
}

impl Add<Second> for FrameOffset {
    type Output = FrameOffset;

    /// `p + s` is [`FrameOffset::add`].
    fn add(self, rhs: Second) -> (r: FrameOffset) {
        FrameOffset::add(self, rhs)
    }
}

impl AddSpecImpl<Second> for FrameOffset {
    open spec fn obeys_add_spec() -> bool {
        true
    }

    open spec fn add_req(self, rhs: Second) -> bool {
        true
    }

    open spec fn add_spec(self, rhs: Second) -> FrameOffset {
        FrameOffset::add_spec(self, rhs)
    }
}

impl Sub<Second> for FrameOffset {
    type Output = FrameOffset;

    /// `p - s` is [`FrameOffset::sub`].
    fn sub(self, rhs: Second) -> (r: FrameOffset) {
        FrameOffset::sub(self, rhs)
    }
}

impl SubSpecImpl<Second> for FrameOffset {
    open spec fn obeys_sub_spec() -> bool {
        true
    }

    open spec fn sub_req(self, rhs: Second) -> bool {
        true
    }

    open spec fn sub_spec(self, rhs: Second) -> FrameOffset {
        FrameOffset::sub_spec(self, rhs)
    }
}

impl AddAssign<Second> for FrameOffset {
    /// `p += s` is [`FrameOffset::add_assign`].
    fn add_assign(&mut self, rhs: Second)
        ensures
            *final(self) == FrameOffset::add_spec(*old(self), rhs),
    {
        FrameOffset::add_assign(self, rhs);
    }
}

impl SubAssign<Second> for FrameOffset {
    /// `p -= s` is [`FrameOffset::sub_assign`].
    fn sub_assign(&mut self, rhs: Second)
        ensures
            *final(self) == FrameOffset::sub_spec(*old(self), rhs),
    {
        FrameOffset::sub_assign(self, rhs);
    }
}

impl PartialOrd for FrameOffset {
    /// Orders points by frame, then by offset.
    fn partial_cmp(&self, other: &FrameOffset) -> (r: Option<Ordering>) {
        if self.frame < other.frame {
            Some(Ordering::Less)
        } else if self.frame > other.frame {
            Some(Ordering::Greater)
        } else if self.offset < other.offset {
            Some(Ordering::Less)
        } else if self.offset > other.offset {
            Some(Ordering::Greater)
        } else {
            Some(Ordering::Equal)
        }
    }
}

impl PartialOrdSpecImpl for FrameOffset {
    open spec fn obeys_partial_cmp_spec() -> bool {
        true
    }

    open spec fn partial_cmp_spec(&self, other: &FrameOffset) -> Option<Ordering> {
        if self.before(*other) {
            Some(Ordering::Less)
        } else if other.before(*self) {
            Some(Ordering::Greater)
        } else {
            Some(Ordering::Equal)
        }
    }
}

/// A point's tick count lies within the range of time, and the point is
/// recovered from it.
pub proof fn lemma_ticks_in_range(p: FrameOffset)
    ensures
        0 <= p.ticks() <= MAX_TICKS,
        FrameOffset::at(p.ticks()) == p,
{
}

/// Every tick count within the range of time denotes exactly one point.
pub proof fn lemma_at_ticks(t: int)
    requires
        0 <= t <= MAX_TICKS,
    ensures
        FrameOffset::at(t).ticks() == t,
{
}

/// Sorting by frame and then offset is sorting by tick count.
pub proof fn lemma_order_matches_ticks(a: FrameOffset, b: FrameOffset)
    ensures
        a.before(b) <==> a.ticks() < b.ticks(),
        a == b <==> a.ticks() == b.ticks(),
{
}

} // verus!
