//! What the presentation layer reads off the simulation: which frame of an
//! animation to show, and where the timing caret stands.  Nothing here feeds
//! back into the world.

use crate::final_clash::FinalClash;
use crate::player::Player;
use crate::time::{FrameOffset, Second, TICKS_PER_FRAME};
use crate::world::GameState;
use vstd::prelude::*;

verus! {

/// Whole frames that fit into `progress`; none if it is negative.
pub open spec fn whole_frames(progress: Second) -> int {
    if progress.ticks <= 0 {
        0
    } else {
        progress.ticks as int / TICKS_PER_FRAME as int
    }
}

/// The frame to show of an animation of `len` frames that started
/// `progress` ago and repeats.
pub fn looping_frame(progress: Second, len: usize) -> (r: usize)
    requires
        len > 0,
    ensures
        r == whole_frames(progress) % len as int,
        r < len,
{
    if progress.ticks <= 0 {
        assert(0int % (len as int) == 0) by (nonlinear_arith)
            requires
                len > 0,
        ;
        0
    } else {
        let frames: u128 = (progress.ticks / TICKS_PER_FRAME) as u128;
        (frames % (len as u128)) as usize
    }
}

/// The frame to show of an animation of `len` frames that started
/// `progress` ago, plays once and then rests on its first frame.
pub fn single_run_frame(progress: Second, len: usize) -> (r: usize)
    requires
        len > 0,
    ensures
        r == if whole_frames(progress) < len {
            whole_frames(progress)
        } else {
            0
        },
        r < len,
{
    if progress.ticks <= 0 {
        0
    } else {
        let frames: u128 = (progress.ticks / TICKS_PER_FRAME) as u128;
        if frames < (len as u128) {
            frames as usize
        } else {
            0
        }
    }
}

/// Where the timing caret of a defender stands.
#[derive(Clone, Copy, Debug, PartialEq, Eq, Structural, Hash)]
pub enum Caret {
    /// An attack is coming in; this is the time left until it lands.
    Incoming(Second),
    /// No attack is coming in; this is the defender's last timing error,
    /// normalised to one second.
    Settled(i64),
}

/// Where the caret of `defender` stands at `now`, facing `attacker`.
pub open spec fn caret_spec(attacker: Player, defender: Player, now: FrameOffset) -> Caret {
    match attacker.impact_time_spec() {
        Some(impact) => Caret::Incoming(now.elapsed_spec(impact)),
        None => Caret::Settled(defender.last_defend_result),
    }
}

/// Where the caret of `defender` stands at `now`, facing `attacker`.
pub fn caret(attacker: &Player, defender: &Player, now: FrameOffset) -> (r: Caret)
    ensures
        r == caret_spec(*attacker, *defender, now),
{
    match attacker.impact_time() {
        Some(impact) => Caret::Incoming(now.get_offset_seconds(&impact)),
        None => Caret::Settled(defender.last_defend_result),
    }
}

impl FinalClash {
    /// The time from `now` to the deadline of the running bout, if a bout is
    /// scheduled.
    pub fn time_to_deadline(&self, now: FrameOffset) -> (r: Option<Second>)
        ensures
            r == (match self.next_clash {
                Some(deadline) => Some(now.elapsed_spec(deadline)),
                None => None,
            }),
    {
        match self.next_clash {
            Some(deadline) => Some(now.get_offset_seconds(&deadline)),
            None => None,
        }
    }
}

impl GameState {
    /// The name of the phase.
    pub open spec fn name_spec(self) -> Seq<char> {
        match self {
            GameState::Playing => "Playing"@,
            GameState::FinalClash => "FinalClash"@,
            GameState::Over => "Over"@,
        }
    }

    /// The name of the phase.
    pub fn name(&self) -> (r: &'static str)
        ensures
            r@ == self.name_spec(),
    {
        match self {
            GameState::Playing => "Playing",
            GameState::FinalClash => "FinalClash",
            GameState::Over => "Over",
        }
    }
}

} // verus!
