//! The two duellists and the swing that starts, or answers, an attack.

use crate::time::{FrameOffset, Second, TICKS_PER_SECOND};
use vstd::prelude::*;

verus! {

/// Full stamina.
pub const FULL_STAMINA: u64 = 0xffff_ffff_ffff_ffff;

/// Lives each player brings into a final clash.
pub const FINAL_CLASH_LIVES: u8 = 4;

/// The timing of one kind of attack.  The blow lands `startup_time` after the
/// swing; the defender has `block_grace` beyond that to answer; the attacker
/// may swing again `recover_time` after the blow.
#[derive(Clone, Copy, Debug, PartialEq, Eq, Structural, Hash)]
pub struct Attack {
    pub startup_time: Second,
    pub block_grace: Second,
    pub recover_time: Second,
}

impl Attack {
    /// Whether no phase of the attack runs backwards in time.
    pub open spec fn wf(self) -> bool {
        &&& self.startup_time.ticks >= 0
        &&& self.block_grace.ticks >= 0
        &&& self.recover_time.ticks >= 0
    }

    /// When an attack of this kind swung at `start` lands.
    pub open spec fn impact_spec(self, start: FrameOffset) -> FrameOffset {
        start.add_spec(self.startup_time)
    }

    /// After when an unanswered attack of this kind swung at `start` counts as
    /// having hit.
    pub open spec fn grace_end_spec(self, start: FrameOffset) -> FrameOffset {
        start.add_spec(self.startup_time).add_spec(self.block_grace)
    }

    /// After when the attacker who swung at `start` may swing again.
    pub open spec fn recovery_spec(self, start: FrameOffset) -> FrameOffset {
        start.add_spec(self.startup_time).add_spec(self.recover_time)
    }

    /// The one attack of the game: 0.9 s to land, 0.3 s of grace, 0.2 s to
    /// recover.
    pub fn canonical() -> (r: Attack)
        ensures
            r == Self::canonical_spec(),
            r.wf(),
    {
        Attack {
            startup_time: Second { ticks: 38654705664 },
            block_grace: Second { ticks: 12884901888 },
            recover_time: Second { ticks: 8589934592 },
        }
    }

    /// The one attack of the game.
    pub open spec fn canonical_spec() -> Attack {
        Attack {
            startup_time: Second { ticks: 38654705664 },
            block_grace: Second { ticks: 12884901888 },
            recover_time: Second { ticks: 8589934592 },
        }
    }

    /// When an attack of this kind swung at `start` lands.
    pub fn impact(&self, start: FrameOffset) -> (r: FrameOffset)
        ensures
            r == self.impact_spec(start),
    {
        start.add(self.startup_time)
    }

    /// After when an unanswered attack of this kind swung at `start` counts as
    /// having hit.
    pub fn grace_end(&self, start: FrameOffset) -> (r: FrameOffset)
        ensures
            r == self.grace_end_spec(start),
    {
        start.add(self.startup_time).add(self.block_grace)
    }

    /// After when the attacker who swung at `start` may swing again.
    pub fn recovery(&self, start: FrameOffset) -> (r: FrameOffset)
        ensures
            r == self.recovery_spec(start),
    {
        start.add(self.startup_time).add(self.recover_time)
    }
}

/// A timing error as a signed normalised value: a swing a full second ahead
/// of the impact is the highest `i64`, one a full second behind it the lowest,
/// and errors beyond a second count as a second.
pub open spec fn defend_result_spec(delta: Second) -> i64 {
    let within: int = if delta.magnitude() < TICKS_PER_SECOND {
        delta.magnitude()
    } else {
        TICKS_PER_SECOND as int
    };
    let scaled: int = within * 2147483648 / 10;
    if delta.ticks < 0 {
        (-scaled) as i64
    } else if scaled > i64::MAX {
        i64::MAX
    } else {
        scaled as i64
    }
}

/// A timing error as a signed normalised value in the range of `i64`.
pub fn defend_result(delta: Second) -> (r: i64)
    ensures
        r == defend_result_spec(delta),
{
    let magnitude: u128 = delta.abs_ticks();
    let within: u128 = if magnitude < (TICKS_PER_SECOND as u128) {
        magnitude
    } else {
        TICKS_PER_SECOND as u128
    };
    let scaled: u128 = within * 2147483648 / 10;
    if delta.ticks < 0 {
        -(scaled as i128) as i64
    } else if scaled > (i64::MAX as u128) {
        i64::MAX
    } else {
        scaled as i64
    }
}

/// One duellist.
#[derive(Clone, Copy, Debug, PartialEq, Eq, Hash)]
pub struct Player {
    /// The attack in flight, if this player has swung and was not yet
    /// answered.
    pub current_attack: Option<Attack>,
    /// When this player last swung.
    pub attack_start_time: FrameOffset,
    /// After when this player may swing again.
    pub attack_recover_time: FrameOffset,
    /// Timing error of this player's last answer, normalised to one second.
    pub last_defend_result: i64,
    /// Remaining stamina; [`FULL_STAMINA`] is all of it.
    pub stamina: u64,
    /// Lives left in the final clash.
    pub final_clash_lives: u8,
    /// This player's swing in the running bout of the final clash.
    pub final_clash_last_swing: Option<FrameOffset>,
}

/// What a swing leaves behind: both players and, where the swing answered an
/// attack, its timing error.
pub struct SwingOutcome {
    pub striker: Player,
    pub opponent: Player,
    pub delta: Option<Second>,
}

impl Player {
    /// Whether the player's attack window is in order: it does not end before
    /// it starts.
    pub open spec fn wf(self) -> bool {
        self.attack_start_time.ticks() <= self.attack_recover_time.ticks()
    }

    /// A fresh player at time `now`: rested, idle, with all lives.
    pub fn new(now: FrameOffset) -> (r: Player)
        ensures
            r == Self::new_spec(now),
            r.wf(),
    {
        Player {
            current_attack: None,
            attack_start_time: now,
            attack_recover_time: now,
            last_defend_result: 0,
            stamina: FULL_STAMINA,
            final_clash_lives: FINAL_CLASH_LIVES,
            final_clash_last_swing: None,
        }
    }

    /// A fresh player at time `now`.
    pub open spec fn new_spec(now: FrameOffset) -> Player {
        Player {
            current_attack: None,
            attack_start_time: now,
            attack_recover_time: now,
            last_defend_result: 0,
            stamina: FULL_STAMINA,
            final_clash_lives: FINAL_CLASH_LIVES,
            final_clash_last_swing: None,
        }
    }

    /// When this player's attack in flight lands, if there is one.
    pub open spec fn impact_time_spec(self) -> Option<FrameOffset> {
        match self.current_attack {
            Some(attack) => Some(attack.impact_spec(self.attack_start_time)),
            None => None,
        }
    }

    /// When this player's attack in flight lands, if there is one.
    pub fn impact_time(&self) -> (r: Option<FrameOffset>)
        ensures
            r == self.impact_time_spec(),
    {
        match self.current_attack {
            Some(attack) => Some(attack.impact(self.attack_start_time)),
            None => None,
        }
    }

    /// The effect of this player swinging `attack` at `t` against `other`.
    ///
    /// The striker's attack window starts at `t` and ends after startup and
    /// recovery.  If `other` has an attack in flight, the swing answers it:
    /// that attack is cleared, and the timing error is the time from `t` to
    /// its impact: positive for a swing ahead of the impact, negative for one
    /// behind it, zero for one on the very tick.  Otherwise `other` is
    /// untouched and there is no timing error.
    pub open spec fn swing_spec(self, other: Player, t: FrameOffset, attack: Attack) -> SwingOutcome {
        let window = Player {
            current_attack: Some(attack),
            attack_start_time: t,
            attack_recover_time: attack.recovery_spec(t),
            ..self
        };
        match other.current_attack {
            Some(incoming) => {
                let delta = t.elapsed_spec(incoming.impact_spec(other.attack_start_time));
                SwingOutcome {
                    striker: Player { last_defend_result: defend_result_spec(delta), ..window },
                    opponent: Player { current_attack: None, ..other },
                    delta: Some(delta),
                }
            },
            None => SwingOutcome { striker: window, opponent: other, delta: None },
        }
    }

    /// Swings `attack` at `frame_offset` against `other`, and returns the
    /// timing error if the swing answered an attack of `other`.
    pub fn swing(&mut self, other: &mut Player, frame_offset: FrameOffset, attack: Attack) -> (r: Option<Second>)
        ensures
            *final(self) == old(self).swing_spec(*old(other), frame_offset, attack).striker,
            *final(other) == old(self).swing_spec(*old(other), frame_offset, attack).opponent,
            r == old(self).swing_spec(*old(other), frame_offset, attack).delta,
            old(other).current_attack is None ==> r is None && *final(other) == *old(other),
            final(self).attack_start_time == frame_offset,
            final(self).attack_recover_time == frame_offset.add_spec(attack.startup_time).add_spec(
                attack.recover_time,
            ),
            final(self).current_attack == Some(attack),
            attack.wf() ==> final(self).wf(),
    {
        self.attack_start_time = frame_offset;
        self.attack_recover_time = attack.recovery(frame_offset);
        self.current_attack = Some(attack);
        match other.current_attack {
            Some(incoming) => {
                let impact_time = incoming.impact(other.attack_start_time);
                let delta = frame_offset.get_offset_seconds(&impact_time);
                other.current_attack = None;
                self.last_defend_result = defend_result(delta);
                Some(delta)
            },
            None => None,
        }
    }

    /// This player with one final-clash life fewer, but never fewer than none.
    pub open spec fn take_final_clash_life_spec(self) -> Player {
        Player {
            final_clash_lives: if self.final_clash_lives > 0 {
                (self.final_clash_lives - 1) as u8
            } else {
                0
            },
            ..self
        }
    }

    /// Takes one final-clash life from this player, if any is left.
    pub fn take_final_clash_life(&mut self)
        ensures
            *final(self) == old(self).take_final_clash_life_spec(),
            final(self).final_clash_lives <= old(self).final_clash_lives,
    {
        if self.final_clash_lives > 0 {
            self.final_clash_lives -= 1;
        }
    }
}

} // verus!
