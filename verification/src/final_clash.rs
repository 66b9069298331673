//! The final clash: sudden death in bouts, entered when both players run out
//! of stamina in the same frame.
//!
//! Each bout has a deadline.  A player's first swing of the bout is latched.
//! The bout ends as soon as both players have swung, or once a full
//! [`CLASH_LENGTH`] has passed beyond the deadline.

use crate::event::{Event, GameEvent};
use crate::player::Player;
use crate::time::{FrameOffset, Second};
use vstd::prelude::*;

verus! {

/// Ticks from the scheduling of a bout to its deadline, and from the deadline
/// to the end of the bout: one second.
pub const CLASH_LENGTH: i128 = 42949672960;

/// The deadline of the running bout of the final clash, if one is scheduled.
#[derive(Clone, Copy, Debug, PartialEq, Eq, Hash)]
pub struct FinalClash {
    pub next_clash: Option<FrameOffset>,
}

/// The players after a bout, and what the bout raised.
pub struct Bout {
    pub first: Player,
    pub second: Player,
    pub events: Seq<Event>,
}

/// `events` with `event` behind it, if there is one.
pub open spec fn push_opt(events: Seq<Event>, event: Option<Event>) -> Seq<Event> {
    match event {
        Some(e) => events.push(e),
        None => events,
    }
}

/// The deadline of a bout scheduled at `now`.
pub open spec fn schedule_spec(now: FrameOffset) -> FrameOffset {
    now.add_spec(Second { ticks: CLASH_LENGTH })
}

/// The player after an input in a bout: a swing is latched if it is the
/// player's first of the bout.
pub open spec fn latch_spec(player: Player, attacking: FrameOffset) -> Player {
    if attacking.is_valid() && player.final_clash_last_swing is None {
        Player { final_clash_last_swing: Some(attacking), ..player }
    } else {
        player
    }
}

/// Whether the bout with the given deadline has run out at `now`: the time
/// from `now` to the deadline is below minus [`CLASH_LENGTH`].
pub open spec fn overdue(now: FrameOffset, deadline: FrameOffset) -> bool {
    now.elapsed_spec(deadline).ticks < -CLASH_LENGTH
}

/// How far a swing was from the deadline, in ticks, early or late alike.
pub open spec fn reaction(swing: FrameOffset, deadline: FrameOffset) -> int {
    swing.elapsed_spec(deadline).magnitude()
}

/// The player with the latch of the bout released.
pub open spec fn release(player: Player) -> Player {
    Player { final_clash_last_swing: None, ..player }
}

/// The player after a bout that ran out: one life fewer unless the player
/// swung.
pub open spec fn after_timeout(player: Player) -> Player {
    if player.final_clash_last_swing is None {
        release(player.take_final_clash_life_spec())
    } else {
        release(player)
    }
}

/// The hit that a bout that ran out deals to player `index`: one who did not
/// swing while the opponent did.
pub open spec fn timeout_hit(player: Player, opponent: Player, index: usize) -> Option<Event> {
    if player.final_clash_last_swing is None && opponent.final_clash_last_swing is Some {
        Some(Event::Hit { player: index })
    } else {
        None
    }
}

/// The end of the running bout at `now`, or `None` while it goes on.
///
/// A bout that has run out costs each player who did not swing one life.
/// Otherwise, a bout in which both have swung costs the player whose swing
/// was farther from the deadline one life, and nobody if they were equally
/// far.  Either way both latches are released.
pub open spec fn resolve_spec(
    first: Player,
    second: Player,
    deadline: FrameOffset,
    now: FrameOffset,
) -> Option<Bout> {
    if overdue(now, deadline) {
        Some(
            Bout {
                first: after_timeout(first),
                second: after_timeout(second),
                events: push_opt(
                    push_opt(Seq::empty(), timeout_hit(first, second, 0)),
                    timeout_hit(second, first, 1),
                ),
            },
        )
    } else {
        match (first.final_clash_last_swing, second.final_clash_last_swing) {
            (Some(a), Some(b)) => Some(
                Bout {
                    first: release(
                        if reaction(b, deadline) < reaction(a, deadline) {
                            first.take_final_clash_life_spec()
                        } else {
                            first
                        },
                    ),
                    second: release(
                        if reaction(a, deadline) < reaction(b, deadline) {
                            second.take_final_clash_life_spec()
                        } else {
                            second
                        },
                    ),
                    events: Seq::empty().push(Event::Clash),
                },
            ),
            _ => None,
        }
    }
}

/// How the match stands after a bout: a tie if both players are out of lives;
/// if exactly one is, the match is over and the event names the other player;
/// otherwise it goes on.
pub open spec fn verdict_spec(first: Player, second: Player) -> Option<GameEvent> {
    if first.final_clash_lives == 0 && second.final_clash_lives == 0 {
        Some(GameEvent::GameOver { loser: None })
    } else if first.final_clash_lives == 0 {
        Some(GameEvent::GameOver { loser: Some(1) })
    } else if second.final_clash_lives == 0 {
        Some(GameEvent::GameOver { loser: Some(0) })
    } else {
        None
    }
}

/// The deadline of a bout scheduled at `now`.
pub fn schedule(now: FrameOffset) -> (r: FrameOffset)
    ensures
        r == schedule_spec(now),
{
    now.add(Second { ticks: CLASH_LENGTH })
}

/// Latches the player's swing if the input is one and it is the player's
/// first of the bout.
pub fn latch(player: &mut Player, attacking: FrameOffset)
    ensures
        *final(player) == latch_spec(*old(player), attacking),
{
    if attacking.is_valid() && player.final_clash_last_swing.is_none() {
        player.final_clash_last_swing = Some(attacking);
    }
}

/// Whether the bout with the given deadline has run out at `now`.
pub fn is_overdue(now: FrameOffset, deadline: FrameOffset) -> (r: bool)
    ensures
        r == overdue(now, deadline),
{
    now.get_offset_seconds(&deadline).ticks < -CLASH_LENGTH
}

/// Ends the running bout if it is due at `now`, appending what it raised to
/// `events`.  Returns whether the bout ended.
pub fn resolve_bout(
    first: &mut Player,
    second: &mut Player,
    deadline: FrameOffset,
    now: FrameOffset,
    events: &mut Vec<Event>,
) -> (resolved: bool)
    ensures
        resolved == resolve_spec(*old(first), *old(second), deadline, now).is_some(),
        !resolved ==> *final(first) == *old(first) && *final(second) == *old(second)
            && final(events)@ == old(events)@,
        resolved ==> {
            let bout = resolve_spec(*old(first), *old(second), deadline, now).unwrap();
            &&& *final(first) == bout.first
            &&& *final(second) == bout.second
            &&& final(events)@ == old(events)@ + bout.events
        },
        final(first).final_clash_lives <= old(first).final_clash_lives,
        final(second).final_clash_lives <= old(second).final_clash_lives,
{
    if is_overdue(now, deadline) {
        let first_swung = first.final_clash_last_swing.is_some();
        let second_swung = second.final_clash_last_swing.is_some();
        if !first_swung {
            first.take_final_clash_life();
            if second_swung {
                events.push(Event::Hit { player: 0 });
            }
        }
        if !second_swung {
            second.take_final_clash_life();
            if first_swung {
                events.push(Event::Hit { player: 1 });
            }
        }
        first.final_clash_last_swing = None;
        second.final_clash_last_swing = None;
        proof {
            let bout = resolve_spec(*old(first), *old(second), deadline, now).unwrap();
            assert(events@ =~= old(events)@ + bout.events);
        }
        true
    } else {
        match (first.final_clash_last_swing, second.final_clash_last_swing) {
            (Some(a), Some(b)) => {
                let first_reaction = a.get_offset_seconds(&deadline).abs_ticks();
                let second_reaction = b.get_offset_seconds(&deadline).abs_ticks();
                if second_reaction < first_reaction {
                    first.take_final_clash_life();
                }
                if first_reaction < second_reaction {
                    second.take_final_clash_life();
                }
                events.push(Event::Clash);
                first.final_clash_last_swing = None;
                second.final_clash_last_swing = None;
                proof {
                    let bout = resolve_spec(*old(first), *old(second), deadline, now).unwrap();
                    assert(events@ =~= old(events)@ + bout.events);
                }
                true
            },
            _ => false,
        }
    }
}

/// How the match stands after a bout.
pub fn verdict(first: &Player, second: &Player) -> (r: Option<GameEvent>)
    ensures
        r == verdict_spec(*first, *second),
{
    if first.final_clash_lives == 0 && second.final_clash_lives == 0 {
        Some(GameEvent::GameOver { loser: None })
    } else if first.final_clash_lives == 0 {
        Some(GameEvent::GameOver { loser: Some(1) })
    } else if second.final_clash_lives == 0 {
        Some(GameEvent::GameOver { loser: Some(0) })
    } else {
        None
    }
}

} // verus!
