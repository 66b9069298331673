//! Swing and block: how well a block was timed, what it costs, and one
//! player's turn within a frame.

use crate::event::{BlockQuality, Event};
use crate::player::{Attack, Player};
use crate::time::{FrameOffset, Second, TICKS_PER_SECOND};
use vstd::prelude::*;

verus! {

/// Stamina that a block of the worst quality costs: a tenth of the whole.
pub const BASE_STAMINA_LOSS: u64 = 1844674407370955161;

/// Stamina that an unanswered attack costs the player it lands on: one and a
/// half times [`BASE_STAMINA_LOSS`].
pub const EXPOSED_STAMINA_LOSS: u64 = 2767011611056432741;

/// The size of a timing error in ticks, counting errors beyond one second as
/// one second.  Block quality is one minus this, taken in seconds.
pub open spec fn timing_error(delta: Second) -> int {
    if delta.magnitude() < TICKS_PER_SECOND {
        delta.magnitude()
    } else {
        TICKS_PER_SECOND as int
    }
}

/// The quality tier of a block that was `delta` off the impact.
///
/// With quality `q = 1 - timing_error / TICKS_PER_SECOND`: `q == 1` is
/// inhuman, `q > 0.999` perfect, `q > 0.99` excellent, `q > 0.9` good,
/// `q > 0.8` decent, anything else sloppy.
pub open spec fn classify_spec(delta: Second) -> BlockQuality {
    let e = timing_error(delta);
    if e == 0 {
        BlockQuality::Inhuman
    } else if 1000 * e < TICKS_PER_SECOND {
        BlockQuality::Perfect
    } else if 100 * e < TICKS_PER_SECOND {
        BlockQuality::Excellent
    } else if 10 * e < TICKS_PER_SECOND {
        BlockQuality::Good
    } else if 5 * e < TICKS_PER_SECOND {
        BlockQuality::Decent
    } else {
        BlockQuality::Sloppy
    }
}

/// The stamina a block costs that was `delta` off the impact:
/// `BASE * (1 - 0.8 * q)` for quality `q`, which is
/// `BASE * (T + 4 * e) / (5 * T)` for timing error `e` and `T` ticks in a
/// second, rounded down.
pub open spec fn block_loss_spec(delta: Second) -> int {
    BASE_STAMINA_LOSS as int * (TICKS_PER_SECOND as int + 4 * timing_error(delta)) / (5
        * TICKS_PER_SECOND as int)
}

/// Stamina left after a loss: the loss is taken off, and what would go below
/// nothing is nothing.
pub open spec fn stamina_after(stamina: u64, loss: u64) -> u64 {
    if loss < stamina {
        (stamina - loss) as u64
    } else {
        0
    }
}

/// The size of a timing error in ticks, at most one second.
pub fn timing_error_ticks(delta: Second) -> (r: u64)
    ensures
        r == timing_error(delta),
{
    let magnitude: u128 = delta.abs_ticks();
    if magnitude < (TICKS_PER_SECOND as u128) {
        magnitude as u64
    } else {
        TICKS_PER_SECOND as u64
    }
}

/// The quality tier of a block that was `delta` off the impact.
pub fn classify(delta: Second) -> (r: BlockQuality)
    ensures
        r == classify_spec(delta),
{
    let e: u64 = timing_error_ticks(delta);
    let second: u64 = TICKS_PER_SECOND as u64;
    if e == 0 {
        BlockQuality::Inhuman
    } else if 1000 * e < second {
        BlockQuality::Perfect
    } else if 100 * e < second {
        BlockQuality::Excellent
    } else if 10 * e < second {
        BlockQuality::Good
    } else if 5 * e < second {
        BlockQuality::Decent
    } else {
        BlockQuality::Sloppy
    }
}

/// The stamina a block costs that was `delta` off the impact.
pub fn block_loss(delta: Second) -> (r: u64)
    ensures
        r == block_loss_spec(delta),
        BASE_STAMINA_LOSS / 5 <= r <= BASE_STAMINA_LOSS,
{
    let e: u128 = timing_error_ticks(delta) as u128;
    let second: u128 = TICKS_PER_SECOND as u128;
    let loss: u128 = (BASE_STAMINA_LOSS as u128) * (second + 4 * e) / (5 * second);
    loss as u64
}

/// Takes `loss` off `stamina`, stopping at nothing.
pub fn lose_stamina(stamina: u64, loss: u64) -> (r: u64)
    ensures
        r == stamina_after(stamina, loss),
        r <= stamina,
{
    if loss < stamina {
        stamina - loss
    } else {
        0
    }
}

/// What one player's turn leaves behind: that player, the opponent, and the
/// event the turn raised.
pub struct TurnOutcome {
    pub current: Player,
    pub other: Player,
    pub event: Option<Event>,
}

/// One player's turn in a frame of ordinary play.
///
/// If the confirmed input is a swing, the player swings the canonical attack.
/// A swing that answers an attack is a block: it is classified, it costs
/// stamina by its quality, and it raises [`Event::Block`].  A swing against an
/// idle opponent costs nothing.
///
/// If the input is no swing and the opponent's attack has been in flight
/// beyond its grace at `now`, the attack lands: the player pays
/// [`EXPOSED_STAMINA_LOSS`] and the attack is cleared.
pub open spec fn turn_spec(
    current: Player,
    other: Player,
    handle: usize,
    attacking: FrameOffset,
    now: FrameOffset,
) -> TurnOutcome {
    if attacking.is_valid() {
        let swing = current.swing_spec(other, attacking, Attack::canonical_spec());
        match swing.delta {
            Some(delta) => TurnOutcome {
                current: Player {
                    stamina: stamina_after(swing.striker.stamina, block_loss_spec(delta) as u64),
                    ..swing.striker
                },
                other: swing.opponent,
                event: Some(Event::Block { player: handle, quality: classify_spec(delta), delta }),
            },
            None => TurnOutcome { current: swing.striker, other: swing.opponent, event: None },
        }
    } else {
        match other.current_attack {
            Some(incoming) => if incoming.grace_end_spec(other.attack_start_time).before(now) {
                TurnOutcome {
                    current: Player {
                        stamina: stamina_after(current.stamina, EXPOSED_STAMINA_LOSS),
                        ..current
                    },
                    other: Player { current_attack: None, ..other },
                    event: None,
                }
            } else {
                TurnOutcome { current, other, event: None }
            },
            None => TurnOutcome { current, other, event: None },
        }
    }
}

/// Plays one player's turn in a frame of ordinary play and returns the event
/// it raised, if any.
pub fn take_turn(
    current: &mut Player,
    other: &mut Player,
    handle: usize,
    attacking: FrameOffset,
    now: FrameOffset,
) -> (r: Option<Event>)
    ensures
        *final(current) == turn_spec(*old(current), *old(other), handle, attacking, now).current,
        *final(other) == turn_spec(*old(current), *old(other), handle, attacking, now).other,
        r == turn_spec(*old(current), *old(other), handle, attacking, now).event,
        final(current).stamina <= old(current).stamina,
        final(other).stamina == old(other).stamina,
{
    if attacking.is_valid() {
        match current.swing(other, attacking, Attack::canonical()) {
            Some(delta) => {
                let quality = classify(delta);
                current.stamina = lose_stamina(current.stamina, block_loss(delta));
                Some(Event::Block { player: handle, quality, delta })
            },
            None => None,
        }
    } else {
        match other.current_attack {
            Some(incoming) => {
                let grace_end = incoming.grace_end(other.attack_start_time);
                if now.is_after(&grace_end) {
                    current.stamina = lose_stamina(current.stamina, EXPOSED_STAMINA_LOSS);
                    other.current_attack = None;
                }
                None
            },
            None => None,
        }
    }
}

} // verus!
