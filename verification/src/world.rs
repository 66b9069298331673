//! The simulated world and the step that advances it by one confirmed frame.

use crate::combat::{take_turn, turn_spec};
use crate::event::{Event, GameEvent};
use crate::final_clash::{
    latch, latch_spec, push_opt, resolve_bout, resolve_spec, schedule, schedule_spec, verdict,
    verdict_spec, FinalClash,
};
use crate::player::Player;
use crate::time::FrameOffset;
use crate::wire::SendInput;
use vstd::prelude::*;

verus! {

/// The phase of the match.  It only ever moves forward: from `Playing` to
/// `FinalClash` to `Over`, or from `Playing` straight to `Over`.
#[derive(Clone, Copy, Debug, PartialEq, Eq, Structural, Hash)]
pub enum GameState {
    Playing,
    FinalClash,
    Over,
}

impl GameState {
    /// The position of the phase in the order of play.
    pub open spec fn rank(self) -> int {
        match self {
            GameState::Playing => 0,
            GameState::FinalClash => 1,
            GameState::Over => 2,
        }
    }
}

impl Default for GameState {
    /// A match starts in ordinary play.
    fn default() -> (r: GameState)
        ensures
            r == GameState::Playing,
    {
        GameState::Playing
    }
}

/// Everything the simulation owns: what is saved, restored and hashed.
#[derive(Clone, Copy, Debug, PartialEq, Eq, Hash)]
pub struct World {
    pub players: [Player; 2],
    pub final_clash: FinalClash,
    pub game_state: GameState,
}

/// The world after a frame, and what the frame raised, in order.
pub struct FrameOutcome {
    pub world: World,
    pub events: Seq<Event>,
}

/// Whether a player ran out of stamina between `before` and `after`.
pub open spec fn exhausted(before: Player, after: Player) -> bool {
    before.stamina > 0 && after.stamina == 0
}

/// How a frame of ordinary play ends, given both players before and after
/// their turns.
///
/// Both players without stamina: the final clash begins, and nobody is
/// declared the loser.  Otherwise a player who ran out of stamina in this
/// frame has lost, and the match is over.  Otherwise play goes on.
pub open spec fn play_end_spec(
    before: [Player; 2],
    first: Player,
    second: Player,
) -> (GameState, Option<Event>) {
    if first.stamina == 0 && second.stamina == 0 {
        (GameState::FinalClash, None)
    } else if exhausted(before[0], first) {
        (GameState::Over, Some(Event::Game(GameEvent::GameOver { loser: Some(0) })))
    } else if exhausted(before[1], second) {
        (GameState::Over, Some(Event::Game(GameEvent::GameOver { loser: Some(1) })))
    } else {
        (GameState::Playing, None)
    }
}

impl World {
    /// The world at the start of a match at time `now`.
    pub open spec fn new_spec(now: FrameOffset) -> World {
        World {
            players: [Player::new_spec(now), Player::new_spec(now)],
            final_clash: FinalClash { next_clash: None },
            game_state: GameState::Playing,
        }
    }

    /// The world at the start of a match at time `now`: two fresh players in
    /// ordinary play.
    pub fn new(now: FrameOffset) -> (r: World)
        ensures
            r == Self::new_spec(now),
    {
        World {
            players: [Player::new(now), Player::new(now)],
            final_clash: FinalClash { next_clash: None },
            game_state: GameState::Playing,
        }
    }

    /// A frame of ordinary play: player zero's turn, then player one's, then
    /// the reckoning of [`play_end_spec`].
    pub open spec fn play_spec(self, inputs: [SendInput; 2], now: FrameOffset) -> FrameOutcome {
        let t0 = turn_spec(self.players[0], self.players[1], 0, inputs[0].attacking, now);
        let t1 = turn_spec(t0.other, t0.current, 1, inputs[1].attacking, now);
        let end = play_end_spec(self.players, t1.other, t1.current);
        FrameOutcome {
            world: World { players: [t1.other, t1.current], game_state: end.0, ..self },
            events: push_opt(push_opt(push_opt(Seq::empty(), t0.event), t1.event), end.1),
        }
    }

    /// A frame of the final clash.
    ///
    /// A bout is scheduled if none is: its deadline lies one clash length
    /// after `now`.  Each player's swing is latched.  If the bout ends in this
    /// frame, its deadline is cleared and the match is over once a player has
    /// no life left.
    pub open spec fn clash_spec(self, inputs: [SendInput; 2], now: FrameOffset) -> FrameOutcome {
        let deadline = match self.final_clash.next_clash {
            Some(d) => d,
            None => schedule_spec(now),
        };
        let first = latch_spec(self.players[0], inputs[0].attacking);
        let second = latch_spec(self.players[1], inputs[1].attacking);
        match resolve_spec(first, second, deadline, now) {
            Some(bout) => {
                let verdict = verdict_spec(bout.first, bout.second);
                FrameOutcome {
                    world: World {
                        players: [bout.first, bout.second],
                        final_clash: FinalClash { next_clash: None },
                        game_state: if verdict is Some {
                            GameState::Over
                        } else {
                            GameState::FinalClash
                        },
                    },
                    events: match verdict {
                        Some(g) => bout.events.push(Event::Game(g)),
                        None => bout.events,
                    },
                }
            },
            None => FrameOutcome {
                world: World {
                    players: [first, second],
                    final_clash: FinalClash { next_clash: Some(deadline) },
                    game_state: GameState::FinalClash,
                },
                events: Seq::empty(),
            },
        }
    }

    /// The world one confirmed frame later, and what that frame raised.
    /// `now` is the simulation time at which the frame is confirmed.  Once the
    /// match is over nothing changes any more.
    pub open spec fn advance_spec(self, inputs: [SendInput; 2], now: FrameOffset) -> FrameOutcome {
        match self.game_state {
            GameState::Playing => self.play_spec(inputs, now),
            GameState::FinalClash => self.clash_spec(inputs, now),
            GameState::Over => FrameOutcome { world: self, events: Seq::empty() },
        }
    }

    /// Advances the world by a frame of ordinary play.
    fn play(&mut self, inputs: [SendInput; 2], now: FrameOffset) -> (events: Vec<Event>)
        requires
            old(self).game_state == GameState::Playing,
        ensures
            *final(self) == old(self).play_spec(inputs, now).world,
            events@ == old(self).play_spec(inputs, now).events,
    {
        let mut events: Vec<Event> = Vec::new();
        let mut first = self.players[0];
        let mut second = self.players[1];
        let started_first = first.stamina > 0;
        let started_second = second.stamina > 0;
        if let Some(e) = take_turn(&mut first, &mut second, 0, inputs[0].attacking, now) {
            events.push(e);
        }
        if let Some(e) = take_turn(&mut second, &mut first, 1, inputs[1].attacking, now) {
            events.push(e);
        }
        if first.stamina == 0 && second.stamina == 0 {
            self.game_state = GameState::FinalClash;
        } else if started_first && first.stamina == 0 {
            self.game_state = GameState::Over;
            events.push(Event::Game(GameEvent::GameOver { loser: Some(0) }));
        } else if started_second && second.stamina == 0 {
            self.game_state = GameState::Over;
            events.push(Event::Game(GameEvent::GameOver { loser: Some(1) }));
        }
        self.players = [first, second];
        events
    }

    /// Advances the world by a frame of the final clash.
    fn clash(&mut self, inputs: [SendInput; 2], now: FrameOffset) -> (events: Vec<Event>)
        requires
            old(self).game_state == GameState::FinalClash,
        ensures
            *final(self) == old(self).clash_spec(inputs, now).world,
            events@ == old(self).clash_spec(inputs, now).events,
    {
        let mut events: Vec<Event> = Vec::new();
        let deadline = match self.final_clash.next_clash {
            Some(d) => d,
            None => schedule(now),
        };
        let mut first = self.players[0];
        let mut second = self.players[1];
        latch(&mut first, inputs[0].attacking);
        latch(&mut second, inputs[1].attacking);
        if resolve_bout(&mut first, &mut second, deadline, now, &mut events) {
            self.final_clash.next_clash = None;
            if let Some(g) = verdict(&first, &second) {
                self.game_state = GameState::Over;
                events.push(Event::Game(g));
            }
        } else {
            self.final_clash.next_clash = Some(deadline);
        }
        self.players = [first, second];
        events
    }

    /// Advances the world by one confirmed frame and returns what the frame
    /// raised, in order.  `now` is the simulation time at which the frame is
    /// confirmed.
    pub fn advance(&mut self, inputs: [SendInput; 2], now: FrameOffset) -> (events: Vec<Event>)
        ensures
            *final(self) == old(self).advance_spec(inputs, now).world,
            events@ == old(self).advance_spec(inputs, now).events,
    {
        match self.game_state {
            GameState::Playing => self.play(inputs, now),
            GameState::FinalClash => self.clash(inputs, now),
            GameState::Over => Vec::new(),
        }
    }
}

} // verus!
