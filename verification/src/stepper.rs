//! The stepper: the live simulation and the requests of a rollback session
//! that it carries out.
//!
//! The session itself, with its network traffic and its predictions, lives
//! outside this crate.  Per tick it is given one local input
//! ([`LocalInput::take`]) and answers with requests to save, load and advance,
//! which [`Simulation::execute`] carries out one by one, in the order given.

use crate::clock::{FrameClock, FRAME_NANOS};
use crate::event::{Event, LOCAL_PLAYER};
use crate::player::Player;
use crate::snapshot::WorldSnapshot;
use crate::time::{FrameOffset, INVALID_FRAME};
use crate::wire::SendInput;
use crate::world::World;
use vstd::prelude::*;

verus! {

/// What the session knows about an input it hands over.
#[derive(Clone, Copy, Debug, PartialEq, Eq, Structural, Hash)]
pub enum InputStatus {
    /// The input is what the player did.
    Confirmed,
    /// The input is the session's guess.
    Predicted,
    /// The player is gone.
    Disconnected,
}

/// A request of the rollback session.
#[derive(Clone, Copy, Debug, PartialEq, Eq)]
pub enum Request {
    /// Hand over a snapshot of the live world, which must stand at `frame`.
    SaveState { frame: u64 },
    /// Replace the live world by `snapshot`, taken at `frame`.
    LoadState { frame: u64, snapshot: WorldSnapshot },
    /// Advance the live world by one frame with the inputs of both players.
    AdvanceFrame { inputs: [SendInput; 2], statuses: [InputStatus; 2] },
}

/// The answer to a request that was carried out.
#[derive(Clone, Debug, PartialEq, Eq)]
pub enum Response {
    /// The snapshot to hand to the session.
    Saved { snapshot: WorldSnapshot },
    /// The snapshot is now the live world.
    Loaded,
    /// The frame was advanced and raised these events, in order.
    Advanced { events: Vec<Event> },
}

/// Why a request was not carried out.  Each of these is a violation of the
/// protocol between session and simulation that the match cannot survive.
#[derive(Clone, Copy, Debug, PartialEq, Eq, Structural, Hash)]
pub enum StepError {
    /// A save was requested for a frame other than the live one.
    FrameMismatch { live: u64, requested: u64 },
    /// An input to advance with came from a player who is gone.
    Disconnected { player: usize },
    /// The frame counter has no frame left to advance to.
    FrameLimit,
}

/// Nanoseconds to wait before the next tick: one frame when the session runs
/// ahead of the peer, nothing otherwise.
pub fn throttle(frames_ahead: i32) -> (nanos: u64)
    ensures
        nanos == if frames_ahead > 0 {
            FRAME_NANOS
        } else {
            0
        },
{
    if frames_ahead > 0 {
        FRAME_NANOS
    } else {
        0
    }
}

/// The swing that the local player has asked for since the last tick.
#[derive(Clone, Copy, Debug, PartialEq, Eq, Hash)]
pub struct LocalInput {
    pub attacking: Option<FrameOffset>,
}

impl LocalInput {
    /// Whether `player` is free to swing at `now`: no attack of theirs is in
    /// flight, or the last one has fully recovered.
    pub open spec fn may_swing(player: Player, now: FrameOffset) -> bool {
        player.current_attack is None || player.attack_recover_time.before(now)
    }

    /// The pending input after the attack key was, or was not, pressed at
    /// `now`.  A press registers a swing at `now` if none is registered yet
    /// and the player is free to swing.
    pub open spec fn input_spec(self, pressed: bool, player: Player, now: FrameOffset) -> LocalInput {
        if pressed && self.attacking is None && Self::may_swing(player, now) {
            LocalInput { attacking: Some(now) }
        } else {
            self
        }
    }

    /// What is sent for this tick: the registered swing, or the marker for
    /// none.
    pub open spec fn sent(self) -> SendInput {
        match self.attacking {
            Some(at) => SendInput { attacking: at },
            None => SendInput { attacking: FrameOffset { frame: INVALID_FRAME, offset: 0 } },
        }
    }

    /// No swing asked for.
    pub fn new() -> (r: LocalInput)
        ensures
            r.attacking is None,
    {
        LocalInput { attacking: None }
    }

    /// Takes note of the attack key at simulation time `now`.
    pub fn input(&mut self, pressed: bool, local_player: &Player, now: FrameOffset)
        ensures
            *final(self) == old(self).input_spec(pressed, *local_player, now),
    {
        if pressed && self.attacking.is_none() {
            if local_player.current_attack.is_none() || now.is_after(
                &local_player.attack_recover_time,
            ) {
                self.attacking = Some(now);
            }
        }
    }

    /// Hands over the input for this tick and starts the next tick with no
    /// swing asked for.
    pub fn take(&mut self) -> (r: SendInput)
        ensures
            r == old(self).sent(),
            final(self).attacking is None,
    {
        let sent = match self.attacking {
            Some(at) => SendInput::swing(at),
            None => SendInput::idle(),
        };
        self.attacking = None;
        sent
    }
}

/// The live simulation: the world and the clock it runs by.
#[derive(Clone, Copy, Debug, PartialEq, Eq)]
pub struct Simulation {
    pub world: World,
    pub clock: FrameClock,
}

/// The simulation time at which the frame after `frame` is confirmed: the
/// very start of the next frame.
pub open spec fn confirmed_at(frame: u64) -> FrameOffset {
    FrameOffset { frame: (frame + 1) as u64, offset: 0 }
}

/// The first player, if any, whose input comes with the status
/// `Disconnected`.
pub open spec fn first_disconnected(statuses: [InputStatus; 2]) -> Option<usize> {
    if statuses[0] == InputStatus::Disconnected {
        Some(0usize)
    } else if statuses[1] == InputStatus::Disconnected {
        Some(1usize)
    } else {
        None
    }
}

impl Simulation {
    /// The simulation at the start of a match, anchored at the wall-clock
    /// reading `wall`.
    pub open spec fn new_spec(wall: u64) -> Simulation {
        Simulation {
            world: World::new_spec(FrameOffset { frame: 0, offset: 0 }),
            clock: FrameClock { frame: 0, anchored_at: wall },
        }
    }

    /// The error with which a save for `frame` is refused, if it is.
    pub open spec fn save_error(self, frame: u64) -> Option<StepError> {
        if frame != self.clock.frame {
            Some(StepError::FrameMismatch { live: self.clock.frame, requested: frame })
        } else {
            None
        }
    }

    /// The simulation after loading `snapshot`, taken at `frame`, at the
    /// wall-clock reading `wall`.
    pub open spec fn load_spec(self, frame: u64, snapshot: WorldSnapshot, wall: u64) -> Simulation {
        Simulation { world: snapshot.world, clock: FrameClock { frame, anchored_at: wall } }
    }

    /// The error with which advancing is refused, if it is: a disconnected
    /// player first, an exhausted frame counter second.
    pub open spec fn advance_error(self, statuses: [InputStatus; 2]) -> Option<StepError> {
        match first_disconnected(statuses) {
            Some(player) => Some(StepError::Disconnected { player }),
            None => if self.clock.frame >= INVALID_FRAME - 1 {
                Some(StepError::FrameLimit)
            } else {
                None
            },
        }
    }

    /// The simulation one frame later: the world advanced at the time the
    /// frame is confirmed, the frame counter one up, the clock anchored at
    /// `wall`.
    pub open spec fn advance_spec(self, inputs: [SendInput; 2], wall: u64) -> Simulation {
        Simulation {
            world: self.world.advance_spec(inputs, confirmed_at(self.clock.frame)).world,
            clock: FrameClock { frame: (self.clock.frame + 1) as u64, anchored_at: wall },
        }
    }

    /// The events of the frame that [`Simulation::advance_spec`] advances by.
    pub open spec fn advance_events(self, inputs: [SendInput; 2]) -> Seq<Event> {
        self.world.advance_spec(inputs, confirmed_at(self.clock.frame)).events
    }

    /// Starts a match at the wall-clock reading `wall`: frame zero, two fresh
    /// players, ordinary play.
    pub fn new(wall: u64) -> (r: Simulation)
        ensures
            r == Self::new_spec(wall),
    {
        Simulation { world: World::new(FrameOffset::start_of(0)), clock: FrameClock::new(0, wall) }
    }

    /// Simulation time at the wall-clock reading `wall`.  This is a live
    /// sample: it may be sent as the local input, and nothing else.
    pub fn now(&self, wall: u64) -> (r: FrameOffset)
        ensures
            r == self.clock.now_spec(wall),
    {
        FrameOffset::now(&self.clock, wall)
    }

    /// Samples the local player's attack key at the wall-clock reading
    /// `wall`: a press registers a swing at the simulation time of that
    /// reading, unless a swing is registered already or the local player's
    /// last attack has not recovered by then.
    pub fn sample_input(&self, pending: &mut LocalInput, pressed: bool, wall: u64)
        ensures
            *final(pending) == old(pending).input_spec(
                pressed,
                self.world.players[LOCAL_PLAYER as int],
                self.clock.now_spec(wall),
            ),
    {
        let now = self.now(wall);
        pending.input(pressed, &self.world.players[LOCAL_PLAYER], now);
    }

    /// Takes a snapshot of the live world for the session to keep.  The
    /// session must ask for the live frame.
    pub fn save_state(&self, frame: u64) -> (r: Result<WorldSnapshot, StepError>)
        ensures
            match self.save_error(frame) {
                Some(e) => r == Err::<WorldSnapshot, StepError>(e),
                None => r == Ok::<WorldSnapshot, StepError>(WorldSnapshot::of(self.world)),
            },
    {
        if frame != self.clock.frame {
            Err(StepError::FrameMismatch { live: self.clock.frame, requested: frame })
        } else {
            Ok(WorldSnapshot::take(&self.world))
        }
    }

    /// Replaces the whole live world by `snapshot` and anchors the clock at
    /// `frame` and at the wall-clock reading `wall`.
    pub fn load_state(&mut self, frame: u64, snapshot: &WorldSnapshot, wall: u64)
        ensures
            *final(self) == old(self).load_spec(frame, *snapshot, wall),
    {
        self.world = snapshot.world;
        self.clock.reanchor(frame, wall);
    }

    /// Advances the live world by one frame with the inputs of both players,
    /// counts the frame and anchors the clock at the wall-clock reading
    /// `wall`.  Returns what the frame raised, in order.  Refused, with the
    /// simulation untouched, if a player is disconnected or no frame is left.
    pub fn advance_frame(
        &mut self,
        inputs: [SendInput; 2],
        statuses: [InputStatus; 2],
        wall: u64,
    ) -> (r: Result<Vec<Event>, StepError>)
        ensures
            match old(self).advance_error(statuses) {
                Some(e) => r == Err::<Vec<Event>, StepError>(e) && *final(self) == *old(self),
                None => {
                    &&& r matches Ok(events)
                    &&& events@ == old(self).advance_events(inputs)
                    &&& *final(self) == old(self).advance_spec(inputs, wall)
                },
            },
    {
        if statuses[0] == InputStatus::Disconnected {
            return Err(StepError::Disconnected { player: 0 });
        }
        if statuses[1] == InputStatus::Disconnected {
            return Err(StepError::Disconnected { player: 1 });
        }
        if self.clock.frame >= INVALID_FRAME - 1 {
            return Err(StepError::FrameLimit);
        }
        let next = self.clock.frame + 1;
        let events = self.world.advance(inputs, FrameOffset::start_of(next));
        self.clock.reanchor(next, wall);
        Ok(events)
    }

    /// Carries out one request of the session at the wall-clock reading
    /// `wall`.
    pub fn execute(&mut self, request: Request, wall: u64) -> (r: Result<Response, StepError>)
        ensures
            match request {
                Request::SaveState { frame } => {
                    &&& *final(self) == *old(self)
                    &&& match old(self).save_error(frame) {
                        Some(e) => r == Err::<Response, StepError>(e),
                        None => r matches Ok(Response::Saved { snapshot }) && snapshot
                            == WorldSnapshot::of(old(self).world),
                    }
                },
                Request::LoadState { frame, snapshot } => {
                    &&& r matches Ok(Response::Loaded)
                    &&& *final(self) == old(self).load_spec(frame, snapshot, wall)
                },
                Request::AdvanceFrame { inputs, statuses } => match old(self).advance_error(
                    statuses,
                ) {
                    Some(e) => r == Err::<Response, StepError>(e) && *final(self) == *old(self),
                    None => {
                        &&& r matches Ok(Response::Advanced { events })
                        &&& events@ == old(self).advance_events(inputs)
                        &&& *final(self) == old(self).advance_spec(inputs, wall)
                    },
                },
            },
    {
        match request {
            Request::SaveState { frame } => match self.save_state(frame) {
                Ok(snapshot) => Ok(Response::Saved { snapshot }),
                Err(e) => Err(e),
            },
            Request::LoadState { frame, snapshot } => {
                self.load_state(frame, &snapshot, wall);
                Ok(Response::Loaded)
            },
            Request::AdvanceFrame { inputs, statuses } => match self.advance_frame(
                inputs,
                statuses,
                wall,
            ) {
                Ok(events) => Ok(Response::Advanced { events }),
                Err(e) => Err(e),
            },
        }
    }
}

} // verus!
