//! What the simulation hands to the presentation layer.

use crate::time::Second;
use vstd::prelude::*;

verus! {

/// Index of the player on this side of the connection.
pub const LOCAL_PLAYER: usize = 0;

/// How well a block was timed, best first.
#[derive(Clone, Copy, Debug, PartialEq, Eq, Structural, Hash)]
pub enum BlockQuality {
    Inhuman,
    Perfect,
    Excellent,
    Good,
    Decent,
    Sloppy,
}

impl BlockQuality {
    /// The words shown to the player for a block of this quality.
    pub open spec fn label_spec(self) -> Seq<char> {
        match self {
            BlockQuality::Inhuman => "INHUMAN BLOCK"@,
            BlockQuality::Perfect => "Perfect Block"@,
            BlockQuality::Excellent => "Excellent Block"@,
            BlockQuality::Good => "Good Block"@,
            BlockQuality::Decent => "Decent Block"@,
            BlockQuality::Sloppy => "Sloppy Block"@,
        }
    }

    /// The words shown to the player for a block of this quality.
    pub fn label(self) -> (r: &'static str)
        ensures
            r@ == self.label_spec(),
    {
        match self {
            BlockQuality::Inhuman => "INHUMAN BLOCK",
            BlockQuality::Perfect => "Perfect Block",
            BlockQuality::Excellent => "Excellent Block",
            BlockQuality::Good => "Good Block",
            BlockQuality::Decent => "Decent Block",
            BlockQuality::Sloppy => "Sloppy Block",
        }
    }
}

/// A block to announce on screen, by its label.
#[derive(Clone, Debug, PartialEq, Eq)]
pub struct BlockEvent(pub String);

impl BlockEvent {
    /// The announcement of a block of the given quality.
    pub fn new(quality: BlockQuality) -> (r: BlockEvent)
        ensures
            r.0@ == quality.label_spec(),
    {
        BlockEvent(quality.label().to_owned())
    }
}

/// A turn of the match as a whole.
#[derive(Clone, Copy, Debug, PartialEq, Eq, Structural, Hash)]
pub enum GameEvent {
    /// The match is decided.  `loser` is the player index it names, or `None`
    /// for a tie.
    GameOver { loser: Option<usize> },
}

impl GameEvent {
    /// The headline shown to the local player, who is player zero.
    pub open spec fn headline_spec(self) -> Seq<char> {
        match self {
            GameEvent::GameOver { loser: None } => "Tie"@,
            GameEvent::GameOver { loser: Some(p) } => if p == LOCAL_PLAYER {
                "Defeat"@
            } else {
                "Victory"@
            },
        }
    }

    /// The headline shown to the local player, who is player zero.
    pub fn headline(&self) -> (r: &'static str)
        ensures
            r@ == self.headline_spec(),
    {
        match self {
            GameEvent::GameOver { loser: None } => "Tie",
            GameEvent::GameOver { loser: Some(p) } => if *p == LOCAL_PLAYER {
                "Defeat"
            } else {
                "Victory"
            },
        }
    }
}

/// Something that happened while a frame was advanced, in the order in which
/// it happened.
#[derive(Clone, Copy, Debug, PartialEq, Eq, Structural, Hash)]
pub enum Event {
    /// `player` answered an incoming attack, `delta` off its impact.
    Block { player: usize, quality: BlockQuality, delta: Second },
    /// `player` stood still through a bout of the final clash in which the
    /// opponent swung, and was hit.
    Hit { player: usize },
    /// Both players swung in a bout of the final clash.
    Clash,
    /// The match took a turn.
    Game(GameEvent),
}

impl Event {
    /// The on-screen announcement this event calls for.  Only the local
    /// player's own blocks are announced.
    pub open spec fn announces(self) -> Option<BlockQuality> {
        match self {
            Event::Block { player, quality, delta } => if player == LOCAL_PLAYER {
                Some(quality)
            } else {
                None
            },
            _ => None,
        }
    }

    /// The on-screen announcement this event calls for, if any.
    pub fn block_event(&self) -> (r: Option<BlockEvent>)
        ensures
            r is Some <==> self.announces() is Some,
            r matches Some(b) ==> b.0@ == self.announces()->0.label_spec(),
    {
        match self {
            Event::Block { player, quality, delta } => if *player == LOCAL_PLAYER {
                Some(BlockEvent::new(*quality))
            } else {
                None
            },
            _ => None,
        }
    }

    /// The turn of the match this event reports, if any.
    pub fn game_event(&self) -> (r: Option<GameEvent>)
        ensures
            r == (match *self {
                Event::Game(g) => Some(g),
                _ => None,
            }),
    {
        match self {
            Event::Game(g) => Some(*g),
            _ => None,
        }
    }
}

} // verus!
