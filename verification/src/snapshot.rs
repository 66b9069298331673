//! Snapshots of the world and their fingerprints.
//!
//! A fingerprint is a 64-bit digest of the whole content of a world.  It is
//! computed over a flat encoding of the world as 64-bit words, so equal worlds
//! have equal fingerprints on every peer.

use crate::player::{Attack, Player};
use crate::time::{FrameOffset, Second};
use crate::world::{GameState, World};
use vstd::prelude::*;

verus! {

/// The digest of no words at all.
pub const DIGEST_BASIS: u64 = 0xcbf2_9ce4_8422_2325;

/// The multiplier of the digest.
pub const DIGEST_PRIME: u64 = 0x0000_0100_0000_01b3;

/// The digest `h` after one more word: the two are combined bit by bit, and
/// the result is multiplied by [`DIGEST_PRIME`] modulo `2^64`.
pub open spec fn mix(h: u64, word: u64) -> u64 {
    (((h ^ word) as nat * DIGEST_PRIME as nat) % 0x1_0000_0000_0000_0000 as nat) as u64
}

/// The digest of a sequence of words: [`mix`] folded over it from the left,
/// starting at [`DIGEST_BASIS`].
pub open spec fn digest(words: Seq<u64>) -> u64
    decreases words.len(),
{
    if words.len() == 0 {
        DIGEST_BASIS
    } else {
        mix(digest(words.drop_last()), words.last())
    }
}

/// A duration as words: whether it is negative, then the high and the low
/// half of its length in ticks.
pub open spec fn duration_words(d: Second) -> Seq<u64> {
    seq![
        if d.ticks < 0 { 1u64 } else { 0u64 },
        (d.magnitude() / 0x1_0000_0000_0000_0000) as u64,
        (d.magnitude() % 0x1_0000_0000_0000_0000) as u64,
    ]
}

/// A point in time as words: its frame, then its offset.
pub open spec fn offset_words(p: FrameOffset) -> Seq<u64> {
    seq![p.frame, p.offset as u64]
}

/// A point in time that may be absent: a word that says whether it is there,
/// then the point, or the start of time in its place.
pub open spec fn opt_offset_words(p: Option<FrameOffset>) -> Seq<u64> {
    match p {
        Some(at) => seq![1u64] + offset_words(at),
        None => seq![0u64] + offset_words(FrameOffset { frame: 0, offset: 0 }),
    }
}

/// An attack as words: startup, grace, recovery.
pub open spec fn attack_words(a: Attack) -> Seq<u64> {
    duration_words(a.startup_time) + duration_words(a.block_grace) + duration_words(
        a.recover_time,
    )
}

/// The attack that stands in the encoding where a player has none.
pub open spec fn no_attack() -> Attack {
    Attack {
        startup_time: Second { ticks: 0 },
        block_grace: Second { ticks: 0 },
        recover_time: Second { ticks: 0 },
    }
}

/// An attack that may be absent, as words.
pub open spec fn opt_attack_words(a: Option<Attack>) -> Seq<u64> {
    match a {
        Some(attack) => seq![1u64] + attack_words(attack),
        None => seq![0u64] + attack_words(no_attack()),
    }
}

/// A signed value as words: whether it is negative, then its size.
pub open spec fn signed_words(v: i64) -> Seq<u64> {
    seq![
        if v < 0 { 1u64 } else { 0u64 },
        (if v < 0 { -(v as int) } else { v as int }) as u64,
    ]
}

/// A player as words, field by field.
pub open spec fn player_words(p: Player) -> Seq<u64> {
    opt_attack_words(p.current_attack) + offset_words(p.attack_start_time) + offset_words(
        p.attack_recover_time,
    ) + signed_words(p.last_defend_result) + seq![p.stamina, p.final_clash_lives as u64]
        + opt_offset_words(p.final_clash_last_swing)
}

/// The phase of the match as a word.
pub open spec fn state_word(state: GameState) -> u64 {
    state.rank() as u64
}

/// The world as words: player zero, player one, the deadline of the final
/// clash, the phase.
pub open spec fn world_words(w: World) -> Seq<u64> {
    player_words(w.players[0]) + player_words(w.players[1]) + opt_offset_words(
        w.final_clash.next_clash,
    ) + seq![state_word(w.game_state)]
}

/// The fingerprint of a world: the digest of its words.
pub open spec fn fingerprint_spec(w: World) -> u64 {
    digest(world_words(w))
}

/// A copy of the world as it stood when it was saved, with its fingerprint.
#[derive(Clone, Copy, Debug, PartialEq, Eq, Hash)]
pub struct WorldSnapshot {
    pub world: World,
    pub fingerprint: u64,
}

impl WorldSnapshot {
    /// Whether the fingerprint is that of the world in the snapshot.
    pub open spec fn wf(self) -> bool {
        self.fingerprint == fingerprint_spec(self.world)
    }

    /// The snapshot of `world`.
    pub open spec fn of(world: World) -> WorldSnapshot {
        WorldSnapshot { world, fingerprint: fingerprint_spec(world) }
    }

    /// Takes a snapshot of `world`.
    pub fn take(world: &World) -> (r: WorldSnapshot)
        ensures
            r == Self::of(*world),
            r.wf(),
    {
        WorldSnapshot { world: *world, fingerprint: fingerprint(world) }
    }

    /// Whether the fingerprint is that of the world in the snapshot.
    pub fn is_intact(&self) -> (r: bool)
        ensures
            r == self.wf(),
    {
        self.fingerprint == fingerprint(&self.world)
    }
}

/// The digest of `words`.
pub fn digest_words(words: &Vec<u64>) -> (h: u64)
    ensures
        h == digest(words@),
{
    let mut h: u64 = DIGEST_BASIS;
    let mut i: usize = 0;
    while i < words.len()
        invariant
            i <= words.len(),
            h == digest(words@.take(i as int)),
        decreases words.len() - i,
    {
        proof {
            assert(words@.take(i + 1).drop_last() =~= words@.take(i as int));
        }
        h = (h ^ words[i]).wrapping_mul(DIGEST_PRIME);
        i += 1;
    }
    proof {
        assert(words@.take(i as int) =~= words@);
    }
    h
}

fn push_duration(out: &mut Vec<u64>, d: Second)
    ensures
        final(out)@ == old(out)@ + duration_words(d),
{
    let magnitude: u128 = d.abs_ticks();
    out.push(if d.ticks < 0 { 1 } else { 0 });
    out.push((magnitude / 0x1_0000_0000_0000_0000) as u64);
    out.push((magnitude % 0x1_0000_0000_0000_0000) as u64);
    proof {
        assert(out@ =~= old(out)@ + duration_words(d));
    }
}

fn push_offset(out: &mut Vec<u64>, p: FrameOffset)
    ensures
        final(out)@ == old(out)@ + offset_words(p),
{
    out.push(p.frame);
    out.push(p.offset as u64);
    proof {
        assert(out@ =~= old(out)@ + offset_words(p));
    }
}

fn push_opt_offset(out: &mut Vec<u64>, p: Option<FrameOffset>)
    ensures
        final(out)@ == old(out)@ + opt_offset_words(p),
{
    match p {
        Some(at) => {
            out.push(1);
            push_offset(out, at);
        },
        None => {
            out.push(0);
            push_offset(out, FrameOffset { frame: 0, offset: 0 });
        },
    }
    proof {
        assert(out@ =~= old(out)@ + opt_offset_words(p));
    }
}

fn push_attack(out: &mut Vec<u64>, a: Attack)
    ensures
        final(out)@ == old(out)@ + attack_words(a),
{
    push_duration(out, a.startup_time);
    push_duration(out, a.block_grace);
    push_duration(out, a.recover_time);
    proof {
        assert(out@ =~= old(out)@ + attack_words(a));
    }
}

fn push_opt_attack(out: &mut Vec<u64>, a: Option<Attack>)
    ensures
        final(out)@ == old(out)@ + opt_attack_words(a),
{
    match a {
        Some(attack) => {
            out.push(1);
            push_attack(out, attack);
        },
        None => {
            out.push(0);
            push_attack(
                out,
                Attack {
                    startup_time: Second { ticks: 0 },
                    block_grace: Second { ticks: 0 },
                    recover_time: Second { ticks: 0 },
                },
            );
        },
    }
    proof {
        assert(out@ =~= old(out)@ + opt_attack_words(a));
    }
}

fn push_signed(out: &mut Vec<u64>, v: i64)
    ensures
        final(out)@ == old(out)@ + signed_words(v),
{
    if v < 0 {
        out.push(1);
        out.push((-(v as i128)) as u64);
    } else {
        out.push(0);
        out.push(v as u64);
    }
    proof {
        assert(out@ =~= old(out)@ + signed_words(v));
    }
}

fn push_player(out: &mut Vec<u64>, p: &Player)
    ensures
        final(out)@ == old(out)@ + player_words(*p),
{
    push_opt_attack(out, p.current_attack);
    push_offset(out, p.attack_start_time);
    push_offset(out, p.attack_recover_time);
    push_signed(out, p.last_defend_result);
    out.push(p.stamina);
    out.push(p.final_clash_lives as u64);
    push_opt_offset(out, p.final_clash_last_swing);
    proof {
        assert(out@ =~= old(out)@ + player_words(*p));
    }
}

/// The world as words.
pub fn encode_world(world: &World) -> (words: Vec<u64>)
    ensures
        words@ == world_words(*world),
{
    let mut out: Vec<u64> = Vec::new();
    push_player(&mut out, &world.players[0]);
    push_player(&mut out, &world.players[1]);
    push_opt_offset(&mut out, world.final_clash.next_clash);
    out.push(
        match world.game_state {
            GameState::Playing => 0,
            GameState::FinalClash => 1,
            GameState::Over => 2,
        },
    );
    proof {
        assert(out@ =~= world_words(*world));
    }
    out
}

/// The fingerprint of `world`.
pub fn fingerprint(world: &World) -> (h: u64)
    ensures
        h == fingerprint_spec(*world),
{
    let words = encode_world(world);
    digest_words(&words)
}

} // verus!
