//! Laws of the simulation: what holds of every time stamp, every world and
//! every frame.

use crate::combat::{block_loss_spec, classify_spec, timing_error, turn_spec, BASE_STAMINA_LOSS};
use crate::event::{BlockQuality, Event, GameEvent};
use crate::final_clash::{overdue, resolve_spec, verdict_spec};
use crate::player::{Attack, Player};
use crate::snapshot::{fingerprint_spec, WorldSnapshot};
use crate::stepper::Simulation;
use crate::time::{nanos_to_ticks, FrameOffset, Second, MAX_TICKS, TICKS_PER_SECOND};
use crate::wire::SendInput;
use crate::world::{GameState, World};
use core::cmp::Ordering;
use vstd::prelude::*;
use vstd::std_specs::cmp::PartialOrdSpec;

verus! {

/// The time from `a` to `b` is positive exactly when `b` sorts after `a` by
/// frame and then offset, negative exactly when it sorts before, and zero
/// exactly when the two are the same point.
pub proof fn lemma_elapsed_sign_is_order(a: FrameOffset, b: FrameOffset)
    ensures
        a.elapsed_spec(b).ticks > 0 <==> a.before(b),
        a.elapsed_spec(b).ticks < 0 <==> b.before(a),
        a.elapsed_spec(b).ticks == 0 <==> a == b,
        a.elapsed_spec(b).ticks > 0 <==> a.partial_cmp_spec(&b) == Some(Ordering::Less),
        a.elapsed_spec(b).ticks > 0 <==> b.partial_cmp_spec(&a) == Some(Ordering::Greater),
{
}

/// Moving a point by a duration and measuring the time from the point to
/// where it went gives the duration back, and moving back by the same duration
/// gives the point back: both exactly, as long as the move stays within the
/// range of time.
pub proof fn lemma_add_round_trip(f: FrameOffset, s: Second)
    requires
        0 <= f.ticks() + s.ticks <= MAX_TICKS,
    ensures
        f.elapsed_spec(f.add_spec(s)) == s,
        f.add_spec(s).sub_spec(s) == f,
{
}

/// A duration given in nanoseconds survives the same round trip to within the
/// rounding of one tick: the time measured back is that of the nanoseconds,
/// rounded down to a whole tick.
pub proof fn lemma_add_nanos_round_trip(f: FrameOffset, nanos: u64)
    requires
        f.ticks() + nanos_to_ticks(nanos as int) <= MAX_TICKS,
    ensures
        ({
            let s = Second { ticks: nanos_to_ticks(nanos as int) as i128 };
            let back = f.elapsed_spec(f.add_spec(s));
            back.ticks * 1_000_000_000 <= nanos * TICKS_PER_SECOND < (back.ticks + 1)
                * 1_000_000_000
        }),
{
}

/// A world that is saved and then loaded is the world that was saved, and a
/// snapshot taken right after the load is the snapshot that was loaded,
/// fingerprint included.  What the live simulation held before the load does
/// not matter.
pub proof fn lemma_save_load_reproduces(saved: Simulation, live: Simulation, wall: u64)
    ensures
        saved.save_error(saved.clock.frame) is None,
        ({
            let snapshot = WorldSnapshot::of(saved.world);
            let restored = live.load_spec(saved.clock.frame, snapshot, wall);
            &&& restored.world == saved.world
            &&& restored.clock.frame == saved.clock.frame
            &&& restored.save_error(saved.clock.frame) is None
            &&& WorldSnapshot::of(restored.world) == snapshot
            &&& WorldSnapshot::of(restored.world).fingerprint == snapshot.fingerprint
        }),
{
}

/// Two peers agree.  Simulations that hold the same world at the same frame
/// and advance with the same inputs hold the same world afterwards, have
/// raised the same events and have the same fingerprint, whatever their wall
/// clocks read: no wall-clock reading ever enters the world.
pub proof fn lemma_peers_agree(
    here: Simulation,
    there: Simulation,
    inputs: [SendInput; 2],
    wall_here: u64,
    wall_there: u64,
)
    requires
        here.world == there.world,
        here.clock.frame == there.clock.frame,
    ensures
        here.advance_spec(inputs, wall_here).world == there.advance_spec(inputs, wall_there).world,
        here.advance_spec(inputs, wall_here).clock.frame == there.advance_spec(
            inputs,
            wall_there,
        ).clock.frame,
        here.advance_events(inputs) == there.advance_events(inputs),
        fingerprint_spec(here.advance_spec(inputs, wall_here).world) == fingerprint_spec(
            there.advance_spec(inputs, wall_there).world,
        ),
{
}

/// A swing against an opponent with no attack in flight produces no timing
/// error and leaves the opponent alone, but opens the striker's own attack
/// window: it starts at the swing and ends after startup and recovery.  In a
/// frame of ordinary play such a swing costs no stamina and raises nothing.
pub proof fn lemma_swing_at_idle_opponent(
    striker: Player,
    other: Player,
    t: FrameOffset,
    attack: Attack,
    handle: usize,
    now: FrameOffset,
)
    requires
        other.current_attack is None,
    ensures
        striker.swing_spec(other, t, attack).delta is None,
        striker.swing_spec(other, t, attack).opponent == other,
        striker.swing_spec(other, t, attack).striker.current_attack == Some(attack),
        striker.swing_spec(other, t, attack).striker.attack_start_time == t,
        striker.swing_spec(other, t, attack).striker.attack_recover_time == t.add_spec(
            attack.startup_time,
        ).add_spec(attack.recover_time),
        t.is_valid() ==> turn_spec(striker, other, handle, t, now).event is None && turn_spec(
            striker,
            other,
            handle,
            t,
            now,
        ).current.stamina == striker.stamina,
{
}

/// A block on the very tick of the impact is of the best quality and costs a
/// fifth of the base loss; no block costs less, none costs more than the base
/// loss, and a block that is farther off never costs less than one that is
/// closer.
pub proof fn lemma_block_loss_follows_timing(closer: Second, farther: Second)
    requires
        timing_error(closer) <= timing_error(farther),
    ensures
        closer.ticks == 0 ==> classify_spec(closer) == BlockQuality::Inhuman && block_loss_spec(
            closer,
        ) == BASE_STAMINA_LOSS / 5,
        classify_spec(closer) == BlockQuality::Inhuman ==> closer.ticks == 0,
        BASE_STAMINA_LOSS / 5 <= block_loss_spec(closer) <= block_loss_spec(farther)
            <= BASE_STAMINA_LOSS,
{
    if closer.ticks == 0 {
        assert(timing_error(closer) == 0);
        assert(block_loss_spec(closer) == 368934881474191032);
    }
}

/// When a bout of the final clash runs out and only one player has swung,
/// the other loses exactly one life, if any is left, and the one who swung
/// loses none.
pub proof fn lemma_lone_swing_wins_the_bout(
    swinger: Player,
    idler: Player,
    deadline: FrameOffset,
    now: FrameOffset,
)
    requires
        overdue(now, deadline),
        swinger.final_clash_last_swing is Some,
        idler.final_clash_last_swing is None,
    ensures
        resolve_spec(swinger, idler, deadline, now) is Some,
        resolve_spec(idler, swinger, deadline, now) is Some,
        ({
            let bout = resolve_spec(swinger, idler, deadline, now)->0;
            &&& bout.first.final_clash_lives == swinger.final_clash_lives
            &&& idler.final_clash_lives > 0 ==> bout.second.final_clash_lives
                == idler.final_clash_lives - 1
            &&& idler.final_clash_lives == 0 ==> bout.second.final_clash_lives == 0
            &&& bout.events == seq![Event::Hit { player: 1 }]
        }),
        ({
            let bout = resolve_spec(idler, swinger, deadline, now)->0;
            &&& bout.second.final_clash_lives == swinger.final_clash_lives
            &&& idler.final_clash_lives > 0 ==> bout.first.final_clash_lives
                == idler.final_clash_lives - 1
            &&& idler.final_clash_lives == 0 ==> bout.first.final_clash_lives == 0
            &&& bout.events == seq![Event::Hit { player: 0 }]
        }),
{
    let a = resolve_spec(swinger, idler, deadline, now)->0;
    assert(a.events =~= seq![Event::Hit { player: 1 }]);
    let b = resolve_spec(idler, swinger, deadline, now)->0;
    assert(b.events =~= seq![Event::Hit { player: 0 }]);
}

/// After a bout the match is a tie exactly when both players are out of
/// lives; it is over, with the other player named, exactly when one player
/// is; and it goes on exactly when neither is.
pub proof fn lemma_verdict_by_lives(first: Player, second: Player)
    ensures
        verdict_spec(first, second) == Some(GameEvent::GameOver { loser: None }) <==> (
        first.final_clash_lives == 0 && second.final_clash_lives == 0),
        verdict_spec(first, second) == Some(GameEvent::GameOver { loser: Some(1) }) <==> (
        first.final_clash_lives == 0 && second.final_clash_lives > 0),
        verdict_spec(first, second) == Some(GameEvent::GameOver { loser: Some(0) }) <==> (
        first.final_clash_lives > 0 && second.final_clash_lives == 0),
        verdict_spec(first, second) is None <==> (first.final_clash_lives > 0
            && second.final_clash_lives > 0),
{
}

/// Whether `events` reports that the match is over.
pub open spec fn reports_game_over(events: Seq<Event>) -> bool {
    exists|i: int| 0 <= i < events.len() && (#[trigger] events[i]) is Game
}

/// Whether `events` reports that the match is over with `loser` as the player
/// named.
pub open spec fn reports_loser(events: Seq<Event>, loser: usize) -> bool {
    exists|i: int|
        0 <= i < events.len() && #[trigger] events[i] == Event::Game(
            GameEvent::GameOver { loser: Some(loser) },
        )
}

/// Within one frame nothing is ever gained: no player's stamina rises, no
/// player's final-clash lives rise, and the phase of the match does not move
/// backwards.
pub proof fn lemma_advance_only_takes(w: World, inputs: [SendInput; 2], now: FrameOffset)
    ensures
        ({
            let after = w.advance_spec(inputs, now).world;
            &&& after.players[0].stamina <= w.players[0].stamina
            &&& after.players[1].stamina <= w.players[1].stamina
            &&& after.players[0].final_clash_lives <= w.players[0].final_clash_lives
            &&& after.players[1].final_clash_lives <= w.players[1].final_clash_lives
            &&& after.game_state.rank() >= w.game_state.rank()
        }),
{
}

/// A frame keeps every player's attack window in order.
pub proof fn lemma_advance_keeps_windows(w: World, inputs: [SendInput; 2], now: FrameOffset)
    requires
        w.players[0].wf(),
        w.players[1].wf(),
    ensures
        w.advance_spec(inputs, now).world.players[0].wf(),
        w.advance_spec(inputs, now).world.players[1].wf(),
{
}

/// Running out of stamina is reported once.  In ordinary play a frame names a
/// player the loser only if that player had stamina before the frame and has
/// none after it; so a player who entered the frame without stamina is not
/// named.  A frame that reports the end of the match ends it, and once the
/// match is over no frame changes or reports anything.
pub proof fn lemma_exhaustion_reported_once(
    w: World,
    inputs: [SendInput; 2],
    now: FrameOffset,
    player: usize,
)
    requires
        player < 2,
    ensures
        ({
            let out = w.advance_spec(inputs, now);
            &&& w.game_state == GameState::Playing && reports_loser(out.events, player)
                ==> w.players[player as int].stamina > 0 && out.world.players[player as int].stamina
                == 0
            &&& w.game_state == GameState::Playing && w.players[player as int].stamina == 0
                ==> !reports_loser(out.events, player)
            &&& reports_game_over(out.events) ==> out.world.game_state == GameState::Over
            &&& w.game_state == GameState::Over ==> out.world == w && out.events.len() == 0
        }),
{
}

/// When both players run out of stamina in the same frame of ordinary play,
/// the final clash begins and the frame does not report the end of the match.
pub proof fn lemma_double_exhaustion_starts_clash(
    w: World,
    inputs: [SendInput; 2],
    now: FrameOffset,
)
    requires
        w.game_state == GameState::Playing,
        w.advance_spec(inputs, now).world.players[0].stamina == 0,
        w.advance_spec(inputs, now).world.players[1].stamina == 0,
    ensures
        w.advance_spec(inputs, now).world.game_state == GameState::FinalClash,
        !reports_game_over(w.advance_spec(inputs, now).events),
{
}


/// The simulation after a run of frames: `inputs[i]` is what frame `i` of the
/// run is advanced with, and `walls[i]` is what the wall clock reads when it
/// is.
pub open spec fn after_frames(
    sim: Simulation,
    inputs: Seq<[SendInput; 2]>,
    walls: Seq<u64>,
) -> Simulation
    decreases inputs.len(),
{
    if inputs.len() == 0 {
        sim
    } else {
        after_frames(sim, inputs.drop_last(), walls).advance_spec(
            inputs.last(),
            walls[inputs.len() - 1],
        )
    }
}

/// A rollback changes nothing.  Take a snapshot, run any number of frames,
/// load the snapshot back at the frame it was taken at and run the same
/// inputs again: the replay ends in the same world at the same frame as the
/// first run, whatever the wall clock read during either run, and whatever
/// the simulation went through in between.
pub proof fn lemma_replay_reproduces(
    saved: Simulation,
    strayed: Simulation,
    inputs: Seq<[SendInput; 2]>,
    walls_first: Seq<u64>,
    walls_replay: Seq<u64>,
    wall_load: u64,
)
    ensures
        ({
            let first = after_frames(saved, inputs, walls_first);
            let restored = strayed.load_spec(
                saved.clock.frame,
                WorldSnapshot::of(saved.world),
                wall_load,
            );
            let replay = after_frames(restored, inputs, walls_replay);
            &&& replay.world == first.world
            &&& replay.clock.frame == first.clock.frame
            &&& fingerprint_spec(replay.world) == fingerprint_spec(first.world)
        }),
    decreases inputs.len(),
{
    if inputs.len() > 0 {
        lemma_replay_reproduces(
            saved,
            strayed,
            inputs.drop_last(),
            walls_first,
            walls_replay,
            wall_load,
        );
    }
}

/// Over any run of frames nothing is gained: no player's stamina rises, no
/// player's final-clash lives rise, the phase of the match does not move
/// backwards, and attack windows that were in order stay in order.
pub proof fn lemma_runs_only_take(sim: Simulation, inputs: Seq<[SendInput; 2]>, walls: Seq<u64>)
    ensures
        ({
            let after = after_frames(sim, inputs, walls).world;
            &&& after.players[0].stamina <= sim.world.players[0].stamina
            &&& after.players[1].stamina <= sim.world.players[1].stamina
            &&& after.players[0].final_clash_lives <= sim.world.players[0].final_clash_lives
            &&& after.players[1].final_clash_lives <= sim.world.players[1].final_clash_lives
            &&& after.game_state.rank() >= sim.world.game_state.rank()
            &&& sim.world.players[0].wf() && sim.world.players[1].wf() ==> after.players[0].wf()
                && after.players[1].wf()
        }),
    decreases inputs.len(),
{
    if inputs.len() > 0 {
        lemma_runs_only_take(sim, inputs.drop_last(), walls);
        let before = after_frames(sim, inputs.drop_last(), walls);
        let now = crate::stepper::confirmed_at(before.clock.frame);
        lemma_advance_only_takes(before.world, inputs.last(), now);
        if before.world.players[0].wf() && before.world.players[1].wf() {
            lemma_advance_keeps_windows(before.world, inputs.last(), now);
        }
    }
}

/// Once the match is over it stays over, and the world stays as it is, over
/// any run of frames.
pub proof fn lemma_over_is_final(sim: Simulation, inputs: Seq<[SendInput; 2]>, walls: Seq<u64>)
    requires
        sim.world.game_state == GameState::Over,
    ensures
        after_frames(sim, inputs, walls).world == sim.world,
    decreases inputs.len(),
{
    if inputs.len() > 0 {
        lemma_over_is_final(sim, inputs.drop_last(), walls);
    }
}

} // verus!
