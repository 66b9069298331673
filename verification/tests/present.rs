use duel_sim::final_clash::FinalClash;
use duel_sim::player::{Attack, Player};
use duel_sim::present::{caret, looping_frame, single_run_frame, Caret};
use duel_sim::time::{FrameOffset, Second, TICKS_PER_FRAME};
use duel_sim::world::GameState;

fn at(frame: u64, offset: u32) -> FrameOffset {
    FrameOffset { frame, offset }
}

#[test]
fn looping_animation_wraps_around() {
    assert_eq!(looping_frame(Second::zero(), 3), 0);
    assert_eq!(looping_frame(Second::from_ticks(TICKS_PER_FRAME - 1), 3), 0);
    assert_eq!(looping_frame(Second::from_frames(1), 3), 1);
    assert_eq!(looping_frame(Second::from_frames(2), 3), 2);
    assert_eq!(looping_frame(Second::from_frames(3), 3), 0);
    assert_eq!(looping_frame(Second::from_millis(1050), 14), 10);
    assert_eq!(looping_frame(Second::from_millis(1450), 14), 0);
    assert_eq!(looping_frame(Second::from_frames(-5), 3), 0);
    assert_eq!(looping_frame(Second::from_ticks(i128::MIN), 3), 0);
    assert_eq!(looping_frame(Second::from_ticks(i128::MAX), 1), 0);
    assert_eq!(looping_frame(Second::from_ticks(i128::MAX), 7), ((i128::MAX >> 32) % 7) as usize);
}

#[test]
fn single_run_animation_rests_on_its_first_frame() {
    assert_eq!(single_run_frame(Second::zero(), 11), 0);
    assert_eq!(single_run_frame(Second::from_frames(4), 11), 4);
    assert_eq!(single_run_frame(Second::from_frames(10), 11), 10);
    assert_eq!(single_run_frame(Second::from_frames(11), 11), 0);
    assert_eq!(single_run_frame(Second::from_frames(500), 11), 0);
    assert_eq!(single_run_frame(Second::from_frames(-1), 11), 0);
    assert_eq!(single_run_frame(Second::from_ticks(i128::MAX), usize::MAX), 0);
}

#[test]
fn caret_counts_down_to_the_impact() {
    let mut attacker = Player::new(at(0, 0));
    let mut defender = Player::new(at(0, 0));
    defender.last_defend_result = -77;
    assert_eq!(caret(&attacker, &defender, at(3, 0)), Caret::Settled(-77));
    attacker.swing(&mut defender, at(5, 0), Attack::canonical());
    assert_eq!(caret(&attacker, &defender, at(5, 0)), Caret::Incoming(Second::from_millis(900)));
    assert_eq!(caret(&attacker, &defender, at(14, 0)), Caret::Incoming(Second::zero()));
    assert_eq!(caret(&attacker, &defender, at(16, 0)), Caret::Incoming(Second::from_millis(-200)));
    assert_eq!(caret(&defender, &attacker, at(16, 0)), Caret::Settled(0));
}

#[test]
fn final_clash_deadline_counts_down() {
    let idle = FinalClash { next_clash: None };
    assert_eq!(idle.time_to_deadline(at(3, 0)), None);
    let bout = FinalClash { next_clash: Some(at(13, 0)) };
    assert_eq!(bout.time_to_deadline(at(3, 0)), Some(Second::from_millis(1000)));
    assert_eq!(bout.time_to_deadline(at(13, 0)), Some(Second::zero()));
    assert_eq!(bout.time_to_deadline(at(14, 0)), Some(Second::from_millis(-100)));
}

#[test]
fn phases_have_names() {
    assert_eq!(GameState::Playing.name(), "Playing");
    assert_eq!(GameState::FinalClash.name(), "FinalClash");
    assert_eq!(GameState::Over.name(), "Over");
}
