use duel_sim::event::{Event, GameEvent};
use duel_sim::final_clash::{
    is_overdue, latch, resolve_bout, schedule, verdict, FinalClash, CLASH_LENGTH,
};
use duel_sim::player::Player;
use duel_sim::time::{FrameOffset, TICKS_PER_SECOND};
use duel_sim::wire::SendInput;
use duel_sim::world::{GameState, World};

fn at(frame: u64, offset: u32) -> FrameOffset {
    FrameOffset { frame, offset }
}

fn clash_world() -> World {
    let mut world = World::new(at(0, 0));
    world.players[0].stamina = 0;
    world.players[1].stamina = 0;
    world.game_state = GameState::FinalClash;
    world
}

fn idle() -> [SendInput; 2] {
    [SendInput::idle(), SendInput::idle()]
}

#[test]
fn a_bout_lasts_one_second() {
    assert_eq!(CLASH_LENGTH, TICKS_PER_SECOND);
    assert_eq!(schedule(at(4, 9)), at(14, 9));
}

#[test]
fn only_the_first_swing_of_a_bout_is_latched() {
    let mut p = Player::new(at(0, 0));
    latch(&mut p, FrameOffset::invalid());
    assert_eq!(p.final_clash_last_swing, None);
    latch(&mut p, at(3, 1));
    assert_eq!(p.final_clash_last_swing, Some(at(3, 1)));
    latch(&mut p, at(4, 2));
    assert_eq!(p.final_clash_last_swing, Some(at(3, 1)));
    latch(&mut p, FrameOffset::invalid());
    assert_eq!(p.final_clash_last_swing, Some(at(3, 1)));
}

#[test]
fn a_bout_runs_out_a_full_clash_length_past_its_deadline() {
    let deadline = at(10, 0);
    assert!(!is_overdue(at(5, 0), deadline));
    assert!(!is_overdue(at(10, 0), deadline));
    assert!(!is_overdue(at(19, u32::MAX), deadline));
    assert!(!is_overdue(at(20, 0), deadline));
    assert!(is_overdue(at(20, 1), deadline));
    assert!(is_overdue(at(21, 0), deadline));
}

#[test]
fn a_running_bout_changes_nothing() {
    let mut first = Player::new(at(0, 0));
    let mut second = Player::new(at(0, 0));
    first.final_clash_last_swing = Some(at(9, 0));
    let before = (first, second);
    let mut events = vec![Event::Clash];
    assert!(!resolve_bout(&mut first, &mut second, at(10, 0), at(12, 0), &mut events));
    assert_eq!((first, second), before);
    assert_eq!(events, vec![Event::Clash]);
}

#[test]
fn timeout_costs_the_player_who_stood_still() {
    let mut first = Player::new(at(0, 0));
    let mut second = Player::new(at(0, 0));
    first.final_clash_last_swing = Some(at(9, 0));
    let mut events = Vec::new();
    assert!(resolve_bout(&mut first, &mut second, at(10, 0), at(21, 0), &mut events));
    assert_eq!(first.final_clash_lives, 4);
    assert_eq!(second.final_clash_lives, 3);
    assert_eq!(first.final_clash_last_swing, None);
    assert_eq!(second.final_clash_last_swing, None);
    assert_eq!(events, vec![Event::Hit { player: 1 }]);
}

#[test]
fn timeout_with_nobody_swinging_costs_both_and_hits_nobody() {
    let mut first = Player::new(at(0, 0));
    let mut second = Player::new(at(0, 0));
    let mut events = Vec::new();
    assert!(resolve_bout(&mut first, &mut second, at(10, 0), at(21, 0), &mut events));
    assert_eq!(first.final_clash_lives, 3);
    assert_eq!(second.final_clash_lives, 3);
    assert_eq!(events, Vec::new());
}

#[test]
fn timeout_with_only_the_second_swinging_hits_the_first() {
    let mut first = Player::new(at(0, 0));
    let mut second = Player::new(at(0, 0));
    second.final_clash_last_swing = Some(at(11, 0));
    let mut events = vec![Event::Clash];
    assert!(resolve_bout(&mut first, &mut second, at(10, 0), at(21, 0), &mut events));
    assert_eq!(first.final_clash_lives, 3);
    assert_eq!(second.final_clash_lives, 4);
    assert_eq!(events, vec![Event::Clash, Event::Hit { player: 0 }]);
}

#[test]
fn both_swinging_costs_the_one_farther_from_the_deadline() {
    let mut first = Player::new(at(0, 0));
    let mut second = Player::new(at(0, 0));
    first.final_clash_last_swing = Some(at(9, 0));
    second.final_clash_last_swing = Some(at(12, 0));
    let mut events = Vec::new();
    assert!(resolve_bout(&mut first, &mut second, at(10, 0), at(13, 0), &mut events));
    assert_eq!(first.final_clash_lives, 4);
    assert_eq!(second.final_clash_lives, 3);
    assert_eq!(first.final_clash_last_swing, None);
    assert_eq!(second.final_clash_last_swing, None);
    assert_eq!(events, vec![Event::Clash]);

    let mut first = Player::new(at(0, 0));
    let mut second = Player::new(at(0, 0));
    first.final_clash_last_swing = Some(at(5, 0));
    second.final_clash_last_swing = Some(at(12, 0));
    let mut events = Vec::new();
    assert!(resolve_bout(&mut first, &mut second, at(10, 0), at(13, 0), &mut events));
    assert_eq!(first.final_clash_lives, 3);
    assert_eq!(second.final_clash_lives, 4);
}

#[test]
fn swings_equally_far_from_the_deadline_cost_nobody() {
    let mut first = Player::new(at(0, 0));
    let mut second = Player::new(at(0, 0));
    first.final_clash_last_swing = Some(at(8, 5));
    second.final_clash_last_swing = Some(at(11, u32::MAX - 4));
    let mut events = Vec::new();
    assert!(resolve_bout(&mut first, &mut second, at(10, 0), at(13, 0), &mut events));
    assert_eq!(first.final_clash_lives, 4);
    assert_eq!(second.final_clash_lives, 4);
    assert_eq!(events, vec![Event::Clash]);
}

#[test]
fn verdict_by_lives() {
    let mut first = Player::new(at(0, 0));
    let mut second = Player::new(at(0, 0));
    assert_eq!(verdict(&first, &second), None);
    first.final_clash_lives = 0;
    assert_eq!(verdict(&first, &second), Some(GameEvent::GameOver { loser: Some(1) }));
    second.final_clash_lives = 0;
    assert_eq!(verdict(&first, &second), Some(GameEvent::GameOver { loser: None }));
    first.final_clash_lives = 2;
    assert_eq!(verdict(&first, &second), Some(GameEvent::GameOver { loser: Some(0) }));
}

#[test]
fn first_clash_frame_schedules_the_bout() {
    let mut world = clash_world();
    let events = world.advance(idle(), at(31, 0));
    assert_eq!(events, Vec::new());
    assert_eq!(world.final_clash, FinalClash { next_clash: Some(at(41, 0)) });
    assert_eq!(world.game_state, GameState::FinalClash);
    let events = world.advance(idle(), at(32, 0));
    assert_eq!(events, Vec::new());
    assert_eq!(world.final_clash, FinalClash { next_clash: Some(at(41, 0)) });
}

#[test]
fn only_one_player_swinging_costs_the_other_a_life_at_the_end_of_the_bout() {
    let mut world = clash_world();
    assert_eq!(world.advance(idle(), at(31, 0)), Vec::new());
    let swing = [SendInput::swing(at(40, 7)), SendInput::idle()];
    assert_eq!(world.advance(swing, at(41, 0)), Vec::new());
    assert_eq!(world.players[0].final_clash_last_swing, Some(at(40, 7)));
    for frame in 42..=51 {
        assert_eq!(world.advance(idle(), at(frame, 0)), Vec::new());
        assert_eq!(world.players[0].final_clash_lives, 4);
        assert_eq!(world.players[1].final_clash_lives, 4);
    }
    let events = world.advance(idle(), at(52, 0));
    assert_eq!(events, vec![Event::Hit { player: 1 }]);
    assert_eq!(world.players[0].final_clash_lives, 4);
    assert_eq!(world.players[1].final_clash_lives, 3);
    assert_eq!(world.players[0].final_clash_last_swing, None);
    assert_eq!(world.final_clash, FinalClash { next_clash: None });
    assert_eq!(world.game_state, GameState::FinalClash);
    assert_eq!(world.advance(idle(), at(53, 0)), Vec::new());
    assert_eq!(world.final_clash, FinalClash { next_clash: Some(at(63, 0)) });
}

#[test]
fn both_swinging_ends_the_bout_at_once() {
    let mut world = clash_world();
    world.advance(idle(), at(31, 0));
    let swings = [SendInput::swing(at(40, 0)), SendInput::swing(at(40, 1))];
    let events = world.advance(swings, at(41, 0));
    assert_eq!(events, vec![Event::Clash]);
    assert_eq!(world.players[0].final_clash_lives, 3);
    assert_eq!(world.players[1].final_clash_lives, 4);
    assert_eq!(world.final_clash, FinalClash { next_clash: None });
}

#[test]
fn last_life_of_one_player_ends_the_match_naming_the_other() {
    let mut world = clash_world();
    world.players[1].final_clash_lives = 1;
    world.advance(idle(), at(31, 0));
    world.advance([SendInput::swing(at(40, 7)), SendInput::idle()], at(41, 0));
    let events = world.advance(idle(), at(52, 0));
    assert_eq!(
        events,
        vec![Event::Hit { player: 1 }, Event::Game(GameEvent::GameOver { loser: Some(0) })]
    );
    assert_eq!(world.players[1].final_clash_lives, 0);
    assert_eq!(world.game_state, GameState::Over);

    let mut world = clash_world();
    world.players[0].final_clash_lives = 1;
    world.advance(idle(), at(31, 0));
    world.advance([SendInput::idle(), SendInput::swing(at(40, 7))], at(41, 0));
    let events = world.advance(idle(), at(52, 0));
    assert_eq!(
        events,
        vec![Event::Hit { player: 0 }, Event::Game(GameEvent::GameOver { loser: Some(1) })]
    );
    assert_eq!(world.game_state, GameState::Over);
}

#[test]
fn last_lives_of_both_players_end_the_match_in_a_tie() {
    let mut world = clash_world();
    world.players[0].final_clash_lives = 1;
    world.players[1].final_clash_lives = 1;
    world.advance(idle(), at(31, 0));
    let events = world.advance(idle(), at(52, 0));
    assert_eq!(events, vec![Event::Game(GameEvent::GameOver { loser: None })]);
    assert_eq!(world.players[0].final_clash_lives, 0);
    assert_eq!(world.players[1].final_clash_lives, 0);
    assert_eq!(world.game_state, GameState::Over);
    let over = world;
    assert_eq!(world.advance(idle(), at(53, 0)), Vec::new());
    assert_eq!(world, over);
}

#[test]
fn four_bouts_without_a_swing_end_in_a_tie() {
    let mut world = clash_world();
    let mut reported = Vec::new();
    let mut frame = 31;
    while world.game_state != GameState::Over {
        reported.extend(world.advance(idle(), at(frame, 0)));
        frame += 1;
        assert!(frame < 200);
    }
    assert_eq!(reported, vec![Event::Game(GameEvent::GameOver { loser: None })]);
    assert_eq!(frame, 31 + 4 * 22);
}
