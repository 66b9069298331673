use duel_sim::combat::{block_loss, BASE_STAMINA_LOSS, EXPOSED_STAMINA_LOSS};
use duel_sim::event::{Event, GameEvent};
use duel_sim::player::{defend_result, FULL_STAMINA};
use duel_sim::snapshot::WorldSnapshot;
use duel_sim::stepper::{InputStatus, Simulation};
use duel_sim::time::{FrameOffset, Second, TICKS_PER_SECOND};
use duel_sim::wire::{SendInput, WIRE_LEN};
use duel_sim::world::GameState;
use ggrs::{Config, GgrsRequest, PlayerType, SessionBuilder, SyncTestSession};
use iunorm::{Inorm64, Unorm64};

struct TestConfig;

impl Config for TestConfig {
    type Input = [u8; WIRE_LEN];
    type State = WorldSnapshot;
    type Address = u16;
}

fn wire(input: SendInput) -> [u8; WIRE_LEN] {
    let mut bytes = [0u8; WIRE_LEN];
    bytes.copy_from_slice(&input.to_bytes());
    bytes
}

fn status(status: ggrs::InputStatus) -> InputStatus {
    match status {
        ggrs::InputStatus::Confirmed => InputStatus::Confirmed,
        ggrs::InputStatus::Predicted => InputStatus::Predicted,
        ggrs::InputStatus::Disconnected => InputStatus::Disconnected,
    }
}

fn session(check_distance: usize) -> SyncTestSession<TestConfig> {
    SessionBuilder::<TestConfig>::new()
        .with_num_players(2)
        .with_check_distance(check_distance)
        .add_player(PlayerType::Local, 0)
        .unwrap()
        .add_player(PlayerType::Local, 1)
        .unwrap()
        .start_synctest_session()
        .unwrap()
}

/// Player zero attacks every fifteenth frame and player one never answers.
fn relentless(frame: u64) -> [SendInput; 2] {
    if frame % 15 == 0 {
        [SendInput::swing(FrameOffset { frame, offset: 77 }), SendInput::idle()]
    } else {
        [SendInput::idle(), SendInput::idle()]
    }
}

/// Player zero attacks every thirtieth frame and player one answers a little
/// off the impact.
fn guarded(frame: u64) -> [SendInput; 2] {
    match frame % 30 {
        0 => [SendInput::swing(FrameOffset { frame, offset: 0 }), SendInput::idle()],
        9 => [
            SendInput::idle(),
            SendInput::swing(FrameOffset { frame, offset: (frame as u32).wrapping_mul(2654435761) }),
        ],
        _ => [SendInput::idle(), SendInput::idle()],
    }
}

fn run(
    check_distance: usize,
    frames: u64,
    script: fn(u64) -> [SendInput; 2],
) -> (Simulation, Vec<Event>) {
    let mut session = session(check_distance);
    let mut sim = Simulation::new(0);
    let mut raised = Vec::new();
    let mut wall = 0u64;
    for frame in 0..frames {
        let inputs = script(frame);
        session.add_local_input(0, wire(inputs[0])).unwrap();
        session.add_local_input(1, wire(inputs[1])).unwrap();
        let requests = session.advance_frame().expect("the replay disagrees with the first run");
        let mut replaying = false;
        for request in requests {
            wall += 7_919;
            match request {
                GgrsRequest::SaveGameState { cell, frame } => {
                    let snapshot = sim.save_state(frame as u64).unwrap();
                    assert!(snapshot.is_intact());
                    cell.save(frame, Some(snapshot), Some(u128::from(snapshot.fingerprint)));
                }
                GgrsRequest::LoadGameState { cell, frame } => {
                    let snapshot = cell.load().unwrap();
                    sim.load_state(frame as u64, &snapshot, wall);
                    assert_eq!(sim.save_state(frame as u64), Ok(snapshot));
                    replaying = true;
                }
                GgrsRequest::AdvanceFrame { inputs } => {
                    assert_eq!(inputs.len(), 2);
                    let confirmed = [
                        SendInput::from_bytes(&inputs[0].0).unwrap(),
                        SendInput::from_bytes(&inputs[1].0).unwrap(),
                    ];
                    let statuses = [status(inputs[0].1), status(inputs[1].1)];
                    let events = sim.advance_frame(confirmed, statuses, wall).unwrap();
                    if !replaying || sim.clock.frame == frame + 1 {
                        raised.extend(events);
                    }
                }
            }
        }
        assert_eq!(sim.clock.frame, frame + 1);
    }
    (sim, raised)
}

#[test]
fn rollbacks_reproduce_every_checksum() {
    for check_distance in [1, 2, 7] {
        let (sim, _) = run(check_distance, 300, guarded);
        let (straight, _) = run(0, 300, guarded);
        assert_eq!(sim.world, straight.world);
        assert_eq!(sim.clock.frame, 300);
    }
}

#[test]
fn an_undefended_player_loses_under_rollback() {
    let (sim, raised) = run(3, 120, relentless);
    let (straight, straight_raised) = run(0, 120, relentless);
    assert_eq!(sim.world, straight.world);
    assert_eq!(raised, straight_raised);
    assert_eq!(raised, vec![Event::Game(GameEvent::GameOver { loser: Some(1) })]);
    assert_eq!(sim.world.game_state, GameState::Over);
    assert_eq!(sim.world.players[1].stamina, 0);
    assert_eq!(sim.world.players[0].stamina, FULL_STAMINA);
    let (earlier, nothing) = run(3, 102, relentless);
    assert_eq!(nothing, Vec::new());
    assert_eq!(earlier.world.game_state, GameState::Playing);
    assert_eq!(earlier.world.players[1].stamina, FULL_STAMINA - 6 * EXPOSED_STAMINA_LOSS);
}

#[test]
fn a_guarded_match_goes_on() {
    let (sim, raised) = run(2, 95, guarded);
    assert_eq!(sim.world.game_state, GameState::Playing);
    assert_eq!(raised.len(), 3);
    for event in raised.iter() {
        assert!(matches!(event, Event::Block { player: 1, .. }));
    }
    assert_eq!(sim.world.players[0].stamina, FULL_STAMINA - 3 * EXPOSED_STAMINA_LOSS);
    assert!(sim.world.players[1].stamina < FULL_STAMINA - 3 * (BASE_STAMINA_LOSS / 5));
    assert!(sim.world.players[1].stamina > FULL_STAMINA - 3 * BASE_STAMINA_LOSS);
}

#[test]
fn wire_records_are_plain_bytes() {
    let input = SendInput::swing(FrameOffset { frame: 0x0102030405060708, offset: 0x0a0b0c0d });
    let record = wire(input);
    assert_eq!(bytemuck::bytes_of(&record), input.to_bytes().as_slice());
    let zeroed: [u8; WIRE_LEN] = bytemuck::Zeroable::zeroed();
    assert_eq!(
        SendInput::from_bytes(&zeroed),
        Some(SendInput::swing(FrameOffset { frame: 0, offset: 0 }))
    );
    let parts: [u32; 3] = bytemuck::cast(record);
    assert_eq!(u32::from_le(parts[2]), 0x0a0b0c0d);
}

#[test]
fn normalised_values_match_their_floating_point_reading() {
    assert_eq!(Unorm64(FULL_STAMINA).to_f64(), 1.0);
    assert_eq!(Unorm64(0).to_f64(), 0.0);
    assert!((Unorm64(BASE_STAMINA_LOSS).to_f64() - 0.1).abs() < 1e-15);
    assert!((Unorm64(EXPOSED_STAMINA_LOSS).to_f64() - 0.15).abs() < 1e-15);
    assert!((Unorm64(block_loss(Second::zero())).to_f64() - 0.02).abs() < 1e-15);
    assert!((Unorm64(block_loss(Second::from_millis(500))).to_f64() - 0.06).abs() < 1e-15);
    let close = Unorm64::from_f64(0.1).0.abs_diff(BASE_STAMINA_LOSS);
    assert!(close < 1 << 12);

    for millis in [-1000i64, -750, -500, -1, 0, 1, 250, 500, 999] {
        let delta = Second::from_millis(millis);
        let seconds = delta.ticks as f64 / TICKS_PER_SECOND as f64;
        let float = Inorm64::from_f64(seconds).0;
        assert!(float.abs_diff(defend_result(delta)) < 1 << 12);
        assert!((Inorm64(defend_result(delta)).to_f64() - seconds).abs() < 1e-9);
    }
    assert_eq!(defend_result(Second::from_millis(500)), Inorm64::from_f64(0.5).0);
    assert_eq!(defend_result(Second::from_millis(-1000)), Inorm64::from_f64(-1.0).0);
    assert_eq!(defend_result(Second::from_millis(1000)), Inorm64::from_f64(1.0).0);
    assert_eq!(Inorm64(defend_result(Second::from_millis(-1000))).to_f32(), -1.0);
}
