use duel_sim::player::{Attack, Player};
use duel_sim::snapshot::{digest_words, encode_world, fingerprint, WorldSnapshot, DIGEST_BASIS};
use duel_sim::time::{FrameOffset, Second};
use duel_sim::wire::{SendInput, WIRE_LEN};
use duel_sim::world::{GameState, World};

fn at(frame: u64, offset: u32) -> FrameOffset {
    FrameOffset { frame, offset }
}

#[test]
fn digest_of_known_words() {
    assert_eq!(digest_words(&Vec::new()), DIGEST_BASIS);
    assert_eq!(digest_words(&Vec::new()), 14695981039346656037);
    assert_eq!(digest_words(&vec![1]), 12638152016183539244);
    assert_eq!(digest_words(&vec![1, 2]), 589729691727335466);
    assert_ne!(digest_words(&vec![2, 1]), digest_words(&vec![1, 2]));
}

#[test]
fn encoding_of_a_fresh_world() {
    let words = encode_world(&World::new(at(0, 0)));
    let mut player = vec![0u64; 10];
    player.extend([0, 0, 0, 0, 0, 0, u64::MAX, 4, 0, 0, 0]);
    let mut expected = player.clone();
    expected.extend(player);
    expected.extend([0, 0, 0, 0]);
    assert_eq!(words.len(), 46);
    assert_eq!(words, expected);
}

#[test]
fn encoding_of_a_busy_world() {
    let mut world = World::new(at(0, 0));
    world.players[0] = Player {
        current_attack: Some(Attack {
            startup_time: Second::from_ticks(-3),
            block_grace: Second::from_ticks((1i128 << 64) + 5),
            recover_time: Second::from_ticks(7),
        }),
        attack_start_time: at(11, 12),
        attack_recover_time: at(13, 14),
        last_defend_result: -15,
        stamina: 16,
        final_clash_lives: 3,
        final_clash_last_swing: Some(at(17, 18)),
    };
    world.final_clash.next_clash = Some(at(19, 20));
    world.game_state = GameState::Over;
    let words = encode_world(&world);
    let mut expected: Vec<u64> = vec![1, 1, 0, 3, 0, 1, 5, 0, 0, 7, 11, 12, 13, 14, 1, 15, 16, 3, 1, 17, 18];
    expected.extend([0u64; 10]);
    expected.extend([0, 0, 0, 0, 0, 0, u64::MAX, 4, 0, 0, 0]);
    expected.extend([1, 19, 20, 2]);
    assert_eq!(words, expected);
    assert_eq!(fingerprint(&world), digest_words(&expected));
}

#[test]
fn fingerprint_of_a_fresh_world() {
    assert_eq!(fingerprint(&World::new(at(0, 0))), 3697408345410713195);
}

#[test]
fn fingerprint_follows_every_field() {
    let base = World::new(at(0, 0));
    let mut seen = vec![fingerprint(&base)];
    let mut variants = Vec::new();
    let mut w = base;
    w.players[0].stamina -= 1;
    variants.push(w);
    let mut w = base;
    w.players[1].stamina -= 1;
    variants.push(w);
    let mut w = base;
    w.players[0].final_clash_lives = 3;
    variants.push(w);
    let mut w = base;
    w.players[0].last_defend_result = -1;
    variants.push(w);
    let mut w = base;
    w.players[0].last_defend_result = 1;
    variants.push(w);
    let mut w = base;
    w.players[1].attack_start_time = at(0, 1);
    variants.push(w);
    let mut w = base;
    w.players[1].attack_recover_time = at(1, 0);
    variants.push(w);
    let mut w = base;
    w.players[0].current_attack = Some(Attack::canonical());
    variants.push(w);
    let mut w = base;
    w.players[0].final_clash_last_swing = Some(at(0, 0));
    variants.push(w);
    let mut w = base;
    w.final_clash.next_clash = Some(at(0, 0));
    variants.push(w);
    let mut w = base;
    w.game_state = GameState::FinalClash;
    variants.push(w);
    let mut w = base;
    w.game_state = GameState::Over;
    variants.push(w);
    for v in variants.iter() {
        let f = fingerprint(v);
        assert!(!seen.contains(&f));
        seen.push(f);
    }
}

#[test]
fn snapshots_carry_their_fingerprint() {
    let world = World::new(at(3, 4));
    let snapshot = WorldSnapshot::take(&world);
    assert_eq!(snapshot.world, world);
    assert_eq!(snapshot.fingerprint, fingerprint(&world));
    assert!(snapshot.is_intact());
    let mut forged = snapshot;
    forged.world.players[0].stamina = 1;
    assert!(!forged.is_intact());
}

#[test]
fn input_records_on_the_wire() {
    assert_eq!(WIRE_LEN, 12);
    let input = SendInput::swing(at(0x0102030405060708, 0x0a0b0c0d));
    assert_eq!(input.to_bytes(), vec![8, 7, 6, 5, 4, 3, 2, 1, 0x0d, 0x0c, 0x0b, 0x0a]);
    assert_eq!(SendInput::idle().to_bytes(), vec![255, 255, 255, 255, 255, 255, 255, 255, 0, 0, 0, 0]);
    assert_eq!(SendInput::from_bytes(&[8, 7, 6, 5, 4, 3, 2, 1, 0x0d, 0x0c, 0x0b, 0x0a]), Some(input));
    assert_eq!(SendInput::from_bytes(&[0; 12]), Some(SendInput::swing(at(0, 0))));
}

#[test]
fn input_records_of_the_wrong_length_are_refused() {
    assert_eq!(SendInput::from_bytes(&[]), None);
    assert_eq!(SendInput::from_bytes(&[0; 11]), None);
    assert_eq!(SendInput::from_bytes(&[0; 13]), None);
    assert_eq!(SendInput::from_bytes(&[0; 16]), None);
}

#[test]
fn input_records_survive_the_wire() {
    let inputs = [
        SendInput::idle(),
        SendInput::swing(at(0, 0)),
        SendInput::swing(at(1, u32::MAX)),
        SendInput::swing(at(u64::MAX - 1, 77)),
        SendInput::swing(at(123456789012345, 987654321)),
    ];
    for input in inputs.iter() {
        let bytes = input.to_bytes();
        assert_eq!(bytes.len(), WIRE_LEN);
        assert_eq!(SendInput::from_bytes(&bytes), Some(*input));
    }
}
