use chess_server::protocol::{Player, ProtocolState};
use chess_server::queue::{check_waiting_player, EnqueueResult, GameManager};

fn named_player(name: &str) -> Player {
    let mut p = Player::new();
    p.name = name.to_string();
    p
}

#[test]
fn first_arrival_waits() {
    let mut gm = GameManager::new();
    let r = check_waiting_player(&mut gm, named_player("alice"));
    assert!(matches!(r, EnqueueResult::Waiting));
    assert!(gm.waiting_player.is_some());
    assert_eq!(gm.waiting_player.as_ref().unwrap().name, "alice");
    assert_eq!(gm.cnt, 0);
}

#[test]
fn second_arrival_pairs_first_as_player_one() {
    let mut gm = GameManager::new();
    let r1 = check_waiting_player(&mut gm, named_player("alice"));
    assert!(matches!(r1, EnqueueResult::Waiting));
    let r2 = check_waiting_player(&mut gm, named_player("bob"));
    match r2 {
        EnqueueResult::Paired { game_id, player1, player2 } => {
            assert_eq!(game_id, 0);
            assert_eq!(player1.id, 1);
            assert_eq!(player1.name, "alice");
            assert_eq!(player2.id, 2);
            assert_eq!(player2.name, "bob");
            assert_eq!(player1.state, ProtocolState::AwaitName);
            assert_eq!(player2.state, ProtocolState::AwaitName);
        }
        EnqueueResult::Waiting => panic!("second arrival must pair"),
    }
    assert!(gm.waiting_player.is_none());
    assert_eq!(gm.cnt, 1);
    assert!(gm.games.contains_key(&0));
}

#[test]
fn sequential_pairings_get_increasing_ids() {
    let mut gm = GameManager::new();
    let mut ids = Vec::new();
    for i in 0..3 {
        let r1 = check_waiting_player(&mut gm, named_player(&format!("w{}", i)));
        assert!(matches!(r1, EnqueueResult::Waiting));
        let r2 = check_waiting_player(&mut gm, named_player(&format!("n{}", i)));
        match r2 {
            EnqueueResult::Paired { game_id, .. } => ids.push(game_id),
            EnqueueResult::Waiting => panic!("expected a pairing"),
        }
    }
    assert_eq!(ids, vec![0, 1, 2]);
}

#[test]
fn pairing_clears_the_slot_for_the_next_pair() {
    let mut gm = GameManager::new();
    check_waiting_player(&mut gm, named_player("a"));
    check_waiting_player(&mut gm, named_player("b"));
    let r3 = check_waiting_player(&mut gm, named_player("c"));
    assert!(matches!(r3, EnqueueResult::Waiting));
    assert_eq!(gm.waiting_player.as_ref().unwrap().name, "c");
}
