use chess_server::board::ChessBoard;
use chess_server::msg::{CSMsg, MoveMsg, MsgType};
use chess_server::protocol::{Action, Event, Player, ProtocolState, TermReason};
use chess_server::queue::{check_waiting_player, EnqueueResult, GameManager};

fn to_opponent(actions: &[Action]) -> MoveMsg {
    for a in actions {
        if let Action::ToOpponent(m) = a {
            return m.clone();
        }
    }
    panic!("no relay message among the actions");
}

fn to_client(actions: &[Action]) -> CSMsg {
    for a in actions {
        if let Action::ToClient(m) = a {
            return m.clone();
        }
    }
    panic!("no client envelope among the actions");
}

/// Pairs two fresh connections and plays the name exchange, so that
/// `a` (id 1) stands in MoveLoop and `b` (id 2) in AwaitOpeningMove.
fn started_session(board: &mut ChessBoard) -> (Player, Player) {
    let mut gm = GameManager::new();
    assert!(matches!(check_waiting_player(&mut gm, Player::new()), EnqueueResult::Waiting));
    let (mut a, mut b) = match check_waiting_player(&mut gm, Player::new()) {
        EnqueueResult::Paired { player1, player2, .. } => (player1, player2),
        EnqueueResult::Waiting => panic!("second arrival must pair"),
    };
    let out_a = a.step(board, Event::Frame("alice".to_string()));
    let name_a = to_opponent(&out_a);
    let out_b = b.step(board, Event::Frame("bob".to_string()));
    let name_b = to_opponent(&out_b);
    let start_a = to_client(&a.step(board, Event::Relay(name_b)));
    assert_eq!(start_a.msg_type, MsgType::Start);
    let start_b = to_client(&b.step(board, Event::Relay(name_a)));
    assert_eq!(start_b.msg_type, MsgType::Start);
    (a, b)
}

#[test]
fn name_exchange_announces_start_with_opponent_name_and_turn() {
    let mut gm = GameManager::new();
    assert!(matches!(check_waiting_player(&mut gm, Player::new()), EnqueueResult::Waiting));
    let (mut a, mut b) = match check_waiting_player(&mut gm, Player::new()) {
        EnqueueResult::Paired { player1, player2, .. } => (player1, player2),
        EnqueueResult::Waiting => panic!("second arrival must pair"),
    };
    let mut board = ChessBoard::new();
    let out_a = a.step(&mut board, Event::Frame("alice".to_string()));
    assert_eq!(a.name, "alice");
    let name_a = to_opponent(&out_a);
    assert_eq!(name_a.name, "alice");
    assert!(!name_a.is_win);
    let out_b = b.step(&mut board, Event::Frame("bob".to_string()));
    let name_b = to_opponent(&out_b);

    let start_a = to_client(&a.step(&mut board, Event::Relay(name_b)));
    assert_eq!(start_a.msg_type, MsgType::Start);
    assert_eq!(start_a.name, "bob");
    assert_eq!(start_a.turn, 1);

    let start_b = to_client(&b.step(&mut board, Event::Relay(name_a)));
    assert_eq!(start_b.msg_type, MsgType::Start);
    assert_eq!(start_b.name, "alice");
    assert_eq!(start_b.turn, 2);

    assert_eq!(a.state, ProtocolState::MoveLoop);
    assert_eq!(b.state, ProtocolState::AwaitOpeningMove);
}

#[test]
fn legal_move_is_acknowledged_and_relayed() {
    let mut board = ChessBoard::new();
    let (mut a, mut b) = started_session(&mut board);

    let out = a.step(&mut board, Event::Frame("3,4".to_string()));
    let ack = to_client(&out);
    assert_eq!(ack.msg_type, MsgType::Okay);
    assert_eq!((ack.x, ack.y), (3, 4));
    let relayed = to_opponent(&out);
    assert_eq!((relayed.x, relayed.y), (3, 4));
    assert!(!relayed.is_win);
    assert_eq!(a.state, ProtocolState::AwaitOpponentReply);
    assert_eq!(board.cell(3, 4), 1);

    let moving = to_client(&b.step(&mut board, Event::Relay(relayed)));
    assert_eq!(moving.msg_type, MsgType::Moving);
    assert_eq!((moving.x, moving.y), (3, 4));
    assert_eq!(b.state, ProtocolState::MoveLoop);
}

#[test]
fn occupied_cell_draws_error_and_no_mutation() {
    let mut board = ChessBoard::new();
    let (mut a, mut b) = started_session(&mut board);

    let out = a.step(&mut board, Event::Frame("3,4".to_string()));
    let own_move = to_opponent(&out);
    let _ = b.step(&mut board, Event::Relay(own_move));
    let reply = to_opponent(&b.step(&mut board, Event::Frame("0,0".to_string())));
    let _ = a.step(&mut board, Event::Relay(reply));
    assert_eq!(a.state, ProtocolState::MoveLoop);

    let second = a.step(&mut board, Event::Frame("3,4".to_string()));
    let err = to_client(&second);
    assert_eq!(err.msg_type, MsgType::Error);
    assert_eq!(second.len(), 1);
    assert_eq!(a.state, ProtocolState::MoveLoop);
    assert_eq!(board.cell(3, 4), 1);
    assert_eq!(board.cell(0, 0), 2);
}

#[test]
fn malformed_frame_draws_error_and_connection_stays_open() {
    let mut board = ChessBoard::new();
    let (mut a, _b) = started_session(&mut board);

    let out = a.step(&mut board, Event::Frame("3,4,5".to_string()));
    assert_eq!(out.len(), 1);
    assert_eq!(to_client(&out).msg_type, MsgType::Error);
    assert_eq!(a.state, ProtocolState::MoveLoop);
    for x in 0..10 {
        for y in 0..10 {
            assert!(board.valid(x, y));
        }
    }

    let again = a.step(&mut board, Event::Frame("3,4,5".to_string()));
    assert_eq!(again.len(), 1);
    assert_eq!(to_client(&again).msg_type, MsgType::Error);
    assert_eq!(a.state, ProtocolState::MoveLoop);

    let ok = a.step(&mut board, Event::Frame("3,4".to_string()));
    assert_eq!(to_client(&ok).msg_type, MsgType::Okay);
}

#[test]
fn frames_are_ignored_while_awaiting_the_opponent() {
    let mut board = ChessBoard::new();
    let (mut a, _b) = started_session(&mut board);

    let _ = a.step(&mut board, Event::Frame("3,4".to_string()));
    assert_eq!(a.state, ProtocolState::AwaitOpponentReply);
    let out = a.step(&mut board, Event::Frame("5,5".to_string()));
    assert!(out.is_empty());
    assert_eq!(a.state, ProtocolState::AwaitOpponentReply);
    assert!(board.valid(5, 5));
}

#[test]
fn winning_move_ends_both_tasks() {
    let mut board = ChessBoard::new();
    let (mut a, mut b) = started_session(&mut board);

    // a takes (0,0)..(0,4); b answers on row 5 in between.
    for i in 0..4u32 {
        let out = a.step(&mut board, Event::Frame(format!("0,{}", i)));
        assert_eq!(to_client(&out).msg_type, MsgType::Okay);
        let _ = b.step(&mut board, Event::Relay(to_opponent(&out)));
        let reply = b.step(&mut board, Event::Frame(format!("5,{}", i)));
        assert_eq!(to_client(&reply).msg_type, MsgType::Okay);
        let _ = a.step(&mut board, Event::Relay(to_opponent(&reply)));
    }
    let fin = a.step(&mut board, Event::Frame("0,4".to_string()));
    let ack = to_client(&fin);
    assert_eq!(ack.msg_type, MsgType::Win);
    let relayed = to_opponent(&fin);
    assert!(relayed.is_win);
    assert_eq!(a.state, ProtocolState::Terminated(TermReason::Won));

    let lost = b.step(&mut board, Event::Relay(relayed));
    assert_eq!(to_client(&lost).msg_type, MsgType::Fail);
    assert_eq!(b.state, ProtocolState::Terminated(TermReason::Lost));
}

#[test]
fn opening_winning_relay_fails_player_two() {
    let mut board = ChessBoard::new();
    let (_a, mut b) = started_session(&mut board);

    let msg = MoveMsg { is_win: true, name: String::new(), x: 0, y: 0 };
    let out = b.step(&mut board, Event::Relay(msg));
    assert_eq!(to_client(&out).msg_type, MsgType::Fail);
    assert_eq!(b.state, ProtocolState::Terminated(TermReason::Lost));
}

#[test]
fn disconnect_terminates_and_peer_is_notified() {
    let mut board = ChessBoard::new();
    let (mut a, mut b) = started_session(&mut board);

    let out = a.step(&mut board, Event::Frame("3,4".to_string()));
    let _ = b.step(&mut board, Event::Relay(to_opponent(&out)));
    assert_eq!(a.state, ProtocolState::AwaitOpponentReply);

    // b's transport dies; its task ends without an answer for a.
    let silent = b.step(&mut board, Event::TransportClosed);
    assert!(silent.is_empty());
    assert_eq!(b.state, ProtocolState::Terminated(TermReason::Disconnected));

    // the relay towards a closes; a's pending receive resolves with a
    // terminal notification instead of blocking forever.
    let notice = a.step(&mut board, Event::RelayClosed);
    assert_eq!(notice.len(), 1);
    assert_eq!(to_client(&notice).msg_type, MsgType::Win);
    assert_eq!(a.state, ProtocolState::Terminated(TermReason::PeerGone));

    // a terminated machine reacts to nothing.
    let after = a.step(&mut board, Event::Frame("1,1".to_string()));
    assert!(after.is_empty());
}

#[test]
fn wire_tokens_match_the_kinds() {
    assert_eq!(MsgType::Start.token(), "start");
    assert_eq!(MsgType::Moving.token(), "moving");
    assert_eq!(MsgType::Win.token(), "win");
    assert_eq!(MsgType::Fail.token(), "fail");
    assert_eq!(MsgType::Okay.token(), "ok");
    assert_eq!(MsgType::Error.token(), "error");
}
