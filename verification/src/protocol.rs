//! The per-connection protocol state machine.
//!
//! One `Player` value drives one connection through name exchange, the
//! start announcement, and the alternating move/validate/relay cycle.
//! The machine is event-driven: the embedding program blocks on the
//! transport and on the relay channel, and hands each arrival to
//! `Player::step`, which returns the actions to perform (envelopes for
//! the own client, move messages for the opponent).  The whole
//! transition relation is the spec function `step_spec`; `step` is
//! proved to implement it exactly.
//!
//! Turn alternation needs no counter: a legal own move leaves
//! `MoveLoop` for `AwaitOpponentReply`, where client frames are ignored
//! until the opponent's reply arrives over the relay.  When the relay
//! closes (the opponent's task is gone), the machine tells its client
//! the game is over — a win by forfeit — instead of blocking forever.

use vstd::prelude::*;
use crate::board::{board_update, move_ok, wins, ChessBoard};
use crate::msg::{CSMsg, CSMsgV, MoveMsg, MoveMsgV, MsgType};
use crate::parse::{parse_move, parse_spec};
use vstd::utf8::encode_utf8;

verus! {

/// Why a terminated task terminated; distinguished for observability
/// only.  `ProtocolViolation` is reserved: a malformed frame is
/// recovered locally with an `Error` reply and never ends the task.
#[derive(Clone, Copy, PartialEq, Eq, Structural, Debug)]
pub enum TermReason {
    Won,
    Lost,
    Disconnected,
    PeerGone,
    ProtocolViolation,
}

/// The states of the per-connection machine.  `MoveLoop` awaits a move
/// frame from the own client; `AwaitOpponentReply` awaits the
/// opponent's answer over the relay and ignores client frames, which
/// enforces strict alternation.
#[derive(Clone, Copy, PartialEq, Eq, Structural, Debug)]
pub enum ProtocolState {
    AwaitName,
    ExchangeName,
    AwaitOpeningMove,
    MoveLoop,
    AwaitOpponentReply,
    Terminated(TermReason),
}

/// What the embedding program can observe for one connection: a text
/// frame from the own client, the transport closing, a message from
/// the opponent over the relay, or the relay closing because the
/// opponent's task is gone.
pub enum Event {
    Frame(String),
    TransportClosed,
    Relay(MoveMsg),
    RelayClosed,
}

/// Ghost image of an `Event`.
pub ghost enum EventV {
    Frame(Seq<char>),
    TransportClosed,
    Relay(MoveMsgV),
    RelayClosed,
}

impl View for Event {
    type V = EventV;

    open spec fn view(&self) -> EventV {
        match self {
            Event::Frame(s) => EventV::Frame(s@),
            Event::TransportClosed => EventV::TransportClosed,
            Event::Relay(m) => EventV::Relay(m@),
            Event::RelayClosed => EventV::RelayClosed,
        }
    }
}

/// What a step asks the embedding program to do: send an envelope to
/// the own client, or a move message to the opponent.
pub enum Action {
    ToClient(CSMsg),
    ToOpponent(MoveMsg),
}

/// Ghost image of an `Action`.
pub ghost enum ActionV {
    ToClient(CSMsgV),
    ToOpponent(MoveMsgV),
}

impl View for Action {
    type V = ActionV;

    open spec fn view(&self) -> ActionV {
        match self {
            Action::ToClient(m) => ActionV::ToClient(m@),
            Action::ToOpponent(m) => ActionV::ToOpponent(m@),
        }
    }
}

/// The ghost image of a sequence of actions.
pub open spec fn acts_view(s: Seq<Action>) -> Seq<ActionV> {
    s.map_values(|a: Action| a@)
}

/// One player of a session: its id (1 for the waiting player, 2 for
/// the player whose arrival formed the session), its display name
/// (empty until received), and its protocol state.
pub struct Player {
    pub id: i32,
    pub name: String,
    pub state: ProtocolState,
}

/// Ghost image of a `Player`.
pub ghost struct PlayerV {
    pub id: int,
    pub name: Seq<char>,
    pub state: ProtocolState,
}

impl View for Player {
    type V = PlayerV;

    open spec fn view(&self) -> PlayerV {
        PlayerV { id: self.id as int, name: self.name@, state: self.state }
    }
}

/// A player that has been paired carries id 1 or 2.
pub open spec fn player_wf(p: PlayerV) -> bool {
    p.id == 1 || p.id == 2
}

/// What one step yields: the player and board after it, and the
/// actions to perform, in order.
pub ghost struct StepResult {
    pub player: PlayerV,
    pub board: Seq<Seq<i32>>,
    pub out: Seq<ActionV>,
}

/// The envelope announcing the start of the game: the opponent's name
/// and the receiver's turn indicator.
pub open spec fn start_env(opp_name: Seq<char>, id: int) -> CSMsgV {
    CSMsgV { x: 0, y: 0, name: opp_name, turn: id, msg_type: MsgType::Start }
}

/// The envelope relaying an opponent move to the own client.
pub open spec fn moving_env(x: int, y: int, own_name: Seq<char>) -> CSMsgV {
    CSMsgV { x, y, name: own_name, turn: 0, msg_type: MsgType::Moving }
}

/// A plain-token envelope: a bare kind with coordinates and no name.
pub open spec fn token_env(t: MsgType, x: int, y: int) -> CSMsgV {
    CSMsgV { x, y, name: Seq::<char>::empty(), turn: 0, msg_type: t }
}

/// The result of a step that changes nothing and sends nothing.
pub open spec fn quiet(p: PlayerV, bv: Seq<Seq<i32>>) -> StepResult {
    StepResult { player: p, board: bv, out: Seq::<ActionV>::empty() }
}

/// The result of entering a terminal state without sending anything.
pub open spec fn halt(p: PlayerV, bv: Seq<Seq<i32>>, why: TermReason) -> StepResult {
    StepResult {
        player: PlayerV { id: p.id, name: p.name, state: ProtocolState::Terminated(why) },
        board: bv,
        out: Seq::<ActionV>::empty(),
    }
}

/// The result of the opponent's task being gone: the own client is
/// told the game is over — a win by forfeit — and the task terminates.
pub open spec fn peer_gone(p: PlayerV, bv: Seq<Seq<i32>>) -> StepResult {
    StepResult {
        player: PlayerV { id: p.id, name: p.name, state: ProtocolState::Terminated(
            TermReason::PeerGone) },
        board: bv,
        out: seq![ActionV::ToClient(token_env(MsgType::Win, 0, 0))],
    }
}

/// The result of receiving the opponent's move `m` while waiting for
/// it: a lost game on a winning move, else the move is relayed to the
/// own client and the machine re-enters `MoveLoop`.
pub open spec fn opponent_move(p: PlayerV, bv: Seq<Seq<i32>>, m: MoveMsgV) -> StepResult {
    if m.is_win {
        StepResult {
            player: PlayerV { id: p.id, name: p.name, state: ProtocolState::Terminated(
                TermReason::Lost) },
            board: bv,
            out: seq![ActionV::ToClient(token_env(MsgType::Fail, 0, 0))],
        }
    } else {
        StepResult {
            player: PlayerV { id: p.id, name: p.name, state: ProtocolState::MoveLoop },
            board: bv,
            out: seq![ActionV::ToClient(moving_env(m.x, m.y, p.name))],
        }
    }
}

/// Whether a move frame with character content `s` is rejected on
/// board `bv`: malformed wire shape, off the board, or an occupied
/// cell.  A rejected frame draws an `Error` reply and changes nothing.
pub open spec fn frame_rejected(bv: Seq<Seq<i32>>, s: Seq<char>) -> bool {
    match parse_spec(encode_utf8(s)) {
        Option::Some(xy) => !move_ok(bv, xy.0 as int, xy.1 as int),
        Option::None => true,
    }
}

/// The result of receiving a move frame `s` from the own client in
/// `MoveLoop`.
pub open spec fn own_move(p: PlayerV, bv: Seq<Seq<i32>>, s: Seq<char>) -> StepResult {
    match parse_spec(encode_utf8(s)) {
        Option::Some(xy) => {
            let x = xy.0 as int;
            let y = xy.1 as int;
            if move_ok(bv, x, y) {
                let bv2 = board_update(bv, x, y, p.id as i32);
                let win = wins(bv2, x, y, p.id as i32);
                StepResult {
                    player: PlayerV {
                        id: p.id,
                        name: p.name,
                        state: if win {
                            ProtocolState::Terminated(TermReason::Won)
                        } else {
                            ProtocolState::AwaitOpponentReply
                        },
                    },
                    board: bv2,
                    out: seq![
                        ActionV::ToClient(token_env(
                            if win { MsgType::Win } else { MsgType::Okay }, x, y)),
                        ActionV::ToOpponent(MoveMsgV {
                            is_win: win,
                            name: Seq::<char>::empty(),
                            x,
                            y,
                        }),
                    ],
                }
            } else {
                StepResult {
                    player: p,
                    board: bv,
                    out: seq![ActionV::ToClient(token_env(MsgType::Error, 0, 0))],
                }
            }
        },
        Option::None => StepResult {
            player: p,
            board: bv,
            out: seq![ActionV::ToClient(token_env(MsgType::Error, 0, 0))],
        },
    }
}

/// The transition relation of the per-connection machine.
pub open spec fn step_spec(p: PlayerV, bv: Seq<Seq<i32>>, ev: EventV) -> StepResult {
    match p.state {
        ProtocolState::AwaitName => match ev {
            EventV::Frame(s) => StepResult {
                player: PlayerV { id: p.id, name: s, state: ProtocolState::ExchangeName },
                board: bv,
                out: seq![ActionV::ToOpponent(MoveMsgV { is_win: false, name: s, x: 0, y: 0 })],
            },
            EventV::TransportClosed => halt(p, bv, TermReason::Disconnected),
            EventV::Relay(_) => quiet(p, bv),
            EventV::RelayClosed => peer_gone(p, bv),
        },
        ProtocolState::ExchangeName => match ev {
            EventV::Relay(m) => StepResult {
                player: PlayerV {
                    id: p.id,
                    name: p.name,
                    state: if p.id == 2 {
                        ProtocolState::AwaitOpeningMove
                    } else {
                        ProtocolState::MoveLoop
                    },
                },
                board: bv,
                out: seq![ActionV::ToClient(start_env(m.name, p.id))],
            },
            EventV::TransportClosed => halt(p, bv, TermReason::Disconnected),
            EventV::Frame(_) => quiet(p, bv),
            EventV::RelayClosed => peer_gone(p, bv),
        },
        ProtocolState::AwaitOpeningMove => match ev {
            EventV::Relay(m) => opponent_move(p, bv, m),
            EventV::TransportClosed => halt(p, bv, TermReason::Disconnected),
            EventV::Frame(_) => quiet(p, bv),
            EventV::RelayClosed => peer_gone(p, bv),
        },
        ProtocolState::MoveLoop => match ev {
            EventV::Frame(s) => own_move(p, bv, s),
            EventV::TransportClosed => halt(p, bv, TermReason::Disconnected),
            EventV::Relay(_) => quiet(p, bv),
            EventV::RelayClosed => peer_gone(p, bv),
        },
        ProtocolState::AwaitOpponentReply => match ev {
            EventV::Relay(m) => opponent_move(p, bv, m),
            EventV::TransportClosed => halt(p, bv, TermReason::Disconnected),
            EventV::Frame(_) => quiet(p, bv),
            EventV::RelayClosed => peer_gone(p, bv),
        },
        ProtocolState::Terminated(_) => quiet(p, bv),
    }
}

impl Player {
    /// A fresh, unpaired connection: no id, no name, awaiting the
    /// client's display name.
    pub fn new() -> (p: Player)
        ensures
            p.id == 0,
            p.name@ == Seq::<char>::empty(),
            p.state == ProtocolState::AwaitName,
    {
        Player { id: 0, name: String::new(), state: ProtocolState::AwaitName }
    }

    /// Feeds one event to the machine.  The player, the board, and the
    /// returned actions are exactly what `step_spec` says.
    pub fn step(&mut self, board: &mut ChessBoard, ev: Event) -> (out: Vec<Action>)
        requires
            player_wf(old(self)@),
            old(board).wf(),
        ensures
            final(self)@ == step_spec(old(self)@, old(board)@, ev@).player,
            final(board)@ == step_spec(old(self)@, old(board)@, ev@).board,
            acts_view(out@) == step_spec(old(self)@, old(board)@, ev@).out,
            final(board).wf(),
    {
        let mut out: Vec<Action> = Vec::new();
        match self.state {
            ProtocolState::AwaitName => match ev {
                Event::Frame(s) => {
                    let m = MoveMsg { is_win: false, name: s.clone(), x: 0, y: 0 };
                    out.push(Action::ToOpponent(m));
                    self.name = s;
                    self.state = ProtocolState::ExchangeName;
                },
                Event::TransportClosed => {
                    self.state = ProtocolState::Terminated(TermReason::Disconnected);
                },
                Event::Relay(_) => {},
                Event::RelayClosed => {
                    self.push_forfeit(&mut out);
                },
            },
            ProtocolState::ExchangeName => match ev {
                Event::Relay(m) => {
                    out.push(Action::ToClient(CSMsg {
                        x: 0,
                        y: 0,
                        name: m.name,
                        turn: self.id,
                        msg_type: MsgType::Start,
                    }));
                    self.state = if self.id == 2 {
                        ProtocolState::AwaitOpeningMove
                    } else {
                        ProtocolState::MoveLoop
                    };
                },
                Event::TransportClosed => {
                    self.state = ProtocolState::Terminated(TermReason::Disconnected);
                },
                Event::Frame(_) => {},
                Event::RelayClosed => {
                    self.push_forfeit(&mut out);
                },
            },
            ProtocolState::AwaitOpeningMove | ProtocolState::AwaitOpponentReply => match ev {
                Event::Relay(m) => {
                    if m.is_win {
                        out.push(Action::ToClient(CSMsg {
                            x: 0,
                            y: 0,
                            name: String::new(),
                            turn: 0,
                            msg_type: MsgType::Fail,
                        }));
                        self.state = ProtocolState::Terminated(TermReason::Lost);
                    } else {
                        out.push(Action::ToClient(CSMsg {
                            x: m.x,
                            y: m.y,
                            name: self.name.clone(),
                            turn: 0,
                            msg_type: MsgType::Moving,
                        }));
                        self.state = ProtocolState::MoveLoop;
                    }
                },
                Event::TransportClosed => {
                    self.state = ProtocolState::Terminated(TermReason::Disconnected);
                },
                Event::Frame(_) => {},
                Event::RelayClosed => {
                    self.push_forfeit(&mut out);
                },
            },
            ProtocolState::MoveLoop => match ev {
                Event::Frame(s) => {
                    match parse_move(s.as_str()) {
                        Some((x, y)) => {
                            if board.valid(x, y) {
                                board.mark(x, y, self.id);
                                let win = board.check_win(x, y, self.id);
                                out.push(Action::ToClient(CSMsg {
                                    x,
                                    y,
                                    name: String::new(),
                                    turn: 0,
                                    msg_type: if win {
                                        MsgType::Win
                                    } else {
                                        MsgType::Okay
                                    },
                                }));
                                out.push(Action::ToOpponent(MoveMsg {
                                    is_win: win,
                                    name: String::new(),
                                    x,
                                    y,
                                }));
                                self.state = if win {
                                    ProtocolState::Terminated(TermReason::Won)
                                } else {
                                    ProtocolState::AwaitOpponentReply
                                };
                            } else {
                                self.push_error(&mut out);
                            }
                        },
                        None => {
                            self.push_error(&mut out);
                        },
                    }
                },
                Event::TransportClosed => {
                    self.state = ProtocolState::Terminated(TermReason::Disconnected);
                },
                Event::Relay(_) => {},
                Event::RelayClosed => {
                    self.push_forfeit(&mut out);
                },
            },
            ProtocolState::Terminated(_) => match ev {
                _ => {},
            },
        }
        proof {
            assert(acts_view(out@) =~= step_spec(old(self)@, old(board)@, ev@).out);
        }
        out
    }

    /// Pushes the `Error` reply for a rejected frame.
    fn push_error(&self, out: &mut Vec<Action>)
        ensures
            acts_view(final(out)@) == acts_view(old(out)@).push(ActionV::ToClient(token_env(
                MsgType::Error, 0, 0))),
    {
        out.push(Action::ToClient(CSMsg {
            x: 0,
            y: 0,
            name: String::new(),
            turn: 0,
            msg_type: MsgType::Error,
        }));
        proof {
            assert(acts_view(final(out)@) =~= acts_view(old(out)@).push(ActionV::ToClient(
                token_env(MsgType::Error, 0, 0))));
        }
    }

    /// Pushes the forfeit notification sent when the opponent is gone,
    /// and terminates the machine.
    fn push_forfeit(&mut self, out: &mut Vec<Action>)
        ensures
            final(self)@ == (PlayerV {
                id: old(self)@.id,
                name: old(self)@.name,
                state: ProtocolState::Terminated(TermReason::PeerGone),
            }),
            acts_view(final(out)@) == acts_view(old(out)@).push(ActionV::ToClient(token_env(
                MsgType::Win, 0, 0))),
    {
        out.push(Action::ToClient(CSMsg {
            x: 0,
            y: 0,
            name: String::new(),
            turn: 0,
            msg_type: MsgType::Win,
        }));
        self.state = ProtocolState::Terminated(TermReason::PeerGone);
        proof {
            assert(acts_view(final(out)@) =~= acts_view(old(out)@).push(ActionV::ToClient(
                token_env(MsgType::Win, 0, 0))));
        }
    }
}

} // verus!
