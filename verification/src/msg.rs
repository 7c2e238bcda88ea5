//! The two message shapes of the system.  A `MoveMsg` crosses the relay
//! between the two players of a session; a `CSMsg` is the envelope the
//! server sends to a client over the transport.  Each has a ghost image
//! (`MoveMsgV`, `CSMsgV`) over mathematical values, which the protocol
//! contracts speak of.

use vstd::prelude::*;

verus! {

/// The kind of an envelope sent to a client: a closed set of tags.
/// `Okay` acknowledges the client's own legal move; `Error` rejects a
/// malformed or illegal one; `Win` and `Fail` report the game's end;
/// `Moving` relays the opponent's move; `Start` opens the game.
#[derive(Clone, Copy, PartialEq, Eq, Structural, Debug)]
pub enum MsgType {
    Start,
    Moving,
    Win,
    Fail,
    Okay,
    Error,
}

impl MsgType {
    /// The wire token of this kind.
    pub fn token(&self) -> (r: String)
        ensures
            r@ == self.token_spec(),
    {
        match self {
            MsgType::Start => "start".to_owned(),
            MsgType::Moving => "moving".to_owned(),
            MsgType::Win => "win".to_owned(),
            MsgType::Fail => "fail".to_owned(),
            MsgType::Okay => "ok".to_owned(),
            MsgType::Error => "error".to_owned(),
        }
    }

    /// The wire token of this kind, as a character sequence.
    pub open spec fn token_spec(&self) -> Seq<char> {
        match self {
            MsgType::Start => "start"@,
            MsgType::Moving => "moving"@,
            MsgType::Win => "win"@,
            MsgType::Fail => "fail"@,
            MsgType::Okay => "ok"@,
            MsgType::Error => "error"@,
        }
    }
}

/// The unit relayed between the two players: the sender's display name
/// (used only during the opening handshake), the move's coordinates,
/// and whether that move won the game.
#[derive(Clone, Debug)]
pub struct MoveMsg {
    pub is_win: bool,
    pub name: String,
    pub x: usize,
    pub y: usize,
}

/// Ghost image of a `MoveMsg`.
pub ghost struct MoveMsgV {
    pub is_win: bool,
    pub name: Seq<char>,
    pub x: int,
    pub y: int,
}

impl View for MoveMsg {
    type V = MoveMsgV;

    open spec fn view(&self) -> MoveMsgV {
        MoveMsgV { is_win: self.is_win, name: self.name@, x: self.x as int, y: self.y as int }
    }
}

/// The envelope sent to a client: coordinates, a display name, a turn
/// indicator, and the kind of the message.
#[derive(Clone, Debug)]
pub struct CSMsg {
    pub x: usize,
    pub y: usize,
    pub name: String,
    pub turn: i32,
    pub msg_type: MsgType,
}

/// Ghost image of a `CSMsg`.
pub ghost struct CSMsgV {
    pub x: int,
    pub y: int,
    pub name: Seq<char>,
    pub turn: int,
    pub msg_type: MsgType,
}

impl View for CSMsg {
    type V = CSMsgV;

    open spec fn view(&self) -> CSMsgV {
        CSMsgV {
            x: self.x as int,
            y: self.y as int,
            name: self.name@,
            turn: self.turn as int,
            msg_type: self.msg_type,
        }
    }
}

} // verus!
