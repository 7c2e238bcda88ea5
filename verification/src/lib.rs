//! A verified core for a two-player board-game server.
//!
//! The library holds the logic of the server: the board with its
//! occupancy rules and win condition, the single-slot matchmaking queue
//! that pairs connections into sessions, the wire-frame parser, and the
//! per-connection protocol state machine that drives name exchange, move
//! validation, and the relay of moves between the two players of a
//! session.  Transport, task spawning and serialization are left to the
//! embedding program, which feeds events to the state machine and
//! performs the actions it returns.

pub mod board;
pub mod msg;
pub mod parse;
pub mod protocol;
pub mod queue;
pub mod laws;

pub use board::ChessBoard;
