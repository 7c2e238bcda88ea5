//! The laws of the protocol machine, stated over its transition
//! relation and proved once and for all: a marked cell stays marked, a
//! player cannot submit two moves between receipts from the opponent,
//! and a rejected frame is rejected the same way when resubmitted.

use vstd::prelude::*;
use crate::board::{board_wf, on_board, EMPTY_CELL, HEIGHT, WIDTH};
use crate::msg::MsgType;
use crate::protocol::{
    frame_rejected, step_spec, token_env, ActionV, EventV, PlayerV, ProtocolState, StepResult,
};

verus! {

/// A whole run of the machine: the player and board after feeding the
/// events in order, and everything sent along the way.
pub open spec fn run_steps(p: PlayerV, bv: Seq<Seq<i32>>, evs: Seq<EventV>) -> StepResult
    decreases evs.len(),
{
    if evs.len() == 0 {
        StepResult { player: p, board: bv, out: Seq::<ActionV>::empty() }
    } else {
        let first = step_spec(p, bv, evs[0]);
        let rest = run_steps(first.player, first.board, evs.drop_first());
        StepResult { player: rest.player, board: rest.board, out: first.out + rest.out }
    }
}

/// A step keeps the board a full grid.
pub proof fn lemma_step_preserves_board_wf(p: PlayerV, bv: Seq<Seq<i32>>, ev: EventV)
    requires
        board_wf(bv),
    ensures
        board_wf(step_spec(p, bv, ev).board),
{
    let r = step_spec(p, bv, ev);
    assert forall|i: int| 0 <= i < HEIGHT implies (#[trigger] r.board[i]).len() == WIDTH by {
        assert(bv[i].len() == WIDTH);
    }
}

/// Occupancy invariant, one step: a cell owned by either player is
/// never changed by any later event.
pub proof fn lemma_cell_once_marked_stays(
    p: PlayerV,
    bv: Seq<Seq<i32>>,
    ev: EventV,
    i: int,
    j: int,
)
    requires
        board_wf(bv),
        on_board(i, j),
        bv[i][j] != EMPTY_CELL,
    ensures
        step_spec(p, bv, ev).board[i][j] == bv[i][j],
{
}

/// Occupancy invariant, whole runs: a cell owned by either player
/// holds its owner through every sequence of events.
pub proof fn lemma_occupancy_invariant(
    p: PlayerV,
    bv: Seq<Seq<i32>>,
    evs: Seq<EventV>,
    i: int,
    j: int,
)
    requires
        board_wf(bv),
        on_board(i, j),
        bv[i][j] != EMPTY_CELL,
    ensures
        run_steps(p, bv, evs).board[i][j] == bv[i][j],
    decreases evs.len(),
{
    if evs.len() > 0 {
        let first = step_spec(p, bv, evs[0]);
        lemma_cell_once_marked_stays(p, bv, evs[0], i, j);
        lemma_step_preserves_board_wf(p, bv, evs[0]);
        lemma_occupancy_invariant(first.player, first.board, evs.drop_first(), i, j);
    }
}

/// Whether a step submits a move to the opponent.  Only the move cycle
/// sends from `MoveLoop`; the handshake's name message is not a move.
pub open spec fn submits_move(p: PlayerV, bv: Seq<Seq<i32>>, ev: EventV) -> bool {
    p.state == ProtocolState::MoveLoop && exists|k: int|
        0 <= k < step_spec(p, bv, ev).out.len() && #[trigger] step_spec(p, bv, ev).out[k]
            is ToOpponent
}

/// How many moves a run submits.
pub open spec fn moves_submitted(p: PlayerV, bv: Seq<Seq<i32>>, evs: Seq<EventV>) -> int
    decreases evs.len(),
{
    if evs.len() == 0 {
        0
    } else {
        let first = step_spec(p, bv, evs[0]);
        (if submits_move(p, bv, evs[0]) {
            1int
        } else {
            0int
        }) + moves_submitted(first.player, first.board, evs.drop_first())
    }
}

/// Whether a sequence of events holds no receipt from the opponent.
pub open spec fn relay_free(evs: Seq<EventV>) -> bool {
    forall|k: int| 0 <= k < evs.len() ==> !(#[trigger] evs[k] is Relay)
}

/// A machine waiting for the opponent's reply, or terminated, submits
/// nothing until a receipt from the opponent arrives.
proof fn lemma_no_moves_while_blocked(p: PlayerV, bv: Seq<Seq<i32>>, evs: Seq<EventV>)
    requires
        relay_free(evs),
        p.state == ProtocolState::AwaitOpponentReply || p.state is Terminated,
    ensures
        moves_submitted(p, bv, evs) == 0,
    decreases evs.len(),
{
    if evs.len() > 0 {
        let first = step_spec(p, bv, evs[0]);
        assert(!(evs[0] is Relay));
        assert(!submits_move(p, bv, evs[0]));
        assert(first.player.state == ProtocolState::AwaitOpponentReply || first.player.state
            is Terminated);
        assert(relay_free(evs.drop_first())) by {
            assert forall|k: int|
                0 <= k < evs.drop_first().len() implies !(#[trigger] evs.drop_first()[k]
                is Relay) by {
                assert(evs.drop_first()[k] == evs[k + 1]);
            }
        }
        lemma_no_moves_while_blocked(first.player, first.board, evs.drop_first());
    }
}

/// Strict alternation: between consecutive receipts from the opponent
/// a player submits at most one move.  Stated over any stretch of
/// events with no receipt in it.
pub proof fn lemma_one_move_between_receipts(p: PlayerV, bv: Seq<Seq<i32>>, evs: Seq<EventV>)
    requires
        relay_free(evs),
    ensures
        moves_submitted(p, bv, evs) <= 1,
    decreases evs.len(),
{
    if evs.len() > 0 {
        let first = step_spec(p, bv, evs[0]);
        assert(relay_free(evs.drop_first())) by {
            assert forall|k: int|
                0 <= k < evs.drop_first().len() implies !(#[trigger] evs.drop_first()[k]
                is Relay) by {
                assert(evs.drop_first()[k] == evs[k + 1]);
            }
        }
        if submits_move(p, bv, evs[0]) {
            assert(first.player.state == ProtocolState::AwaitOpponentReply || first.player.state
                is Terminated);
            lemma_no_moves_while_blocked(first.player, first.board, evs.drop_first());
        } else {
            lemma_one_move_between_receipts(first.player, first.board, evs.drop_first());
        }
    }
}

/// Idempotence of rejection: a frame that draws `Error` in `MoveLoop`
/// changes neither player nor board, so resubmitting the same frame
/// draws the very same `Error` again.
pub proof fn lemma_error_reply_idempotent(p: PlayerV, bv: Seq<Seq<i32>>, s: Seq<char>)
    requires
        p.state == ProtocolState::MoveLoop,
        frame_rejected(bv, s),
    ensures
        ({
            let r1 = step_spec(p, bv, EventV::Frame(s));
            let r2 = step_spec(r1.player, r1.board, EventV::Frame(s));
            &&& r1.player == p
            &&& r1.board == bv
            &&& r1.out == seq![ActionV::ToClient(token_env(MsgType::Error, 0, 0))]
            &&& r2 == r1
        }),
{
}

} // verus!
