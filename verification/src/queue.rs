//! Matchmaking: a process-wide registry holding at most one waiting
//! player and a session-id counter.  The first connection to enqueue on
//! an empty slot waits and becomes player 1 of the next-formed session;
//! the connection whose arrival finds the slot occupied triggers the
//! pairing, becomes player 2, and is the one that constructs and starts
//! the session.  Session ids are allocated from the counter and are
//! unique and strictly increasing for the lifetime of the registry.

use vstd::prelude::*;
use std::collections::BTreeMap;
use crate::protocol::{Player, PlayerV};

verus! {

/// A formed game: its session id and, until its two tasks take them
/// over, the two players.
pub struct Game {
    pub game_id: usize,
    pub player1: Option<Player>,
    pub player2: Option<Player>,
}

impl Game {
    /// Records a formed game.
    pub fn new(player1: Player, player2: Player, game_id: usize) -> (g: Game)
        ensures
            g.game_id == game_id,
            g.player1 == Some(player1),
            g.player2 == Some(player2),
    {
        Game { player1: Some(player1), player2: Some(player2), game_id }
    }
}

/// The registry: formed games by session id, the single waiting slot,
/// and the session-id counter.
pub struct GameManager {
    pub games: BTreeMap<usize, Game>,
    pub waiting_player: Option<Player>,
    pub cnt: usize,
}

/// Ghost image of the matchmaking state proper: the waiting slot and
/// the counter.
pub ghost struct QueueState {
    pub waiting: Option<PlayerV>,
    pub cnt: int,
}

/// What `enqueue` yields for its caller.
pub enum EnqueueResult {
    Paired { game_id: usize, player1: Player, player2: Player },
    Waiting,
}

/// Ghost image of an `EnqueueResult`.
pub ghost enum PairOutcome {
    Paired { game_id: int, player1: PlayerV, player2: PlayerV },
    Waiting,
}

impl View for EnqueueResult {
    type V = PairOutcome;

    open spec fn view(&self) -> PairOutcome {
        match self {
            EnqueueResult::Waiting => PairOutcome::Waiting,
            EnqueueResult::Paired { game_id, player1, player2 } => PairOutcome::Paired {
                game_id: *game_id as int,
                player1: player1@,
                player2: player2@,
            },
        }
    }
}

/// The matchmaking transition.  An occupied slot pairs: the waiting
/// player becomes player 1, the newcomer player 2, the current counter
/// value is the session id, and the counter moves on.  An empty slot
/// stores the newcomer and reports `Waiting`.
pub open spec fn enqueue_spec(q: QueueState, p: PlayerV) -> (QueueState, PairOutcome) {
    match q.waiting {
        Option::Some(w) => (
            QueueState { waiting: Option::None, cnt: q.cnt + 1 },
            PairOutcome::Paired {
                game_id: q.cnt,
                player1: PlayerV { id: 1, name: w.name, state: w.state },
                player2: PlayerV { id: 2, name: p.name, state: p.state },
            },
        ),
        Option::None => (
            QueueState { waiting: Option::Some(p), cnt: q.cnt },
            PairOutcome::Waiting,
        ),
    }
}

impl GameManager {
    /// Ghost image of the matchmaking state of this registry.
    pub open spec fn qstate(&self) -> QueueState {
        QueueState {
            waiting: match self.waiting_player {
                Option::Some(p) => Option::Some(p@),
                Option::None => Option::None,
            },
            cnt: self.cnt as int,
        }
    }

    /// An empty registry: no games, no waiting player, ids from 0.
    pub fn new() -> (gm: GameManager)
        ensures
            gm.games@ == Map::<usize, Game>::empty(),
            gm.waiting_player is None,
            gm.cnt == 0,
    {
        GameManager { games: BTreeMap::new(), waiting_player: None, cnt: 0 }
    }

    /// Allocates the next session id.
    pub fn alloc_game_id(&mut self) -> (id: usize)
        requires
            old(self).cnt < usize::MAX,
        ensures
            id == old(self).cnt,
            final(self).cnt == old(self).cnt + 1,
            final(self).games == old(self).games,
            final(self).waiting_player == old(self).waiting_player,
    {
        self.cnt += 1;
        self.cnt - 1
    }
}

/// Enqueues a newly connected player.  The matchmaking state moves as
/// `enqueue_spec` says; on a pairing, the formed game is also recorded
/// in the registry under its session id.
pub fn check_waiting_player(gm: &mut GameManager, new_player: Player) -> (r: EnqueueResult)
    requires
        old(gm).cnt < usize::MAX,
    ensures
        (final(gm).qstate(), r@) == enqueue_spec(old(gm).qstate(), new_player@),
        match old(gm).waiting_player {
            Option::Some(w) => final(gm).games@ == old(gm).games@.insert(
                old(gm).cnt,
                (Game {
                    game_id: old(gm).cnt,
                    player1: Some(Player { id: 1, name: w.name, state: w.state }),
                    player2: Some(Player { id: 2, name: new_player.name, state: new_player.state }),
                }),
            ),
            Option::None => final(gm).games@ == old(gm).games@,
        },
{
    let taken = gm.waiting_player.take();
    match taken {
        Some(old_player) => {
            let p1 = Player { id: 1, name: old_player.name, state: old_player.state };
            let p2 = Player { id: 2, name: new_player.name, state: new_player.state };
            let game_id = gm.alloc_game_id();
            let p1_copy = Player { id: p1.id, name: p1.name.clone(), state: p1.state };
            let p2_copy = Player { id: p2.id, name: p2.name.clone(), state: p2.state };
            let g = Game::new(p1, p2, game_id);
            gm.games.insert(game_id, g);
            EnqueueResult::Paired { game_id, player1: p1_copy, player2: p2_copy }
        },
        None => {
            gm.waiting_player = Some(new_player);
            EnqueueResult::Waiting
        },
    }
}

/// The matchmaking state after a whole sequence of arrivals.
pub open spec fn run_queue(q: QueueState, ps: Seq<PlayerV>) -> QueueState
    decreases ps.len(),
{
    if ps.len() == 0 {
        q
    } else {
        run_queue(enqueue_spec(q, ps[0]).0, ps.drop_first())
    }
}

/// The session ids allocated over a whole sequence of arrivals, in
/// order of allocation.
pub open spec fn session_ids(q: QueueState, ps: Seq<PlayerV>) -> Seq<int>
    decreases ps.len(),
{
    if ps.len() == 0 {
        Seq::<int>::empty()
    } else {
        let q2 = enqueue_spec(q, ps[0]).0;
        let rest = session_ids(q2, ps.drop_first());
        if q.waiting is Some {
            seq![q.cnt] + rest
        } else {
            rest
        }
    }
}

/// Every allocated session id lies between the counter before the
/// arrivals and the counter after them, and the counter never moves
/// backwards.
proof fn lemma_session_ids_bounded(q: QueueState, ps: Seq<PlayerV>)
    ensures
        run_queue(q, ps).cnt >= q.cnt,
        forall|k: int|
            0 <= k < session_ids(q, ps).len() ==> q.cnt <= #[trigger] session_ids(q, ps)[k]
                < run_queue(q, ps).cnt,
    decreases ps.len(),
{
    if ps.len() > 0 {
        let q2 = enqueue_spec(q, ps[0]).0;
        let rest = session_ids(q2, ps.drop_first());
        lemma_session_ids_bounded(q2, ps.drop_first());
        if q.waiting is Some {
            assert forall|k: int|
                0 <= k < session_ids(q, ps).len() implies q.cnt <= #[trigger] session_ids(
                q, ps)[k] < run_queue(q, ps).cnt by {
                assert(session_ids(q, ps) == seq![q.cnt] + rest);
                if k > 0 {
                    assert(session_ids(q, ps)[k] == rest[k - 1]);
                }
            }
        }
    }
}

/// Pairing determinism: on an empty slot, the first arrival waits and
/// occupies the slot; the second arrival pairs, the first player
/// becomes player 1 of the session, the second player 2, and the
/// session id is the counter value the first arrival saw.
pub proof fn lemma_pairing_determinism(q: QueueState, a: PlayerV, b: PlayerV)
    requires
        q.waiting is None,
    ensures
        enqueue_spec(q, a).1 == PairOutcome::Waiting,
        enqueue_spec(q, a).0.waiting == Option::Some(a),
        enqueue_spec(enqueue_spec(q, a).0, b).1 == (PairOutcome::Paired {
            game_id: q.cnt,
            player1: PlayerV { id: 1, name: a.name, state: a.state },
            player2: PlayerV { id: 2, name: b.name, state: b.state },
        }),
        enqueue_spec(enqueue_spec(q, a).0, b).0.waiting is None,
{
}

/// Session id uniqueness: over any sequence of arrivals, the allocated
/// session ids are strictly increasing, so all distinct.
pub proof fn lemma_session_ids_strictly_increase(q: QueueState, ps: Seq<PlayerV>)
    ensures
        forall|i: int, j: int|
            0 <= i < j < session_ids(q, ps).len() ==> #[trigger] session_ids(q, ps)[i]
                < #[trigger] session_ids(q, ps)[j],
    decreases ps.len(),
{
    if ps.len() > 0 {
        let q2 = enqueue_spec(q, ps[0]).0;
        let rest = session_ids(q2, ps.drop_first());
        lemma_session_ids_strictly_increase(q2, ps.drop_first());
        lemma_session_ids_bounded(q2, ps.drop_first());
        if q.waiting is Some {
            assert forall|i: int, j: int|
                0 <= i < j < session_ids(q, ps).len() implies #[trigger] session_ids(q, ps)[i]
                < #[trigger] session_ids(q, ps)[j] by {
                assert(session_ids(q, ps) == seq![q.cnt] + rest);
                if i == 0 {
                    assert(session_ids(q, ps)[j] == rest[j - 1]);
                    assert(q2.cnt == q.cnt + 1);
                } else {
                    assert(session_ids(q, ps)[i] == rest[i - 1]);
                    assert(session_ids(q, ps)[j] == rest[j - 1]);
                }
            }
        }
    }
}

} // verus!
