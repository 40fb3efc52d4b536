use vstd::prelude::*;
use crate::allocators::allocator::IAllocator;
use crate::allocators::node::INode;
use crate::allocators::MAX_DEEP;
use crate::bot::bot::IBot;
use crate::bot::{is_better, no_worse, worst_score};
use crate::board::Board;
use crate::evaluation_function::{evaluation, static_evaluation, MATE_VALUE};
use crate::game::{Game, GameEnum, GameView};
use crate::game_rules::end_status;
use crate::laws::lemma_board_determined;
use crate::piece::Color;
use crate::piece_move::PieceMove;
use crate::position::Position;

verus! {

/// The board that writes down `position`.
pub open spec fn board_of(position: Position) -> Board {
    choose|board: Board| board.wf() && board@ == position
}

/// The score of a game that has ended: `MATE_VALUE` for White's win, its
/// opposite for Black's, `0` for a draw.
pub open spec fn result_score(status: GameEnum) -> int {
    match status {
        GameEnum::WhiteWon => 20000,
        GameEnum::BlackWon => -20000,
        _ => 0,
    }
}

/// The status of a game after a move as the search sees it: that of
/// the game, unless the player to move has no legal move, which ends
/// the game by mate or stalemate.
pub open spec fn searched_status(reached: GameView) -> GameEnum {
    if exists|m: PieceMove| reached.position.legal(m) {
        reached.status
    } else {
        end_status(reached.position)
    }
}

/// How far the search still goes below the depth `deep`.
pub open spec fn depth_left(deep: nat, max_deep: nat) -> nat {
    if deep <= max_deep {
        (max_deep - deep) as nat
    } else {
        0
    }
}

/// Whether `score` is the score of the move `mv`, made in the game `g`
/// at the depth `deep` of a search that goes to the depth `max_deep`.
/// At the greatest depth the score is the evaluation of the game after
/// the move. Before that it is the score of the result if the game has
/// ended; else it is the score of a reply that is no worse, for the
/// player who replies, than any other.
#[verifier::opaque]
pub open spec fn is_search_score(
    g: GameView,
    mv: PieceMove,
    deep: nat,
    max_deep: nat,
    score: int,
) -> bool
    decreases 2 * depth_left(deep, max_deep),
{
    let reached = g.do_move(mv);
    if deep >= max_deep {
        score == evaluation(reached.status, board_of(reached.position))
    } else if searched_status(reached) != GameEnum::InAction {
        score == result_score(searched_status(reached))
    } else {
        is_best_score(reached, deep + 1, max_deep, score)
    }
}

/// Whether `score` is the score of a legal move in the game `reached`,
/// made at the depth `deep`, that is no worse for the player to move
/// than any other.
pub open spec fn is_best_score(reached: GameView, deep: nat, max_deep: nat, score: int) -> bool
    decreases 2 * depth_left(deep, max_deep) + 1,
{
    &&& exists|m: PieceMove|
        #[trigger] reached.position.legal(m) && is_search_score(reached, m, deep, max_deep, score)
    &&& forall|m: PieceMove, other: int|
        #![trigger reached.position.legal(m), no_worse(reached.position.side, score, other)]
        reached.position.legal(m) && is_search_score(reached, m, deep, max_deep, other)
            ==> no_worse(reached.position.side, score, other)
}

/// Whether `best` is a legal move in the game `start` whose score in a
/// search to the depth `max_deep` is no worse for the player to move
/// than that of any other legal move.
pub open spec fn is_best_move(start: GameView, max_deep: nat, best: PieceMove) -> bool {
    &&& start.position.legal(best)
    &&& exists|score: int|
        #[trigger] is_search_score(start, best, 1, max_deep, score) && forall|
            m: PieceMove,
            other: int,
        |
            #![trigger start.position.legal(m), no_worse(start.position.side, score, other)]
            start.position.legal(m) && is_search_score(start, m, 1, max_deep, other) ==> no_worse(
                start.position.side,
                score,
                other,
            )
}

/// Whether `best` stands in `list` before every move with a score as
/// good as its own: every move before it has a score that is worse for
/// the player to move.
pub open spec fn is_first_best(
    start: GameView,
    max_deep: nat,
    list: Seq<PieceMove>,
    best: PieceMove,
) -> bool {
    exists|k: int, score: int|
        0 <= k < list.len() && list[k] == best && #[trigger] is_search_score(
            start,
            list[k],
            1,
            max_deep,
            score,
        ) && forall|j: int, other: int|
            0 <= j < k && #[trigger] is_search_score(start, list[j], 1, max_deep, other)
                ==> !no_worse(start.position.side, other, score)
}

/// A move has one score only.
pub proof fn lemma_one_score(
    g: GameView,
    mv: PieceMove,
    deep: nat,
    max_deep: nat,
    score: int,
    other: int,
)
    requires
        is_search_score(g, mv, deep, max_deep, score),
        is_search_score(g, mv, deep, max_deep, other),
    ensures
        score == other,
{
    reveal(is_search_score);
    let reached = g.do_move(mv);
    if deep < max_deep && searched_status(reached) == GameEnum::InAction {
        let side = reached.position.side;
        let by_score = choose|m: PieceMove|
            #[trigger] reached.position.legal(m) && is_search_score(
                reached,
                m,
                deep + 1,
                max_deep,
                score,
            );
        let by_other = choose|m: PieceMove|
            #[trigger] reached.position.legal(m) && is_search_score(
                reached,
                m,
                deep + 1,
                max_deep,
                other,
            );
        assert(reached.position.legal(by_score) && reached.position.legal(by_other));
        assert(no_worse(side, score, other));
        assert(no_worse(side, other, score));
    }
}

/// A player that looks `max_deep` moves ahead and takes each player to
/// choose what is best for that player; its move buffers come from the
/// store `memory`, one for each depth.
pub struct MinMaxBot<A> where A: IAllocator {
    pub memory: A,
    pub max_deep: usize,
}

impl<A> MinMaxBot<A> where A: IAllocator<Key = usize> {
    /// Whether the store has a buffer for each depth that the search
    /// reaches.
    pub open spec fn equipped(&self) -> bool {
        &&& 1 <= self.max_deep <= MAX_DEEP
        &&& forall|depth: usize| depth < self.max_deep ==> #[trigger] self.memory.holds(depth)
    }

    /// A player that looks `max_deep` moves ahead, with the store
    /// `allocator` for its buffers.
    pub fn new(allocator: A, max_deep: usize) -> (bot: MinMaxBot<A>)
        ensures
            bot.memory == allocator,
            bot.max_deep == max_deep,
    {
        MinMaxBot { memory: allocator, max_deep: max_deep }
    }

    /// The score of the move `mv`, made at the depth `deep` of the
    /// search: that of the evaluation at the greatest depth or when the
    /// game has ended, else the best of the scores of the replies for
    /// the player who makes them. The game is left as it was, played on.
    #[verifier::rlimit(40)]
    pub fn do_min_max(&mut self, mv: &PieceMove, deep: usize, game: &mut Game) -> (score: i32)
        requires
            old(self).equipped(),
            1 <= deep <= old(self).max_deep,
            old(game).wf(),
            old(game)@.position.playable(),
            old(game)@.position.legal(*mv),
            old(game)@.room((old(self).max_deep - deep + 1) as nat),
        ensures
            final(self).equipped(),
            final(self).max_deep == old(self).max_deep,
            final(game).wf(),
            final(game)@ == (GameView { status: GameEnum::InAction, ..old(game)@ }),
            is_search_score(old(game)@, *mv, deep as nat, old(self).max_deep as nat, score as int),
            -176000 <= score <= 176000,
        decreases old(self).max_deep - deep,
    {
        let ghost before = game@;
        proof {
            before.position.lemma_legal_keeps_playable(*mv);
            before.lemma_do_move(*mv);
            before.lemma_room_after_move(*mv, (self.max_deep - deep) as nat);
            game.lemma_room();
        }
        game.do_move(mv);
        let ghost reached = game@;
        let ghost max_deep = self.max_deep as nat;
        if deep == self.max_deep {
            let score = static_evaluation(game);
            proof {
                lemma_board_determined(game.board, board_of(reached.position));
                reveal(is_search_score);
            }
            game.undo_move();
            return score;
        }
        let node = self.memory.get_node(deep);
        node.clear();
        node.set_moves(game.board.generate_all_moves());
        proof {
            if node.moves().len() > 0 {
                assert(node.moves().contains(node.moves()[0]));
                assert(reached.position.legal(node.moves()[0]));
            } else {
                assert forall|m: PieceMove| !reached.position.legal(m) by {
                    assert(!node.moves().contains(m));
                }
            }
        }
        if node.is_empty() {
            game.try_update_game_enum();
        }
        assert(game.game_enum == searched_status(reached));
        if game.game_enum != GameEnum::InAction {
            let score = match game.game_enum {
                GameEnum::WhiteWon => MATE_VALUE,
                GameEnum::BlackWon => -MATE_VALUE,
                _ => 0,
            };
            proof {
                assert(game@.undo_move() == reached.undo_move());
                assert(is_search_score(before, *mv, deep as nat, max_deep, score as int)) by {
                    reveal(is_search_score);
                }
            }
            game.undo_move();
            return score;
        }
        let moves = node.take_moves();
        let side = game.board.get_size_to_move();
        let mut best_score = worst_score(side);
        let ghost mut best_at: int = 0;
        let mut i: usize = 0;
        while i < moves.len()
            invariant
                i <= moves.len(),
                self.equipped(),
                self.max_deep == old(self).max_deep,
                max_deep == self.max_deep,
                1 <= deep < self.max_deep,
                game.wf(),
                game@ == reached,
                reached.status == GameEnum::InAction,
                reached.position.playable(),
                reached.room((self.max_deep - deep) as nat),
                side == reached.position.side,
                forall|m: PieceMove| #[trigger] moves@.contains(m) <==> reached.position.legal(m),
                i == 0 ==> best_score == match side {
                    Color::White => i32::MIN,
                    Color::Black => i32::MAX,
                },
                i > 0 ==> -176000 <= best_score <= 176000,
                i > 0 ==> 0 <= best_at < i && is_search_score(
                    reached,
                    moves@[best_at],
                    (deep + 1) as nat,
                    max_deep,
                    best_score as int,
                ),
                forall|j: int, other: int|
                    0 <= j < i && #[trigger] is_search_score(
                        reached,
                        moves@[j],
                        (deep + 1) as nat,
                        max_deep,
                        other,
                    ) ==> no_worse(side, best_score as int, other),
            decreases moves.len() - i,
        {
            let reply = moves[i];
            proof {
                assert(moves@.contains(reply));
            }
            let ghost best_before = best_score;
            let score = self.do_min_max(&reply, deep + 1, game);
            proof {
                assert forall|other: int| #[trigger]
                    is_search_score(
                        reached,
                        moves@[i as int],
                        (deep + 1) as nat,
                        max_deep,
                        other,
                    ) implies other == score by {
                    lemma_one_score(
                        reached,
                        moves@[i as int],
                        (deep + 1) as nat,
                        max_deep,
                        score as int,
                        other,
                    );
                }
                if !no_worse(side, best_score as int, score as int) {
                    best_at = i as int;
                }
            }
            if is_better(side, score, best_score) {
                best_score = score;
            }
            i += 1;
        }
        self.memory.get_node(deep).set_moves(moves);
        proof {
            assert(moves@.len() > 0);
            assert(moves@.contains(moves@[best_at]));
            assert forall|m: PieceMove, other: int|
                #![trigger reached.position.legal(m), no_worse(side, best_score as int, other)]
                reached.position.legal(m) && is_search_score(
                    reached,
                    m,
                    (deep + 1) as nat,
                    max_deep,
                    other,
                ) implies no_worse(side, best_score as int, other) by {
                assert(moves@.contains(m));
                let k = choose|k: int| 0 <= k < moves@.len() && moves@[k] == m;
                assert(is_search_score(reached, moves@[k], (deep + 1) as nat, max_deep, other));
            }
            assert(is_search_score(
                reached,
                moves@[best_at],
                (deep + 1) as nat,
                max_deep,
                best_score as int,
            ));
            assert(reached.position.legal(moves@[best_at]));
            reveal(is_search_score);
            assert(is_best_score(reached, (deep + 1) as nat, max_deep, best_score as int));
            assert(is_search_score(before, *mv, deep as nat, max_deep, best_score as int)) by {
                reveal(is_search_score);
            }
        }
        game.undo_move();
        best_score
    }
}

impl<A> IBot for MinMaxBot<A> where A: IAllocator<Key = usize> {
    open spec fn ready(&self) -> bool {
        self.equipped()
    }

    /// The legal move with the best score for the player to move; of
    /// several such moves the first that the move generator gives.
    #[verifier::rlimit(40)]
    fn get_best_move(&mut self, game: &Game) -> (best: PieceMove)
        ensures
            game@.status == GameEnum::InAction ==> is_best_move(
                GameView { history: Seq::empty(), ..game@ },
                old(self).max_deep as nat,
                best,
            ),
            game@.status == GameEnum::InAction ==> is_first_best(
                GameView { history: Seq::empty(), ..game@ },
                old(self).max_deep as nat,
                game@.position.legal_list(),
                best,
            ),
    {
        let mut game = Game::from(game);
        let root_node = self.memory.get_node(0);
        root_node.clear();
        let moves = game.board.generate_all_moves();
        proof {
            let m = choose|m: PieceMove| game@.position.legal(m);
            assert(moves@.contains(m));
            assert(moves@.contains(moves@[0]));
        }
        let ghost start = game@;
        let ghost max_deep = self.max_deep as nat;
        let side = game.board.get_size_to_move();
        let mut best_move = moves[0];
        let mut best_score = worst_score(side);
        let ghost mut best_at: int = 0;
        let mut i: usize = 0;
        while i < moves.len()
            invariant
                i <= moves.len(),
                moves@.len() > 0,
                moves@ == start.position.legal_list(),
                0 <= best_at < moves@.len(),
                i > 0 ==> best_at < i,
                moves@[best_at] == best_move,
                start.status == GameEnum::InAction ==> forall|j: int, other: int|
                    0 <= j < best_at && #[trigger] is_search_score(
                        start,
                        moves@[j],
                        1,
                        max_deep,
                        other,
                    ) ==> !no_worse(side, other, best_score as int),
                self.equipped(),
                max_deep == self.max_deep == old(self).max_deep,
                game.wf(),
                game@.position == start.position,
                game@.history == start.history,
                game@.counts == start.counts,
                i > 0 ==> game@.status == GameEnum::InAction,
                i == 0 ==> game@ == start,
                start.position.playable(),
                start.room(256),
                side == start.position.side,
                forall|m: PieceMove| #[trigger] moves@.contains(m) <==> start.position.legal(m),
                start.position.legal(best_move),
                i == 0 ==> best_score == match side {
                    Color::White => i32::MIN,
                    Color::Black => i32::MAX,
                },
                i > 0 ==> -176000 <= best_score <= 176000,
                i > 0 && start.status == GameEnum::InAction ==> is_search_score(
                    start,
                    best_move,
                    1,
                    max_deep,
                    best_score as int,
                ),
                start.status == GameEnum::InAction ==> forall|j: int, other: int|
                    0 <= j < i && #[trigger] is_search_score(
                        start,
                        moves@[j],
                        1,
                        max_deep,
                        other,
                    ) ==> no_worse(side, best_score as int, other),
            decreases moves.len() - i,
        {
            let mv = moves[i];
            proof {
                assert(moves@.contains(mv));
            }
            let ghost asked = game@;
            let score = self.do_min_max(&mv, 1, &mut game);
            proof {
                if start.status == GameEnum::InAction {
                    assert(asked == start);
                    assert forall|other: int| #[trigger]
                        is_search_score(start, moves@[i as int], 1, max_deep, other) implies other
                        == score by {
                        lemma_one_score(start, moves@[i as int], 1, max_deep, score as int, other);
                    }
                }
            }
            if is_better(side, score, best_score) {
                best_score = score;
                best_move = mv;
                proof {
                    best_at = i as int;
                }
            }
            i += 1;
        }
        proof {
            if start.status == GameEnum::InAction {
                assert(is_search_score(start, moves@[best_at], 1, max_deep, best_score as int));
                assert(is_first_best(start, max_deep, moves@, best_move));
                assert forall|m: PieceMove, other: int|
                    #![trigger
                        start.position.legal(m),
                        no_worse(start.position.side, best_score as int, other),
                    ]
                    start.position.legal(m) && is_search_score(
                        start,
                        m,
                        1,
                        max_deep,
                        other,
                    ) implies no_worse(start.position.side, best_score as int, other) by {
                    assert(moves@.contains(m));
                    let k = choose|k: int| 0 <= k < moves@.len() && moves@[k] == m;
                    assert(is_search_score(start, moves@[k], 1, max_deep, other));
                }
                assert(is_search_score(start, best_move, 1, max_deep, best_score as int));
            }
        }
        best_move
    }
}

} // verus!
