use vstd::prelude::*;
use crate::allocators::allocator::IAllocator;
use crate::allocators::list_stack_allocator::ListStackAllocator;
use crate::allocators::node::INode;
use crate::allocators::MAX_DEEP;
use crate::bot::bot::IBot;
use crate::bot::{is_better, worst_score};
use crate::evaluation_function::monte_carlo;
use crate::game::Game;
use crate::piece_move::PieceMove;

verus! {

/// A player that tries each legal move and judges it by walks of chance
/// from the position that it leads to.
pub struct McBot {
    pub memory: ListStackAllocator,
    pub no_itr: usize,
}

impl McBot {
    /// A player that judges each move by `no_itr` walks.
    pub fn new(no_itr: usize) -> (bot: McBot)
        ensures
            bot.no_itr == no_itr,
            bot.memory.nodes@.len() == MAX_DEEP,
            no_itr <= i32::MAX ==> bot.ready(),
    {
        McBot { memory: ListStackAllocator::new(), no_itr: no_itr }
    }
}

impl IBot for McBot {
    open spec fn ready(&self) -> bool {
        &&& self.memory.holds(0)
        &&& self.no_itr <= i32::MAX
    }

    /// The legal move after which the walks of chance went best for the
    /// player to move; of several such moves the first that the move
    /// generator gives. The buffer of depth `0` is left with the legal
    /// moves of the position.
    fn get_best_move(&mut self, game: &Game) -> (best: PieceMove)
        ensures
            final(self).no_itr == old(self).no_itr,
            final(self).memory.slot(0) == game@.position.legal_list(),
            final(self).memory.slot(0).no_duplicates(),
            forall|m: PieceMove| #[trigger]
                final(self).memory.slot(0).contains(m) <==> game@.position.legal(m),
    {
        let mut game = Game::from(game);
        let root = self.memory.get_node(0);
        root.clear();
        root.set_moves(game.board.generate_all_moves());
        let moves = root.take_moves();
        proof {
            let m = choose|m: PieceMove| game@.position.legal(m);
            assert(moves@.contains(m));
            assert(moves@.contains(moves@[0]));
        }
        let ghost start = game@;
        let side = game.board.get_size_to_move();
        let mut best_move = moves[0];
        let mut best_score = worst_score(side);
        let mut i: usize = 0;
        while i < moves.len()
            invariant
                i <= moves.len(),
                self.no_itr == old(self).no_itr,
                moves@ == start.position.legal_list(),
                moves@.no_duplicates(),
                game.wf(),
                game@.position == start.position,
                game@.history == start.history,
                game@.counts == start.counts,
                start.position.playable(),
                start.room(256),
                start.history.len() == 0,
                self.no_itr <= i32::MAX,
                self.memory.holds(0),
                forall|m: PieceMove| #[trigger] moves@.contains(m) <==> start.position.legal(m),
                start.position.legal(best_move),
            decreases moves.len() - i,
        {
            let mv = moves[i];
            proof {
                assert(moves@.contains(mv));
                game@.position.lemma_legal_keeps_playable(mv);
                game@.lemma_do_move(mv);
                game@.lemma_room_after_move(mv, 255);
                game.lemma_room();
            }
            game.do_move(&mv);
            let curr_score = monte_carlo(&game, self.no_itr);
            game.undo_move();
            if is_better(side, curr_score, best_score) {
                best_score = curr_score;
                best_move = mv;
            }
            i += 1;
        }
        self.memory.get_node(0).set_moves(moves);
        best_move
    }
}

} // verus!
