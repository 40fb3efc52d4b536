use vstd::prelude::*;
use crate::bot::SEARCH_ROOM;
use crate::game::Game;
use crate::piece_move::PieceMove;

verus! {

/// Whether a move can be searched for in `game`: the game is well
/// formed, its position is playable and offers a legal move, and the
/// game has room for the search.
pub open spec fn can_search(game: &Game) -> bool {
    &&& game.wf()
    &&& game@.position.playable()
    &&& exists|m: PieceMove| game@.position.legal(m)
    &&& game@.room(SEARCH_ROOM as nat)
}

/// A player that chooses its own moves.
pub trait IBot {
    /// Whether the player is set up to search.
    spec fn ready(&self) -> bool;

    /// A legal move for the player to move, chosen as the player sees
    /// fit. The game itself is left alone.
    fn get_best_move(&mut self, game: &Game) -> (best: PieceMove)
        requires
            old(self).ready(),
            can_search(game),
        ensures
            final(self).ready(),
            game@.position.legal(best),
    ;
}

} // verus!
