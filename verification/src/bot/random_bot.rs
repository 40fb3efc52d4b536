use vstd::prelude::*;
use crate::bot::bot::IBot;
use crate::game::Game;
use crate::piece_move::PieceMove;
use crate::random::choose_move;

verus! {

/// A player that makes any legal move, chosen by chance.
pub struct RandomBot;

impl RandomBot {
    pub fn new() -> (bot: RandomBot)
        ensures
            bot.ready(),
    {
        RandomBot
    }
}

impl IBot for RandomBot {
    open spec fn ready(&self) -> bool {
        true
    }

    fn get_best_move(&mut self, game: &Game) -> (best: PieceMove) {
        let mut game = Game::from(game);
        let moves = game.board.generate_all_moves();
        proof {
            let m = choose|m: PieceMove| game@.position.legal(m);
            assert(moves@.contains(m));
        }
        match choose_move(&moves) {
            Some(chosen) => chosen,
            None => vstd::pervasive::unreached(),
        }
    }
}

} // verus!
