use rand::seq::IndexedRandom;
use vstd::prelude::*;
use crate::piece_move::PieceMove;

verus! {

/// `rand::seq::IndexedRandom::choose` on the list, with the generator
/// that `rand::rng` gives the thread: one of the moves of the list, and
/// none only if the list is empty. Which move it is depends on chance.
#[verifier::external_body]
pub(crate) fn choose_move(moves: &Vec<PieceMove>) -> (chosen: Option<PieceMove>)
    ensures
        moves@.len() == 0 ==> chosen is None,
        moves@.len() > 0 ==> chosen is Some,
        chosen is Some ==> moves@.contains(chosen.unwrap()),
{
    moves.choose(&mut rand::rng()).copied()
}

} // verus!
