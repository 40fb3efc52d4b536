use vstd::prelude::*;
use crate::piece_move::PieceMove;

verus! {

/// A buffer of moves that a search fills at one depth.
pub trait INode {
    /// The moves that the buffer holds.
    spec fn moves(&self) -> Seq<PieceMove>;

    /// Empties the buffer.
    fn clear(&mut self)
        ensures
            final(self).moves() == Seq::<PieceMove>::empty(),
    ;

    /// The number of moves held.
    fn len(&self) -> (n: usize)
        ensures
            n == self.moves().len(),
    ;

    /// Whether no move is held.
    fn is_empty(&self) -> (empty: bool)
        ensures
            empty == (self.moves().len() == 0),
    ;

    /// Puts the list `moves` into the buffer in place of what it held.
    fn set_moves(&mut self, moves: Vec<PieceMove>)
        ensures
            final(self).moves() == moves@,
    ;

    /// Hands out the list that the buffer holds and leaves the buffer
    /// empty.
    fn take_moves(&mut self) -> (moves: Vec<PieceMove>)
        ensures
            moves@ == old(self).moves(),
            final(self).moves() == Seq::<PieceMove>::empty(),
    ;

    /// The moves held, to read.
    fn as_slice(&self) -> (moves: &[PieceMove])
        ensures
            moves@ == self.moves(),
    ;

    /// The moves held, to read and to change in place.
    fn as_slice_mut(&mut self) -> (moves: &mut [PieceMove])
        ensures
            moves@ == old(self).moves(),
            final(self).moves() == final(moves)@,
    ;
}

} // verus!
