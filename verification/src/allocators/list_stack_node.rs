use vstd::prelude::*;
use crate::allocators::node::INode;
use crate::piece_move::PieceMove;

verus! {

/// A buffer of moves with the score and the visit count that a search
/// keeps beside them.
pub struct ListStackNode {
    pub score: i32,
    pub vis: i32,
    pub moves: Vec<PieceMove>,
}

impl ListStackNode {
    /// An empty buffer with room for `capacity` moves.
    pub fn new(capacity: usize) -> (node: ListStackNode)
        ensures
            node.moves@ == Seq::<PieceMove>::empty(),
            node.score == 0,
            node.vis == 0,
    {
        ListStackNode { score: 0, vis: 0, moves: Vec::with_capacity(capacity) }
    }
}

impl INode for ListStackNode {
    open spec fn moves(&self) -> Seq<PieceMove> {
        self.moves@
    }

    /// Empties the buffer and sets the score and the visit count to `0`.
    /// The list keeps the room that it has.
    fn clear(&mut self)
        ensures
            final(self).score == 0,
            final(self).vis == 0,
    {
        self.score = 0;
        self.vis = 0;
        self.moves.clear();
    }

    fn len(&self) -> (n: usize) {
        self.moves.len()
    }

    fn is_empty(&self) -> (empty: bool) {
        self.moves.is_empty()
    }

    fn set_moves(&mut self, moves: Vec<PieceMove>)
        ensures
            final(self).score == old(self).score,
            final(self).vis == old(self).vis,
    {
        self.moves = moves;
    }

    fn take_moves(&mut self) -> (moves: Vec<PieceMove>)
        ensures
            final(self).score == old(self).score,
            final(self).vis == old(self).vis,
    {
        let mut taken: Vec<PieceMove> = Vec::new();
        core::mem::swap(&mut self.moves, &mut taken);
        taken
    }

    fn as_slice(&self) -> (moves: &[PieceMove]) {
        self.moves.as_slice()
    }

    fn as_slice_mut(&mut self) -> (moves: &mut [PieceMove]) {
        self.moves.as_mut_slice()
    }
}

} // verus!
