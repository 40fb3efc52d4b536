use vstd::prelude::*;
use crate::allocators::list_stack_node::ListStackNode;
use crate::allocators::node::INode;
use crate::piece_move::PieceMove;

verus! {

/// A store of move buffers, one for each key; a search takes the buffer
/// of its depth, and no two depths share one.
pub trait IAllocator {
    type Node: INode;

    type Key: Copy;

    /// Whether the store has a buffer for `key`.
    spec fn holds(&self, key: Self::Key) -> bool;

    /// The moves in the buffer of `key`.
    spec fn slot(&self, key: Self::Key) -> Seq<PieceMove>;

    /// Empties every buffer.
    fn clean(&mut self)
        ensures
            forall|key: Self::Key| final(self).holds(key) == old(self).holds(key),
            forall|key: Self::Key|
                final(self).holds(key) ==> #[trigger] final(self).slot(key) == Seq::<
                    PieceMove,
                >::empty(),
    ;

    /// The buffer of `key`, emptied. What the caller does to it is done
    /// to the buffer of `key` in the store, and to no other.
    fn get_node(&mut self, key: Self::Key) -> (node: &mut ListStackNode)
        requires
            old(self).holds(key),
        ensures
            node.moves() == Seq::<PieceMove>::empty(),
            node.score == 0,
            node.vis == 0,
            forall|other: Self::Key| final(self).holds(other) == old(self).holds(other),
            final(self).slot(key) == final(node).moves(),
            forall|other: Self::Key|
                other != key && old(self).holds(other) ==> #[trigger] final(self).slot(other)
                    == old(self).slot(other),
    ;
}

} // verus!
