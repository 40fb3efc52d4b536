use vstd::prelude::*;
use crate::allocators::allocator::IAllocator;
use crate::allocators::list_stack_node::ListStackNode;
use crate::allocators::node::INode;
use crate::allocators::{MAX_BRANCH_FACTOR, MAX_DEEP};
use crate::piece_move::PieceMove;

verus! {

/// A store with one buffer for each depth below `MAX_DEEP`, each with
/// room for `MAX_BRANCH_FACTOR` moves from the start.
pub struct ListStackAllocator {
    pub nodes: Vec<ListStackNode>,
}

impl ListStackAllocator {
    /// A store of `MAX_DEEP` empty buffers.
    pub fn new() -> (store: ListStackAllocator)
        ensures
            store.nodes@.len() == MAX_DEEP,
            forall|key: usize| store.holds(key) <==> key < MAX_DEEP,
            forall|key: usize|
                store.holds(key) ==> #[trigger] store.slot(key) == Seq::<PieceMove>::empty(),
            forall|k: int|
                0 <= k < MAX_DEEP ==> (#[trigger] store.nodes@[k]).score == 0
                    && store.nodes@[k].vis == 0,
    {
        let mut nodes: Vec<ListStackNode> = Vec::with_capacity(MAX_DEEP);
        let mut made: usize = 0;
        while made < MAX_DEEP
            invariant
                made <= MAX_DEEP,
                nodes@.len() == made,
                forall|i: int|
                    0 <= i < made ==> (#[trigger] nodes@[i]).moves@ == Seq::<PieceMove>::empty()
                        && nodes@[i].score == 0 && nodes@[i].vis == 0,
            decreases MAX_DEEP - made,
        {
            nodes.push(ListStackNode::new(MAX_BRANCH_FACTOR));
            made += 1;
        }
        ListStackAllocator { nodes }
    }
}

impl IAllocator for ListStackAllocator {
    type Node = ListStackNode;

    type Key = usize;

    open spec fn holds(&self, key: usize) -> bool {
        key < self.nodes@.len()
    }

    open spec fn slot(&self, key: usize) -> Seq<PieceMove> {
        self.nodes@[key as int].moves@
    }

    /// Empties every buffer and sets every score and visit count to `0`.
    fn clean(&mut self)
        ensures
            final(self).nodes@.len() == old(self).nodes@.len(),
            forall|k: int|
                0 <= k < final(self).nodes@.len() ==> (#[trigger] final(self).nodes@[k]).score == 0
                    && final(self).nodes@[k].vis == 0,
    {
        let mut i: usize = 0;
        while i < self.nodes.len()
            invariant
                i <= self.nodes@.len(),
                self.nodes@.len() == old(self).nodes@.len(),
                forall|k: int|
                    0 <= k < i ==> (#[trigger] self.nodes@[k]).moves@ == Seq::<PieceMove>::empty()
                        && self.nodes@[k].score == 0 && self.nodes@[k].vis == 0,
            decreases self.nodes@.len() - i,
        {
            let node = &mut self.nodes[i];
            node.clear();
            i += 1;
        }
    }

    fn get_node(&mut self, key: usize) -> (node: &mut ListStackNode)
        ensures
            final(self).nodes@.len() == old(self).nodes@.len(),
            forall|other: int|
                0 <= other < old(self).nodes@.len() && other != key ==> final(self).nodes@[other]
                    == old(self).nodes@[other],
            final(self).nodes@[key as int] == *final(node),
    {
        let node = &mut self.nodes[key];
        node.clear();
        node
    }
}

} // verus!
