use vstd::prelude::*;

pub mod allocator;
pub mod list_stack_allocator;
pub mod list_stack_node;
pub mod node;

verus! {

/// The greatest depth to which a search may go: the number of slots of
/// an allocator.
pub const MAX_DEEP: usize = 32;

/// More moves than any position offers: the room that each slot of an
/// allocator has from the start.
pub const MAX_BRANCH_FACTOR: usize = 256;

} // verus!
