//! Blocks of bytes.

use vstd::prelude::*;

verus! {

/// A block of data, which may be the head of a chain of blocks.
#[derive(Debug)]
pub struct Block {
    pub data: Vec<u8>,
    pub next: Option<Box<Block>>,
}

impl Block {
    /// Creates an empty block.
    pub fn new() -> (b: Block)
        ensures
            b.data@ == Seq::<u8>::empty(),
            b.next is None,
    {
        Block { data: Vec::new(), next: None }
    }

    /// Creates an empty block with room for `cap` bytes.
    pub fn with_capacity(cap: usize) -> (b: Block)
        ensures
            b.data@ == Seq::<u8>::empty(),
            b.next is None,
    {
        Block { data: Vec::with_capacity(cap), next: None }
    }
}

} // verus!
