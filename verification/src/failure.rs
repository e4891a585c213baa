//! How processing a block fails: at which stage, and for which block.

use vstd::prelude::*;
use crate::model::{BlockData, Bytes32};

verus! {

/// The stage of block processing at which a failure arose.
#[derive(Clone, Copy, Debug, PartialEq, Eq, Structural)]
pub enum Stage {
    /// A transaction's token list could not be put into text.
    Walk,
    /// The amounts that a transaction moved out do not add up within 64 bits.
    Classify,
    /// The gas limits of the block's transactions do not add up within 64 bits.
    Assemble,
    /// Storage refused a record.
    Persist,
}

/// A failure that ends the processing of one block: nothing of that block is
/// to be stored.
#[derive(Clone, Copy, Debug, PartialEq, Eq)]
pub struct BlockFailure {
    pub stage: Stage,
    pub height: u64,
    pub hash: Bytes32,
}

impl BlockFailure {
    /// The failure of `block` at `stage`.
    pub fn at(stage: Stage, block: &BlockData) -> (failure: Self)
        ensures
            failure == failure_of(stage, *block),
    {
        BlockFailure { stage, height: block.height, hash: block.id }
    }
}

/// The failure of `block` at `stage`: it names the block by height and hash.
pub open spec fn failure_of(stage: Stage, block: BlockData) -> BlockFailure {
    BlockFailure { stage, height: block.height, hash: block.id }
}

} // verus!
