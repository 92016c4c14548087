use vstd::prelude::*;

verus! {

/// A block as it stands in a consensus round: its identifier, the validator
/// that signed it, its height, and the summary of its contents.
#[derive(Debug, Clone, PartialEq, Eq)]
pub struct PbftBlock {
    pub block_id: Vec<u8>,
    pub signer_id: Vec<u8>,
    pub block_num: u64,
    pub summary: Vec<u8>,
}

impl PbftBlock {
    pub fn get_block_id(&self) -> (r: &Vec<u8>)
        ensures
            r@ == self.block_id@,
    {
        &self.block_id
    }
}

/// The block under agreement in the current round.
#[derive(Debug, Clone, PartialEq, Eq)]
pub enum WorkingBlockOption {
    // There is no working block
    NoWorkingBlock,
    // A block has been announced in a `BlockNew` update, but has not been
    // assigned a sequence number yet
    TentativeWorkingBlock(Vec<u8>),
    // The block that the current round agrees on
    WorkingBlock(PbftBlock),
}

impl WorkingBlockOption {
    pub fn is_none(&self) -> (r: bool)
        ensures
            r == (*self is NoWorkingBlock),
    {
        match self {
            WorkingBlockOption::NoWorkingBlock => true,
            _ => false,
        }
    }

    /// True exactly when a full block is bound to the current round.
    pub fn is_some(&self) -> (r: bool)
        ensures
            r == (*self is WorkingBlock),
    {
        match self {
            WorkingBlockOption::WorkingBlock(_) => true,
            _ => false,
        }
    }
}

} // verus!
