use vstd::prelude::*;

verus! {

/// Errors of the consensus state.
#[derive(Debug, Clone, Copy, PartialEq, Eq, Structural)]
pub enum PbftError {
    /// A peer identifier or node identifier matches no member of the network.
    NodeNotFound,
    /// The peer list does not map node identifiers `0..n` one to one onto
    /// distinct peer identifiers.
    InvalidMembership,
}

} // verus!
