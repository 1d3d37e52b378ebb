use vstd::prelude::*;
use crate::ledger::block::BlockHeader;

verus! {

#[derive(Debug, Clone, Copy, PartialEq, Eq, Structural)]
pub enum ConsensusError {
    InvalidSignature,
    UnknownValidator,
    SlashedValidator,
}

impl ConsensusError {
    /// The text shown for this error.
    pub fn message(&self) -> (s: String)
        ensures
            s@ == match *self {
                ConsensusError::InvalidSignature => "Invalid block signature"@,
                ConsensusError::UnknownValidator => "Validator not found"@,
                ConsensusError::SlashedValidator => "Validator is slashed"@,
            },
    {
        match self {
            ConsensusError::InvalidSignature => "Invalid block signature".to_string(),
            ConsensusError::UnknownValidator => "Validator not found".to_string(),
            ConsensusError::SlashedValidator => "Validator is slashed".to_string(),
        }
    }
}

pub trait ConsensusEngine {
    /// Verifies that a block header is valid according to the consensus rules.
    fn verify_block_header(&self, header: &BlockHeader) -> Result<(), ConsensusError>;

    /// Given a list of fork tips, chooses the best one.
    fn choose_fork<'a>(&self, forks: &'a [BlockHeader]) -> Option<&'a BlockHeader>;
}

} // verus!
