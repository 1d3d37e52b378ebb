use vstd::prelude::*;

verus! {

#[derive(Debug, Clone, Copy, PartialEq, Eq, Structural)]
pub enum ProposalState {
    Pending,
    Active,
    Passed,
    Rejected,
    Executed,
}

#[derive(Debug, Clone, Copy, PartialEq, Eq, Structural)]
pub enum VoteOption {
    Yes,
    No,
    Abstain,
}

#[derive(Debug, Clone)]
pub struct Vote {
    pub voter: Vec<u8>,
    pub option: VoteOption,
    pub weight: u64,
}

#[derive(Debug, Clone)]
pub struct Proposal {
    pub id: u64,
    pub description: String,
    /// The action to execute if the proposal passes.
    pub call_data: Vec<u8>,
    pub start_epoch: u64,
    pub end_epoch: u64,
    pub state: ProposalState,
    pub votes: Vec<Vote>,
}

/// Whether `proposal` is a pending proposal without votes, with these
/// particulars.
pub open spec fn is_new_proposal(
    proposal: Proposal,
    id: u64,
    description: String,
    call_data: Vec<u8>,
    start_epoch: u64,
    end_epoch: u64,
) -> bool {
    &&& proposal.id == id
    &&& proposal.description == description
    &&& proposal.call_data == call_data
    &&& proposal.start_epoch == start_epoch
    &&& proposal.end_epoch == end_epoch
    &&& proposal.state == ProposalState::Pending
    &&& proposal.votes@ == Seq::<Vote>::empty()
}

impl Proposal {
    /// A pending proposal without votes.
    pub fn new(
        id: u64,
        description: String,
        call_data: Vec<u8>,
        start_epoch: u64,
        end_epoch: u64,
    ) -> (proposal: Self)
        ensures
            is_new_proposal(proposal, id, description, call_data, start_epoch, end_epoch),
    {
        Self {
            id,
            description,
            call_data,
            start_epoch,
            end_epoch,
            state: ProposalState::Pending,
            votes: Vec::new(),
        }
    }
}

} // verus!
