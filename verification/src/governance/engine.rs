use std::collections::HashMap;
use vstd::prelude::*;
use crate::bytes::bytes_equal;
use crate::governance::proposal::{is_new_proposal, Proposal, ProposalState, Vote, VoteOption};

verus! {

broadcast use vstd::std_specs::hash::group_hash_axioms;

/// The weight of all votes together.
pub open spec fn total_weight(votes: Seq<Vote>) -> nat
    decreases votes.len(),
{
    if votes.len() == 0 {
        0
    } else {
        total_weight(votes.drop_last()) + votes.last().weight as nat
    }
}

/// The weight of the votes for `option`.
pub open spec fn weight_for(votes: Seq<Vote>, option: VoteOption) -> nat
    decreases votes.len(),
{
    if votes.len() == 0 {
        0
    } else if votes.last().option == option {
        weight_for(votes.drop_last(), option) + votes.last().weight as nat
    } else {
        weight_for(votes.drop_last(), option)
    }
}

/// Whether `voter` has a vote among `votes`.
pub open spec fn has_voted(votes: Seq<Vote>, voter: Seq<u8>) -> bool {
    exists|i: int| 0 <= i < votes.len() && (#[trigger] votes[i]).voter@ == voter
}

/// The state that a tally gives a proposal: passed if the votes reach the
/// quorum and the weight for it is larger than the weight against it, and
/// rejected otherwise.
pub open spec fn tally(votes: Seq<Vote>, quorum_threshold: u64) -> ProposalState {
    if total_weight(votes) >= quorum_threshold && weight_for(votes, VoteOption::Yes) > weight_for(
        votes,
        VoteOption::No,
    ) {
        ProposalState::Passed
    } else {
        ProposalState::Rejected
    }
}

/// Why a vote of `voter` on proposal `id` is refused, if it is: the proposal
/// is unknown, or it has a vote by this voter.
pub open spec fn vote_refusal(proposals: Map<u64, Proposal>, id: u64, voter: Seq<u8>) -> Option<
    Seq<char>,
> {
    if !proposals.contains_key(id) {
        Some("Proposal not found"@)
    } else if has_voted(proposals[id].votes@, voter) {
        Some("Already voted"@)
    } else {
        None
    }
}

/// Whether two proposals agree in all but state and votes.
pub open spec fn same_subject(before: Proposal, after: Proposal) -> bool {
    &&& after.id == before.id
    &&& after.description == before.description
    &&& after.call_data == before.call_data
    &&& after.start_epoch == before.start_epoch
    &&& after.end_epoch == before.end_epoch
}

/// Whether `after` is `before` with one more vote at the end, the one given.
pub open spec fn is_with_vote(
    before: Proposal,
    after: Proposal,
    voter: Vec<u8>,
    option: VoteOption,
    weight: u64,
) -> bool {
    &&& same_subject(before, after)
    &&& after.state == before.state
    &&& after.votes@.len() == before.votes@.len() + 1
    &&& after.votes@.drop_last() == before.votes@
    &&& after.votes@.last().voter == voter
    &&& after.votes@.last().option == option
    &&& after.votes@.last().weight == weight
}

/// Whether `after` is `before` in the state that the tally of its votes
/// gives it.
pub open spec fn is_tallied(before: Proposal, after: Proposal, quorum_threshold: u64) -> bool {
    &&& same_subject(before, after)
    &&& after.votes == before.votes
    &&& after.state == tally(before.votes@, quorum_threshold)
}

/// Whether two maps of proposals agree on every id but `id`, and have the
/// same ids.
pub open spec fn same_but(before: Map<u64, Proposal>, after: Map<u64, Proposal>, id: u64) -> bool {
    &&& after.dom() == before.dom()
    &&& forall|other: u64|
        other != id && before.contains_key(other) ==> #[trigger] after[other] == before[other]
}

/// The votes for one option weigh no more than all votes, and the first
/// votes weigh no more than all of them.
pub proof fn lemma_weight_bounds(votes: Seq<Vote>, option: VoteOption, n: int)
    requires
        0 <= n <= votes.len(),
    ensures
        weight_for(votes, option) <= total_weight(votes),
        total_weight(votes.take(n)) <= total_weight(votes),
    decreases votes.len(),
{
    if votes.len() > 0 {
        if n == votes.len() {
            assert(votes.take(n) =~= votes);
            lemma_weight_bounds(votes.drop_last(), option, 0);
        } else {
            assert(votes.drop_last().take(n) =~= votes.take(n));
            lemma_weight_bounds(votes.drop_last(), option, n);
        }
    } else {
        assert(votes.take(n) =~= votes);
    }
}

pub struct GovernanceEngine {
    pub proposals: HashMap<u64, Proposal>,
    pub next_proposal_id: u64,
    pub quorum_threshold: u64,
}

impl GovernanceEngine {
    /// An engine without proposals. The first proposal gets the id 1.
    pub fn new(quorum_threshold: u64) -> (engine: Self)
        ensures
            engine.proposals@ == Map::<u64, Proposal>::empty(),
            engine.next_proposal_id == 1,
            engine.quorum_threshold == quorum_threshold,
    {
        Self { proposals: HashMap::new(), next_proposal_id: 1, quorum_threshold }
    }

    /// Files a pending proposal that runs for `duration` epochs from
    /// `start_epoch`, under the next free id, and returns that id. Both the
    /// last epoch and the id after this one must fit in a `u64`.
    pub fn create_proposal(
        &mut self,
        description: String,
        call_data: Vec<u8>,
        start_epoch: u64,
        duration: u64,
    ) -> (id: u64)
        requires
            start_epoch + duration <= u64::MAX,
            old(self).next_proposal_id < u64::MAX,
        ensures
            id == old(self).next_proposal_id,
            final(self).next_proposal_id == id + 1,
            final(self).quorum_threshold == old(self).quorum_threshold,
            final(self).proposals@.contains_key(id),
            final(self).proposals@ == old(self).proposals@.insert(id, final(self).proposals@[id]),
            is_new_proposal(
                final(self).proposals@[id],
                id,
                description,
                call_data,
                start_epoch,
                (start_epoch + duration) as u64,
            ),
    {
        let id = self.next_proposal_id;
        let end_epoch = start_epoch + duration;
        let proposal = Proposal::new(id, description, call_data, start_epoch, end_epoch);
        self.proposals.insert(id, proposal);
        self.next_proposal_id += 1;
        id
    }

    /// Whether one of `votes` is by `voter`.
    fn already_voted(votes: &Vec<Vote>, voter: &[u8]) -> (found: bool)
        ensures
            found == has_voted(votes@, voter@),
    {
        let mut i: usize = 0;
        while i < votes.len()
            invariant
                i <= votes@.len(),
                forall|k: int| 0 <= k < i ==> (#[trigger] votes@[k]).voter@ != voter@,
            decreases votes@.len() - i,
        {
            if bytes_equal(votes[i].voter.as_slice(), voter) {
                return true;
            }
            i += 1;
        }
        false
    }

    /// Records the vote of `voter` on a proposal.
    ///
    /// Fails with `Proposal not found` for an unknown id and with
    /// `Already voted` if the proposal has a vote by this voter; nothing
    /// changes then. Otherwise the vote is added after the votes that the
    /// proposal has.
    pub fn cast_vote(
        &mut self,
        proposal_id: u64,
        voter: Vec<u8>,
        option: VoteOption,
        weight: u64,
    ) -> (res: Result<(), String>)
        ensures
            final(self).next_proposal_id == old(self).next_proposal_id,
            final(self).quorum_threshold == old(self).quorum_threshold,
            same_but(old(self).proposals@, final(self).proposals@, proposal_id),
            match vote_refusal(old(self).proposals@, proposal_id, voter@) {
                Some(refusal) => final(self).proposals@ == old(self).proposals@ && (res matches Err(
                    reason,
                ) && reason@ == refusal),
                None => res is Ok && is_with_vote(
                    old(self).proposals@[proposal_id],
                    final(self).proposals@[proposal_id],
                    voter,
                    option,
                    weight,
                ),
            },
    {
        let mut proposal = match self.proposals.remove(&proposal_id) {
            None => {
                assert(final(self).proposals@ =~= old(self).proposals@);
                return Err("Proposal not found".to_string());
            },
            Some(proposal) => proposal,
        };
        if Self::already_voted(&proposal.votes, voter.as_slice()) {
            self.proposals.insert(proposal_id, proposal);
            assert(final(self).proposals@ =~= old(self).proposals@);
            return Err("Already voted".to_string());
        }
        proposal.votes.push(Vote { voter, option, weight });
        assert(proposal.votes@.drop_last() =~= old(self).proposals@[proposal_id].votes@);
        self.proposals.insert(proposal_id, proposal);
        assert(final(self).proposals@.dom() =~= old(self).proposals@.dom());
        Ok(())
    }

    /// Sums the weights of the votes on a proposal.
    fn count(votes: &Vec<Vote>) -> (sums: (u64, u64, u64))
        requires
            total_weight(votes@) <= u64::MAX,
        ensures
            sums.0 == total_weight(votes@),
            sums.1 == weight_for(votes@, VoteOption::Yes),
            sums.2 == weight_for(votes@, VoteOption::No),
    {
        let mut total: u64 = 0;
        let mut yes: u64 = 0;
        let mut no: u64 = 0;
        let mut i: usize = 0;
        assert(votes@.take(0) =~= Seq::<Vote>::empty());
        while i < votes.len()
            invariant
                i <= votes@.len(),
                total_weight(votes@) <= u64::MAX,
                total == total_weight(votes@.take(i as int)),
                yes == weight_for(votes@.take(i as int), VoteOption::Yes),
                no == weight_for(votes@.take(i as int), VoteOption::No),
            decreases votes@.len() - i,
        {
            proof {
                let next = votes@.take(i + 1);
                assert(next.drop_last() =~= votes@.take(i as int));
                assert(next.last() == votes@[i as int]);
                lemma_weight_bounds(votes@, VoteOption::Yes, i + 1);
                lemma_weight_bounds(next, VoteOption::Yes, 0);
                lemma_weight_bounds(next, VoteOption::No, 0);
            }
            let weight = votes[i].weight;
            total += weight;
            match votes[i].option {
                VoteOption::Yes => {
                    yes += weight;
                },
                VoteOption::No => {
                    no += weight;
                },
                VoteOption::Abstain => {},
            }
            i += 1;
        }
        assert(votes@.take(i as int) =~= votes@);
        (total, yes, no)
    }

    /// Decides a proposal by the votes it has and returns its new state.
    ///
    /// Fails with `Proposal not found` for an unknown id. Otherwise the
    /// proposal is passed if its votes reach the quorum and the weight for
    /// it is larger than the weight against it, and rejected if not. The
    /// weights of its votes together must fit in a `u64`.
    pub fn tally_votes(&mut self, proposal_id: u64) -> (res: Result<ProposalState, String>)
        requires
            old(self).proposals@.contains_key(proposal_id) ==> total_weight(
                old(self).proposals@[proposal_id].votes@,
            ) <= u64::MAX,
        ensures
            final(self).next_proposal_id == old(self).next_proposal_id,
            final(self).quorum_threshold == old(self).quorum_threshold,
            same_but(old(self).proposals@, final(self).proposals@, proposal_id),
            !old(self).proposals@.contains_key(proposal_id) ==> ({
                &&& final(self).proposals@ == old(self).proposals@
                &&& res matches Err(reason) && reason@ == "Proposal not found"@
            }),
            old(self).proposals@.contains_key(proposal_id) ==> ({
                let before = old(self).proposals@[proposal_id];
                &&& res == Ok::<ProposalState, String>(
                    tally(before.votes@, old(self).quorum_threshold),
                )
                &&& is_tallied(
                    before,
                    final(self).proposals@[proposal_id],
                    old(self).quorum_threshold,
                )
            }),
    {
        let mut proposal = match self.proposals.remove(&proposal_id) {
            None => {
                assert(final(self).proposals@ =~= old(self).proposals@);
                return Err("Proposal not found".to_string());
            },
            Some(proposal) => proposal,
        };
        let (total_weight, yes_weight, no_weight) = Self::count(&proposal.votes);
        if total_weight < self.quorum_threshold {
            proposal.state = ProposalState::Rejected;
        } else if yes_weight > no_weight {
            proposal.state = ProposalState::Passed;
        } else {
            proposal.state = ProposalState::Rejected;
        }
        let state = proposal.state;
        self.proposals.insert(proposal_id, proposal);
        assert(final(self).proposals@.dom() =~= old(self).proposals@.dom());
        Ok(state)
    }
}

} // verus!
