use vstd::prelude::*;

use crate::account::AccountId;

verus! {

/// The keys under which the proposals contract keeps its state.
#[derive(Clone, Copy, Debug)]
pub enum ProposalsKey {
    Admin,
    Treasury,
    NextId,
    Proposal(u32),
    /// Whether an address has voted on a proposal.
    Voted(u32, AccountId),
}

/// A withdrawal proposal and its tally.
#[derive(Debug)]
pub struct Proposal {
    pub proposer: AccountId,
    pub description: String,
    pub amount: i128,
    pub recipient: AccountId,
    pub yes_votes: u32,
    pub no_votes: u32,
    /// The ledger time at which voting closes.
    pub end_time: u64,
    pub executed: bool,
}

impl Proposal {
    /// A copy of the proposal.
    pub fn duplicate(&self) -> (r: Proposal)
        ensures
            r == *self,
    {
        Proposal {
            proposer: self.proposer,
            description: self.description.clone(),
            amount: self.amount,
            recipient: self.recipient,
            yes_votes: self.yes_votes,
            no_votes: self.no_votes,
            end_time: self.end_time,
            executed: self.executed,
        }
    }
}

/// Published when a proposal is created.
#[derive(Clone, Copy, Debug)]
pub struct ProposalCreatedEvent {
    pub id: u32,
    pub proposer: AccountId,
    pub amount: i128,
}

/// Published when a vote is cast.
#[derive(Clone, Copy, Debug)]
pub struct VoteCastEvent {
    pub proposal_id: u32,
    pub voter: AccountId,
    pub approve: bool,
}

/// Published when a proposal is executed.
#[derive(Clone, Copy, Debug)]
pub struct ProposalExecutedEvent {
    pub proposal_id: u32,
    pub passed: bool,
}

/// An event published by the proposals contract.
#[derive(Clone, Copy, Debug)]
pub enum ProposalsEvent {
    /// Topic `proposal_created`.
    Created(ProposalCreatedEvent),
    /// Topic `vote_cast`.
    VoteCast(VoteCastEvent),
    /// Topic `proposal_executed`.
    Executed(ProposalExecutedEvent),
}

} // verus!
