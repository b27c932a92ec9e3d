use vstd::prelude::*;

use std::collections::HashMap;

use crate::account::AccountId;
use crate::proposal_storage::{Proposal, ProposalsEvent};
use crate::voting::{
    create_outcome, decide_execution, decide_vote, execute_outcome, found, initialize_outcome,
    read_proposal, vote_outcome, ProposalsConfig, ProposalsError, TreasuryWithdrawal,
};

verus! {

broadcast use vstd::std_specs::hash::group_hash_axioms;

/// A record that `voter` has voted on proposal `proposal_id`.
#[derive(Clone, Copy, Debug)]
pub struct Ballot {
    pub proposal_id: u32,
    pub voter: AccountId,
}

/// The whole state of the proposals contract, as a mathematical value.
#[verifier::ext_equal]
pub struct ProposalsState {
    pub config: ProposalsConfig,
    pub proposals: Map<u32, Proposal>,
    /// The pairs (proposal id, voter) of every vote cast.
    pub voted: Set<(u32, AccountId)>,
    /// The events published so far, oldest first.
    pub events: Seq<ProposalsEvent>,
}

/// The proposal stored under `id`, if any.
pub open spec fn stored(s: ProposalsState, id: u32) -> Option<Proposal> {
    if s.proposals.dom().contains(id) {
        Some(s.proposals[id])
    } else {
        None
    }
}

/// The state after `initialize`, or why it is refused.
pub open spec fn initialize_step(s: ProposalsState, admin: AccountId, treasury: AccountId) -> Result<
    ProposalsState,
    ProposalsError,
> {
    match initialize_outcome(s.config, admin, treasury) {
        Ok(c) => Ok(ProposalsState { config: c, ..s }),
        Err(e) => Err(e),
    }
}

/// The state after `create_proposal` and the new proposal's id, or why it is refused.
pub open spec fn create_step(
    s: ProposalsState,
    proposer: AccountId,
    description: String,
    amount: i128,
    recipient: AccountId,
    duration_secs: u64,
    now: u64,
) -> Result<(ProposalsState, u32), ProposalsError> {
    match create_outcome(
        s.config.next_id,
        proposer,
        description,
        amount,
        recipient,
        duration_secs,
        now,
    ) {
        Ok(c) => Ok(
            (
                ProposalsState {
                    config: ProposalsConfig { next_id: Some((c.id + 1) as u32), ..s.config },
                    proposals: s.proposals.insert(c.id, c.proposal),
                    voted: s.voted,
                    events: s.events.push(ProposalsEvent::Created(c.event)),
                },
                c.id,
            ),
        ),
        Err(e) => Err(e),
    }
}

/// The state after `cast_vote`, or why it is refused.
pub open spec fn vote_step(
    s: ProposalsState,
    voter: AccountId,
    proposal_id: u32,
    approve: bool,
    now: u64,
) -> Result<ProposalsState, ProposalsError> {
    match vote_outcome(
        stored(s, proposal_id),
        s.voted.contains((proposal_id, voter)),
        proposal_id,
        voter,
        approve,
        now,
    ) {
        Ok(v) => Ok(
            ProposalsState {
                proposals: s.proposals.insert(proposal_id, v.proposal),
                voted: s.voted.insert((proposal_id, voter)),
                events: s.events.push(ProposalsEvent::VoteCast(v.event)),
                ..s
            },
        ),
        Err(e) => Err(e),
    }
}

/// The state after `execute_proposal` and the treasury withdrawal it asks
/// for, or why it is refused.  `treasury_pays` is whether the treasury's
/// withdrawal returns normally when it is asked for one; when it fails, the
/// whole call fails with it and nothing is recorded.
pub open spec fn execute_step(s: ProposalsState, proposal_id: u32, now: u64, treasury_pays: bool) -> Result<
    (ProposalsState, Option<TreasuryWithdrawal>),
    ProposalsError,
> {
    match execute_outcome(stored(s, proposal_id), s.config.treasury, proposal_id, now) {
        Ok(x) => if x.withdrawal is Some && !treasury_pays {
            Err(ProposalsError::WithdrawalFailed)
        } else {
            Ok(
            (
                ProposalsState {
                    proposals: s.proposals.insert(proposal_id, x.proposal),
                    events: s.events.push(ProposalsEvent::Executed(x.event)),
                    ..s
                },
                x.withdrawal,
            ),
        )},
        Err(e) => Err(e),
    }
}

/// A proposals contract together with all of its storage.
pub struct ProposalsContract {
    config: ProposalsConfig,
    proposals: HashMap<u32, Proposal>,
    ballots: Vec<Ballot>,
    events: Vec<ProposalsEvent>,
}

impl View for ProposalsContract {
    type V = ProposalsState;

    closed spec fn view(&self) -> ProposalsState {
        ProposalsState {
            config: self.config,
            proposals: self.proposals@,
            voted: Set::new(
                |b: (u32, AccountId)|
                    exists|i: int|
                        0 <= i < self.ballots@.len() && #[trigger] self.ballots@[i]
                            == Ballot { proposal_id: b.0, voter: b.1 },
            ),
            events: self.events@,
        }
    }
}

impl ProposalsContract {
    /// A contract with empty storage.
    pub fn new() -> (r: ProposalsContract)
        ensures
            r@.config.admin is None,
            r@.config.treasury is None,
            r@.config.next_id is None,
            r@.proposals == Map::<u32, Proposal>::empty(),
            r@.voted == Set::<(u32, AccountId)>::empty(),
            r@.events == Seq::<ProposalsEvent>::empty(),
    {
        let r = ProposalsContract {
            config: ProposalsConfig::new(),
            proposals: HashMap::new(),
            ballots: Vec::new(),
            events: Vec::new(),
        };
        assert(r@.voted =~= Set::<(u32, AccountId)>::empty());
        r
    }

    /// Whether `voter` has voted on proposal `proposal_id`.
    fn has_voted(&self, proposal_id: u32, voter: &AccountId) -> (r: bool)
        ensures
            r == self@.voted.contains((proposal_id, *voter)),
    {
        let mut i: usize = 0;
        while i < self.ballots.len()
            invariant
                i <= self.ballots@.len(),
                forall|j: int|
                    0 <= j < i ==> self.ballots@[j] != (Ballot { proposal_id, voter: *voter }),
            decreases self.ballots@.len() - i,
        {
            let b = self.ballots[i];
            if b.proposal_id == proposal_id && b.voter.same_as(voter) {
                assert(self.ballots@[i as int] == (Ballot { proposal_id, voter: *voter }));
                return true;
            }
            i = i + 1;
        }
        false
    }

    /// Records the admin and the treasury, once, and resets the id counter.
    pub fn initialize(&mut self, admin: AccountId, treasury: AccountId) -> (r: Result<
        (),
        ProposalsError,
    >)
        ensures
            match initialize_step(old(self)@, admin, treasury) {
                Ok(s) => r is Ok && final(self)@ == s,
                Err(e) => r == Err::<(), ProposalsError>(e) && final(self)@ == old(self)@,
            },
    {
        let r = self.config.initialize(admin, treasury);
        proof {
            if r is Ok {
                assert(self@ =~= initialize_step(old(self)@, admin, treasury)->Ok_0);
            }
        }
        r
    }

    /// Creates a proposal to pay `amount` to `recipient`, open for votes for
    /// `duration_secs` from `now`; returns its id.
    pub fn create_proposal(
        &mut self,
        proposer: AccountId,
        description: String,
        amount: i128,
        recipient: AccountId,
        duration_secs: u64,
        now: u64,
    ) -> (r: Result<u32, ProposalsError>)
        ensures
            match create_step(
                old(self)@,
                proposer,
                description,
                amount,
                recipient,
                duration_secs,
                now,
            ) {
                Ok((s, id)) => r == Ok::<u32, ProposalsError>(id) && final(self)@ == s,
                Err(e) => r == Err::<u32, ProposalsError>(e) && final(self)@ == old(self)@,
            },
    {
        let ghost before = self@;
        match self.config.open_proposal(
            proposer,
            description,
            amount,
            recipient,
            duration_secs,
            now,
        ) {
            Err(e) => Err(e),
            Ok(c) => {
                let id = c.id;
                self.proposals.insert(id, c.proposal);
                self.events.push(ProposalsEvent::Created(c.event));
                proof {
                    assert(self@ =~= create_step(
                        before,
                        proposer,
                        description,
                        amount,
                        recipient,
                        duration_secs,
                        now,
                    )->Ok_0.0);
                }
                Ok(id)
            },
        }
    }

    /// Casts `voter`'s vote on proposal `proposal_id` at time `now`.
    pub fn cast_vote(&mut self, voter: AccountId, proposal_id: u32, approve: bool, now: u64) -> (r:
        Result<(), ProposalsError>)
        ensures
            match vote_step(old(self)@, voter, proposal_id, approve, now) {
                Ok(s) => r is Ok && final(self)@ == s,
                Err(e) => r == Err::<(), ProposalsError>(e) && final(self)@ == old(self)@,
            },
    {
        let ghost before = self@;
        let already = self.has_voted(proposal_id, &voter);
        let current = self.proposals.get(&proposal_id);
        assert(found(current) == stored(before, proposal_id));
        match decide_vote(current, already, proposal_id, voter, approve, now) {
            Err(e) => Err(e),
            Ok(v) => {
                self.proposals.insert(proposal_id, v.proposal);
                let ghost old_ballots = self.ballots@;
                self.ballots.push(Ballot { proposal_id, voter });
                self.events.push(ProposalsEvent::VoteCast(v.event));
                proof {
                    let after = vote_step(before, voter, proposal_id, approve, now)->Ok_0;
                    assert(self@.voted =~= after.voted) by {
                        assert forall|b: (u32, AccountId)| #[trigger]
                            self@.voted.contains(b) == after.voted.contains(b) by {
                            if after.voted.contains(b) && b != (proposal_id, voter) {
                                let k = choose|k: int|
                                    0 <= k < old_ballots.len() && #[trigger] old_ballots[k]
                                        == Ballot { proposal_id: b.0, voter: b.1 };
                                assert(self.ballots@[k] == old_ballots[k]);
                            }
                            if b == (proposal_id, voter) {
                                assert(self.ballots@[old_ballots.len() as int] == (Ballot {
                                    proposal_id: b.0,
                                    voter: b.1,
                                }));
                            }
                            if self@.voted.contains(b) {
                                let k = choose|k: int|
                                    0 <= k < self.ballots@.len() && #[trigger] self.ballots@[k]
                                        == Ballot { proposal_id: b.0, voter: b.1 };
                                if k < old_ballots.len() {
                                    assert(old_ballots[k] == self.ballots@[k]);
                                }
                            }
                        }
                    }
                    assert(self@ =~= after);
                }
                Ok(())
            },
        }
    }

    /// Executes proposal `proposal_id` at time `now`; returns the withdrawal
    /// it asks of the treasury, present exactly when the proposal passed.
    /// `treasury_pays` is the treasury's answer to that withdrawal: when it
    /// fails, the execution fails with it and nothing is recorded.
    pub fn execute_proposal(&mut self, proposal_id: u32, now: u64, treasury_pays: bool) -> (r: Result<
        Option<TreasuryWithdrawal>,
        ProposalsError,
    >)
        ensures
            match execute_step(old(self)@, proposal_id, now, treasury_pays) {
                Ok((s, w)) => r == Ok::<Option<TreasuryWithdrawal>, ProposalsError>(w)
                    && final(self)@ == s,
                Err(e) => r == Err::<Option<TreasuryWithdrawal>, ProposalsError>(e)
                    && final(self)@ == old(self)@,
            },
    {
        let ghost before = self@;
        let current = self.proposals.get(&proposal_id);
        assert(found(current) == stored(before, proposal_id));
        match decide_execution(current, self.config.treasury, proposal_id, now) {
            Err(e) => Err(e),
            Ok(x) => {
                let w = x.withdrawal;
                if w.is_some() && !treasury_pays {
                    return Err(ProposalsError::WithdrawalFailed);
                }
                self.proposals.insert(proposal_id, x.proposal);
                self.events.push(ProposalsEvent::Executed(x.event));
                proof {
                    assert(self@ =~= execute_step(before, proposal_id, now, treasury_pays)->Ok_0.0);
                }
                Ok(w)
            },
        }
    }

    /// The events published so far, oldest first.
    pub fn get_events(&self) -> (r: Vec<ProposalsEvent>)
        ensures
            r@ == self@.events,
    {
        let mut out: Vec<ProposalsEvent> = Vec::new();
        let mut i: usize = 0;
        while i < self.events.len()
            invariant
                i <= self.events@.len(),
                out@ == self.events@.subrange(0, i as int),
            decreases self.events@.len() - i,
        {
            out.push(self.events[i]);
            i = i + 1;
        }
        assert(self.events@.subrange(0, self.events@.len() as int) =~= self.events@);
        out
    }

    /// The proposal stored under `proposal_id`.
    pub fn get_proposal(&self, proposal_id: u32) -> (r: Result<Proposal, ProposalsError>)
        ensures
            r == (match stored(self@, proposal_id) {
                Some(p) => Ok(p),
                None => Err(ProposalsError::ProposalNotFound),
            }),
    {
        let current = self.proposals.get(&proposal_id);
        assert(found(current) == stored(self@, proposal_id));
        read_proposal(current)
    }
}

} // verus!
