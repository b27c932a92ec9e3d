use vstd::prelude::*;

use crate::account::{xdr_encoding, AccountId, AddressKind};
use crate::proposal_storage::{Proposal, ProposalsEvent};
use crate::proposals::{create_step, execute_step, initialize_step, stored, vote_step, ProposalsState};
use crate::treasury::{
    deposit_outcome, member_seq, set_proposals_step, treasury_initialize_step, withdraw_outcome,
    TreasuryState,
};
use crate::voting::{create_outcome, execute_outcome, initialize_outcome, upcoming_id, vote_outcome, ProposalsConfig};

verus! {

/// A treasury with no admin accepts `initialize` for every admin, token and
/// member list, whoever they are; afterwards it holds exactly them and its
/// members are exactly the given list.  A treasury with an admin refuses it.
pub proof fn law_treasury_initialize_accepts(
    s: TreasuryState,
    admin: AccountId,
    token_contract: AccountId,
    members: Seq<AccountId>,
    who: AccountId,
)
    ensures
        treasury_initialize_step(s, admin, token_contract, members) is Ok <==> s.admin is None,
        treasury_initialize_step(s, admin, token_contract, members) matches Ok(s1) ==> {
            &&& s1.admin == Some(admin)
            &&& s1.token_contract == Some(token_contract)
            &&& s1.members == Some(members)
            &&& (member_seq(s1.members).contains(who) <==> members.contains(who))
            &&& s1.address == s.address
            &&& s1.proposals_contract == s.proposals_contract
        },
{
}

/// Only an initialised treasury accepts a new proposals contract, and then
/// only the admin's authorisation is asked for; nothing else changes.
pub proof fn law_set_proposals_contract_accepts(s: TreasuryState, proposals_contract: AccountId)
    ensures
        set_proposals_step(s, proposals_contract) is Ok <==> s.admin is Some,
        set_proposals_step(s, proposals_contract) matches Ok((s1, a)) ==> {
            &&& Some(a) == s.admin
            &&& s1.proposals_contract == Some(proposals_contract)
            &&& s1.admin == s.admin
            &&& s1.token_contract == s.token_contract
            &&& s1.members == s.members
            &&& s1.address == s.address
        },
{
}

/// Anyone, member or not, may deposit: a deposit is accepted exactly when
/// the amount is positive and the treasury knows its token, and it is a
/// transfer of exactly that amount from the depositor to the treasury,
/// authorised by the depositor.
pub proof fn law_anyone_may_deposit(s: TreasuryState, from: AccountId, amount: i128)
    ensures
        deposit_outcome(s, from, amount) is Ok <==> (amount > 0 && s.token_contract is Some),
        deposit_outcome(s, from, amount) matches Ok(plan) ==> {
            &&& plan.authorizer == from
            &&& Some(plan.transfer.token) == s.token_contract
            &&& plan.transfer.from == from
            &&& plan.transfer.to == s.address
            &&& plan.transfer.amount == amount
            &&& plan.event.from == from
            &&& plan.event.amount == amount
        },
{
}

/// A withdrawal is accepted exactly when the amount is positive, a proposals
/// contract is authorised and the token is known, for any recipient; it is a
/// transfer of exactly that amount from the treasury to the recipient.
pub proof fn law_withdraw_accepts(s: TreasuryState, to: AccountId, amount: i128)
    ensures
        withdraw_outcome(s, to, amount) is Ok <==> (amount > 0 && s.proposals_contract is Some
            && s.token_contract is Some),
        withdraw_outcome(s, to, amount) matches Ok(plan) ==> {
            &&& Some(plan.authorizer) == s.proposals_contract
            &&& Some(plan.transfer.token) == s.token_contract
            &&& plan.transfer.from == s.address
            &&& plan.transfer.to == to
            &&& plan.transfer.amount == amount
            &&& plan.event.to == to
            &&& plan.event.amount == amount
        },
{
}

/// The proposals contract accepts `initialize` exactly when it has no admin,
/// for every admin and treasury, and then holds them with the id counter at zero.
pub proof fn law_proposals_initialize_accepts(c: ProposalsConfig, admin: AccountId, treasury: AccountId)
    ensures
        initialize_outcome(c, admin, treasury) is Ok <==> c.admin is None,
        initialize_outcome(c, admin, treasury) matches Ok(c1) ==> c1.admin == Some(admin)
            && c1.treasury == Some(treasury) && c1.next_id == Some(0u32),
{
}

/// A proposal is accepted exactly when its amount and duration are positive,
/// its end time fits in a `u64` and the id counter is below its limit, for
/// any proposer, description and recipient.  It gets the next id, closes
/// `duration_secs` after `now`, holds what it was given, and starts with no
/// votes and unexecuted.
pub proof fn law_create_accepts(
    next_id: Option<u32>,
    proposer: AccountId,
    description: String,
    amount: i128,
    recipient: AccountId,
    duration_secs: u64,
    now: u64,
)
    ensures
        create_outcome(next_id, proposer, description, amount, recipient, duration_secs, now) is Ok
            <==> (amount > 0 && duration_secs > 0 && now + duration_secs <= u64::MAX
            && upcoming_id(next_id) < u32::MAX),
        create_outcome(next_id, proposer, description, amount, recipient, duration_secs, now) matches Ok(c)
            ==> {
            &&& c.id == (match next_id {
                Some(n) => n,
                None => 0u32,
            })
            &&& c.authorizer == proposer
            &&& c.proposal.proposer == proposer
            &&& c.proposal.description == description
            &&& c.proposal.amount == amount
            &&& c.proposal.recipient == recipient
            &&& c.proposal.yes_votes == 0
            &&& c.proposal.no_votes == 0
            &&& c.proposal.end_time == now + duration_secs
            &&& !c.proposal.executed
            &&& c.event.id == c.id && c.event.proposer == proposer && c.event.amount == amount
        },
{
}

/// A vote on a stored proposal is accepted exactly when it comes before the
/// end of voting, from a voter with no vote recorded on it, whoever the voter
/// is (the proposer too), and the tally it adds to is below its limit.  It
/// adds one to the approvals or the rejections, as asked, and leaves every
/// other field of the proposal as it was.
pub proof fn law_vote_accepts(
    stored_proposal: Option<Proposal>,
    already_voted: bool,
    proposal_id: u32,
    voter: AccountId,
    approve: bool,
    now: u64,
)
    ensures
        vote_outcome(stored_proposal, already_voted, proposal_id, voter, approve, now) is Ok <==> (
        stored_proposal matches Some(p) && now < p.end_time && !already_voted && (approve
            ==> p.yes_votes < u32::MAX) && (!approve ==> p.no_votes < u32::MAX)),
        vote_outcome(stored_proposal, already_voted, proposal_id, voter, approve, now) matches Ok(v)
            ==> {
            let p = stored_proposal->Some_0;
            &&& v.authorizer == voter
            &&& v.proposal.yes_votes == p.yes_votes + (if approve { 1int } else { 0int })
            &&& v.proposal.no_votes == p.no_votes + (if approve { 0int } else { 1int })
            &&& v.proposal.proposer == p.proposer
            &&& v.proposal.description == p.description
            &&& v.proposal.amount == p.amount
            &&& v.proposal.recipient == p.recipient
            &&& v.proposal.end_time == p.end_time
            &&& v.proposal.executed == p.executed
            &&& v.event.proposal_id == proposal_id && v.event.voter == voter && v.event.approve
                == approve
        },
{
}

/// An execution of a stored proposal is accepted exactly when voting has
/// ended, it is not executed yet, and, if it passes, the treasury is known.
/// It stores the proposal marked executed with every other field, the
/// tallies included, as it was; it asks the treasury for the proposal's
/// amount to its recipient exactly when approvals outnumber rejections.
pub proof fn law_execute_accepts(
    stored_proposal: Option<Proposal>,
    treasury: Option<AccountId>,
    proposal_id: u32,
    now: u64,
)
    ensures
        execute_outcome(stored_proposal, treasury, proposal_id, now) is Ok <==> (
        stored_proposal matches Some(p) && now >= p.end_time && !p.executed && (p.yes_votes
            > p.no_votes ==> treasury is Some)),
        execute_outcome(stored_proposal, treasury, proposal_id, now) matches Ok(x) ==> {
            let p = stored_proposal->Some_0;
            &&& x.proposal.executed
            &&& x.proposal.yes_votes == p.yes_votes
            &&& x.proposal.no_votes == p.no_votes
            &&& x.proposal.proposer == p.proposer
            &&& x.proposal.description == p.description
            &&& x.proposal.amount == p.amount
            &&& x.proposal.recipient == p.recipient
            &&& x.proposal.end_time == p.end_time
            &&& (x.withdrawal is Some <==> p.yes_votes > p.no_votes)
            &&& x.withdrawal matches Some(w) ==> Some(w.treasury) == treasury && w.to
                == p.recipient && w.amount == p.amount
            &&& x.event.proposal_id == proposal_id
            &&& x.event.passed == (p.yes_votes > p.no_votes)
        },
{
}

/// On the whole contract: a vote is accepted exactly when the proposal is
/// stored, voting is open, this voter has no vote recorded on it and the
/// tally is below its limit; it records the voter and adds one vote to the
/// proposal, changing no other proposal.
pub proof fn law_contract_vote_accepts(
    s: ProposalsState,
    voter: AccountId,
    proposal_id: u32,
    approve: bool,
    now: u64,
    other: u32,
)
    ensures
        vote_step(s, voter, proposal_id, approve, now) is Ok <==> (stored(s, proposal_id) matches Some(
            p,
        ) && now < p.end_time && !s.voted.contains((proposal_id, voter)) && (approve
            ==> p.yes_votes < u32::MAX) && (!approve ==> p.no_votes < u32::MAX)),
        vote_step(s, voter, proposal_id, approve, now) matches Ok(s1) ==> {
            let p = stored(s, proposal_id)->Some_0;
            let q = stored(s1, proposal_id)->Some_0;
            &&& stored(s1, proposal_id) is Some
            &&& s1.voted.contains((proposal_id, voter))
            &&& q.yes_votes == p.yes_votes + (if approve { 1int } else { 0int })
            &&& q.no_votes == p.no_votes + (if approve { 0int } else { 1int })
            &&& q.executed == p.executed && q.end_time == p.end_time && q.amount == p.amount
                && q.recipient == p.recipient
            &&& other != proposal_id ==> stored(s1, other) == stored(s, other)
            &&& s1.config == s.config
            &&& s1.events.len() == s.events.len() + 1
            &&& s1.events.last() matches ProposalsEvent::VoteCast(e) && e.proposal_id == proposal_id
                && e.voter == voter && e.approve == approve
        },
{
}

/// On the whole contract: an accepted execution stores the proposal marked
/// executed with its tallies as they were, and changes no other proposal.
pub proof fn law_contract_execute_keeps_record(
    s: ProposalsState,
    proposal_id: u32,
    now: u64,
    paid: bool,
    other: u32,
)
    ensures
        execute_step(s, proposal_id, now, paid) matches Ok((s1, _)) ==> {
            let p = stored(s, proposal_id)->Some_0;
            let q = stored(s1, proposal_id)->Some_0;
            &&& stored(s1, proposal_id) is Some
            &&& q.executed
            &&& q.yes_votes == p.yes_votes
            &&& q.no_votes == p.no_votes
            &&& q.amount == p.amount && q.recipient == p.recipient && q.end_time == p.end_time
                && q.proposer == p.proposer && q.description == p.description
            &&& other != proposal_id ==> stored(s1, other) == stored(s, other)
            &&& s1.voted == s.voted
            &&& s1.config == s.config
            &&& s1.events.len() == s.events.len() + 1
            &&& s1.events.last() matches ProposalsEvent::Executed(e) && e.proposal_id == proposal_id
                && e.passed == (p.yes_votes > p.no_votes)
        },
{
}

/// On the whole contract: a creation is accepted exactly when the amount and
/// duration are positive, the end time fits and the counter is below its
/// limit; the new proposal is stored under the returned id.
pub proof fn law_contract_create_accepts(
    s: ProposalsState,
    proposer: AccountId,
    description: String,
    amount: i128,
    recipient: AccountId,
    duration_secs: u64,
    now: u64,
)
    ensures
        create_step(s, proposer, description, amount, recipient, duration_secs, now) is Ok <==> (
        amount > 0 && duration_secs > 0 && now + duration_secs <= u64::MAX && upcoming_id(
            s.config.next_id,
        ) < u32::MAX),
        create_step(s, proposer, description, amount, recipient, duration_secs, now) matches Ok(
            (s1, id),
        ) ==> {
            &&& id == upcoming_id(s.config.next_id)
            &&& s1.config.next_id == Some((id + 1) as u32)
            &&& s1.config.admin == s.config.admin && s1.config.treasury == s.config.treasury
            &&& s1.voted == s.voted
            &&& s1.events.len() == s.events.len() + 1
            &&& s1.events.last() matches ProposalsEvent::Created(e) && e.id == id && e.proposer
                == proposer && e.amount == amount
            &&& forall|k: u32| k != id ==> #[trigger] stored(s1, k) == stored(s, k)
            &&& stored(s1, id) matches Some(q) && q.end_time == now + duration_secs && q.amount
                == amount && q.recipient == recipient && q.proposer == proposer && q.yes_votes == 0
                && q.no_votes == 0 && !q.executed
        },
{
}

/// On the whole contract: `initialize` is accepted exactly when no admin is
/// set, and touches only the admin, the treasury and the id counter, which it
/// sets to zero.
pub proof fn law_contract_initialize_accepts(s: ProposalsState, admin: AccountId, treasury: AccountId)
    ensures
        initialize_step(s, admin, treasury) is Ok <==> s.config.admin is None,
        initialize_step(s, admin, treasury) matches Ok(s1) ==> {
            &&& s1.config.admin == Some(admin)
            &&& s1.config.treasury == Some(treasury)
            &&& s1.config.next_id == Some(0u32)
            &&& s1.proposals == s.proposals
            &&& s1.voted == s.voted
            &&& s1.events == s.events
        },
{
}

/// The ledger encoding of an address: the four bytes 0, 0, 0, 18, then the
/// kind (0, 0, 0, 0 for an account, followed by the key type 0, 0, 0, 0;
/// 0, 0, 0, 1 for a contract), then the 32 key bytes.
pub proof fn law_xdr_encoding_layout(a: AccountId)
    ensures
        xdr_encoding(a).len() == (if a.kind == AddressKind::Account { 44int } else { 40int }),
        xdr_encoding(a)[0] == 0u8 && xdr_encoding(a)[1] == 0u8 && xdr_encoding(a)[2] == 0u8
            && xdr_encoding(a)[3] == 18u8,
        xdr_encoding(a)[4] == 0u8 && xdr_encoding(a)[5] == 0u8 && xdr_encoding(a)[6] == 0u8,
        xdr_encoding(a)[7] == (if a.kind == AddressKind::Account { 0u8 } else { 1u8 }),
        a.kind == AddressKind::Account ==> xdr_encoding(a)[8] == 0u8 && xdr_encoding(a)[9] == 0u8
            && xdr_encoding(a)[10] == 0u8 && xdr_encoding(a)[11] == 0u8,
        forall|i: int|
            0 <= i < 32 ==> #[trigger] a.key@[i] == xdr_encoding(a)[xdr_encoding(a).len() - 32 + i],
{
}

} // verus!
