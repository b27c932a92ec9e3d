use vstd::prelude::*;

use crate::account::AccountId;
use crate::proposal_storage::Proposal;
use crate::mock_token::{moved, transfer_accepted, MockToken};
use crate::proposals::{create_step, execute_step, initialize_step, stored, vote_step, ProposalsState};
use crate::storage::WithdrawEvent;
use crate::treasury::{
    deposit_outcome, member_seq, treasury_initialize_step, withdraw_outcome, TreasuryError,
    TreasuryState,
};
use crate::voting::{passes, upcoming_id, with_vote, ProposalsError, TreasuryWithdrawal};

verus! {

/// A treasury accepts `initialize` once: after it succeeded, every further
/// call is refused as already initialised.
pub proof fn law_treasury_initializes_once(
    s: TreasuryState,
    admin: AccountId,
    token_contract: AccountId,
    members: Seq<AccountId>,
    admin2: AccountId,
    token_contract2: AccountId,
    members2: Seq<AccountId>,
)
    requires
        treasury_initialize_step(s, admin, token_contract, members) is Ok,
    ensures
        treasury_initialize_step(
            treasury_initialize_step(s, admin, token_contract, members)->Ok_0,
            admin2,
            token_contract2,
            members2,
        ) == Err::<TreasuryState, TreasuryError>(TreasuryError::AlreadyInitialized),
{
}

/// After a successful `initialize`, an address is a member exactly when it
/// is in the list that `initialize` was given.
pub proof fn law_members_are_those_initialized(
    s: TreasuryState,
    admin: AccountId,
    token_contract: AccountId,
    members: Seq<AccountId>,
    who: AccountId,
)
    requires
        treasury_initialize_step(s, admin, token_contract, members) is Ok,
    ensures
        member_seq(treasury_initialize_step(s, admin, token_contract, members)->Ok_0.members).contains(
            who,
        ) == members.contains(who),
{
}

/// Tokens leave the treasury only on the authority of the proposals contract
/// that the admin authorised, and only from the treasury's own address.
pub proof fn law_withdrawals_need_the_proposals_contract(s: TreasuryState, to: AccountId, amount: i128)
    requires
        withdraw_outcome(s, to, amount) is Ok,
    ensures
        s.proposals_contract == Some(withdraw_outcome(s, to, amount)->Ok_0.authorizer),
        withdraw_outcome(s, to, amount)->Ok_0.transfer.from == s.address,
        amount > 0,
{
}

/// A token transfer between two different holders moves exactly `amount`
/// from one to the other: their sum is kept and no other balance changes.
pub proof fn law_transfer_conserves_balances(
    before: MockToken,
    after: MockToken,
    from: AccountId,
    to: AccountId,
    amount: i128,
    other: AccountId,
)
    requires
        moved(before, after, from, to, amount),
    ensures
        after.balance_of(from) + after.balance_of(to) == before.balance_of(from) + before.balance_of(
            to,
        ),
        other != from && other != to ==> after.balance_of(other) == before.balance_of(other),
        from == to ==> after.balance_of(from) == before.balance_of(from),
        from != to ==> after.balance_of(from) == before.balance_of(from) - amount,
        from != to ==> after.balance_of(to) == before.balance_of(to) + amount,
{
}

/// A transfer between two different holders is accepted whenever the sender
/// holds at least the amount, the amount is not negative, and the recipient's
/// balance stays in range.
pub proof fn law_covered_transfer_is_accepted(t: MockToken, from: AccountId, to: AccountId, amount: i128)
    requires
        from != to,
        0 <= amount <= t.balance_of(from),
        t.balance_of(to) + amount <= i128::MAX,
    ensures
        transfer_accepted(t, from, to, amount),
{
}

/// A transfer is refused whenever the sender holds less than the amount.
pub proof fn law_uncovered_transfer_is_refused(t: MockToken, from: AccountId, to: AccountId, amount: i128)
    requires
        t.balance_of(from) < amount,
    ensures
        !transfer_accepted(t, from, to, amount),
{
}

/// Carrying out an accepted deposit on the token raises the treasury's
/// balance by the deposited amount and lowers the depositor's by as much.
pub proof fn law_deposit_credits_the_treasury(
    s: TreasuryState,
    from: AccountId,
    amount: i128,
    before: MockToken,
    after: MockToken,
)
    requires
        deposit_outcome(s, from, amount) is Ok,
        from != s.address,
        moved(
            before,
            after,
            deposit_outcome(s, from, amount)->Ok_0.transfer.from,
            deposit_outcome(s, from, amount)->Ok_0.transfer.to,
            deposit_outcome(s, from, amount)->Ok_0.transfer.amount,
        ),
    ensures
        after.balance_of(s.address) == before.balance_of(s.address) + amount,
        after.balance_of(from) == before.balance_of(from) - amount,
{
}

/// Carrying out an accepted withdrawal on the token lowers the treasury's
/// balance by the withdrawn amount and raises the recipient's by as much.
pub proof fn law_withdraw_debits_the_treasury(
    s: TreasuryState,
    to: AccountId,
    amount: i128,
    before: MockToken,
    after: MockToken,
)
    requires
        withdraw_outcome(s, to, amount) is Ok,
        to != s.address,
        moved(
            before,
            after,
            withdraw_outcome(s, to, amount)->Ok_0.transfer.from,
            withdraw_outcome(s, to, amount)->Ok_0.transfer.to,
            withdraw_outcome(s, to, amount)->Ok_0.transfer.amount,
        ),
    ensures
        after.balance_of(s.address) == before.balance_of(s.address) - amount,
        after.balance_of(to) == before.balance_of(to) + amount,
{
}

/// The proposals contract accepts `initialize` once.
pub proof fn law_proposals_initialize_once(
    s: ProposalsState,
    admin: AccountId,
    treasury: AccountId,
    admin2: AccountId,
    treasury2: AccountId,
)
    requires
        initialize_step(s, admin, treasury) is Ok,
    ensures
        initialize_step(initialize_step(s, admin, treasury)->Ok_0, admin2, treasury2) == Err::<
            ProposalsState,
            ProposalsError,
        >(ProposalsError::AlreadyInitialized),
{
}

/// The first proposal created after `initialize` gets id zero.
pub proof fn law_first_proposal_id_is_zero(
    s: ProposalsState,
    admin: AccountId,
    treasury: AccountId,
    proposer: AccountId,
    description: String,
    amount: i128,
    recipient: AccountId,
    duration_secs: u64,
    now: u64,
)
    requires
        initialize_step(s, admin, treasury) is Ok,
        create_step(
            initialize_step(s, admin, treasury)->Ok_0,
            proposer,
            description,
            amount,
            recipient,
            duration_secs,
            now,
        ) is Ok,
    ensures
        create_step(
            initialize_step(s, admin, treasury)->Ok_0,
            proposer,
            description,
            amount,
            recipient,
            duration_secs,
            now,
        )->Ok_0.1 == 0,
{
}

/// Proposal ids are handed out in sequence: the proposal created after the
/// one with id `n` gets id `n + 1`.
pub proof fn law_proposal_ids_are_sequential(
    s: ProposalsState,
    proposer: AccountId,
    description: String,
    amount: i128,
    recipient: AccountId,
    duration_secs: u64,
    now: u64,
    proposer2: AccountId,
    description2: String,
    amount2: i128,
    recipient2: AccountId,
    duration_secs2: u64,
    now2: u64,
)
    requires
        create_step(s, proposer, description, amount, recipient, duration_secs, now) is Ok,
        create_step(
            create_step(s, proposer, description, amount, recipient, duration_secs, now)->Ok_0.0,
            proposer2,
            description2,
            amount2,
            recipient2,
            duration_secs2,
            now2,
        ) is Ok,
    ensures
        create_step(
            create_step(s, proposer, description, amount, recipient, duration_secs, now)->Ok_0.0,
            proposer2,
            description2,
            amount2,
            recipient2,
            duration_secs2,
            now2,
        )->Ok_0.1 == create_step(
            s,
            proposer,
            description,
            amount,
            recipient,
            duration_secs,
            now,
        )->Ok_0.1 + 1,
{
}

/// A fresh proposal has no votes, is not executed, and closes `duration_secs`
/// after its creation.
pub proof fn law_new_proposal_is_open(
    s: ProposalsState,
    proposer: AccountId,
    description: String,
    amount: i128,
    recipient: AccountId,
    duration_secs: u64,
    now: u64,
)
    requires
        create_step(s, proposer, description, amount, recipient, duration_secs, now) is Ok,
    ensures
        ({
            let (s1, id) = create_step(
                s,
                proposer,
                description,
                amount,
                recipient,
                duration_secs,
                now,
            )->Ok_0;
            &&& stored(s1, id) matches Some(p)
            &&& stored(s1, id)->Some_0.yes_votes == 0
            &&& stored(s1, id)->Some_0.no_votes == 0
            &&& !stored(s1, id)->Some_0.executed
            &&& stored(s1, id)->Some_0.end_time == now + duration_secs
            &&& stored(s1, id)->Some_0.amount == amount
            &&& stored(s1, id)->Some_0.recipient == recipient
        }),
{
}

/// A vote adds one to exactly one tally of its proposal and changes nothing else.
pub proof fn law_vote_counts_once(
    s: ProposalsState,
    voter: AccountId,
    proposal_id: u32,
    approve: bool,
    now: u64,
    other: u32,
)
    requires
        vote_step(s, voter, proposal_id, approve, now) is Ok,
    ensures
        ({
            let s1 = vote_step(s, voter, proposal_id, approve, now)->Ok_0;
            &&& stored(s, proposal_id) is Some
            &&& stored(s1, proposal_id) == Some(with_vote(stored(s, proposal_id)->Some_0, approve))
            &&& approve ==> stored(s1, proposal_id)->Some_0.yes_votes == stored(
                s,
                proposal_id,
            )->Some_0.yes_votes + 1
            &&& !approve ==> stored(s1, proposal_id)->Some_0.no_votes == stored(
                s,
                proposal_id,
            )->Some_0.no_votes + 1
            &&& other != proposal_id ==> stored(s1, other) == stored(s, other)
            &&& s1.config == s.config
        }),
{
}

/// A voter votes at most once on a proposal: after a vote, every further vote
/// by the same voter on it is refused, as already cast while voting is open and
/// as too late afterwards.
pub proof fn law_no_double_vote(
    s: ProposalsState,
    voter: AccountId,
    proposal_id: u32,
    approve: bool,
    now: u64,
    approve2: bool,
    now2: u64,
)
    requires
        vote_step(s, voter, proposal_id, approve, now) is Ok,
    ensures
        ({
            let s1 = vote_step(s, voter, proposal_id, approve, now)->Ok_0;
            let end = stored(s, proposal_id)->Some_0.end_time;
            &&& now2 < end ==> vote_step(s1, voter, proposal_id, approve2, now2) == Err::<
                ProposalsState,
                ProposalsError,
            >(ProposalsError::AlreadyVoted)
            &&& now2 >= end ==> vote_step(s1, voter, proposal_id, approve2, now2) == Err::<
                ProposalsState,
                ProposalsError,
            >(ProposalsError::VotingEnded)
        }),
{
}

/// A proposal passes exactly when it has more approvals than rejections, and
/// only a passing proposal asks the treasury for its amount, paid to its
/// recipient; its execution is recorded only when that withdrawal succeeded.
pub proof fn law_withdrawal_iff_passed(s: ProposalsState, proposal_id: u32, now: u64, paid: bool)
    requires
        execute_step(s, proposal_id, now, paid) is Ok,
    ensures
        ({
            let (s1, w) = execute_step(s, proposal_id, now, paid)->Ok_0;
            let p = stored(s, proposal_id)->Some_0;
            &&& stored(s, proposal_id) is Some
            &&& now >= p.end_time
            &&& (w is Some <==> p.yes_votes > p.no_votes)
            &&& w matches Some(w) ==> w.to == p.recipient && w.amount == p.amount && Some(
                w.treasury,
            ) == s.config.treasury
            &&& w is Some ==> paid
            &&& stored(s1, proposal_id)->Some_0.executed
        }),
{
}

/// A proposal is executed at most once: once executed, a later execution is refused.
pub proof fn law_execute_once(s: ProposalsState, proposal_id: u32, now: u64, paid: bool, now2: u64, paid2: bool)
    requires
        execute_step(s, proposal_id, now, paid) is Ok,
        now <= now2,
    ensures
        execute_step(execute_step(s, proposal_id, now, paid)->Ok_0.0, proposal_id, now2, paid2) == Err::<
            (ProposalsState, Option<TreasuryWithdrawal>),
            ProposalsError,
        >(ProposalsError::AlreadyExecuted),
{
}

/// Once a proposal is executed, no vote on it is accepted at that time or later.
pub proof fn law_no_vote_after_execution(
    s: ProposalsState,
    proposal_id: u32,
    now: u64,
    paid: bool,
    voter: AccountId,
    approve: bool,
    now2: u64,
)
    requires
        execute_step(s, proposal_id, now, paid) is Ok,
        now <= now2,
    ensures
        vote_step(execute_step(s, proposal_id, now, paid)->Ok_0.0, voter, proposal_id, approve, now2)
            == Err::<ProposalsState, ProposalsError>(ProposalsError::VotingEnded),
{
}

/// When the treasury's withdrawal for a passed proposal fails, the execution
/// fails with it and the proposal stays unexecuted, so it can be executed later.
pub proof fn law_failed_withdrawal_leaves_proposal_open(s: ProposalsState, proposal_id: u32, now: u64)
    requires
        execute_step(s, proposal_id, now, true) matches Ok((_, Some(_))),
    ensures
        execute_step(s, proposal_id, now, false) == Err::<
            (ProposalsState, Option<TreasuryWithdrawal>),
            ProposalsError,
        >(ProposalsError::WithdrawalFailed),
        !stored(s, proposal_id)->Some_0.executed,
{
}

/// A tie does not pass.
pub proof fn law_tie_does_not_pass(s: ProposalsState, proposal_id: u32, now: u64, paid: bool)
    requires
        execute_step(s, proposal_id, now, paid) is Ok,
        stored(s, proposal_id)->Some_0.yes_votes == stored(s, proposal_id)->Some_0.no_votes,
    ensures
        execute_step(s, proposal_id, now, paid)->Ok_0.1 is None,
        !passes(stored(s, proposal_id)->Some_0),
{
}

/// The votes recorded on proposal `id`.
pub open spec fn votes_on(s: ProposalsState, id: u32) -> Set<(u32, AccountId)> {
    s.voted.filter(|b: (u32, AccountId)| b.0 == id)
}

/// Every stored proposal's tally counts exactly the distinct voters recorded
/// on it, and every recorded vote is on a stored proposal.
pub open spec fn tallies_match_votes(s: ProposalsState) -> bool {
    &&& s.voted.finite()
    &&& forall|b: (u32, AccountId)| #[trigger] s.voted.contains(b) ==> s.proposals.dom().contains(b.0)
    &&& forall|id: u32| #[trigger]
        s.proposals.dom().contains(id) ==> s.proposals[id].yes_votes + s.proposals[id].no_votes
            == votes_on(s, id).len()
}

/// Every stored proposal asks for a positive amount.
pub open spec fn amounts_positive(s: ProposalsState) -> bool {
    forall|id: u32| #[trigger] s.proposals.dom().contains(id) ==> s.proposals[id].amount > 0
}

/// Every stored id lies below the next id to be handed out, so a new proposal
/// never replaces a stored one.
pub open spec fn ids_below_counter(s: ProposalsState) -> bool {
    forall|id: u32| #[trigger] s.proposals.dom().contains(id) ==> id < upcoming_id(s.config.next_id)
}

/// A contract with nothing stored satisfies all three invariants.
pub proof fn law_empty_state_is_well_formed(s: ProposalsState)
    requires
        s.proposals == Map::<u32, Proposal>::empty(),
        s.voted == Set::<(u32, AccountId)>::empty(),
    ensures
        tallies_match_votes(s),
        amounts_positive(s),
        ids_below_counter(s),
{
}

/// Creating a proposal keeps every tally equal to its recorded voters when
/// the new proposal's id is not already stored (a new proposal stored over an
/// old one starts with no votes beside the old one's recorded voters), keeps
/// amounts positive, and keeps stored ids below the counter.
pub proof fn law_create_keeps_invariants(
    s: ProposalsState,
    proposer: AccountId,
    description: String,
    amount: i128,
    recipient: AccountId,
    duration_secs: u64,
    now: u64,
)
    requires
        create_step(s, proposer, description, amount, recipient, duration_secs, now) is Ok,
    ensures
        ({
            let s1 = create_step(s, proposer, description, amount, recipient, duration_secs, now)->Ok_0.0;
            &&& tallies_match_votes(s) && !s.proposals.dom().contains(upcoming_id(s.config.next_id))
                ==> tallies_match_votes(s1)
            &&& amounts_positive(s) ==> amounts_positive(s1)
            &&& ids_below_counter(s) ==> ids_below_counter(s1)
        }),
{
    let (s1, u) = create_step(s, proposer, description, amount, recipient, duration_secs, now)->Ok_0;
    if tallies_match_votes(s) && !s.proposals.dom().contains(u) {
        assert(votes_on(s1, u) =~= Set::<(u32, AccountId)>::empty()) by {
            assert forall|b: (u32, AccountId)| !(#[trigger] votes_on(s1, u).contains(b)) by {
                if s.voted.contains(b) {
                    assert(s.proposals.dom().contains(b.0));
                }
            }
        }
        assert forall|id: u32| #[trigger] s1.proposals.dom().contains(id) implies s1.proposals[id].yes_votes
            + s1.proposals[id].no_votes == votes_on(s1, id).len() by {
            if id != u {
                assert(votes_on(s1, id) == votes_on(s, id));
            }
        }
    }
}

/// Casting a vote keeps all three invariants.
pub proof fn law_vote_keeps_invariants(
    s: ProposalsState,
    voter: AccountId,
    proposal_id: u32,
    approve: bool,
    now: u64,
)
    requires
        vote_step(s, voter, proposal_id, approve, now) is Ok,
    ensures
        ({
            let s1 = vote_step(s, voter, proposal_id, approve, now)->Ok_0;
            &&& tallies_match_votes(s) ==> tallies_match_votes(s1)
            &&& amounts_positive(s) ==> amounts_positive(s1)
            &&& ids_below_counter(s) ==> ids_below_counter(s1)
        }),
{
    let s1 = vote_step(s, voter, proposal_id, approve, now)->Ok_0;
    let ballot = (proposal_id, voter);
    if tallies_match_votes(s) {
        assert(!s.voted.contains(ballot));
        assert forall|id: u32| #[trigger] s1.proposals.dom().contains(id) implies s1.proposals[id].yes_votes
            + s1.proposals[id].no_votes == votes_on(s1, id).len() by {
            s.voted.lemma_len_filter(|b: (u32, AccountId)| b.0 == id);
            if id == proposal_id {
                assert(votes_on(s1, id) =~= votes_on(s, id).insert(ballot));
                assert(!votes_on(s, id).contains(ballot));
            } else {
                assert(votes_on(s1, id) =~= votes_on(s, id));
            }
        }
    }
}

/// Executing a proposal keeps all three invariants.
pub proof fn law_execute_keeps_invariants(s: ProposalsState, proposal_id: u32, now: u64, paid: bool)
    requires
        execute_step(s, proposal_id, now, paid) is Ok,
    ensures
        ({
            let s1 = execute_step(s, proposal_id, now, paid)->Ok_0.0;
            &&& tallies_match_votes(s) ==> tallies_match_votes(s1)
            &&& amounts_positive(s) ==> amounts_positive(s1)
            &&& ids_below_counter(s) ==> ids_below_counter(s1)
        }),
{
    let s1 = execute_step(s, proposal_id, now, paid)->Ok_0.0;
    if tallies_match_votes(s) {
        assert forall|id: u32| #[trigger] s1.proposals.dom().contains(id) implies s1.proposals[id].yes_votes
            + s1.proposals[id].no_votes == votes_on(s1, id).len() by {
            assert(votes_on(s1, id) == votes_on(s, id));
        }
    }
}

/// Initialising keeps every tally equal to its recorded voters and amounts
/// positive, in every state; it keeps stored ids below the counter when no
/// proposal is stored yet (it resets the counter to zero).
pub proof fn law_initialize_keeps_invariants(
    s: ProposalsState,
    admin: AccountId,
    treasury: AccountId,
)
    requires
        initialize_step(s, admin, treasury) is Ok,
    ensures
        ({
            let s1 = initialize_step(s, admin, treasury)->Ok_0;
            &&& tallies_match_votes(s) ==> tallies_match_votes(s1)
            &&& amounts_positive(s) ==> amounts_positive(s1)
            &&& s.proposals.dom() == Set::<u32>::empty() ==> ids_below_counter(s1)
        }),
{
    let s1 = initialize_step(s, admin, treasury)->Ok_0;
    if tallies_match_votes(s) {
        assert forall|id: u32| #[trigger] s1.proposals.dom().contains(id) implies s1.proposals[id].yes_votes
            + s1.proposals[id].no_votes == votes_on(s1, id).len() by {
            assert(votes_on(s1, id) == votes_on(s, id));
        }
    }
}

/// The withdrawal that an executed proposal asks for is accepted by the
/// treasury it names, once that treasury has a token and has authorised a
/// proposals contract: the treasury pays the proposal's amount to its
/// recipient on the authority of that contract.
pub proof fn law_executed_withdrawal_is_accepted(
    s: ProposalsState,
    proposal_id: u32,
    now: u64,
    paid: bool,
    t: TreasuryState,
)
    requires
        amounts_positive(s),
        execute_step(s, proposal_id, now, paid) matches Ok((_, Some(w))) && t.address == w.treasury,
        t.proposals_contract is Some,
        t.token_contract is Some,
    ensures
        ({
            let w = execute_step(s, proposal_id, now, paid)->Ok_0.1->Some_0;
            let p = stored(s, proposal_id)->Some_0;
            &&& withdraw_outcome(t, w.to, w.amount) is Ok
            &&& Some(withdraw_outcome(t, w.to, w.amount)->Ok_0.authorizer) == t.proposals_contract
            &&& withdraw_outcome(t, w.to, w.amount)->Ok_0.transfer.from == w.treasury
            &&& withdraw_outcome(t, w.to, w.amount)->Ok_0.transfer.to == p.recipient
            &&& withdraw_outcome(t, w.to, w.amount)->Ok_0.transfer.amount == p.amount
        }),
{
    assert(s.proposals.dom().contains(proposal_id));
}

/// A passed proposal, once executed, is paid: the treasury it names, holding
/// the token and having authorised a proposals contract, accepts the
/// withdrawal; the token accepts the transfer when the treasury holds the
/// amount and the recipient's balance stays in range; and carrying it out
/// lowers the treasury's balance and raises the recipient's by the
/// proposal's amount, with a withdraw event naming both.
pub proof fn law_passed_proposal_pays_recipient(
    s: ProposalsState,
    proposal_id: u32,
    now: u64,
    paid: bool,
    t: TreasuryState,
    before: MockToken,
    after: MockToken,
)
    requires
        amounts_positive(s),
        execute_step(s, proposal_id, now, paid) matches Ok((_, Some(w))) && t.address == w.treasury,
        t.proposals_contract is Some,
        t.token_contract is Some,
        stored(s, proposal_id)->Some_0.recipient != t.address,
        moved(
            before,
            after,
            t.address,
            stored(s, proposal_id)->Some_0.recipient,
            stored(s, proposal_id)->Some_0.amount,
        ),
    ensures
        ({
            let p = stored(s, proposal_id)->Some_0;
            let plan = withdraw_outcome(t, p.recipient, p.amount)->Ok_0;
            &&& passes(p)
            &&& withdraw_outcome(t, p.recipient, p.amount) is Ok
            &&& plan.transfer.from == t.address && plan.transfer.to == p.recipient
                && plan.transfer.amount == p.amount
            &&& plan.event == WithdrawEvent { to: p.recipient, amount: p.amount }
            &&& before.balance_of(t.address) >= p.amount && before.balance_of(p.recipient)
                + p.amount <= i128::MAX ==> transfer_accepted(
                before,
                t.address,
                p.recipient,
                p.amount,
            )
            &&& after.balance_of(t.address) == before.balance_of(t.address) - p.amount
            &&& after.balance_of(p.recipient) == before.balance_of(p.recipient) + p.amount
        }),
{
    law_executed_withdrawal_is_accepted(s, proposal_id, now, paid, t);
    let p = stored(s, proposal_id)->Some_0;
    assert(s.proposals.dom().contains(proposal_id));
    assert(p.amount > 0);
}

/// A deposit followed by a withdrawal of the same amount to the depositor
/// gives everyone their balance back: once the treasury has authorised a
/// proposals contract, the withdrawal is accepted by the treasury and by the
/// token (when the depositor is not the treasury itself, as soon as the
/// treasury's balance before the deposit was not negative; when it is, as soon
/// as that balance covered the amount); and carrying both out leaves the
/// treasury's and the depositor's balances as they were before the deposit.
pub proof fn law_deposit_then_withdraw_round_trip(
    t: TreasuryState,
    from: AccountId,
    amount: i128,
    before: MockToken,
    middle: MockToken,
    after: MockToken,
)
    requires
        deposit_outcome(t, from, amount) is Ok,
        t.proposals_contract is Some,
        moved(before, middle, from, t.address, amount),
        moved(middle, after, t.address, from, amount),
    ensures
        withdraw_outcome(t, from, amount) is Ok,
        withdraw_outcome(t, from, amount)->Ok_0.transfer.from == t.address,
        withdraw_outcome(t, from, amount)->Ok_0.transfer.to == from,
        withdraw_outcome(t, from, amount)->Ok_0.transfer.amount == amount,
        from != t.address && before.balance_of(t.address) >= 0 ==> transfer_accepted(
            middle,
            t.address,
            from,
            amount,
        ),
        from == t.address && before.balance_of(t.address) >= amount ==> transfer_accepted(
            middle,
            t.address,
            from,
            amount,
        ),
        after.balance_of(t.address) == before.balance_of(t.address),
        after.balance_of(from) == before.balance_of(from),
{
}

} // verus!
