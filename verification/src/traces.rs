use vstd::prelude::*;

use crate::account::AccountId;
use crate::laws::{
    amounts_positive, ids_below_counter, law_create_keeps_invariants,
    law_execute_keeps_invariants, law_initialize_keeps_invariants, law_vote_keeps_invariants,
    tallies_match_votes,
};
use crate::proposal_storage::Proposal;
use crate::proposals::{create_step, execute_step, initialize_step, stored, vote_step, ProposalsState};
use crate::voting::{upcoming_id, ProposalsError};

verus! {

/// A call to the proposals contract, with its arguments.
#[derive(Debug)]
pub enum ProposalsCall {
    Initialize(AccountId, AccountId),
    /// Proposer, description, amount, recipient, duration in seconds.
    Create(AccountId, String, i128, AccountId, u64),
    /// Voter, proposal id, approval.
    Vote(AccountId, u32, bool),
    /// Proposal id, and whether the treasury pays the withdrawal it is asked for.
    Execute(u32, bool),
}

/// The state after `c` made at time `now`, or why it is refused.
pub open spec fn call_outcome(s: ProposalsState, c: ProposalsCall, now: u64) -> Result<
    ProposalsState,
    ProposalsError,
> {
    match c {
        ProposalsCall::Initialize(admin, treasury) => initialize_step(s, admin, treasury),
        ProposalsCall::Create(proposer, description, amount, recipient, duration_secs) => {
            match create_step(s, proposer, description, amount, recipient, duration_secs, now) {
                Ok((s1, _)) => Ok(s1),
                Err(e) => Err(e),
            }
        },
        ProposalsCall::Vote(voter, id, approve) => vote_step(s, voter, id, approve, now),
        ProposalsCall::Execute(id, paid) => match execute_step(s, id, now, paid) {
            Ok((s1, _)) => Ok(s1),
            Err(e) => Err(e),
        },
    }
}

/// The state after `c` made at time `now`; a refused call changes nothing.
pub open spec fn after_call(s: ProposalsState, c: ProposalsCall, now: u64) -> ProposalsState {
    match call_outcome(s, c, now) {
        Ok(s1) => s1,
        Err(_) => s,
    }
}

/// The state after the calls `calls`, each with the ledger time it is made at.
pub open spec fn run(s: ProposalsState, calls: Seq<(ProposalsCall, u64)>) -> ProposalsState
    decreases calls.len(),
{
    if calls.len() == 0 {
        s
    } else {
        after_call(run(s, calls.drop_last()), calls.last().0, calls.last().1)
    }
}

/// Whether the `i`-th of `calls`, made from `s`, is accepted.
pub open spec fn accepted(s: ProposalsState, calls: Seq<(ProposalsCall, u64)>, i: int) -> bool {
    call_outcome(run(s, calls.take(i)), calls[i].0, calls[i].1) is Ok
}

/// The ledger time never goes back along `calls`.
pub open spec fn clock_monotone(calls: Seq<(ProposalsCall, u64)>) -> bool {
    forall|a: int, b: int| 0 <= a <= b < calls.len() ==> calls[a].1 <= calls[b].1
}

/// No call of `calls` is an accepted `initialize` made while a proposal is
/// stored, which would reset the id counter under stored proposals.
pub open spec fn no_reset_over_proposals(s: ProposalsState, calls: Seq<(ProposalsCall, u64)>) -> bool {
    forall|k: int|
        0 <= k < calls.len() && (calls[k].0 matches ProposalsCall::Initialize(_, _)) && accepted(
            s,
            calls,
            k,
        ) ==> #[trigger] run(s, calls.take(k)).proposals.dom() == Set::<u32>::empty()
}

proof fn lemma_run_step(s: ProposalsState, calls: Seq<(ProposalsCall, u64)>, i: int)
    requires
        0 <= i < calls.len(),
    ensures
        run(s, calls.take(i + 1)) == after_call(run(s, calls.take(i)), calls[i].0, calls[i].1),
{
    assert(calls.take(i + 1).drop_last() =~= calls.take(i));
    assert(calls.take(i + 1).last() == calls[i]);
}

proof fn lemma_run_empty(s: ProposalsState, calls: Seq<(ProposalsCall, u64)>)
    ensures
        run(s, calls.take(0)) == s,
{
    assert(calls.take(0) =~= Seq::<(ProposalsCall, u64)>::empty());
}

proof fn lemma_run_all(s: ProposalsState, calls: Seq<(ProposalsCall, u64)>)
    ensures
        run(s, calls.take(calls.len() as int)) == run(s, calls),
{
    assert(calls.take(calls.len() as int) =~= calls);
}

/// One call keeps the invariants: the counter bound unless it is an accepted
/// `initialize` over stored proposals, the tallies unless it is a creation
/// over a stored id (which the counter bound excludes), and positive amounts.
proof fn lemma_call_keeps(s: ProposalsState, c: ProposalsCall, now: u64)
    requires
        ids_below_counter(s),
        (c matches ProposalsCall::Initialize(_, _)) && call_outcome(s, c, now) is Ok
            ==> s.proposals.dom() == Set::<u32>::empty(),
    ensures
        ids_below_counter(after_call(s, c, now)),
        tallies_match_votes(s) ==> tallies_match_votes(after_call(s, c, now)),
        amounts_positive(s) ==> amounts_positive(after_call(s, c, now)),
{
    match c {
        ProposalsCall::Initialize(admin, treasury) => {
            if initialize_step(s, admin, treasury) is Ok {
                law_initialize_keeps_invariants(s, admin, treasury);
            }
        },
        ProposalsCall::Create(proposer, description, amount, recipient, duration_secs) => {
            if create_step(s, proposer, description, amount, recipient, duration_secs, now) is Ok {
                assert(!s.proposals.dom().contains(upcoming_id(s.config.next_id)));
                law_create_keeps_invariants(
                    s,
                    proposer,
                    description,
                    amount,
                    recipient,
                    duration_secs,
                    now,
                );
            }
        },
        ProposalsCall::Vote(voter, id, approve) => {
            if vote_step(s, voter, id, approve, now) is Ok {
                law_vote_keeps_invariants(s, voter, id, approve, now);
            }
        },
        ProposalsCall::Execute(id, paid) => {
            if execute_step(s, id, now, paid) is Ok {
                law_execute_keeps_invariants(s, id, now, paid);
            }
        },
    }
}

/// The invariants hold after each prefix of the calls.
proof fn lemma_keeps_along(s: ProposalsState, calls: Seq<(ProposalsCall, u64)>, k: int)
    requires
        ids_below_counter(s),
        no_reset_over_proposals(s, calls),
        0 <= k <= calls.len(),
    ensures
        ids_below_counter(run(s, calls.take(k))),
        tallies_match_votes(s) ==> tallies_match_votes(run(s, calls.take(k))),
        amounts_positive(s) ==> amounts_positive(run(s, calls.take(k))),
    decreases k,
{
    if k == 0 {
        lemma_run_empty(s, calls);
    } else {
        lemma_keeps_along(s, calls, k - 1);
        lemma_run_step(s, calls, k - 1);
        let sk = run(s, calls.take(k - 1));
        if (calls[k - 1].0 matches ProposalsCall::Initialize(_, _)) && call_outcome(
            sk,
            calls[k - 1].0,
            calls[k - 1].1,
        ) is Ok {
            assert(accepted(s, calls, k - 1));
            assert(sk.proposals.dom() == Set::<u32>::empty());
        }
        lemma_call_keeps(sk, calls[k - 1].0, calls[k - 1].1);
    }
}

/// An executed proposal, once voting on it has ended, is left as it is by
/// every call, and every vote on it or execution of it is refused.
proof fn lemma_executed_kept(s: ProposalsState, c: ProposalsCall, now: u64, id: u32, p: Proposal)
    requires
        ids_below_counter(s),
        stored(s, id) == Some(p),
        p.executed,
        now >= p.end_time,
    ensures
        stored(after_call(s, c, now), id) == Some(p),
        c matches ProposalsCall::Vote(_, j, _) && j == id ==> call_outcome(s, c, now) is Err,
        c matches ProposalsCall::Execute(j, _) && j == id ==> call_outcome(s, c, now) is Err,
{
    assert(s.proposals.dom().contains(id));
    match c {
        ProposalsCall::Initialize(admin, treasury) => {},
        ProposalsCall::Create(proposer, description, amount, recipient, duration_secs) => {
            if let Ok((s1, k)) = create_step(
                s,
                proposer,
                description,
                amount,
                recipient,
                duration_secs,
                now,
            ) {
                assert(k != id);
                assert(s1.proposals.dom().contains(id));
                assert(s1.proposals[id] == s.proposals[id]);
            }
        },
        ProposalsCall::Vote(voter, j, approve) => {
            if j != id {
                if let Ok(s1) = vote_step(s, voter, j, approve, now) {
                    assert(s1.proposals[id] == s.proposals[id]);
                }
            }
        },
        ProposalsCall::Execute(j, paid) => {
            if j != id {
                if let Ok((s1, _)) = execute_step(s, j, now, paid) {
                    assert(s1.proposals[id] == s.proposals[id]);
                }
            }
        },
    }
}

/// After an accepted execution of proposal `id` at call `i`, the proposal
/// as it was then stays stored through every later call.
proof fn lemma_stays_along(
    s: ProposalsState,
    calls: Seq<(ProposalsCall, u64)>,
    id: u32,
    p: Proposal,
    i: int,
    k: int,
)
    requires
        ids_below_counter(s),
        no_reset_over_proposals(s, calls),
        0 <= i < k <= calls.len(),
        stored(run(s, calls.take(i + 1)), id) == Some(p),
        p.executed,
        forall|m: int| i < m < calls.len() ==> calls[m].1 >= p.end_time,
    ensures
        stored(run(s, calls.take(k)), id) == Some(p),
    decreases k,
{
    if k > i + 1 {
        lemma_stays_along(s, calls, id, p, i, k - 1);
        lemma_keeps_along(s, calls, k - 1);
        lemma_run_step(s, calls, k - 1);
        lemma_executed_kept(run(s, calls.take(k - 1)), calls[k - 1].0, calls[k - 1].1, id, p);
    }
}

/// After an accepted execution of proposal `id` at call `i`, the proposal,
/// now executed, stays as it is through every later call, and every later
/// vote on it or execution of it is refused.
proof fn lemma_after_execution(
    s: ProposalsState,
    calls: Seq<(ProposalsCall, u64)>,
    id: u32,
    i: int,
    k: int,
)
    requires
        ids_below_counter(s),
        no_reset_over_proposals(s, calls),
        clock_monotone(calls),
        0 <= i < k <= calls.len(),
        calls[i].0 matches ProposalsCall::Execute(j, _) && j == id,
        accepted(s, calls, i),
    ensures
        stored(run(s, calls.take(k)), id) == stored(run(s, calls.take(i + 1)), id),
        k < calls.len() && (calls[k].0 matches ProposalsCall::Vote(_, j, _) && j == id)
            ==> !accepted(s, calls, k),
        k < calls.len() && (calls[k].0 matches ProposalsCall::Execute(j, _) && j == id)
            ==> !accepted(s, calls, k),
{
    let si = run(s, calls.take(i));
    lemma_run_step(s, calls, i);
    let s1 = run(s, calls.take(i + 1));
    let p = stored(s1, id)->Some_0;
    assert(stored(si, id) is Some);
    assert(s1.proposals.dom().contains(id));
    assert(p.executed);
    assert(p.end_time == stored(si, id)->Some_0.end_time);
    assert forall|m: int| i < m < calls.len() implies calls[m].1 >= p.end_time by {
        assert(calls[i].1 <= calls[m].1);
    }
    lemma_stays_along(s, calls, id, p, i, k);
    if k < calls.len() {
        lemma_keeps_along(s, calls, k);
        lemma_executed_kept(run(s, calls.take(k)), calls[k].0, calls[k].1, id, p);
    }
}

/// A proposal is executed at most once: along any sequence of calls in which
/// the ledger time does not go back, starting from a state whose stored ids
/// lie below the id counter (a fresh contract, for one), and in which no
/// `initialize` is accepted while a proposal is stored, two executions of the
/// same proposal are never both accepted.  So the treasury is asked at most
/// once per proposal.
pub proof fn law_execute_at_most_once(
    s: ProposalsState,
    calls: Seq<(ProposalsCall, u64)>,
    id: u32,
    i: int,
    j: int,
)
    requires
        ids_below_counter(s),
        no_reset_over_proposals(s, calls),
        clock_monotone(calls),
        0 <= i < j < calls.len(),
        calls[i].0 matches ProposalsCall::Execute(k, _) && k == id,
        calls[j].0 matches ProposalsCall::Execute(k, _) && k == id,
        accepted(s, calls, i),
    ensures
        !accepted(s, calls, j),
{
    lemma_after_execution(s, calls, id, i, j);
}

/// Once proposal `id` is executed, no later vote on it is accepted and its
/// record, tallies included, never changes again: along any sequence of calls
/// in which the ledger time does not go back, starting from a state whose
/// stored ids lie below the id counter (a fresh contract, for one), and in
/// which no `initialize` is accepted while a proposal is stored.
pub proof fn law_no_vote_after_execution_ever(
    s: ProposalsState,
    calls: Seq<(ProposalsCall, u64)>,
    id: u32,
    i: int,
    j: int,
)
    requires
        ids_below_counter(s),
        no_reset_over_proposals(s, calls),
        clock_monotone(calls),
        0 <= i < j < calls.len(),
        calls[i].0 matches ProposalsCall::Execute(k, _) && k == id,
        calls[j].0 matches ProposalsCall::Vote(_, k, _) && k == id,
        accepted(s, calls, i),
    ensures
        !accepted(s, calls, j),
        stored(run(s, calls), id) == stored(run(s, calls.take(i + 1)), id),
{
    lemma_after_execution(s, calls, id, i, j);
    lemma_after_execution(s, calls, id, i, calls.len() as int);
    lemma_run_all(s, calls);
}

/// Along any sequence of calls in which no `initialize` is accepted while a
/// proposal is stored, starting from a state whose stored ids lie below the id
/// counter, every tally keeps counting exactly the distinct voters recorded on
/// its proposal, and every stored amount stays positive.
pub proof fn law_invariants_hold_along_calls(s: ProposalsState, calls: Seq<(ProposalsCall, u64)>)
    requires
        ids_below_counter(s),
        no_reset_over_proposals(s, calls),
    ensures
        ids_below_counter(run(s, calls)),
        tallies_match_votes(s) ==> tallies_match_votes(run(s, calls)),
        amounts_positive(s) ==> amounts_positive(run(s, calls)),
{
    lemma_keeps_along(s, calls, calls.len() as int);
    lemma_run_all(s, calls);
}

proof fn lemma_admin_kept_along(s: ProposalsState, calls: Seq<(ProposalsCall, u64)>, k: int)
    requires
        s.config.admin is Some,
        0 <= k <= calls.len(),
    ensures
        run(s, calls.take(k)).config.admin == s.config.admin,
    decreases k,
{
    if k == 0 {
        lemma_run_empty(s, calls);
    } else {
        lemma_admin_kept_along(s, calls, k - 1);
        lemma_run_step(s, calls, k - 1);
    }
}

/// Once a contract is initialised, no later `initialize` is accepted, so no
/// sequence of calls resets the id counter.
pub proof fn law_initialized_contract_never_resets(s: ProposalsState, calls: Seq<(ProposalsCall, u64)>)
    requires
        s.config.admin is Some,
    ensures
        no_reset_over_proposals(s, calls),
{
    assert forall|k: int|
        0 <= k < calls.len() && (calls[k].0 matches ProposalsCall::Initialize(_, _)) && accepted(
            s,
            calls,
            k,
        ) implies #[trigger] run(s, calls.take(k)).proposals.dom() == Set::<u32>::empty() by {
        lemma_admin_kept_along(s, calls, k);
    }
}

} // verus!
