# group_treasury

A verified model of two cooperating Soroban contracts: a **group treasury**
that holds a token on behalf of its members, and a **proposals** contract in
which withdrawals from the treasury are proposed, voted on during a voting
period, and executed afterwards when approvals outnumber rejections.

## Layout

- `src/` — the library, verified with Verus.
  - `account.rs` — `AccountId`, the library's plain-value address, with a
    verified codec for the ledger's binary encoding of addresses.
  - `storage.rs`, `treasury.rs` — the treasury's storage types and its entry
    points, each a decision over the treasury's state that names the
    authorisation, token transfer and event it needs.
  - `proposal_storage.rs`, `voting.rs` — the proposals contract's storage
    types and the decisions of its entry points over the storage entries they
    read.
  - `proposals.rs` — the proposals contract with all of its storage and the
    events it has published, whose entry points compose those decisions; its
    state as a mathematical value.
  - `mock_token.rs`, `mock_treasury.rs` — a minimal token ledger and a
    recording treasury, the counterparts the contracts talk to in tests.
  - `laws.rs` — properties over several calls: initialisation happens once,
    ids are sequential, nobody votes twice, an execution pays out exactly when
    the proposal passed and is paid by the treasury, tallies count the distinct
    voters, deposits and withdrawals move exactly their amount and undo each
    other.
  - `traces.rs` — properties over whole sequences of calls: with the ledger
    time never going back and no `initialize` accepted while a proposal is
    stored (true of every initialised contract), each proposal is executed at
    most once, no vote on it is accepted afterwards, and every tally counts
    exactly its distinct voters.  An execution whose treasury withdrawal fails
    is not recorded.
- `tests/` — tests of the library.
- `app/` — the contracts on the ledger: they read storage, call the library,
  and carry out authorisation checks, storage writes, cross-contract calls and
  events with `soroban-sdk`.
