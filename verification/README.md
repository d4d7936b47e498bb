# renaissance

Verified state machines of the Renaissance Soroban contracts, written in
Verus:

- `betting`: matches, bets, oracle settlement, parimutuel claims, refunds;
  `betting_books` proves that each match's pools always hold exactly the
  stakes of its bets, and that a settled match never pays out more than its
  pool while only winning bets are paid.
- `rewards`: fan loyalty points (award, redeem, transfer).
- `vault`: stakes held for bets, with timelocked emergency powers;
  `vault_locks` proves that each user's locked funds, and each asset's locked
  total, are always the sum of the open bet locks they cover.
- `oracle`: match results final after a second oracle confirms them.
- `governance`: the two-approval upgrade procedure shared by betting and
  rewards.
- `counter`, `player_nft`, `platform`: the small contracts and shared types.
- `host`: the Soroban SDK items the library uses in memory, with the
  contracts it trusts them to keep.

Every operation returns an error and leaves the state untouched, or changes
it exactly as its `ensures` says; token transfers and events are recorded in
the state.

`app/` is the Soroban contract shell: it loads the ledger records that a
call touches into the library's state, checks authorization, runs the
operation, stores the records back, makes the recorded token transfers and
publishes the recorded events.
