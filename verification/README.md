# backit_contracts

Verified core of the Backit prediction-market contracts for Stellar Soroban.

- `src/` holds the contracts' logic as plain state machines, verified with
  Verus: each contract's stored state is a struct, each entry point a method
  that decides, changes the state, and records the events to publish and the
  token transfers, deployments or calls to make. Accounts are numbers
  (`AccountId`).
  - `prediction_market`, `factory`, `orderbook`, `governance`,
    `oracle_relay`, `outcome_manager` (pari-mutuel payouts), `call_registry`
    (duration and reputation-weighted stake limits), and the stored types
    of the remaining contracts.
  - SHA-256 (market deployment salts, block hashes, Merkle folds) is the
    host's, called through `crypto::sha256`.
- `app/` holds the Soroban contracts themselves: storage, authorization,
  account registry, token transfers, deployments, cross-contract calls and
  event publication around the verified logic.
- `tests/` exercises the library, including the payout properties.
