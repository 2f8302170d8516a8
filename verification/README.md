# trustline_engine

A verified model of the Trustline validation engine for Soroban: the proof
registry and single-use enforcement of the engine, the Trustline registry
(oracle allowlist and key → address records) and the reference sanctions
list. Contracts are proved with Verus.

Layout:

- `src/engine.rs` — engine state, its operations (`add_tx`,
  `approve_or_reject_tx`, `require_trustline*`, `check_*`, `get_tx_state`,
  configuration) and the laws they obey.
- `src/registry.rs` — registry state, record listing and its laws.
- `src/sanctions.rs` — the sanctions list.
- `src/screening.rs` — which address to ask the sanctions list about next,
  and when to stop: the contract layer asks and hands back each answer.
- `src/types.rs` — addresses, 32-byte ids and the keyed `Table`.
- `src/hashing.rs`, `src/host.rs` — the host and `trustline-sdk` hashes the
  library calls, with what their contracts claim.
- `src/ttl.rs`, `src/events.rs` — TTL arithmetic and the published events.
- `app/` — the Soroban contracts: storage, authorisation, cross-contract
  calls and event publication around the library. The engine contract takes
  its registry at construction; a variant with the registry address fixed at
  build time is not included, since that address belongs to a deployment.
- `tests/` — scenario and law tests run against the real host.

The ledger clock, the registry's answers and the sanctions list's answers
reach the library as arguments; the contract layer gathers them. Registry
and sanctions keys are the raw bytes of the ledger strings, so any string
the ledger holds can be a key.
