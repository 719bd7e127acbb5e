# milestonex

Verified logic of the MilestoneX Soroban contracts, written in Verus.

- `src/` — the verified library:
  - `types`, `storage`, `event`, `contract`, `registry`: the multi-campaign
    registry (campaign creation, donations, lifecycle transitions, status
    queries) over a `RegistryEnv` that holds the ledger, the persistent
    storage and the published events; `laws` states what holds across all
    registry operations.
  - `stellar_aid`: the StellarAid contract (fee-deducting donations,
    per-asset totals, paginated donation history).
  - `token_bridge`, `common`: the bridge skeleton and shared types.
  - `cli`: the argument checks of the `invoke` command.
  - `keyed`: keyed entry lists read as maps, used by the storages;
    `sum`: sums over finite sets, used by the accounting invariant.
- `app/` — Soroban contract entry points (authorization, storage, TTL,
  events) and the command-line helpers, around the library.
- `tests/` — tests of the library.
