# panorama_swap

The contracts of Panorama Swap — AZERO/PSP22 and PSP22/PSP22 trading pairs, the
first PANX/AZERO pool, PANX staking, vesting and airdrop, a multi-signature
wallet, the pair factories and the PSP22 tokens — as a library verified with Verus.

Each contract is a struct that holds its storage.  A message is a verified
function (or a few, one per step between calls into other contracts) from that
storage, the call environment (`env::CallEnv`) and what the chain answered, to
the new storage, the calls to make next (`env::Planned`) and the event.  The
contracts state what they return and change in `requires` / `ensures` over
mathematical models (`Mapping` is viewed as a `Map`).

Layout:

- `src/` — the library; `account.rs` (accounts, storage mappings), `env.rs`
  (call environment, planned calls), `wide.rs` (256-bit arithmetic through
  `primitive-types`), one module per contract.
- `tests/` — tests of the library on concrete values.
- `app/` — the library on a chain: reads balances, makes the planned calls, and
  undoes a message that fails.
