# spoovault_stellar

Companion contracts of the SpooVault Stellar vault, verified with Verus:

- `MockAaAccount` — a custom account (account abstraction signer) whose
  authorization check approves every payload, so a contract address can act
  as a vault guardian.
- `MockAaError` — its error type and the contract error codes that stand for it.
- `MockAccessRegistry` — the registry the vault notifies of document access
  grants; it keeps the last grant under the instance storage key `last_grant`.

`src/` holds the verified decisions of these contracts (`error.rs`,
`account.rs`, `registry.rs`). `app/` holds the Soroban entry points
(`#[contract]`, `#[contractimpl]`, `#[contracterror]`), which convert ledger
values, call the library and perform the ledger write it decides on.
