# escrow_vault

Verified account rules and cross-program invocations of two Solana
programs written for Anchor:

- a lamport vault (`initialize`, `deposit`, `withdraw`, `close`), in
  `src/vault.rs`;
- a token escrow's `take` (the taker pays the maker in mint B, receives
  the vault's mint A, and the vault is closed), in `src/escrow.rs`.

The escrow's `make` and `refund` instructions are not part of the
library: the accounts they act on (`Make`, `Refund`) and the handlers they
call (`init_escrow_state`, their `deposit`, `withdraw` and `close`) are not
defined in this project, and neither is the layout of the `Escrow` and
`VaultState` data, which app/ reads as
`seed, maker, mint_a, mint_b, receive_amount, bump` and
`state_bump, vault_bump`, nor the state account's size, which app/ passes
to `process_initialize` as 10 bytes.

The library checks the accounts of each instruction (`process_*`) and,
only for accepted accounts, returns the instructions to invoke, as plain values, with the seeds the program signs
with. Program derived addresses and instruction encodings come from
`solana-program`, `spl-token`, `spl-token-2022` and
`spl-associated-token-account` through the trusted items of `src/pda.rs`
and `src/instruction.rs`.

`app/` reads the accounts that the runtime passes, calls the library, and
performs the invocations.
