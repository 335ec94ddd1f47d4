# fundraiser

A Solana program that runs SPL-token fundraising campaigns, with its logic
verified by Verus.

- `src/` is the verified library: instruction decoding (`instructions`), the
  byte layout of the campaign and contributor accounts (`state`, `le_bytes`),
  program-derived address checks (`address`), the amount and time rules
  (`rules`), the checks and effects of each instruction
  (`instructions::{initialize, contribute, checker, refund}`), and properties
  that relate the instructions to each other (`laws`).
- `app/` is the on-chain entry point. For each instruction it calls the
  library's steps in order and, between them, reads accounts and sysvars,
  performs the cross-program invocations (account creation, token transfers,
  associated token account creation) and writes account data back.
- `tests/` runs the library's steps on concrete campaigns.

The one trusted item is the call that derives program addresses
(`pinocchio_pubkey::derive_address_const`); its result is named, not stated.
