# SOL stake view

A Solana program that reports, for a SOL stake account, its staker and
withdrawer, the vote account it is delegated to, and how much of its stake is
effective, activating and deactivating, as a 120-byte return-data record.

- `src/` is the verified library: instruction decoding (`instruction`), the
  record and its encoding (`state`), how clients read it back (`client`), what
  the program reads of a stake account and the calls into the stake interface
  (`stake`), and the instruction processing (`processor`).
- `app/` is the on-chain entrypoint: it turns the runtime's accounts into the
  library's account views, maps the library's errors to program errors and sets
  the return data.
