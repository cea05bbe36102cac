# validator_history

Verified core of the validator history program: the on-chain state layouts, the ring
buffer of cluster history, the partial readers of Solana vote account data, and the
decisions and data writes of the program's instructions.

- `src/` is verified with Verus. `state/` holds the account types and the vote state
  readers; `instructions/` holds what each instruction decides and writes, over plain
  values (addresses as `[u8; 32]`, account data as byte slices).
- `app/` is the on-chain program around it: account parsing, rent and system program
  calls, account reallocation and raw account data access, written with `quasar-lang`.
- `tests/` runs the library on concrete inputs, including hand-built bincode encodings of
  every vote state version.
